//! Instructions which perform math on stack operands
//!
//! All integer arithmetic wraps modulo 2^64; overflow is defined, never a
//! fault. In the stack-effect column the first value popped is the leftmost
//! name, so `[a,b] -> [b-a]` pops `a`, then `b`, and pushes `b - a`.
//! Division and remainder instructions fault on a zero divisor.
//!
//!| Constant  | ID   | Args    | Stack                | Description
//!|-----------|------|---------|----------------------|-------------
//!| ADD       |`0x00`|         |`[a,b]  -> [b+a]`     | Add two values on the stack
//!| ADD_C     |`0x01`|`c:u16`  |`[a]    -> [a+c]`     | Add a constant to a value on the stack
//!| SUB       |`0x02`|         |`[a,b]  -> [b-a]`     | Subtract values on the stack
//!| SUB_C     |`0x03`|`c:u16`  |`[a]    -> [a-c]`     | Subtract a constant from a value on the stack
//!| MUL       |`0x04`|         |`[a,b]  -> [b*a]`     | Multiply two values on the stack
//!| MUL_C     |`0x05`|`c:u16`  |`[a]    -> [a*c]`     | Multiply a value on the stack by a constant
//!| DIV       |`0x06`|         |`[a,b]  -> [b/a]`     | Divide two values on the stack
//!| DIV_C     |`0x07`|`c:u16`  |`[a]    -> [a/c]`     | Divide a value on the stack by a constant
//!
//! The remaining values reserve the rest of the group's encoding space:
//! signed division and remainder, fused multiply-add, powers, minima,
//! maxima, clamps, and their n-ary reductions. They are fixed points of the
//! encoding table; the dispatcher faults with a bad-opcode error until a
//! handler exists for them.

use vstd::prelude::*;

verus! {

pub const ADD: u8 = 0x00;

pub const ADD_C: u8 = 0x01;

pub const SUB: u8 = 0x02;

pub const SUB_C: u8 = 0x03;

pub const MUL: u8 = 0x04;

pub const MUL_C: u8 = 0x05;

pub const DIV: u8 = 0x06;

pub const DIV_C: u8 = 0x07;

pub const IDIV: u8 = 0x08;

pub const IDIV_C: u8 = 0x09;

pub const MOD: u8 = 0x0A;

pub const MOD_C: u8 = 0x0B;

pub const IMOD: u8 = 0x0C;

pub const IMOD_C: u8 = 0x0D;

pub const DIVMOD: u8 = 0x0E;

pub const DIVMOD_C: u8 = 0x0F;

pub const IDIVMOD: u8 = 0x10;

pub const IDIVMOD_C: u8 = 0x11;

pub const FMA: u8 = 0x12;

pub const FMA_C: u8 = 0x13;

pub const POW: u8 = 0x14;

pub const POW_C: u8 = 0x15;

pub const POW_C_R: u8 = 0x16;

pub const IPOW: u8 = 0x17;

pub const IPOW_C: u8 = 0x18;

pub const IPOW_C_R: u8 = 0x19;

pub const MAX: u8 = 0x1A;

pub const MAX_C: u8 = 0x1B;

pub const IMAX: u8 = 0x1C;

pub const IMAX_C: u8 = 0x1D;

pub const MIN: u8 = 0x1E;

pub const MIN_C: u8 = 0x1F;

pub const IMIN: u8 = 0x20;

pub const IMIN_C: u8 = 0x21;

pub const CLAMP: u8 = 0x22;

pub const CLAMP_C: u8 = 0x23;

pub const ICLAMP: u8 = 0x24;

pub const ICLAMP_C: u8 = 0x25;

pub const NMIN_C: u8 = 0xF4;

pub const NMIN: u8 = 0xF5;

pub const NIMIN_C: u8 = 0xF6;

pub const NIMIN: u8 = 0xF7;

pub const NMAX_C: u8 = 0xF8;

pub const NMAX: u8 = 0xF9;

pub const NIMAX_C: u8 = 0xFA;

pub const NIMAX: u8 = 0xFB;

pub const DIFF_C: u8 = 0xFC;

pub const DIFF: u8 = 0xFD;

pub const SUM_C: u8 = 0xFE;

pub const SUM: u8 = 0xFF;

} // verus!
