//! Stack and frame manipulation instruction data byte values.
//!
//!| Constant   | ID   | Args  | Stack                               | Description
//!|------------|------|-------|-------------------------------------|------------
//!| CONST_0    |`0x00`|       |`[] -> [0]`                          | Push constant `0`
//!| CONST_1    |`0x01`|       |`[] -> [1]`                          | Push constant `1`
//!| CONST_2    |`0x02`|       |`[] -> [2]`                          | Push constant `2`
//!| CONST_3    |`0x03`|       |`[] -> [3]`                          | Push constant `3`
//!| CONST_4    |`0x04`|       |`[] -> [4]`                          | Push constant `4`
//!| CONST_8    |`0x05`|       |`[] -> [8]`                          | Push constant `8`
//!| CONST_16   |`0x06`|       |`[] -> [16]`                         | Push constant `16`
//!| CONST_32   |`0x07`|       |`[] -> [32]`                         | Push constant `32`
//!| CONST_64   |`0x08`|       |`[] -> [64]`                         | Push constant `64`
//!| CONST_128  |`0x09`|       |`[] -> [128]`                        | Push constant `128`
//!| CONST_N1   |`0x0A`|       |`[] -> [-1]`                         | Push constant `-1`
//!| CONST_U16  |`0x0B`|`c:u16`|`[] -> [c]`                          | Push zero-extended 16-bit constant `$c`
//!| CONST_U32  |`0x0C`|`c:u32`|`[] -> [c]`                          | Push zero-extended 32-bit constant `$c`; used for non-widened f32 as well
//!| CONST_U64  |`0x0D`|`c:u64`|`[] -> [c]`                          | Push 64-bit constant `$c`; used for f64 and i64 as well
//!| CONST_I16  |`0x0E`|`c:i16`|`[] -> [c]`                          | Push sign-extended 16-bit constant `$c`
//!| CONST_I32  |`0x0F`|`c:i32`|`[] -> [c]`                          | Push sign-extended 32-bit constant `$c`
//!| DUPE       |`0x10`|       |`[a1...a$n,n] -> [a1...a$n,a1...a$n]`| Duplicate the topmost `$n` stack elements
//!| DUPE_1     |`0x11`|       |`[a]          -> [a,a]`              | Duplicate the topmost stack element
//!| DUPE_C     |`0x12`|`c:u16`|`[a1...a$c]   -> [a1...a$c,a1...a$c]`| Duplicate the topmost `$c` stack elements
//!
//! The remaining values reserve the rest of the group's encoding space:
//! stack shuffles (SWAP/ROTATE/POP), bit-packed local storage accessors
//! (GET_*/SET_*), and frame control (STACK_SIZE, PUSH_STACK, POP_STACK,
//! RESERVE). They are fixed points of the encoding table; the dispatcher
//! faults with a bad-opcode error until a handler exists for them.

use vstd::prelude::*;

verus! {

pub const CONST_0: u8 = 0x00;

pub const CONST_1: u8 = 0x01;

pub const CONST_2: u8 = 0x02;

pub const CONST_3: u8 = 0x03;

pub const CONST_4: u8 = 0x04;

pub const CONST_8: u8 = 0x05;

pub const CONST_16: u8 = 0x06;

pub const CONST_32: u8 = 0x07;

pub const CONST_64: u8 = 0x08;

pub const CONST_128: u8 = 0x09;

pub const CONST_N1: u8 = 0x0A;

pub const CONST_U16: u8 = 0x0B;

pub const CONST_U32: u8 = 0x0C;

pub const CONST_U64: u8 = 0x0D;

pub const CONST_I16: u8 = 0x0E;

pub const CONST_I32: u8 = 0x0F;

pub const DUPE: u8 = 0x10;

pub const DUPE_1: u8 = 0x11;

pub const DUPE_C: u8 = 0x12;

pub const SWAP: u8 = 0x13;

pub const SWAP_1: u8 = 0x14;

pub const SWAP_C: u8 = 0x15;

pub const ROTATE: u8 = 0x16;

pub const ROTATE_1: u8 = 0x17;

pub const ROTATE_C: u8 = 0x18;

pub const ROTATE_1_C: u8 = 0x19;

pub const POP: u8 = 0x1A;

pub const POP_1: u8 = 0x1B;

pub const POP_C: u8 = 0x1C;

pub const GET_U8: u8 = 0x1D;

pub const GET_U8_C: u8 = 0x1E;

pub const GET_U16: u8 = 0x1F;

pub const GET_U16_C: u8 = 0x20;

pub const GET_U32: u8 = 0x21;

pub const GET_U32_C: u8 = 0x22;

pub const GET_U64: u8 = 0x23;

pub const GET_U64_C: u8 = 0x24;

pub const GET_I8: u8 = 0x25;

pub const GET_I8_C: u8 = 0x26;

pub const GET_I16: u8 = 0x27;

pub const GET_I16_C: u8 = 0x28;

pub const GET_I32: u8 = 0x29;

pub const GET_I32_C: u8 = 0x2A;

pub const GET_F32: u8 = 0x2B;

pub const GET_F32_C: u8 = 0x2C;

pub const SET_8: u8 = 0x2D;

pub const SET_8_C: u8 = 0x2E;

pub const SET_16: u8 = 0x2F;

pub const SET_16_C: u8 = 0x30;

pub const SET_32: u8 = 0x31;

pub const SET_32_C: u8 = 0x32;

pub const SET_64: u8 = 0x33;

pub const SET_64_C: u8 = 0x34;

pub const SET_F32: u8 = 0x35;

pub const SET_F32_C: u8 = 0x36;

pub const STACK_SIZE: u8 = 0x37;

pub const PUSH_STACK: u8 = 0x38;

pub const POP_STACK: u8 = 0x39;

pub const RESERVE_C: u8 = 0x3A;

pub const RESERVE_N: u8 = 0x3B;

} // verus!
