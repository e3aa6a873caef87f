//! Values for decoding the jump instructions
//!
//! Jump instructions are not codified directly by constants in this module,
//! instead a series of masks and the values they represent are defined. As
//! such, the data byte of a jump instruction is a bitfield laid out like so:
//!
//!| Category | T | T | T | T | C | M | S | S |
//!|----------|---|---|---|---|---|---|---|---|
//!| Bit      | 7 | 6 | 5 | 4 | 3 | 2 | 1 | 0 |
//!
//! With categories:
//! * `S` -- the source type
//! * `M` -- the mode flag
//! * `C` -- the conditional flag
//! * `T` -- the type of jump conditional
//!
//! The dispatcher does not yet execute this group: how a taken jump
//! interacts with the call-frame markers of the stack group is a declared
//! extension point, and a jump instruction faults with a bad-opcode error
//! until that is settled.

use vstd::prelude::*;

verus! {

/// Mask for the source of a jump
///
/// This masks the source of a jump, which is where the address or offset
/// comes from. Sources may either be an inline constant (e.g. hardcoded in
/// the bytecode) of various sizes, or a value on the stack.
///
/// If the mode of the jump is absolute, the source is assumed to be
/// unsigned. Otherwise if the jump is relative the source is assumed to be
/// signed.
pub const SRC_MASK: u8 = 0x03;

/// The value for a 16-bit constant jump source
pub const SRC_C16: u8 = 0x00;

/// The value for a 32-bit constant jump source
pub const SRC_C32: u8 = 0x01;

/// The value for a 64-bit constant jump source
pub const SRC_C64: u8 = 0x02;

/// The value for a stack value jump source
pub const SRC_DYN: u8 = 0x03;

/// Mask for the mode of a jump
///
/// This masks the mode bit of a jump, which tells the virtual machine how
/// to interpret the source. If this bit is not set, then the jump will set
/// the instruction pointer to that value. If the bit is set, then the jump
/// will add the value to the instruction pointer.
pub const MODE_MASK: u8 = 0x04;

/// The value for a relative jump
pub const MODE_RELATIVE: u8 = 0x04;

/// The value for an absolute jump
pub const MODE_ABSOLUTE: u8 = 0x00;

/// Mask for the conditional flag of a jump
///
/// This masks the conditional bit of a jump, which tells the virtual
/// machine if it should evaluate a condition and only jump if true. If this
/// bit is set, then the top 4 bits of the jump are the type of the
/// condition to evaluate. If it is unset, the jump always happens.
pub const CONDITIONAL_MASK: u8 = 0x08;

/// The value of the conditional flag if set
pub const CONDITIONAL_TRUE: u8 = 0x08;

/// The value of the conditional flag if not set
pub const CONDITIONAL_FALSE: u8 = 0x00;

/// Mask for the conditional type of the jump
///
/// This masks the conditional type of a jump, which tells the virtual
/// machine what condition to evaluate when performing a conditional jump.
/// These bits are ignored if the conditional bit is not set.
///
/// Conditions may evaluate either one or two stack items; this will result
/// in those items being popped off the stack.
///
/// Conditions assume that they are operating with integer values. To use
/// floating point values (both f32 and f64), comparison operations from
/// the floating point math group should be used.
pub const TYPE_MASK: u8 = 0xF0;

/// Jump if `stack[-1] == 0`
pub const TYPE_Z: u8 = 0x00;

/// Jump if `stack[-1] != 0`
pub const TYPE_NZ: u8 = 0x10;

/// Jump if `i64(stack[-1]) > 0`
pub const TYPE_POS: u8 = 0x20;

/// Jump if `i64(stack[-1]) < 0`
pub const TYPE_NEG: u8 = 0x30;

/// Jump if `i64(stack[-1]) >= 0`
pub const TYPE_GZ: u8 = 0x40;

/// Jump if `i64(stack[-1]) <= 0`
pub const TYPE_LZ: u8 = 0x50;

/// Jump if `stack[-1] == stack[-2]`
pub const TYPE_EQ: u8 = 0x60;

/// Jump if `stack[-1] != stack[-2]`
pub const TYPE_NEQ: u8 = 0x70;

/// Jump if `stack[-1] > stack[-2]`
pub const TYPE_GT: u8 = 0x80;

/// Jump if `i64(stack[-1]) > i64(stack[-2])`
pub const TYPE_GTS: u8 = 0x90;

/// Jump if `stack[-1] < stack[-2]`
pub const TYPE_LT: u8 = 0xA0;

/// Jump if `i64(stack[-1]) < i64(stack[-2])`
pub const TYPE_LTS: u8 = 0xB0;

/// Jump if `stack[-1] >= stack[-2]`
pub const TYPE_GE: u8 = 0xC0;

/// Jump if `i64(stack[-1]) >= i64(stack[-2])`
pub const TYPE_GES: u8 = 0xD0;

/// Jump if `stack[-1] <= stack[-2]`
pub const TYPE_LE: u8 = 0xE0;

/// Jump if `i64(stack[-1]) <= i64(stack[-2])`
pub const TYPE_LES: u8 = 0xF0;

} // verus!
