//! Group codes, broadly corresponding to a type of instruction.
//!
//! The group value is the first byte of a bytecode value, and is used to
//! group instructions by similar purpose.

use vstd::prelude::*;

verus! {

/// Group for misc. system instructions and debug operations
pub const SYSTEM: u8 = 0x00;

/// Group for stack manipulation instructions
pub const STACK: u8 = 0x01;

/// Group for jumps within the same context
pub const JUMP: u8 = 0x02;

/// Group for arithmetic operations on integers
pub const MATH: u8 = 0x03;

/// Group for arithmetic operations on floating point values
pub const FPMATH: u8 = 0x04;

/// Group for stack and frame based jumps, possibly between contexts
pub const FUNCTION: u8 = 0x05;

} // verus!
