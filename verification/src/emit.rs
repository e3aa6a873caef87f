//! Debug output performed by the PRINT_* instructions.
//!
//! Writing a human-readable line is the specified side effect of those
//! instructions; the exact formatting is not part of the machine's
//! semantics, so each writer is a thin trusted shim around standard
//! output. None of them touches the machine state: the verified handlers
//! pop the printed value themselves.

use vstd::prelude::*;

use std::io::Write;

verus! {

/// Relies on std::io::stdout and its Write impl: writes the whole operand
/// stack as a line of text; the stack itself is only read.
#[verifier::external_body]
pub(crate) fn print_stack(stack: &Vec<u64>) {
    let _ = writeln!(std::io::stdout(), "Stack: {:?}", stack);
}

/// Relies on std::io::stdout and its Write impl: writes the value as an
/// unsigned 64-bit integer.
#[verifier::external_body]
pub(crate) fn print_u64(value: u64) {
    let _ = writeln!(std::io::stdout(), "PRINT: {}", value);
}

/// Relies on std::io::stdout and its Write impl: writes the value
/// reinterpreted as a signed two's-complement 64-bit integer.
#[verifier::external_body]
pub(crate) fn print_i64(value: u64) {
    let _ = writeln!(std::io::stdout(), "PRINT: {}", value as i64);
}

/// Relies on std::io::stdout and its Write impl: writes the low 32 bits of
/// the value, the bit pattern of a single-precision float; rendering the
/// pattern as a decimal number is left to tooling outside the verified
/// core.
#[verifier::external_body]
pub(crate) fn print_f32_bits(value: u64) {
    let _ = writeln!(std::io::stdout(), "PRINT: f32 bits {:#010x}", value as u32);
}

/// Relies on std::io::stdout and its Write impl: writes the full 64-bit
/// pattern of the value, the bit pattern of a double-precision float;
/// rendering the pattern as a decimal number is left to tooling outside
/// the verified core.
#[verifier::external_body]
pub(crate) fn print_f64_bits(value: u64) {
    let _ = writeln!(std::io::stdout(), "PRINT: f64 bits {:#018x}", value);
}

} // verus!
