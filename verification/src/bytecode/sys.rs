//! Misc system instructions and debug operations
//!
//!| Constant    | ID   | Args | Stack     | Description
//!|-------------|------|------|-----------|------------
//!| NOP         |`0x00`|      |           | Do nothing
//!| HALT        |`0x01`|      |           | Stop execution normally
//!| PRINT_STACK |`0x02`|      |           | Debug print the contents of the stack as u64 values
//!| PRINT_U64   |`0x03`|      |`[a] -> []`| Debug print the topmost stack value as u64
//!| PRINT_I64   |`0x04`|      |`[a] -> []`| Debug print the topmost stack value as i64
//!| PRINT_F32   |`0x05`|      |`[a] -> []`| Debug print the topmost stack value's low 32-bit pattern
//!| PRINT_F64   |`0x06`|      |`[a] -> []`| Debug print the topmost stack value's 64-bit pattern
//!| BREAKPOINT  |`0x07`|      |           | Force a fault as a deliberate trap

use vstd::prelude::*;

verus! {

pub const NOP: u8 = 0x00;

pub const HALT: u8 = 0x01;

pub const PRINT_STACK: u8 = 0x02;

pub const PRINT_U64: u8 = 0x03;

pub const PRINT_I64: u8 = 0x04;

pub const PRINT_F32: u8 = 0x05;

pub const PRINT_F64: u8 = 0x06;

pub const BREAKPOINT: u8 = 0x07;

} // verus!
