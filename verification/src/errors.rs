//! Error types returned by the virtual machine.

use vstd::prelude::*;

verus! {

/// The opcode an operation was executing and the number of values it still
/// needed when it failed.
#[derive(Debug, Clone, PartialEq, Eq, Structural)]
pub struct RequiredValues {
    /// The instruction word that was executing when the fault occurred.
    pub instruction: u16,
    /// How many values the instruction needed and did not find.
    pub required: u64,
}

/// Instruction fault error type.
///
/// This is the error type for instruction faults while the engine is running.
/// A fault indicates that an instruction level error occurred during the
/// execution of the bytecode; it may mean that the bytecode is malformed, or
/// that a logic error was made when constructing it. Resource problems such
/// as exceeding the configured stack depth are faults as well.
///
/// A fault always terminates the current run; there is no in-bytecode
/// mechanism for handling one.
#[derive(Debug, Clone, PartialEq, Eq, Structural)]
pub enum BytecodeError {
    /// The group or group-data byte of an instruction has no handler.
    BadOpcode(u16),
    /// Fewer trailing immediate words remain in the stream than the
    /// instruction needs.
    CodeData(RequiredValues),
    /// A context would start at an offset outside its module's bytecode.
    InvalidAddress(usize),
    /// A module id at or beyond the number of registered modules.
    InvalidModule(u32),
    /// A local symbol id at or beyond the module's local symbol count.
    InvalidSymbol(u32),
    /// A push would exceed the configured maximum stack depth.
    StackOverflow(u16),
    /// An operation needed more operands than the stack holds.
    StackUnderflow(RequiredValues),
    /// An integer division or remainder instruction met a zero divisor.
    DivisionByZero(u16),
}

impl BytecodeError {
    /// Create a new BytecodeError::StackOverflow error
    pub fn stack_overflow(opcode: u16) -> (r: BytecodeError)
        ensures
            r == BytecodeError::StackOverflow(opcode),
    {
        BytecodeError::StackOverflow(opcode)
    }

    /// Create a new BytecodeError::StackUnderflow error
    pub fn stack_underflow(opcode: u16, req: u64) -> (r: BytecodeError)
        ensures
            r == BytecodeError::StackUnderflow(RequiredValues {
                instruction: opcode,
                required: req,
            }),
    {
        BytecodeError::StackUnderflow(RequiredValues { instruction: opcode, required: req })
    }

    /// Create a new BytecodeError::CodeData error
    pub fn code_data(opcode: u16, req: u64) -> (r: BytecodeError)
        ensures
            r == BytecodeError::CodeData(RequiredValues { instruction: opcode, required: req }),
    {
        BytecodeError::CodeData(RequiredValues { instruction: opcode, required: req })
    }

    /// Check if the BytecodeError is a BytecodeError::StackOverflow instance
    pub fn is_stack_overflow(&self) -> (r: bool)
        ensures
            r == (self is StackOverflow),
    {
        if let BytecodeError::StackOverflow(_) = self {
            return true;
        }
        false
    }

    /// Check if the BytecodeError is a BytecodeError::StackUnderflow instance
    pub fn is_stack_underflow(&self) -> (r: bool)
        ensures
            r == (self is StackUnderflow),
    {
        if let BytecodeError::StackUnderflow(_) = self {
            return true;
        }
        false
    }

    /// Check if the BytecodeError is a BytecodeError::CodeData instance
    pub fn is_code_data(&self) -> (r: bool)
        ensures
            r == (self is CodeData),
    {
        if let BytecodeError::CodeData(_) = self {
            return true;
        }
        false
    }

    /// Check if the BytecodeError is a BytecodeError::BadOpcode instance
    pub fn is_bad_opcode(&self) -> (r: bool)
        ensures
            r == (self is BadOpcode),
    {
        if let BytecodeError::BadOpcode(_) = self {
            return true;
        }
        false
    }
}

/// A compound error type for errors when defining modules
#[derive(Debug, Clone, PartialEq, Eq)]
pub enum ModuleError {
    /// A module name the engine cannot accept.
    InvalidName(String),
    /// A module with the same name is already registered.
    NameCollision(String),
}

} // verus!
