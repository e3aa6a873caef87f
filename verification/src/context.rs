//! Execution context definitions

use vstd::prelude::*;

use std::rc::Rc;

use crate::errors::BytecodeError;
use crate::errors::RequiredValues;
use crate::module::Module;

verus! {

/// The abstract state of an execution context: the instruction stream it
/// walks, the cursor into that stream, and the word most recently fetched.
pub struct ContextView {
    /// The module's bytecode as a sequence of 16-bit words.
    pub bytecode: Seq<u16>,
    /// The cursor: position of the next word to fetch.
    pub offset: int,
    /// The most recently fetched instruction word.
    pub current: u16,
}

impl ContextView {
    /// How many words remain in the stream at the cursor.
    pub open spec fn remaining(self) -> int {
        self.bytecode.len() - self.offset
    }
}

/// The 32-bit value assembled from two stream words, high word first.
pub open spec fn u32_of_words(hi: u16, lo: u16) -> u32 {
    ((hi as u32) << 16) | (lo as u32)
}

/// The 64-bit value assembled from four stream words, most significant
/// first.
pub open spec fn u64_of_words(w1: u16, w2: u16, w3: u16, w4: u16) -> u64 {
    ((w1 as u64) << 48) | ((w2 as u64) << 32) | ((w3 as u64) << 16) | (w4 as u64)
}

/// An execution context of the virtual machine
///
/// The Context struct contains an 'execution context' within the virtual
/// machine, holding the currently executing module (which contains the
/// bytecode) and an instruction pointer into it.
///
/// When combined with a stack, this allows for function calls both within
/// and between modules.
///
/// The cursor is either a valid index into the module's bytecode (a word is
/// present) or equal to its length (the stream is exhausted); every fetch is
/// bounds-checked.
pub struct Context {
    module: Rc<Module>,
    offset: usize,
    current: u16,
}

impl View for Context {
    type V = ContextView;

    closed spec fn view(&self) -> ContextView {
        ContextView {
            bytecode: self.module.bytecode@,
            offset: self.offset as int,
            current: self.current,
        }
    }
}

impl Context {
    #[verifier::type_invariant]
    spec fn wf(self) -> bool {
        self.offset <= self.module.bytecode@.len()
    }

    /// Create a new context with the given module and instruction pointer.
    ///
    /// The offset must land on a word of the module's bytecode; one at or
    /// past the end of the stream is an invalid address.
    pub fn new(module: Rc<Module>, offset: usize) -> (r: Result<Context, BytecodeError>)
        ensures
            offset < module.bytecode@.len() ==> (r matches Ok(c)
                && c@.bytecode == module.bytecode@
                && c@.offset == offset
                && c@.current == module.bytecode@[offset as int]),
            offset >= module.bytecode@.len() ==> (r matches Err(e)
                && e == BytecodeError::InvalidAddress(offset)),
    {
        if offset >= module.bytecode.len() {
            return Err(BytecodeError::InvalidAddress(offset));
        }
        let current = module.bytecode[offset];
        Ok(Context { module, offset, current })
    }

    /// Get the currently executing opcode
    #[inline]
    pub fn opcode(&self) -> (r: u16)
        ensures
            r == self@.current,
    {
        self.current
    }

    /// Fetch the word at the cursor, remember it as the current opcode, and
    /// advance the cursor by one; at the end of the stream, yield nothing.
    #[inline]
    pub fn next(&mut self) -> (r: Option<u16>)
        ensures
            old(self)@.remaining() >= 1 ==> (r
                == Some(old(self)@.bytecode[old(self)@.offset])
                && final(self)@ == (ContextView {
                offset: old(self)@.offset + 1,
                current: old(self)@.bytecode[old(self)@.offset],
                ..old(self)@
            })),
            old(self)@.remaining() < 1 ==> (r is None && *final(self) == *old(self)),
    {
        proof {
            use_type_invariant(&*self);
        }
        if self.module.bytecode.len() - self.offset < 1 {
            return None;
        }
        let v = self.module.bytecode[self.offset];
        self.offset += 1;
        self.current = v;

        Some(v)
    }

    /// Check if there exists an opcode at the current offset
    #[inline]
    pub fn has_next(&self) -> (r: bool)
        ensures
            r == (self@.remaining() >= 1),
    {
        self.offset < self.module.bytecode.len()
    }

    /// Use the next value in the bytecode as a constant u16 value
    #[inline]
    pub fn cval_u16(&mut self) -> (r: Result<u16, BytecodeError>)
        ensures
            old(self)@.remaining() >= 1 ==> (r matches Ok(v)
                && v == old(self)@.bytecode[old(self)@.offset]
                && final(self)@ == (ContextView { offset: old(self)@.offset + 1, ..old(self)@ })),
            old(self)@.remaining() < 1 ==> (r matches Err(e)
                && e == BytecodeError::CodeData(RequiredValues {
                instruction: old(self)@.current,
                required: 1,
            })
                && *final(self) == *old(self)),
    {
        proof {
            use_type_invariant(&*self);
        }
        if self.module.bytecode.len() - self.offset < 1 {
            return Err(BytecodeError::code_data(self.current, 1));
        }
        let v = self.module.bytecode[self.offset];
        self.offset += 1;
        Ok(v)
    }

    /// Use the next two values in the bytecode as two u16 values
    #[inline]
    pub fn cval_u16_2(&mut self) -> (r: Result<(u16, u16), BytecodeError>)
        ensures
            old(self)@.remaining() >= 2 ==> (r matches Ok(v)
                && v.0 == old(self)@.bytecode[old(self)@.offset]
                && v.1 == old(self)@.bytecode[old(self)@.offset + 1]
                && final(self)@ == (ContextView { offset: old(self)@.offset + 2, ..old(self)@ })),
            old(self)@.remaining() < 2 ==> (r matches Err(e)
                && e == BytecodeError::CodeData(RequiredValues {
                instruction: old(self)@.current,
                required: 2,
            })
                && *final(self) == *old(self)),
    {
        proof {
            use_type_invariant(&*self);
        }
        if self.module.bytecode.len() - self.offset < 2 {
            return Err(BytecodeError::code_data(self.current, 2));
        }
        let v1 = self.module.bytecode[self.offset];
        let v2 = self.module.bytecode[self.offset + 1];
        self.offset += 2;
        Ok((v1, v2))
    }

    /// Use the next four values in the bytecode as four u16 values
    #[inline]
    pub fn cval_u16_4(&mut self) -> (r: Result<(u16, u16, u16, u16), BytecodeError>)
        ensures
            old(self)@.remaining() >= 4 ==> (r matches Ok(v)
                && v.0 == old(self)@.bytecode[old(self)@.offset]
                && v.1 == old(self)@.bytecode[old(self)@.offset + 1]
                && v.2 == old(self)@.bytecode[old(self)@.offset + 2]
                && v.3 == old(self)@.bytecode[old(self)@.offset + 3]
                && final(self)@ == (ContextView { offset: old(self)@.offset + 4, ..old(self)@ })),
            old(self)@.remaining() < 4 ==> (r matches Err(e)
                && e == BytecodeError::CodeData(RequiredValues {
                instruction: old(self)@.current,
                required: 4,
            })
                && *final(self) == *old(self)),
    {
        proof {
            use_type_invariant(&*self);
        }
        if self.module.bytecode.len() - self.offset < 4 {
            return Err(BytecodeError::code_data(self.current, 4));
        }
        let v1 = self.module.bytecode[self.offset];
        let v2 = self.module.bytecode[self.offset + 1];
        let v3 = self.module.bytecode[self.offset + 2];
        let v4 = self.module.bytecode[self.offset + 3];
        self.offset += 4;
        Ok((v1, v2, v3, v4))
    }

    /// Use the next two values in the bytecode as a single u32 value,
    /// high word first.
    #[inline]
    pub fn cval_u32(&mut self) -> (r: Result<u32, BytecodeError>)
        ensures
            old(self)@.remaining() >= 2 ==> (r matches Ok(v)
                && v == u32_of_words(
                old(self)@.bytecode[old(self)@.offset],
                old(self)@.bytecode[old(self)@.offset + 1],
            )
                && final(self)@ == (ContextView { offset: old(self)@.offset + 2, ..old(self)@ })),
            old(self)@.remaining() < 2 ==> (r matches Err(e)
                && e == BytecodeError::CodeData(RequiredValues {
                instruction: old(self)@.current,
                required: 2,
            })
                && *final(self) == *old(self)),
    {
        let (v1, v2) = match self.cval_u16_2() {
            Ok(v) => v,
            Err(e) => {
                return Err(e);
            },
        };
        Ok(((v1 as u32) << 16) | (v2 as u32))
    }

    /// Use the next four values in the bytecode as a single u64 value,
    /// most significant word first.
    #[inline]
    pub fn cval_u64(&mut self) -> (r: Result<u64, BytecodeError>)
        ensures
            old(self)@.remaining() >= 4 ==> (r matches Ok(v)
                && v == u64_of_words(
                old(self)@.bytecode[old(self)@.offset],
                old(self)@.bytecode[old(self)@.offset + 1],
                old(self)@.bytecode[old(self)@.offset + 2],
                old(self)@.bytecode[old(self)@.offset + 3],
            )
                && final(self)@ == (ContextView { offset: old(self)@.offset + 4, ..old(self)@ })),
            old(self)@.remaining() < 4 ==> (r matches Err(e)
                && e == BytecodeError::CodeData(RequiredValues {
                instruction: old(self)@.current,
                required: 4,
            })
                && *final(self) == *old(self)),
    {
        let (v1, v2, v3, v4) = match self.cval_u16_4() {
            Ok(v) => v,
            Err(e) => {
                return Err(e);
            },
        };
        Ok(((v1 as u64) << 48) | ((v2 as u64) << 32) | ((v3 as u64) << 16) | (v4 as u64))
    }
}

/// Law: reading the current opcode is idempotent — two calls of `opcode`
/// on one context, with no fetch between them, return the same word.
pub proof fn lemma_opcode_read_idempotent(c: &Context, r1: u16, r2: u16)
    requires
        Context::opcode.ensures((c,), r1),
        Context::opcode.ensures((c,), r2),
    ensures
        r1 == r2,
{
}

} // verus!
