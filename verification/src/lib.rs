//! A small stack-based bytecode virtual machine.
//!
//! The crate provides a binary instruction encoding, an interpreter over a
//! stack of 64-bit words, and a module model that lets independently built
//! code units name each other's entry points. The meaning of every
//! instruction the engine dispatches is stated by the specification
//! interpreter in `semantics`, and the dispatch loop is proved to implement
//! it exactly.

pub mod bytecode;
pub mod context;
mod emit;
pub mod errors;
pub mod module;
pub mod semantics;

use vstd::prelude::*;

use std::rc::Rc;

use crate::bytecode::groups;
use crate::bytecode::math;
use crate::bytecode::stack;
use crate::bytecode::sys;
use crate::context::Context;
use crate::context::ContextView;
use crate::errors::BytecodeError;
use crate::errors::ModuleError;
use crate::module::Module;
use crate::semantics::dupe_step;
use crate::semantics::push_const;
use crate::semantics::run_from;
use crate::semantics::step_math;
use crate::semantics::step_stack;
use crate::semantics::step_system;

verus! {

/// The virtual machine engine
pub struct Engine {
    /// The operand stack, used to hold dynamic arguments to instructions
    pub stack: Vec<u64>,
    /// The maximum depth of the stack
    pub maxstack: usize,
    /// The list of loaded modules; append-only and name-unique once
    /// registered, and immutable from then on
    pub modules: Vec<Rc<Module>>,
    /// The execution context the engine is currently running
    pub context: Context,
}

impl Engine {
    /// Whether a module of this name is already registered.
    pub open spec fn has_module(self, name: Seq<char>) -> bool {
        exists|i: int| 0 <= i < self.modules@.len() && self.modules@[i].name@ == name
    }

    /// How registering `module` relates the engine before and after the
    /// call to its result: a name already registered is rejected with a
    /// collision naming it, and the engine is left unchanged; otherwise the
    /// module is appended to the registry and nothing else moves.
    pub open spec fn add_module_spec(
        pre: Engine,
        module: Rc<Module>,
        post: Engine,
        r: Result<(), ModuleError>,
    ) -> bool {
        if pre.has_module(module.name@) {
            &&& r matches Err(e) && e matches ModuleError::NameCollision(n) && n@ == module.name@
            &&& post == pre
        } else {
            &&& r is Ok
            &&& post.modules@ == pre.modules@.push(module)
            &&& post.stack == pre.stack
            &&& post.maxstack == pre.maxstack
            &&& post.context == pre.context
        }
    }

    /// Create a new Engine instance
    pub fn new() -> (r: Engine)
        ensures
            r.stack@ == Seq::<u64>::empty(),
            r.maxstack == 0x8FFF,
            r.modules@ == Seq::<Rc<Module>>::empty(),
            r.context@.bytecode == seq![bytecode::word_of(groups::SYSTEM, sys::NOP)],
            r.context@.offset == 0,
    {
        let mut code: Vec<u16> = Vec::new();
        code.push(bytecode::inst_sys(sys::NOP));
        let module = Rc::new(
            Module {
                name: String::new(),
                strings: Vec::new(),
                data: Vec::new(),
                local_symbols: Vec::new(),
                external_symbols: Vec::new(),
                bytecode: code,
            },
        );
        let context = match Context::new(module, 0) {
            Ok(c) => c,
            Err(_) => vstd::pervasive::unreached(),
        };
        Engine { stack: Vec::new(), maxstack: 0x8FFF, modules: Vec::new(), context }
    }

    /// Register an immutable module under its unique name.
    pub fn add_module(&mut self, module: Rc<Module>) -> (r: Result<(), ModuleError>)
        ensures
            Engine::add_module_spec(*old(self), module, *final(self), r),
    {
        let count = self.modules.len();
        let mut i: usize = 0;
        while i < count
            invariant
                i <= count,
                count == self.modules@.len(),
                *self == *old(self),
                forall|j: int| 0 <= j < i ==> self.modules@[j].name@ != module.name@,
            decreases count - i,
        {
            if self.modules[i].name == module.name {
                proof {
                    assert(old(self).has_module(module.name@)) by {
                        assert(old(self).modules@[i as int].name@ == module.name@);
                    }
                }
                return Err(ModuleError::NameCollision(module.name.clone()));
            }
            i += 1;
        }
        self.modules.push(module);
        Ok(())
    }

    /// Resolve a local symbol to a context at its entry offset: the module
    /// id is validated against the registry, the symbol id against that
    /// module's local symbols, and the symbol's code offset against the
    /// module's bytecode.
    fn get_context(&self, module_id: u32, symbol_id: u32) -> (r: Result<Context, BytecodeError>)
        ensures
            (module_id as int) >= self.modules@.len() ==> (r matches Err(e) && e
                == BytecodeError::InvalidModule(module_id)),
            (module_id as int) < self.modules@.len() ==> {
                let m = self.modules@[module_id as int];
                &&& (symbol_id as int) >= m.local_symbols@.len() ==> (r matches Err(e) && e
                    == BytecodeError::InvalidSymbol(symbol_id))
                &&& (symbol_id as int) < m.local_symbols@.len() ==> {
                    let off = m.local_symbols@[symbol_id as int].code_offset;
                    &&& (off as int) >= m.bytecode@.len() ==> (r matches Err(e) && e
                        == BytecodeError::InvalidAddress(off as usize))
                    &&& (off as int) < m.bytecode@.len() ==> (r matches Ok(c)
                        && c@.bytecode == m.bytecode@
                        && c@.offset == off as int
                        && c@.current == m.bytecode@[off as int])
                }
            },
    {
        if module_id as u64 >= self.modules.len() as u64 {
            return Err(BytecodeError::InvalidModule(module_id));
        }
        let module = &self.modules[module_id as usize];
        if symbol_id as u64 >= module.local_symbols.len() as u64 {
            return Err(BytecodeError::InvalidSymbol(symbol_id));
        }
        let symbol = &module.local_symbols[symbol_id as usize];
        Context::new(Rc::clone(module), symbol.code_offset as usize)
    }

    /// Push one value onto the operand stack, after checking capacity for
    /// exactly one word against the configured maximum depth.
    fn push_checked(&mut self, opcode: u16, v: u64) -> (r: Result<(), BytecodeError>)
        ensures
            ({
                let (sr, s2) = push_const(opcode, old(self).stack@, old(self).maxstack as int, v);
                &&& r == sr
                &&& final(self).stack@ == s2
                &&& final(self).maxstack == old(self).maxstack
                &&& final(self).modules == old(self).modules
                &&& final(self).context == old(self).context
            }),
    {
        if (self.stack.len() as u128) + 1 > (self.maxstack as u128) {
            return Err(BytecodeError::stack_overflow(opcode));
        }
        self.stack.push(v);
        Ok(())
    }

    /// Duplicate the topmost `num` values of the operand stack, after
    /// checking capacity for exactly `num` words and then that `num` values
    /// are present.
    fn dupe_checked(&mut self, opcode: u16, num: u64) -> (r: Result<(), BytecodeError>)
        ensures
            ({
                let (sr, taken, s2) = dupe_step(
                    opcode,
                    0,
                    num,
                    old(self).stack@,
                    old(self).maxstack as int,
                );
                &&& r == sr
                &&& final(self).stack@ == s2
                &&& final(self).maxstack == old(self).maxstack
                &&& final(self).modules == old(self).modules
                &&& final(self).context == old(self).context
            }),
    {
        if (self.stack.len() as u128) + (num as u128) > (self.maxstack as u128) {
            return Err(BytecodeError::stack_overflow(opcode));
        }
        if (self.stack.len() as u64) < num {
            return Err(BytecodeError::stack_underflow(opcode, num));
        }
        let count = num as usize;
        let base = self.stack.len() - count;
        let mut i: usize = 0;
        while i < count
            invariant
                i <= count,
                count == num,
                base == old(self).stack@.len() - count,
                self.stack@ == old(self).stack@ + old(self).stack@.subrange(
                    base as int,
                    base + i,
                ),
                self.maxstack == old(self).maxstack,
                self.modules == old(self).modules,
                self.context == old(self).context,
            decreases count - i,
        {
            proof {
                assert(base + i < self.stack.len());
            }
            let v = self.stack[base + i];
            self.stack.push(v);
            i += 1;
        }
        proof {
            assert(self.stack@ =~= old(self).stack@ + old(self).stack@.subrange(
                old(self).stack@.len() - num,
                old(self).stack@.len() as int,
            ));
        }
        Ok(())
    }

    /// Execute one system-group instruction: NOP, the PRINT_* debug
    /// outputs, and HALT. Returns whether the run keeps going; HALT ends it
    /// cleanly.
    fn op_system(&mut self, opcode: u16, value: u8) -> (r: Result<bool, BytecodeError>)
        ensures
            ({
                let (sr, s2) = step_system(opcode, value, old(self).stack@);
                &&& r == sr
                &&& final(self).stack@ == s2
                &&& final(self).maxstack == old(self).maxstack
                &&& final(self).modules == old(self).modules
                &&& final(self).context == old(self).context
            }),
    {
        if value == sys::NOP {
            Ok(true)
        } else if value == sys::HALT {
            Ok(false)
        } else if value == sys::PRINT_STACK {
            emit::print_stack(&self.stack);
            Ok(true)
        } else if value == sys::PRINT_U64 {
            match self.stack.pop() {
                Some(v) => {
                    emit::print_u64(v);
                    Ok(true)
                },
                None => Err(BytecodeError::stack_underflow(opcode, 1)),
            }
        } else if value == sys::PRINT_I64 {
            match self.stack.pop() {
                Some(v) => {
                    emit::print_i64(v);
                    Ok(true)
                },
                None => Err(BytecodeError::stack_underflow(opcode, 1)),
            }
        } else if value == sys::PRINT_F32 {
            match self.stack.pop() {
                Some(v) => {
                    emit::print_f32_bits(v);
                    Ok(true)
                },
                None => Err(BytecodeError::stack_underflow(opcode, 1)),
            }
        } else if value == sys::PRINT_F64 {
            match self.stack.pop() {
                Some(v) => {
                    emit::print_f64_bits(v);
                    Ok(true)
                },
                None => Err(BytecodeError::stack_underflow(opcode, 1)),
            }
        } else {
            Err(BytecodeError::BadOpcode(opcode))
        }
    }

    /// Execute one stack-group instruction: literal and immediate constant
    /// pushes, and the duplication forms.
    fn op_stack(&mut self, opcode: u16, value: u8) -> (r: Result<(), BytecodeError>)
        requires
            old(self).context@.current == opcode,
            old(self).context@.offset <= old(self).context@.bytecode.len(),
        ensures
            old(self).context@.offset <= final(self).context@.offset,
            final(self).context@.offset <= final(self).context@.bytecode.len(),
            ({
                let (sr, imm, s2) = step_stack(
                    opcode,
                    value,
                    old(self).context@.bytecode,
                    old(self).context@.offset,
                    old(self).stack@,
                    old(self).maxstack as int,
                );
                &&& r == sr
                &&& final(self).stack@ == s2
                &&& final(self).context@ == (ContextView {
                    offset: old(self).context@.offset + imm,
                    ..old(self).context@
                })
                &&& final(self).maxstack == old(self).maxstack
                &&& final(self).modules == old(self).modules
            }),
    {
        if value == stack::CONST_0 {
            self.push_checked(opcode, 0)
        } else if value == stack::CONST_1 {
            self.push_checked(opcode, 1)
        } else if value == stack::CONST_2 {
            self.push_checked(opcode, 2)
        } else if value == stack::CONST_3 {
            self.push_checked(opcode, 3)
        } else if value == stack::CONST_4 {
            self.push_checked(opcode, 4)
        } else if value == stack::CONST_8 {
            self.push_checked(opcode, 8)
        } else if value == stack::CONST_16 {
            self.push_checked(opcode, 16)
        } else if value == stack::CONST_32 {
            self.push_checked(opcode, 32)
        } else if value == stack::CONST_64 {
            self.push_checked(opcode, 64)
        } else if value == stack::CONST_128 {
            self.push_checked(opcode, 128)
        } else if value == stack::CONST_N1 {
            self.push_checked(opcode, 0xFFFF_FFFF_FFFF_FFFF)
        } else if value == stack::CONST_U16 {
            let c = match self.context.cval_u16() {
                Ok(c) => c,
                Err(e) => {
                    return Err(e);
                },
            };
            self.push_checked(opcode, c as u64)
        } else if value == stack::CONST_U32 {
            let c = match self.context.cval_u32() {
                Ok(c) => c,
                Err(e) => {
                    return Err(e);
                },
            };
            self.push_checked(opcode, c as u64)
        } else if value == stack::CONST_U64 {
            let c = match self.context.cval_u64() {
                Ok(c) => c,
                Err(e) => {
                    return Err(e);
                },
            };
            self.push_checked(opcode, c)
        } else if value == stack::CONST_I16 {
            let c = match self.context.cval_u16() {
                Ok(c) => c,
                Err(e) => {
                    return Err(e);
                },
            };
            proof {
                assert(((c as i16) as i64) as u64 == (if c < 0x8000 {
                    c as u64
                } else {
                    (c as u64) | 0xFFFF_FFFF_FFFF_0000u64
                })) by (bit_vector);
            }
            self.push_checked(opcode, ((c as i16) as i64) as u64)
        } else if value == stack::CONST_I32 {
            let c = match self.context.cval_u32() {
                Ok(c) => c,
                Err(e) => {
                    return Err(e);
                },
            };
            proof {
                assert(((c as i32) as i64) as u64 == (if c < 0x8000_0000 {
                    c as u64
                } else {
                    (c as u64) | 0xFFFF_FFFF_0000_0000u64
                })) by (bit_vector);
            }
            self.push_checked(opcode, ((c as i32) as i64) as u64)
        } else if value == stack::DUPE {
            let num = match self.stack.pop() {
                Some(v) => v,
                None => {
                    return Err(BytecodeError::stack_underflow(opcode, 1));
                },
            };
            self.dupe_checked(opcode, num)
        } else if value == stack::DUPE_1 {
            self.dupe_checked(opcode, 1)
        } else if value == stack::DUPE_C {
            let c = match self.context.cval_u16() {
                Ok(c) => c,
                Err(e) => {
                    return Err(e);
                },
            };
            self.dupe_checked(opcode, c as u64)
        } else {
            Err(BytecodeError::BadOpcode(opcode))
        }
    }

    /// Execute one math-group instruction: wrapping integer arithmetic on
    /// operands popped from the stack, with immediate-constant variants
    /// that take their constant operand from the instruction stream.
    fn op_math(&mut self, opcode: u16, value: u8) -> (r: Result<(), BytecodeError>)
        requires
            old(self).context@.current == opcode,
            old(self).context@.offset <= old(self).context@.bytecode.len(),
        ensures
            old(self).context@.offset <= final(self).context@.offset,
            final(self).context@.offset <= final(self).context@.bytecode.len(),
            ({
                let (sr, imm, s2) = step_math(
                    opcode,
                    value,
                    old(self).context@.bytecode,
                    old(self).context@.offset,
                    old(self).stack@,
                );
                &&& r == sr
                &&& final(self).stack@ == s2
                &&& final(self).context@ == (ContextView {
                    offset: old(self).context@.offset + imm,
                    ..old(self).context@
                })
                &&& final(self).maxstack == old(self).maxstack
                &&& final(self).modules == old(self).modules
            }),
    {
        if value == math::ADD || value == math::SUB || value == math::MUL || value == math::DIV {
            let v1 = match self.stack.pop() {
                Some(v) => v,
                None => {
                    return Err(BytecodeError::stack_underflow(opcode, 2));
                },
            };
            let v2 = match self.stack.pop() {
                Some(v) => v,
                None => {
                    return Err(BytecodeError::stack_underflow(opcode, 2));
                },
            };
            let res = if value == math::ADD {
                v2.wrapping_add(v1)
            } else if value == math::SUB {
                v2.wrapping_sub(v1)
            } else if value == math::MUL {
                v2.wrapping_mul(v1)
            } else {
                if v1 == 0 {
                    return Err(BytecodeError::DivisionByZero(opcode));
                }
                v2 / v1
            };
            self.stack.push(res);
            Ok(())
        } else if value == math::ADD_C || value == math::SUB_C || value == math::MUL_C || value
            == math::DIV_C {
            let cw = match self.context.cval_u16() {
                Ok(c) => c,
                Err(e) => {
                    return Err(e);
                },
            };
            let c = cw as u64;
            let v = match self.stack.pop() {
                Some(v) => v,
                None => {
                    return Err(BytecodeError::stack_underflow(opcode, 1));
                },
            };
            let res = if value == math::ADD_C {
                v.wrapping_add(c)
            } else if value == math::SUB_C {
                v.wrapping_sub(c)
            } else if value == math::MUL_C {
                v.wrapping_mul(c)
            } else {
                if c == 0 {
                    return Err(BytecodeError::DivisionByZero(opcode));
                }
                v / c
            };
            self.stack.push(res);
            Ok(())
        } else {
            Err(BytecodeError::BadOpcode(opcode))
        }
    }

    /// Resolve a local symbol's entry point and execute from there until
    /// the stream is exhausted, a HALT executes, or an instruction faults.
    ///
    /// The result and the operand stack afterwards are exactly those of the
    /// specification interpreter `run_from`, started at the symbol's entry
    /// offset over the stack as it stood; a failed resolution faults
    /// without touching the engine.
    #[verifier::loop_isolation(false)]
    pub fn run(&mut self, module_id: u32, symbol_id: u32) -> (r: Result<(), BytecodeError>)
        ensures
            (module_id as int) >= old(self).modules@.len() ==> (r matches Err(e) && e
                == BytecodeError::InvalidModule(module_id)) && *final(self) == *old(self),
            (module_id as int) < old(self).modules@.len() ==> {
                let m = old(self).modules@[module_id as int];
                &&& (symbol_id as int) >= m.local_symbols@.len() ==> (r matches Err(e) && e
                    == BytecodeError::InvalidSymbol(symbol_id)) && *final(self) == *old(self)
                &&& (symbol_id as int) < m.local_symbols@.len() ==> {
                    let start = m.local_symbols@[symbol_id as int].code_offset;
                    &&& (start as int) >= m.bytecode@.len() ==> (r matches Err(e) && e
                        == BytecodeError::InvalidAddress(start as usize)) && *final(self) == *old(
                        self,
                    )
                    &&& (start as int) < m.bytecode@.len() ==> {
                        let out = run_from(
                            m.bytecode@,
                            start as int,
                            old(self).stack@,
                            old(self).maxstack as int,
                        );
                        &&& r == out.0
                        &&& final(self).stack@ == out.1
                        &&& final(self).maxstack == old(self).maxstack
                        &&& final(self).modules == old(self).modules
                        &&& final(self).context@.bytecode == m.bytecode@
                    }
                }
            },
    {
        let context = match self.get_context(module_id, symbol_id) {
            Ok(c) => c,
            Err(e) => {
                return Err(e);
            },
        };
        self.context = context;
        let ghost code = self.context@.bytecode;
        let ghost start = self.context@.offset;
        let ghost stack0 = self.stack@;
        let ghost max = old(self).maxstack as int;
        while self.context.has_next()
            invariant
                self.context@.bytecode == code,
                0 <= self.context@.offset <= code.len(),
                self.maxstack == old(self).maxstack,
                max == self.maxstack as int,
                self.modules == old(self).modules,
                run_from(code, start, stack0, max) == run_from(
                    code,
                    self.context@.offset,
                    self.stack@,
                    max,
                ),
            decreases code.len() - self.context@.offset,
        {
            let ghost pos = self.context@.offset;
            let ghost stk = self.stack@;
            let opcode = match self.context.next() {
                Some(op) => op,
                None => vstd::pervasive::unreached(),
            };
            let group = ((opcode & bytecode::GROUP_MASK) >> bytecode::GROUP_SHIFT) as u8;
            let value = ((opcode & bytecode::DATA_MASK) >> bytecode::DATA_SHIFT) as u8;
            proof {
                assert(opcode == code[pos]);
                assert(group == bytecode::group_of(opcode));
                assert(value == bytecode::data_of(opcode));
            }
            if group == groups::SYSTEM {
                let cont = match self.op_system(opcode, value) {
                    Ok(c) => c,
                    Err(e) => {
                        proof {
                            assert(run_from(code, pos, stk, max) == (
                                Err::<(), BytecodeError>(e),
                                self.stack@,
                            ));
                        }
                        return Err(e);
                    },
                };
                if !cont {
                    proof {
                        assert(run_from(code, pos, stk, max) == (
                            Ok::<(), BytecodeError>(()),
                            self.stack@,
                        ));
                    }
                    return Ok(());
                }
            } else if group == groups::STACK {
                match self.op_stack(opcode, value) {
                    Ok(_) => {},
                    Err(e) => {
                        proof {
                            assert(run_from(code, pos, stk, max) == (
                                Err::<(), BytecodeError>(e),
                                self.stack@,
                            ));
                        }
                        return Err(e);
                    },
                }
            } else if group == groups::MATH {
                match self.op_math(opcode, value) {
                    Ok(_) => {},
                    Err(e) => {
                        proof {
                            assert(run_from(code, pos, stk, max) == (
                                Err::<(), BytecodeError>(e),
                                self.stack@,
                            ));
                        }
                        return Err(e);
                    },
                }
            } else {
                proof {
                    assert(run_from(code, pos, stk, max) == (
                        Err::<(), BytecodeError>(BytecodeError::BadOpcode(opcode)),
                        self.stack@,
                    ));
                }
                return Err(BytecodeError::BadOpcode(opcode));
            }
            proof {
                assert(run_from(code, pos, stk, max) == run_from(
                    code,
                    self.context@.offset,
                    self.stack@,
                    max,
                ));
            }
        }
        proof {
            assert(run_from(code, self.context@.offset, self.stack@, max) == (
                Ok::<(), BytecodeError>(()),
                self.stack@,
            ));
        }
        Ok(())
    }
}

/// Law: registering a module and then another of the same name fails the
/// second with a name collision and leaves the engine exactly as the first
/// registration left it — the first module stays registered.
pub proof fn lemma_module_isolation(
    e0: Engine,
    m1: Rc<Module>,
    e1: Engine,
    m2: Rc<Module>,
    e2: Engine,
    r2: Result<(), ModuleError>,
)
    requires
        Engine::add_module_spec(e0, m1, e1, Ok(())),
        m2.name@ == m1.name@,
        Engine::add_module_spec(e1, m2, e2, r2),
    ensures
        r2 matches Err(e) && e matches ModuleError::NameCollision(n) && n@ == m2.name@,
        e2 == e1,
        e1.modules@.len() > 0 && e1.modules@.last() == m1,
{
    assert(e1.modules@ == e0.modules@.push(m1));
    assert(e1.has_module(m2.name@)) by {
        assert(e1.modules@[e1.modules@.len() - 1].name@ == m2.name@);
    }
}

} // verus!
