//! The mathematical semantics of the instruction set.
//!
//! Every function here is specification-level: it says what executing
//! bytecode means, as a function from an instruction stream, a cursor and an
//! operand stack to a run outcome and the stack afterwards. The engine's
//! dispatch loop is proved to implement `run_from` exactly, group handler by
//! group handler.
//!
//! Outcomes mirror the engine's: a step either continues, halts the run
//! cleanly, or faults; the first fault ends the run and is surfaced whole.

use vstd::prelude::*;

use crate::bytecode;
use crate::bytecode::groups;
use crate::bytecode::math;
use crate::bytecode::stack;
use crate::bytecode::sys;
use crate::context::u32_of_words;
use crate::context::u64_of_words;
use crate::errors::BytecodeError;
use crate::errors::RequiredValues;

verus! {

/// A 16-bit word sign-extended to 64 bits.
pub open spec fn sign_ext_16(w: u16) -> u64 {
    if w < 0x8000 {
        w as u64
    } else {
        (w as u64) | 0xFFFF_FFFF_FFFF_0000u64
    }
}

/// A 32-bit value sign-extended to 64 bits.
pub open spec fn sign_ext_32(v: u32) -> u64 {
    if v < 0x8000_0000 {
        v as u64
    } else {
        (v as u64) | 0xFFFF_FFFF_0000_0000u64
    }
}

/// The effect of one system-group instruction on the operand stack: the
/// step result — `Ok(true)` to keep running, `Ok(false)` for a clean halt —
/// and the stack afterwards. What a PRINT_* instruction writes is a side
/// effect outside this model; its stack effect is popping the printed value.
pub open spec fn step_system(opcode: u16, value: u8, stack: Seq<u64>) -> (Result<
    bool,
    BytecodeError,
>, Seq<u64>) {
    if value == sys::NOP {
        (Ok(true), stack)
    } else if value == sys::HALT {
        (Ok(false), stack)
    } else if value == sys::PRINT_STACK {
        (Ok(true), stack)
    } else if value == sys::PRINT_U64 || value == sys::PRINT_I64 || value == sys::PRINT_F32
        || value == sys::PRINT_F64 {
        if stack.len() == 0 {
            (
                Err(BytecodeError::StackUnderflow(RequiredValues { instruction: opcode, required: 1 })),
                stack,
            )
        } else {
            (Ok(true), stack.drop_last())
        }
    } else {
        (Err(BytecodeError::BadOpcode(opcode)), stack)
    }
}

/// Pushing one value: the push is preceded by a capacity check for exactly
/// one word against the configured maximum depth.
pub open spec fn push_const(opcode: u16, stack: Seq<u64>, maxstack: int, v: u64) -> (Result<
    (),
    BytecodeError,
>, Seq<u64>) {
    if stack.len() + 1 > maxstack {
        (Err(BytecodeError::StackOverflow(opcode)), stack)
    } else {
        (Ok(()), stack.push(v))
    }
}

/// Duplicating the topmost `n` values of `stack`, for an instruction that
/// has already consumed `taken` immediate words: capacity is checked for
/// exactly `n` words first, then the presence of `n` values.
pub open spec fn dupe_step(
    opcode: u16,
    taken: int,
    n: u64,
    stack: Seq<u64>,
    maxstack: int,
) -> (Result<(), BytecodeError>, int, Seq<u64>) {
    if stack.len() + n > maxstack {
        (Err(BytecodeError::StackOverflow(opcode)), taken, stack)
    } else if n > stack.len() {
        (
            Err(BytecodeError::StackUnderflow(RequiredValues { instruction: opcode, required: n })),
            taken,
            stack,
        )
    } else {
        (Ok(()), taken, stack + stack.subrange(stack.len() - n, stack.len() as int))
    }
}

/// The effect of one stack-group instruction: the step result, how many
/// trailing immediate words it consumed from `code` at `pos`, and the
/// operand stack afterwards.
pub open spec fn step_stack(
    opcode: u16,
    value: u8,
    code: Seq<u16>,
    pos: int,
    stk: Seq<u64>,
    maxstack: int,
) -> (Result<(), BytecodeError>, int, Seq<u64>) {
    if value == stack::CONST_0 {
        let (r, s) = push_const(opcode, stk, maxstack, 0);
        (r, 0, s)
    } else if value == stack::CONST_1 {
        let (r, s) = push_const(opcode, stk, maxstack, 1);
        (r, 0, s)
    } else if value == stack::CONST_2 {
        let (r, s) = push_const(opcode, stk, maxstack, 2);
        (r, 0, s)
    } else if value == stack::CONST_3 {
        let (r, s) = push_const(opcode, stk, maxstack, 3);
        (r, 0, s)
    } else if value == stack::CONST_4 {
        let (r, s) = push_const(opcode, stk, maxstack, 4);
        (r, 0, s)
    } else if value == stack::CONST_8 {
        let (r, s) = push_const(opcode, stk, maxstack, 8);
        (r, 0, s)
    } else if value == stack::CONST_16 {
        let (r, s) = push_const(opcode, stk, maxstack, 16);
        (r, 0, s)
    } else if value == stack::CONST_32 {
        let (r, s) = push_const(opcode, stk, maxstack, 32);
        (r, 0, s)
    } else if value == stack::CONST_64 {
        let (r, s) = push_const(opcode, stk, maxstack, 64);
        (r, 0, s)
    } else if value == stack::CONST_128 {
        let (r, s) = push_const(opcode, stk, maxstack, 128);
        (r, 0, s)
    } else if value == stack::CONST_N1 {
        let (r, s) = push_const(opcode, stk, maxstack, 0xFFFF_FFFF_FFFF_FFFF);
        (r, 0, s)
    } else if value == stack::CONST_U16 {
        if pos + 1 > code.len() {
            (code_data_err(opcode, 1), 0, stk)
        } else {
            let (r, s) = push_const(opcode, stk, maxstack, code[pos] as u64);
            (r, 1, s)
        }
    } else if value == stack::CONST_U32 {
        if pos + 2 > code.len() {
            (code_data_err(opcode, 2), 0, stk)
        } else {
            let (r, s) = push_const(opcode, stk, maxstack, u32_of_words(code[pos], code[pos + 1]) as u64);
            (r, 2, s)
        }
    } else if value == stack::CONST_U64 {
        if pos + 4 > code.len() {
            (code_data_err(opcode, 4), 0, stk)
        } else {
            let (r, s) = push_const(
                opcode,
                stk,
                maxstack,
                u64_of_words(code[pos], code[pos + 1], code[pos + 2], code[pos + 3]),
            );
            (r, 4, s)
        }
    } else if value == stack::CONST_I16 {
        if pos + 1 > code.len() {
            (code_data_err(opcode, 1), 0, stk)
        } else {
            let (r, s) = push_const(opcode, stk, maxstack, sign_ext_16(code[pos]));
            (r, 1, s)
        }
    } else if value == stack::CONST_I32 {
        if pos + 2 > code.len() {
            (code_data_err(opcode, 2), 0, stk)
        } else {
            let (r, s) = push_const(
                opcode,
                stk,
                maxstack,
                sign_ext_32(u32_of_words(code[pos], code[pos + 1])),
            );
            (r, 2, s)
        }
    } else if value == stack::DUPE {
        if stk.len() == 0 {
            (underflow_err(opcode, 1), 0, stk)
        } else {
            dupe_step(opcode, 0, stk.last(), stk.drop_last(), maxstack)
        }
    } else if value == stack::DUPE_1 {
        dupe_step(opcode, 0, 1, stk, maxstack)
    } else if value == stack::DUPE_C {
        if pos + 1 > code.len() {
            (code_data_err(opcode, 1), 0, stk)
        } else {
            dupe_step(opcode, 1, code[pos] as u64, stk, maxstack)
        }
    } else {
        (Err(BytecodeError::BadOpcode(opcode)), 0, stk)
    }
}

/// A code-data fault: `required` trailing immediate words were needed and
/// not present.
pub open spec fn code_data_err(opcode: u16, required: u64) -> Result<(), BytecodeError> {
    Err(BytecodeError::CodeData(RequiredValues { instruction: opcode, required }))
}

/// A stack-underflow fault: `required` operands were needed and not
/// present.
pub open spec fn underflow_err(opcode: u16, required: u64) -> Result<(), BytecodeError> {
    Err(BytecodeError::StackUnderflow(RequiredValues { instruction: opcode, required }))
}

/// Whether `value` is a two-operand math instruction.
pub open spec fn is_math2(value: u8) -> bool {
    value == math::ADD || value == math::SUB || value == math::MUL || value == math::DIV
}

/// Whether `value` is a one-operand math instruction with an immediate
/// constant operand.
pub open spec fn is_math2c(value: u8) -> bool {
    value == math::ADD_C || value == math::SUB_C || value == math::MUL_C || value == math::DIV_C
}

/// The value a two-operand math instruction pushes, given the first popped
/// operand `a` and the second popped operand `b`; all arithmetic wraps
/// modulo 2^64, and a zero divisor is a fault.
pub open spec fn math2_result(opcode: u16, value: u8, a: u64, b: u64) -> Result<u64, BytecodeError> {
    if value == math::ADD {
        Ok(vstd::wrapping::u64_specs::wrapping_add(b, a))
    } else if value == math::SUB {
        Ok(vstd::wrapping::u64_specs::wrapping_sub(b, a))
    } else if value == math::MUL {
        Ok(vstd::wrapping::u64_specs::wrapping_mul(b, a))
    } else {
        if a == 0 {
            Err(BytecodeError::DivisionByZero(opcode))
        } else {
            Ok(b / a)
        }
    }
}

/// The value a one-operand math instruction pushes, given its immediate
/// constant `c` and the popped operand `v`; all arithmetic wraps modulo
/// 2^64, and a zero divisor is a fault.
pub open spec fn math2c_result(opcode: u16, value: u8, c: u64, v: u64) -> Result<
    u64,
    BytecodeError,
> {
    if value == math::ADD_C {
        Ok(vstd::wrapping::u64_specs::wrapping_add(v, c))
    } else if value == math::SUB_C {
        Ok(vstd::wrapping::u64_specs::wrapping_sub(v, c))
    } else if value == math::MUL_C {
        Ok(vstd::wrapping::u64_specs::wrapping_mul(v, c))
    } else {
        if c == 0 {
            Err(BytecodeError::DivisionByZero(opcode))
        } else {
            Ok(v / c)
        }
    }
}

/// The effect of one math-group instruction: the step result, how many
/// trailing immediate words it consumed from `code` at `pos`, and the
/// operand stack afterwards. A failed pop removes the operands popped
/// before it, exactly as the engine's stack does.
pub open spec fn step_math(
    opcode: u16,
    value: u8,
    code: Seq<u16>,
    pos: int,
    stk: Seq<u64>,
) -> (Result<(), BytecodeError>, int, Seq<u64>) {
    if is_math2(value) {
        if stk.len() == 0 {
            (underflow_err(opcode, 2), 0, stk)
        } else if stk.len() == 1 {
            (underflow_err(opcode, 2), 0, stk.drop_last())
        } else {
            let a = stk.last();
            let b = stk.drop_last().last();
            let rest = stk.drop_last().drop_last();
            match math2_result(opcode, value, a, b) {
                Ok(v) => (Ok(()), 0, rest.push(v)),
                Err(e) => (Err(e), 0, rest),
            }
        }
    } else if is_math2c(value) {
        if pos + 1 > code.len() {
            (code_data_err(opcode, 1), 0, stk)
        } else {
            let c = code[pos] as u64;
            if stk.len() == 0 {
                (underflow_err(opcode, 1), 1, stk)
            } else {
                let v = stk.last();
                let rest = stk.drop_last();
                match math2c_result(opcode, value, c, v) {
                    Ok(res) => (Ok(()), 1, rest.push(res)),
                    Err(e) => (Err(e), 1, rest),
                }
            }
        }
    } else {
        (Err(BytecodeError::BadOpcode(opcode)), 0, stk)
    }
}

/// The meaning of running `code` from cursor `pos` over operand stack `stk`
/// with maximum stack depth `maxstack`: the run result and the stack when
/// the run ends. A run ends cleanly when the stream is exhausted or a HALT
/// executes, and ends with the first fault otherwise.
pub open spec fn run_from(code: Seq<u16>, pos: int, stk: Seq<u64>, maxstack: int) -> (Result<
    (),
    BytecodeError,
>, Seq<u64>)
    decreases code.len() - pos,
{
    if pos < 0 || pos >= code.len() {
        (Ok(()), stk)
    } else {
        let opcode = code[pos];
        let group = bytecode::group_of(opcode);
        let value = bytecode::data_of(opcode);
        if group == groups::SYSTEM {
            let r = step_system(opcode, value, stk);
            match r.0 {
                Ok(cont) => if cont {
                    run_from(code, pos + 1, r.1, maxstack)
                } else {
                    (Ok(()), r.1)
                },
                Err(e) => (Err(e), r.1),
            }
        } else if group == groups::STACK {
            let r = step_stack(opcode, value, code, pos + 1, stk, maxstack);
            match r.0 {
                Ok(u) => run_from(code, pos + 1 + r.1, r.2, maxstack),
                Err(e) => (Err(e), r.2),
            }
        } else if group == groups::MATH {
            let r = step_math(opcode, value, code, pos + 1, stk);
            match r.0 {
                Ok(u) => run_from(code, pos + 1 + r.1, r.2, maxstack),
                Err(e) => (Err(e), r.2),
            }
        } else {
            (Err(BytecodeError::BadOpcode(opcode)), stk)
        }
    }
}

/// Law: integer addition wraps modulo 2^64 and never faults — executing an
/// ADD instruction over a stack holding `a` below `b` replaces the pair
/// with `(a + b) mod 2^64`, whatever `a` and `b` are.
pub proof fn lemma_add_wraps(a: u64, b: u64, rest: Seq<u64>, maxstack: int)
    ensures
        run_from(
            seq![bytecode::word_of(groups::MATH, math::ADD)],
            0,
            rest.push(a).push(b),
            maxstack,
        ) == (Ok::<(), BytecodeError>(()), rest.push(((a + b) % 0x1_0000_0000_0000_0000) as u64)),
{
    let code = seq![bytecode::word_of(groups::MATH, math::ADD)];
    let stk = rest.push(a).push(b);
    bytecode::lemma_word_of_split(groups::MATH, math::ADD);
    assert(stk.drop_last() =~= rest.push(a));
    assert(stk.drop_last().drop_last() =~= rest);
    let modulus = 0x1_0000_0000_0000_0000;
    if a + b <= u64::MAX {
        vstd::arithmetic::div_mod::lemma_small_mod((a + b) as nat, modulus as nat);
    } else {
        vstd::arithmetic::div_mod::lemma_mod_multiples_vanish(1, a + b - modulus, modulus);
        vstd::arithmetic::div_mod::lemma_small_mod((a + b - modulus) as nat, modulus as nat);
    }
    assert(vstd::wrapping::u64_specs::wrapping_add(a, b) == ((a + b) % modulus) as u64);
    let wrapped = vstd::wrapping::u64_specs::wrapping_add(a, b);
    assert(step_math(code[0], bytecode::data_of(code[0]), code, 1, stk) == (
        Ok::<(), BytecodeError>(()),
        0int,
        rest.push(wrapped),
    ));
    assert(run_from(code, 1, rest.push(wrapped), maxstack) == (
        Ok::<(), BytecodeError>(()),
        rest.push(wrapped),
    ));
}

} // verus!
