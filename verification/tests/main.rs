use std::rc::Rc;

use tstack::bytecode::inst_math;
use tstack::bytecode::inst_stack;
use tstack::bytecode::inst_sys;
use tstack::bytecode::math;
use tstack::bytecode::stack;
use tstack::bytecode::sys;
use tstack::errors::BytecodeError;
use tstack::module::LocalSymbol;
use tstack::module::Module;
use tstack::Engine;

fn test_module(bytecode: &[u16]) -> Rc<Module> {
    Rc::new(Module {
        name: String::from("testmain"),
        strings: vec![String::from("main")],
        data: vec![],
        local_symbols: vec![LocalSymbol { name_id: 0, code_offset: 0 }],
        external_symbols: vec![],
        bytecode: bytecode.to_vec(),
    })
}

fn test_stack(bytecode: &[u16], expected: Vec<u64>) {
    let mut engine = Engine::new();
    let r = engine.add_module(test_module(bytecode));
    if let Err(e) = r {
        assert!(false, "Unexpected error adding test module: {:?}", e);
    }
    if let Err(e) = engine.run(0, 0) {
        assert!(false, "Unexpected error: {:?}", e);
    }
    assert_eq!(engine.stack, expected);
}

fn test_fail(
    init: Option<fn(&mut Engine)>,
    errcheck: Option<fn(BytecodeError) -> bool>,
    bytecode: &[u16],
) {
    let mut engine = Engine::new();
    if let Some(initfn) = init {
        initfn(&mut engine);
    }
    let r = engine.add_module(test_module(bytecode));
    if let Err(e) = r {
        assert!(false, "Unexpected error adding test module: {:?}", e);
    }
    if let Err(e) = engine.run(0, 0) {
        if let Some(errfn) = errcheck {
            assert!(errfn(e), "incorrect error");
        }
        return;
    }
    assert!(false, "error expected");
}

#[test]
fn test_const_0() {
    test_stack(&[inst_stack(stack::CONST_0)], vec![0]);
}

#[test]
fn test_const_0_stack_overflow() {
    test_fail(
        Some(|engine| engine.maxstack = 2),
        Some(|bce| bce.is_stack_overflow()),
        &[inst_stack(stack::CONST_0), inst_stack(stack::CONST_0), inst_stack(stack::CONST_0)],
    );
}

#[test]
fn test_const_1() {
    test_stack(&[inst_stack(stack::CONST_1)], vec![1]);
}

#[test]
fn test_const_2() {
    test_stack(&[inst_stack(stack::CONST_2)], vec![2]);
}

#[test]
fn test_const_3() {
    test_stack(&[inst_stack(stack::CONST_3)], vec![3]);
}

#[test]
fn test_const_4() {
    test_stack(&[inst_stack(stack::CONST_4)], vec![4]);
}

#[test]
fn test_const_8() {
    test_stack(&[inst_stack(stack::CONST_8)], vec![8]);
}

#[test]
fn test_const_16() {
    test_stack(&[inst_stack(stack::CONST_16)], vec![16]);
}

#[test]
fn test_const_32() {
    test_stack(&[inst_stack(stack::CONST_32)], vec![32]);
}

#[test]
fn test_const_64() {
    test_stack(&[inst_stack(stack::CONST_64)], vec![64]);
}

#[test]
fn test_const_128() {
    test_stack(&[inst_stack(stack::CONST_128)], vec![128]);
}

#[test]
fn test_const_n1() {
    test_stack(&[inst_stack(stack::CONST_N1)], vec![0xFFFFFFFFFFFFFFFF]);
}

#[test]
fn test_const_u16() {
    test_stack(&[inst_stack(stack::CONST_U16), 0x1234], vec![0x1234]);
}

#[test]
fn test_const_u16_insufficient() {
    test_fail(None, Some(|e| e.is_code_data()), &[inst_stack(stack::CONST_U16)]);
}

#[test]
fn test_const_u32() {
    test_stack(&[inst_stack(stack::CONST_U32), 0x1234, 0x5678], vec![0x12345678]);
}

#[test]
fn test_const_u32_insufficient() {
    test_fail(None, Some(|e| e.is_code_data()), &[inst_stack(stack::CONST_U32), 0x1010]);
}

#[test]
fn test_const_u64() {
    test_stack(
        &[inst_stack(stack::CONST_U64), 0x1234, 0x5678, 0x9ABC, 0xDEF0],
        vec![0x123456789ABCDEF0],
    );
}

#[test]
fn test_const_u64_insufficient() {
    test_fail(
        None,
        Some(|e| e.is_code_data()),
        &[inst_stack(stack::CONST_U64), 0x0101, 0x0010, 0x0101],
    )
}

#[test]
fn test_const_i16() {
    test_stack(&[inst_stack(stack::CONST_I16), 0xFFFD], vec![0xFFFFFFFFFFFFFFFD]);
}

#[test]
fn test_const_i16_insufficient() {
    test_fail(None, Some(|e| e.is_code_data()), &[inst_stack(stack::CONST_I16)]);
}

#[test]
fn test_const_i32() {
    test_stack(&[inst_stack(stack::CONST_I32), 0x8000, 0x1234], vec![0xFFFFFFFF80001234]);
}

#[test]
fn test_const_i32_insufficient() {
    test_fail(None, Some(|e| e.is_code_data()), &[inst_stack(stack::CONST_I32), 0x0101])
}

#[test]
fn test_dupe() {
    test_stack(
        &[
            inst_stack(stack::CONST_1),
            inst_stack(stack::CONST_128),
            inst_stack(stack::CONST_N1),
            inst_stack(stack::CONST_I32),
            0x8018,
            0x0230,
            inst_stack(stack::CONST_3),
            inst_stack(stack::DUPE),
        ],
        vec![
            1,
            128,
            0xFFFFFFFFFFFFFFFF,
            0xFFFFFFFF80180230,
            128,
            0xFFFFFFFFFFFFFFFF,
            0xFFFFFFFF80180230,
        ],
    )
}

#[test]
fn test_dupe_empty() {
    // Fail on empty stack
    test_fail(None, Some(|e| e.is_stack_underflow()), &[inst_stack(stack::DUPE)]);
}

#[test]
fn test_dupe_insufficient_args() {
    // Fail on insufficient arguments
    test_fail(
        None,
        Some(|e| e.is_stack_underflow()),
        &[inst_stack(stack::CONST_16), inst_stack(stack::CONST_2), inst_stack(stack::DUPE)],
    );
}

#[test]
fn test_dupe_1() {
    test_stack(
        &[inst_stack(stack::CONST_128), inst_stack(stack::CONST_3), inst_stack(stack::DUPE_1)],
        vec![128, 3, 3],
    );
}

#[test]
fn test_dupe_1_insufficient_args() {
    test_fail(None, Some(|e| e.is_stack_underflow()), &[inst_stack(stack::DUPE_1)]);
}

#[test]
fn test_dupe_c() {
    test_stack(
        &[
            inst_stack(stack::CONST_0),
            inst_stack(stack::CONST_128),
            inst_stack(stack::CONST_8),
            inst_stack(stack::DUPE_C),
            2,
        ],
        vec![0, 128, 8, 128, 8],
    );
}

#[test]
fn test_dupe_c_no_count() {
    test_fail(
        None,
        Some(|e| e.is_code_data()),
        &[inst_stack(stack::CONST_0), inst_stack(stack::CONST_2), inst_stack(stack::DUPE_C)],
    );
}

#[test]
fn test_dupe_c_insufficient_args() {
    test_fail(
        None,
        Some(|e| e.is_stack_underflow()),
        &[inst_stack(stack::CONST_8), inst_stack(stack::DUPE_C), 4],
    );
}

#[test]
fn test_dupe_overflow() {
    test_fail(
        Some(|engine| engine.maxstack = 3),
        Some(|e| e.is_stack_overflow()),
        &[
            inst_stack(stack::CONST_1),
            inst_stack(stack::CONST_2),
            inst_stack(stack::CONST_2),
            inst_stack(stack::DUPE),
        ],
    );
}

#[test]
fn test_nop() {
    test_stack(&[inst_sys(sys::NOP)], vec![]);
}

#[test]
fn test_halt_stops_cleanly() {
    // HALT ends the run without a fault; nothing after it executes.
    test_stack(
        &[inst_stack(stack::CONST_1), inst_sys(sys::HALT), inst_stack(stack::CONST_2)],
        vec![1],
    );
}

#[test]
fn test_print_stack_keeps_stack() {
    test_stack(&[inst_stack(stack::CONST_1), inst_sys(sys::PRINT_STACK)], vec![1]);
}

#[test]
fn test_print_u64_pops() {
    test_stack(
        &[inst_stack(stack::CONST_8), inst_stack(stack::CONST_2), inst_sys(sys::PRINT_U64)],
        vec![8],
    );
}

#[test]
fn test_print_u64_empty() {
    test_fail(None, Some(|e| e.is_stack_underflow()), &[inst_sys(sys::PRINT_U64)]);
}

#[test]
fn test_print_i64_pops() {
    test_stack(&[inst_stack(stack::CONST_N1), inst_sys(sys::PRINT_I64)], vec![]);
}

#[test]
fn test_print_f32_pops() {
    test_stack(&[inst_stack(stack::CONST_16), inst_sys(sys::PRINT_F32)], vec![]);
}

#[test]
fn test_print_f64_pops() {
    test_stack(&[inst_stack(stack::CONST_16), inst_sys(sys::PRINT_F64)], vec![]);
}

#[test]
fn test_breakpoint_faults() {
    test_fail(None, Some(|e| e.is_bad_opcode()), &[inst_sys(sys::BREAKPOINT)]);
}

#[test]
fn test_add() {
    test_stack(&[inst_stack(stack::CONST_8), inst_stack(stack::CONST_3), inst_math(math::ADD)], vec![
        11,
    ]);
}

#[test]
fn test_add_wraps_around() {
    // (2^64 - 1) + 1 == 0 modulo 2^64, with no fault.
    test_stack(
        &[inst_stack(stack::CONST_N1), inst_stack(stack::CONST_1), inst_math(math::ADD)],
        vec![0],
    );
}

#[test]
fn test_add_wraps_preloaded() {
    let mut engine = Engine::new();
    engine.stack = vec![0xFFFFFFFFFFFFFFFF, 2];
    let r = engine.add_module(test_module(&[inst_math(math::ADD)]));
    assert!(r.is_ok());
    assert!(engine.run(0, 0).is_ok());
    assert_eq!(engine.stack, vec![1]);
}

#[test]
fn test_add_underflow() {
    test_fail(
        None,
        Some(|e| e.is_stack_underflow()),
        &[inst_stack(stack::CONST_1), inst_math(math::ADD)],
    );
}

#[test]
fn test_sub() {
    // [a,b] -> [b-a]: 8 - 3 with 3 on top.
    test_stack(&[inst_stack(stack::CONST_8), inst_stack(stack::CONST_3), inst_math(math::SUB)], vec![
        5,
    ]);
}

#[test]
fn test_sub_wraps_around() {
    // 1 - 2 wraps to 2^64 - 1.
    test_stack(
        &[inst_stack(stack::CONST_1), inst_stack(stack::CONST_2), inst_math(math::SUB)],
        vec![0xFFFFFFFFFFFFFFFF],
    );
}

#[test]
fn test_mul() {
    test_stack(&[inst_stack(stack::CONST_8), inst_stack(stack::CONST_4), inst_math(math::MUL)], vec![
        32,
    ]);
}

#[test]
fn test_div() {
    // [a,b] -> [b/a]: 8 / 2 with 2 on top.
    test_stack(&[inst_stack(stack::CONST_8), inst_stack(stack::CONST_2), inst_math(math::DIV)], vec![
        4,
    ]);
}

#[test]
fn test_div_by_zero() {
    let mut engine = Engine::new();
    let r = engine.add_module(test_module(&[
        inst_stack(stack::CONST_8),
        inst_stack(stack::CONST_0),
        inst_math(math::DIV),
    ]));
    assert!(r.is_ok());
    let e = engine.run(0, 0);
    assert!(matches!(e, Err(BytecodeError::DivisionByZero(_))));
}

#[test]
fn test_add_c() {
    test_stack(&[inst_stack(stack::CONST_8), inst_math(math::ADD_C), 5], vec![13]);
}

#[test]
fn test_add_c_no_data() {
    test_fail(
        None,
        Some(|e| e.is_code_data()),
        &[inst_stack(stack::CONST_8), inst_math(math::ADD_C)],
    );
}

#[test]
fn test_add_c_underflow() {
    test_fail(None, Some(|e| e.is_stack_underflow()), &[inst_math(math::ADD_C), 5]);
}

#[test]
fn test_sub_c() {
    test_stack(&[inst_stack(stack::CONST_8), inst_math(math::SUB_C), 3], vec![5]);
}

#[test]
fn test_mul_c() {
    test_stack(&[inst_stack(stack::CONST_8), inst_math(math::MUL_C), 3], vec![24]);
}

#[test]
fn test_div_c() {
    test_stack(&[inst_stack(stack::CONST_8), inst_math(math::DIV_C), 2], vec![4]);
}

#[test]
fn test_div_c_by_zero() {
    let mut engine = Engine::new();
    let r = engine.add_module(test_module(&[
        inst_stack(stack::CONST_8),
        inst_math(math::DIV_C),
        0,
    ]));
    assert!(r.is_ok());
    let e = engine.run(0, 0);
    assert!(matches!(e, Err(BytecodeError::DivisionByZero(_))));
}

#[test]
fn test_bad_opcode_unknown_group() {
    test_fail(None, Some(|e| e.is_bad_opcode()), &[0x0200]);
}

#[test]
fn test_bad_opcode_unknown_stack_value() {
    test_fail(None, Some(|e| e.is_bad_opcode()), &[inst_stack(stack::POP)]);
}

#[test]
fn test_code_data_required_counts() {
    let mut engine = Engine::new();
    let r = engine.add_module(test_module(&[inst_stack(stack::CONST_U32), 0x1010]));
    assert!(r.is_ok());
    match engine.run(0, 0) {
        Err(BytecodeError::CodeData(rv)) => {
            assert_eq!(rv.required, 2);
            assert_eq!(rv.instruction, inst_stack(stack::CONST_U32));
        },
        other => panic!("expected a code-data fault, got {:?}", other),
    }
}

#[test]
fn test_underflow_required_counts() {
    let mut engine = Engine::new();
    let r = engine.add_module(test_module(&[
        inst_stack(stack::CONST_16),
        inst_stack(stack::CONST_2),
        inst_stack(stack::DUPE),
    ]));
    assert!(r.is_ok());
    match engine.run(0, 0) {
        Err(BytecodeError::StackUnderflow(rv)) => {
            assert_eq!(rv.required, 2);
            assert_eq!(rv.instruction, inst_stack(stack::DUPE));
        },
        other => panic!("expected a stack-underflow fault, got {:?}", other),
    }
}
