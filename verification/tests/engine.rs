use std::rc::Rc;

use tstack::bytecode::inst_jump;
use tstack::bytecode::inst_jump_cond;
use tstack::bytecode::inst_stack;
use tstack::bytecode::inst_sys;
use tstack::bytecode::jump;
use tstack::bytecode::stack;
use tstack::bytecode::sys;
use tstack::errors::BytecodeError;
use tstack::errors::ModuleError;
use tstack::module::LocalSymbol;
use tstack::module::Module;
use tstack::Engine;

fn named_module(name: &str, bytecode: &[u16]) -> Rc<Module> {
    Rc::new(Module {
        name: String::from(name),
        strings: vec![String::from("main")],
        data: vec![],
        local_symbols: vec![LocalSymbol { name_id: 0, code_offset: 0 }],
        external_symbols: vec![],
        bytecode: bytecode.to_vec(),
    })
}

#[test]
fn test_engine_new_defaults() {
    let engine = Engine::new();
    assert_eq!(engine.maxstack, 0x8FFF);
    assert!(engine.stack.is_empty());
    assert!(engine.modules.is_empty());
}

#[test]
fn test_name_collision() {
    let mut engine = Engine::new();
    let first = named_module("shared", &[inst_stack(stack::CONST_1)]);
    let second = named_module("shared", &[inst_stack(stack::CONST_2)]);
    assert!(engine.add_module(first).is_ok());
    let r = engine.add_module(second);
    match r {
        Err(ModuleError::NameCollision(name)) => assert_eq!(name, "shared"),
        other => panic!("expected a name collision, got {:?}", other),
    }
    // The first module stays registered and runnable.
    assert_eq!(engine.modules.len(), 1);
    assert!(engine.run(0, 0).is_ok());
    assert_eq!(engine.stack, vec![1]);
}

#[test]
fn test_distinct_names_register() {
    let mut engine = Engine::new();
    assert!(engine.add_module(named_module("one", &[inst_sys(sys::NOP)])).is_ok());
    assert!(engine.add_module(named_module("two", &[inst_sys(sys::NOP)])).is_ok());
    assert_eq!(engine.modules.len(), 2);
    assert!(engine.run(1, 0).is_ok());
}

#[test]
fn test_run_invalid_module() {
    let mut engine = Engine::new();
    let e = engine.run(0, 0);
    assert!(matches!(e, Err(BytecodeError::InvalidModule(0))));
}

#[test]
fn test_run_invalid_symbol() {
    let mut engine = Engine::new();
    let module = Rc::new(Module {
        name: String::from("nosymbols"),
        strings: vec![],
        data: vec![],
        local_symbols: vec![],
        external_symbols: vec![],
        bytecode: vec![inst_sys(sys::NOP)],
    });
    assert!(engine.add_module(module).is_ok());
    let e = engine.run(0, 0);
    assert!(matches!(e, Err(BytecodeError::InvalidSymbol(0))));
}

#[test]
fn test_run_invalid_address() {
    let mut engine = Engine::new();
    let module = Rc::new(Module {
        name: String::from("badoffset"),
        strings: vec![],
        data: vec![],
        local_symbols: vec![LocalSymbol { name_id: 0, code_offset: 9 }],
        external_symbols: vec![],
        bytecode: vec![inst_sys(sys::NOP)],
    });
    assert!(engine.add_module(module).is_ok());
    let e = engine.run(0, 0);
    assert!(matches!(e, Err(BytecodeError::InvalidAddress(9))));
}

#[test]
fn test_run_from_symbol_offset() {
    // The symbol's entry offset decides where execution starts.
    let mut engine = Engine::new();
    let module = Rc::new(Module {
        name: String::from("offset"),
        strings: vec![],
        data: vec![],
        local_symbols: vec![LocalSymbol { name_id: 0, code_offset: 1 }],
        external_symbols: vec![],
        bytecode: vec![inst_stack(stack::CONST_1), inst_stack(stack::CONST_2)],
    });
    assert!(engine.add_module(module).is_ok());
    assert!(engine.run(0, 0).is_ok());
    assert_eq!(engine.stack, vec![2]);
}

#[test]
fn test_jump_words_fault_until_implemented() {
    let mut engine = Engine::new();
    let absolute = inst_jump(jump::SRC_C16, jump::MODE_ABSOLUTE);
    assert_eq!(absolute, 0x0200);
    let conditional = inst_jump_cond(jump::SRC_DYN, jump::MODE_RELATIVE, jump::TYPE_POS);
    assert_eq!(conditional, 0x022F);
    assert!(engine.add_module(named_module("jumps", &[absolute, 0x0000])).is_ok());
    let e = engine.run(0, 0);
    assert!(matches!(e, Err(BytecodeError::BadOpcode(0x0200))));
}

#[test]
fn test_error_constructors_and_predicates() {
    let overflow = BytecodeError::stack_overflow(0x0100);
    assert!(overflow.is_stack_overflow());
    assert!(!overflow.is_stack_underflow());
    assert!(!overflow.is_code_data());
    assert!(!overflow.is_bad_opcode());

    let underflow = BytecodeError::stack_underflow(0x0110, 3);
    assert!(underflow.is_stack_underflow());
    assert!(!underflow.is_stack_overflow());

    let data = BytecodeError::code_data(0x010B, 1);
    assert!(data.is_code_data());
    assert!(!data.is_bad_opcode());

    let bad = BytecodeError::BadOpcode(0x0700);
    assert!(bad.is_bad_opcode());
    assert!(!bad.is_code_data());
}
