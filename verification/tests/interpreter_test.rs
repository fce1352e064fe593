use std::collections::HashMap;

use stack_vm::bytecode::{Bytecode, Opcode};
use stack_vm::frame::StackFrame;
use stack_vm::interpreter::{Interpreter, RunOutcome};

const BUDGET: u64 = 1_000;

/// Test simultaneously push and ret instructions.
/// The interpreter pushes '5' to the stack and then returns it as address
/// from the stack frame.
#[test]
fn test_push_and_ret() {
    let instr = vec![
        Bytecode::new(Opcode::Push, vec![5]),
        Bytecode::new(Opcode::Ret, vec![]),
    ];

    let frame: StackFrame = StackFrame::new(vec![], vec![1], 0);
    let mut interpreter: Interpreter = Interpreter::new(frame, instr, HashMap::default());

    let outcome = interpreter.run(BUDGET);

    assert_eq!(outcome, Some(RunOutcome::Halted { final_pc: 5 }));
    assert_eq!(interpreter.pc, 5);
}

/// The interpreter pushes a lot of '10's and '5's to the stack,
/// pops 3 values from the stack and then returns '10' as address from the
/// stack frame.
#[test]
fn test_pop() {
    let instr = vec![
        Bytecode::new(Opcode::Push, vec![10]),
        Bytecode::new(Opcode::Push, vec![5]),
        Bytecode::new(Opcode::Push, vec![5]),
        Bytecode::new(Opcode::Push, vec![5]),
        Bytecode::new(Opcode::Pop, vec![]),
        Bytecode::new(Opcode::Pop2, vec![]),
        Bytecode::new(Opcode::Ret, vec![]),
    ];

    let frame: StackFrame = StackFrame::new(vec![], vec![1], 0);
    let mut interpreter: Interpreter = Interpreter::new(frame, instr, HashMap::default());

    let outcome = interpreter.run(BUDGET);

    assert_eq!(outcome, Some(RunOutcome::Halted { final_pc: 10 }));
    assert_eq!(interpreter.pc, 10);
}

/// The interpreter loads '5' from a local to the stack and
/// then returns '5' as address from the stack frame.
#[test]
fn test_load() {
    let instr = vec![
        Bytecode::new(Opcode::Load, vec![1]),
        Bytecode::new(Opcode::Ret, vec![]),
    ];

    let frame: StackFrame = StackFrame::new(vec![], vec![5; 2], 0);
    let mut interpreter: Interpreter = Interpreter::new(frame, instr, HashMap::default());

    let outcome = interpreter.run(BUDGET);

    assert_eq!(outcome, Some(RunOutcome::Halted { final_pc: 5 }));
    assert_eq!(interpreter.pc, 5);
}

/// The interpreter stores '5' to a local from the stack and
/// then returns '5' as address from the stack frame.
#[test]
fn test_store() {
    let instr = vec![
        Bytecode::new(Opcode::Push, vec![5; 1]),
        Bytecode::new(Opcode::Store, vec![1]),
        Bytecode::new(Opcode::Load, vec![1]),
        Bytecode::new(Opcode::Ret, vec![]),
    ];

    let frame: StackFrame = StackFrame::new(vec![], vec![0; 2], 0);
    let mut interpreter: Interpreter = Interpreter::new(frame, instr, HashMap::default());

    let outcome = interpreter.run(BUDGET);

    assert_eq!(outcome, Some(RunOutcome::Halted { final_pc: 5 }));
    assert_eq!(interpreter.pc, 5);
}

/// The caller pushes '5', calls the subroutine at address 3, whose `Ret`
/// resumes the caller at the return address 2; the caller's own `Ret` then
/// halts the root frame on the return-address slot the call pushed, so the
/// observed final address is the call-site return address.
#[test]
fn test_call() {
    let instr = vec![
        // main function
        Bytecode::new(Opcode::Push, vec![5; 1]),
        Bytecode::new(Opcode::Call, vec![0]),
        Bytecode::new(Opcode::Ret, vec![]),
        // other function to call
        Bytecode::new(Opcode::Load, vec![1]),
        Bytecode::new(Opcode::Ret, vec![]),
    ];

    let frame: StackFrame = StackFrame::new(vec![], vec![10; 2], 0);
    let mut hash_map: HashMap<i32, i32> = HashMap::new();
    hash_map.insert(0, 3);

    let mut interpreter: Interpreter = Interpreter::new(frame, instr, hash_map);

    let outcome = interpreter.run(BUDGET);

    assert_eq!(outcome, Some(RunOutcome::Halted { final_pc: 2 }));
    assert_eq!(interpreter.pc, 2);
}
