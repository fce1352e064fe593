use std::collections::HashMap;

use stack_vm::bytecode::{Bytecode, Opcode};
use stack_vm::frame::StackFrame;
use stack_vm::interpreter::{Interpreter, RunOutcome, TrapKind};

const BUDGET: u64 = 1_000;

/// Runs `[Push a, Push b, op]` and hands back the single value it leaves on
/// the stack (the run ends by falling off the end, which leaves the stack
/// observable).
fn binary(op: Opcode, a: i32, b: i32) -> i32 {
    let instr = vec![
        Bytecode::new(Opcode::Push, vec![a]),
        Bytecode::new(Opcode::Push, vec![b]),
        Bytecode::new(op, vec![]),
    ];
    let frame = StackFrame::new(vec![], vec![], 0);
    let mut interpreter = Interpreter::new(frame, instr, HashMap::new());
    let outcome = interpreter.run(BUDGET);
    assert_eq!(
        outcome,
        Some(RunOutcome::Trapped { kind: TrapKind::UnexpectedEnd, pc: 3 })
    );
    assert_eq!(interpreter.stack.len(), 1);
    interpreter.stack[0]
}

fn unary(op: Opcode, v: i32) -> i32 {
    let instr = vec![Bytecode::new(Opcode::Push, vec![v]), Bytecode::new(op, vec![])];
    let frame = StackFrame::new(vec![], vec![], 0);
    let mut interpreter = Interpreter::new(frame, instr, HashMap::new());
    let outcome = interpreter.run(BUDGET);
    assert_eq!(
        outcome,
        Some(RunOutcome::Trapped { kind: TrapKind::UnexpectedEnd, pc: 2 })
    );
    assert_eq!(interpreter.stack.len(), 1);
    interpreter.stack[0]
}

#[test]
fn add_computes_and_wraps() {
    assert_eq!(binary(Opcode::Add, 2, 3), 5);
    assert_eq!(binary(Opcode::Add, i32::MAX, 1), i32::MIN);
}

#[test]
fn sub_computes_and_wraps() {
    assert_eq!(binary(Opcode::Sub, 10, 3), 7);
    assert_eq!(binary(Opcode::Sub, i32::MIN, 1), i32::MAX);
}

#[test]
fn mul_computes_and_wraps() {
    assert_eq!(binary(Opcode::Mul, 6, 7), 42);
    assert_eq!(binary(Opcode::Mul, 1 << 30, 4), 0);
}

#[test]
fn div_truncates_toward_zero() {
    assert_eq!(binary(Opcode::Div, 7, 3), 2);
    assert_eq!(binary(Opcode::Div, -7, 3), -2);
    assert_eq!(binary(Opcode::Div, 7, -3), -2);
    assert_eq!(binary(Opcode::Div, i32::MIN, -1), i32::MIN);
}

#[test]
fn mod_follows_truncating_division() {
    assert_eq!(binary(Opcode::Mod, 7, 3), 1);
    assert_eq!(binary(Opcode::Mod, -7, 3), -1);
    assert_eq!(binary(Opcode::Mod, 7, -3), 1);
    assert_eq!(binary(Opcode::Mod, i32::MIN, -1), 0);
}

#[test]
fn incr_and_decr_wrap() {
    assert_eq!(unary(Opcode::Incr, 5), 6);
    assert_eq!(unary(Opcode::Incr, i32::MAX), i32::MIN);
    assert_eq!(unary(Opcode::Decr, 5), 4);
    assert_eq!(unary(Opcode::Decr, i32::MIN), i32::MAX);
}

#[test]
fn comparisons_push_zero_or_one() {
    assert_eq!(binary(Opcode::Eq, 4, 4), 1);
    assert_eq!(binary(Opcode::Eq, 4, 5), 0);
    assert_eq!(binary(Opcode::Neq, 4, 5), 1);
    assert_eq!(binary(Opcode::Neq, 4, 4), 0);
    assert_eq!(binary(Opcode::Gt, 5, 4), 1);
    assert_eq!(binary(Opcode::Gt, 4, 4), 0);
    assert_eq!(binary(Opcode::Gte, 4, 4), 1);
    assert_eq!(binary(Opcode::Gte, 3, 4), 0);
    assert_eq!(binary(Opcode::Lt, 3, 4), 1);
    assert_eq!(binary(Opcode::Lt, 4, 4), 0);
    assert_eq!(binary(Opcode::Lte, 4, 4), 1);
    assert_eq!(binary(Opcode::Lte, 5, 4), 0);
}

#[test]
fn bitwise_operations() {
    assert_eq!(binary(Opcode::BitwiseAnd, 6, 3), 2);
    assert_eq!(binary(Opcode::BitwiseOr, 6, 3), 7);
    assert_eq!(binary(Opcode::BitwiseXor, 6, 3), 5);
}

#[test]
fn shifts_mask_the_amount() {
    assert_eq!(binary(Opcode::ShiftLeft, 1, 4), 16);
    // the amount is masked to five bits: 33 acts as 1
    assert_eq!(binary(Opcode::ShiftLeft, 1, 33), 2);
    assert_eq!(binary(Opcode::ShiftRight, 16, 2), 4);
    // the right shift is arithmetic: the sign is kept
    assert_eq!(binary(Opcode::ShiftRight, -8, 1), -4);
}
