use stack_vm::bytecode::{Bytecode, Opcode};
use stack_vm::frame::{StackFrame, StackFrameError};

/// A balanced straight-line program passes verification.
#[test]
fn verify_accepts_balanced_program() {
    let instr = vec![
        Bytecode::new(Opcode::Push, vec![5]),
        Bytecode::new(Opcode::Store, vec![1]),
        Bytecode::new(Opcode::Load, vec![1]),
        Bytecode::new(Opcode::Ret, vec![]),
    ];
    let frame = StackFrame::new(vec![], vec![0; 2], 0);
    assert!(frame.verify(&instr).is_ok());
}

/// Arithmetic, comparison and bitwise opcodes are in the effect table.
#[test]
fn verify_accepts_arithmetic() {
    let instr = vec![
        Bytecode::new(Opcode::Push, vec![6]),
        Bytecode::new(Opcode::Push, vec![7]),
        Bytecode::new(Opcode::Mul, vec![]),
        Bytecode::new(Opcode::Incr, vec![]),
        Bytecode::new(Opcode::Push, vec![43]),
        Bytecode::new(Opcode::Eq, vec![]),
        Bytecode::new(Opcode::Ret, vec![]),
    ];
    let frame = StackFrame::new(vec![], vec![], 0);
    assert!(frame.verify(&instr).is_ok());
}

/// An instruction whose operand count differs from its opcode's arity is
/// rejected, reporting the count it carries.
#[test]
fn verify_rejects_wrong_operand_count() {
    let instr = vec![Bytecode::new(Opcode::Push, vec![])];
    let frame = StackFrame::new(vec![], vec![0], 0);
    assert_eq!(
        frame.verify(&instr).unwrap_err(),
        StackFrameError::IncorrectOperandsNumber(0)
    );

    let instr = vec![Bytecode::new(Opcode::Pop, vec![1, 2])];
    let frame = StackFrame::new(vec![], vec![0], 0);
    assert_eq!(
        frame.verify(&instr).unwrap_err(),
        StackFrameError::IncorrectOperandsNumber(2)
    );
}

/// A `Load` or `Store` whose index is at or past the declared locals size is
/// rejected, for any size.
#[test]
fn verify_rejects_unreachable_local() {
    let instr = vec![Bytecode::new(Opcode::Load, vec![5]), Bytecode::new(Opcode::Ret, vec![])];
    let frame = StackFrame::new(vec![], vec![0; 2], 0);
    assert_eq!(frame.verify(&instr).unwrap_err(), StackFrameError::UnreachableLocal(5));

    let instr = vec![Bytecode::new(Opcode::Store, vec![0])];
    let frame = StackFrame::new(vec![], vec![], 0);
    assert_eq!(frame.verify(&instr).unwrap_err(), StackFrameError::UnreachableLocal(0));
}

/// A consuming opcode on an empty symbolic stack is rejected; `Store` is a
/// consuming opcode too.
#[test]
fn verify_rejects_underflow() {
    let instr = vec![Bytecode::new(Opcode::Pop, vec![])];
    let frame = StackFrame::new(vec![], vec![], 0);
    assert_eq!(frame.verify(&instr).unwrap_err(), StackFrameError::EmptyStack);

    let instr = vec![Bytecode::new(Opcode::Store, vec![0])];
    let frame = StackFrame::new(vec![], vec![0], 0);
    assert_eq!(frame.verify(&instr).unwrap_err(), StackFrameError::EmptyStack);

    let instr = vec![
        Bytecode::new(Opcode::Push, vec![1]),
        Bytecode::new(Opcode::Pop2, vec![]),
    ];
    let frame = StackFrame::new(vec![], vec![], 0);
    assert_eq!(frame.verify(&instr).unwrap_err(), StackFrameError::EmptyStack);
}

/// The linear pass does not analyse control flow: jump and call opcodes are
/// rejected as unsupported.
#[test]
fn verify_rejects_control_flow() {
    for op in [Opcode::Jump, Opcode::JumpCond, Opcode::Call] {
        let instr = vec![
            Bytecode::new(Opcode::Push, vec![1]),
            Bytecode::new(op, vec![0]),
        ];
        let frame = StackFrame::new(vec![], vec![], 0);
        assert_eq!(
            frame.verify(&instr).unwrap_err(),
            StackFrameError::UnsupportedInstruction
        );
    }
}

/// The empty program is trivially balanced.
#[test]
fn verify_accepts_empty_program() {
    let frame = StackFrame::new(vec![], vec![], 0);
    assert!(frame.verify(&[]).is_ok());
}

/// Verification hands the frame back unchanged on success.
#[test]
fn verify_returns_the_frame() {
    let instr = vec![
        Bytecode::new(Opcode::Push, vec![8]),
        Bytecode::new(Opcode::Ret, vec![]),
    ];
    let frame = StackFrame::new(vec![1, 2], vec![3, 4], 7);
    let verified = frame.verify(&instr).unwrap();
    assert_eq!(verified.args, vec![1, 2]);
    assert_eq!(verified.locals, vec![3, 4]);
    assert_eq!(verified.start_addr, 7);
}
