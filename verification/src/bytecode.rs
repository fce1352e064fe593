//! The instruction set: opcodes, their declared operand arity and stack
//! effect, and the `Bytecode` pair of an opcode with its operand values.

use vstd::prelude::*;

verus! {

/// The closed catalogue of operations the engine can execute.
///
/// Each opcode has a fixed operand arity ([`arity`]) and, for the opcodes the
/// static verifier supports, a declared stack effect ([`pops`] and [`pushes`]).
/// Constructing an instruction never validates its operand count; that is the
/// verifier's sole responsibility, so malformed instructions can be built
/// freely (for negative testing among other things).
#[derive(Clone, Copy, Debug, PartialEq, Eq, Structural)]
pub enum Opcode {
    /// Push `locals[operand]` of the active frame onto the stack.
    Load,
    /// Pop a value and write it to `locals[operand]` of the active frame.
    Store,
    /// Push the operand itself onto the stack.
    Push,
    /// Discard the top of the stack.
    Pop,
    /// Discard the two topmost stack values.
    Pop2,
    /// Continue execution at the address given by the operand.
    Jump,
    /// Pop a condition; if it is nonzero, continue at the operand address.
    JumpCond,
    /// Enter the subroutine named by the operand: push the return address
    /// onto the stack, push a fresh frame, and continue at its entry address.
    Call,
    /// Pop one stack slot and leave the active frame; leaving the root frame
    /// halts the machine.
    Ret,
    /// Pop a value and push it incremented by one (wrapping).
    Incr,
    /// Pop a value and push it decremented by one (wrapping).
    Decr,
    /// Pop two values and push their sum (wrapping).
    Add,
    /// Pop two values and push their difference (wrapping).
    Sub,
    /// Pop two values and push their product (wrapping).
    Mul,
    /// Pop two values and push their quotient; division by zero traps.
    Div,
    /// Pop two values and push their remainder; division by zero traps.
    Mod,
    /// Pop two values and push 1 if they are equal, 0 otherwise.
    Eq,
    /// Pop two values and push 1 if they differ, 0 otherwise.
    Neq,
    /// Pop two values and push 1 if the lower one is greater, 0 otherwise.
    Gt,
    /// Pop two values and push 1 if the lower one is greater or equal.
    Gte,
    /// Pop two values and push 1 if the lower one is less, 0 otherwise.
    Lt,
    /// Pop two values and push 1 if the lower one is less or equal.
    Lte,
    /// Pop two values and push their bitwise conjunction.
    BitwiseAnd,
    /// Pop two values and push their bitwise disjunction.
    BitwiseOr,
    /// Pop two values and push their bitwise exclusive disjunction.
    BitwiseXor,
    /// Pop a shift amount and a value; push the value shifted left by the
    /// amount masked to its five low bits.
    ShiftLeft,
    /// Pop a shift amount and a value; push the value shifted right
    /// (arithmetically) by the amount masked to its five low bits.
    ShiftRight,
}

/// The declared operand arity of an opcode: how many immediate values an
/// instruction with this opcode must carry.
pub open spec fn arity(op: Opcode) -> nat {
    match op {
        Opcode::Load => 1,
        Opcode::Store => 1,
        Opcode::Push => 1,
        Opcode::Jump => 1,
        Opcode::JumpCond => 1,
        Opcode::Call => 1,
        _ => 0,
    }
}

/// Whether the static verifier supports an opcode. The verifier analyses
/// straight-line code only, so the control-flow opcodes are outside its
/// effect table and are rejected as unsupported.
pub open spec fn verifier_supported(op: Opcode) -> bool {
    !(op is Jump || op is JumpCond || op is Call)
}

/// How many stack values an opcode consumes (for verifier-supported opcodes).
pub open spec fn pops(op: Opcode) -> nat {
    match op {
        Opcode::Load => 0,
        Opcode::Push => 0,
        Opcode::Store => 1,
        Opcode::Pop => 1,
        Opcode::Ret => 1,
        Opcode::Incr => 1,
        Opcode::Decr => 1,
        Opcode::Pop2 => 2,
        _ => 2,
    }
}

/// How many stack values an opcode produces (for verifier-supported opcodes).
pub open spec fn pushes(op: Opcode) -> nat {
    match op {
        Opcode::Load => 1,
        Opcode::Push => 1,
        Opcode::Store => 0,
        Opcode::Pop => 0,
        Opcode::Pop2 => 0,
        Opcode::Ret => 0,
        _ => 1,
    }
}

/// The mathematical image of a [`Bytecode`]: its opcode and the sequence of
/// operand values.
pub struct BytecodeModel {
    pub opcode: Opcode,
    pub operands: Seq<i32>,
}

/// One instruction: an opcode together with its immediate operand values.
#[derive(Debug)]
pub struct Bytecode {
    pub opcode: Opcode,
    pub operands: Vec<i32>,
}

impl View for Bytecode {
    type V = BytecodeModel;

    open spec fn view(&self) -> BytecodeModel {
        BytecodeModel { opcode: self.opcode, operands: self.operands@ }
    }
}

impl Bytecode {
    /// Pairs an opcode with its operand values, without any validation.
    pub fn new(opcode: Opcode, operands: Vec<i32>) -> (r: Bytecode)
        ensures
            r@.opcode == opcode,
            r@.operands == operands@,
    {
        Bytecode { opcode, operands }
    }
}

} // verus!
