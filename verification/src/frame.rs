//! Activation records and the static verifier.
//!
//! A [`StackFrame`] owns the local storage of one subroutine invocation.
//! [`StackFrame::verify`] is a single linear pass over an instruction
//! sequence that checks, against the frame's local-storage size, that every
//! instruction carries its declared operand count, that every local index is
//! in bounds, and that the symbolic stack depth never goes negative. The pass
//! assumes straight-line control flow: the control-flow opcodes are rejected
//! as unsupported rather than analysed.

use vstd::prelude::*;

use crate::bytecode::arity;
use crate::bytecode::pops;
use crate::bytecode::pushes;
use crate::bytecode::verifier_supported;
use crate::bytecode::Bytecode;
use crate::bytecode::BytecodeModel;
use crate::bytecode::Opcode;

verus! {

/// A defect found by the static verifier; reported before any instruction
/// executes.
#[derive(Clone, Copy, Debug, PartialEq, Eq, Structural)]
pub enum StackFrameError {
    /// The opcode is outside the verifier's effect table (a control-flow
    /// opcode, which the linear pass cannot analyse).
    UnsupportedInstruction,
    /// The instruction carries this many operands, which differs from its
    /// opcode's declared arity.
    IncorrectOperandsNumber(usize),
    /// The symbolic stack depth would go negative at a consuming opcode.
    EmptyStack,
    /// A `Load` or `Store` references this local slot, which the frame does
    /// not have.
    UnreachableLocal(usize),
}

/// The mathematical image of a [`StackFrame`].
pub struct FrameModel {
    pub args: Seq<i32>,
    pub locals: Seq<i32>,
    pub start_addr: i32,
    pub ret_addr: int,
}

/// An activation record: the local storage, call arguments and entry address
/// of one subroutine invocation, plus the address at which the caller
/// resumes when this invocation returns.
#[derive(Debug)]
pub struct StackFrame {
    pub args: Vec<i32>,
    pub locals: Vec<i32>,
    pub start_addr: i32,
    pub ret_addr: usize,
}

impl View for StackFrame {
    type V = FrameModel;

    open spec fn view(&self) -> FrameModel {
        FrameModel {
            args: self.args@,
            locals: self.locals@,
            start_addr: self.start_addr,
            ret_addr: self.ret_addr as int,
        }
    }
}

impl Default for StackFrame {
    /// An empty root frame: no arguments, no locals, entry address 0.
    fn default() -> (r: StackFrame)
        ensures
            r@.args == Seq::<i32>::empty(),
            r@.locals == Seq::<i32>::empty(),
            r@.start_addr == 0,
            r@.ret_addr == 0,
    {
        StackFrame { args: Vec::new(), locals: Vec::new(), start_addr: 0, ret_addr: 0 }
    }
}

/// Whether operand `v` names a local slot of a frame with `locals_len` slots.
pub open spec fn local_index_ok(v: i32, locals_len: nat) -> bool {
    0 <= v && (v as nat) < locals_len
}

/// The verdict of the verifier on a single instruction, given the frame's
/// local-storage size and the symbolic stack depth reached so far: either the
/// depth after the instruction, or the defect. Checked in this order: operand
/// arity, local-index bounds, effect-table membership, stack depth.
pub open spec fn check_instr(i: BytecodeModel, locals_len: nat, depth: nat) -> Result<
    nat,
    StackFrameError,
> {
    if i.operands.len() != arity(i.opcode) {
        Err(StackFrameError::IncorrectOperandsNumber(i.operands.len() as usize))
    } else if (i.opcode is Load || i.opcode is Store) && !local_index_ok(
        i.operands[0],
        locals_len,
    ) {
        Err(StackFrameError::UnreachableLocal(i.operands[0] as usize))
    } else if !verifier_supported(i.opcode) {
        Err(StackFrameError::UnsupportedInstruction)
    } else if depth < pops(i.opcode) {
        Err(StackFrameError::EmptyStack)
    } else {
        Ok((depth - pops(i.opcode) + pushes(i.opcode)) as nat)
    }
}

/// The verifier's verdict on the instructions from position `j` on, starting
/// from symbolic stack depth `depth`: the depth after the last instruction,
/// or the first defect found.
pub open spec fn verify_from(
    instrs: Seq<BytecodeModel>,
    locals_len: nat,
    j: int,
    depth: nat,
) -> Result<nat, StackFrameError>
    decreases instrs.len() - j,
{
    if j < 0 || j >= instrs.len() {
        Ok(depth)
    } else {
        match check_instr(instrs[j], locals_len, depth) {
            Err(e) => Err(e),
            Ok(d) => verify_from(instrs, locals_len, j + 1, d),
        }
    }
}

/// The verifier's verdict on a whole program, run against a frame with
/// `locals_len` local slots: a full linear pass from depth 0.
pub open spec fn spec_verify(instrs: Seq<BytecodeModel>, locals_len: nat) -> Result<
    nat,
    StackFrameError,
> {
    verify_from(instrs, locals_len, 0, 0)
}

impl StackFrame {
    /// An activation record over the given arguments and local storage,
    /// entered at `start_addr`.
    pub fn new(args: Vec<i32>, locals: Vec<i32>, start_addr: i32) -> (r: StackFrame)
        ensures
            r@.args == args@,
            r@.locals == locals@,
            r@.start_addr == start_addr,
            r@.ret_addr == 0,
    {
        StackFrame { args, locals, start_addr, ret_addr: 0 }
    }

    /// A callee record made by `Call`: fresh zero-initialized locals, no
    /// arguments, and the address at which the caller resumes.
    pub(crate) fn for_call(locals_len: usize, start_addr: i32, ret_addr: usize) -> (r: StackFrame)
        ensures
            r@.args == Seq::<i32>::empty(),
            r@.locals == Seq::new(locals_len as nat, |i: int| 0i32),
            r@.start_addr == start_addr,
            r@.ret_addr == ret_addr as int,
    {
        let locals: Vec<i32> = vec![0i32; locals_len];
        proof {
            assert(locals@ =~= Seq::new(locals_len as nat, |i: int| 0i32));
        }
        StackFrame { args: Vec::new(), locals, start_addr, ret_addr }
    }

    /// Statically verifies a straight-line instruction sequence against this
    /// frame's local-storage size: one pass in address order that checks
    /// operand counts, local-index bounds and stack-depth balance, and never
    /// executes an instruction. On success the frame is handed back.
    pub fn verify(self, instructions: &[Bytecode]) -> (r: Result<StackFrame, StackFrameError>)
        ensures
            match r {
                Ok(f) => f == self && spec_verify(views_of(instructions@), self.locals@.len())
                    is Ok,
                Err(e) => spec_verify(views_of(instructions@), self.locals@.len()) == Err::<
                    nat,
                    StackFrameError,
                >(e),
            },
    {
        let ghost prog = views_of(instructions@);
        let locals_len: usize = self.locals.len();
        let mut depth: usize = 0;
        let mut j: usize = 0;
        while j < instructions.len()
            invariant
                j <= instructions.len(),
                prog == views_of(instructions@),
                prog.len() == instructions@.len(),
                locals_len == self.locals@.len(),
                verify_from(prog, locals_len as nat, 0, 0) == verify_from(
                    prog,
                    locals_len as nat,
                    j as int,
                    depth as nat,
                ),
                // each instruction raises the symbolic depth by at most one
                depth <= j,
            decreases instructions.len() - j,
        {
            let instr = &instructions[j];
            proof {
                assert(prog[j as int] == instr@);
            }
            let needed = operand_arity(instr.opcode);
            if instr.operands.len() != needed {
                return Err(StackFrameError::IncorrectOperandsNumber(instr.operands.len()));
            }
            if matches!(instr.opcode, Opcode::Load | Opcode::Store) {
                let v = instr.operands[0];
                if !(v >= 0 && (v as usize) < locals_len) {
                    let bad: usize = #[verifier::truncate] (v as usize);
                    return Err(StackFrameError::UnreachableLocal(bad));
                }
            }
            if matches!(instr.opcode, Opcode::Jump | Opcode::JumpCond | Opcode::Call) {
                return Err(StackFrameError::UnsupportedInstruction);
            }
            let consumed = stack_pops(instr.opcode);
            if depth < consumed {
                return Err(StackFrameError::EmptyStack);
            }
            let produced = stack_pushes(instr.opcode);
            depth = depth - consumed + produced;
            j = j + 1;
        }
        Ok(self)
    }
}

/// The mathematical image of an instruction sequence.
pub open spec fn views_of(instrs: Seq<Bytecode>) -> Seq<BytecodeModel> {
    instrs.map_values(|b: Bytecode| b@)
}

/// Executable counterpart of [`arity`].
pub fn operand_arity(op: Opcode) -> (r: usize)
    ensures
        r as nat == arity(op),
{
    match op {
        Opcode::Load => 1,
        Opcode::Store => 1,
        Opcode::Push => 1,
        Opcode::Jump => 1,
        Opcode::JumpCond => 1,
        Opcode::Call => 1,
        _ => 0,
    }
}

/// Executable counterpart of [`pops`].
pub fn stack_pops(op: Opcode) -> (r: usize)
    ensures
        r as nat == pops(op),
{
    match op {
        Opcode::Load => 0,
        Opcode::Push => 0,
        Opcode::Store => 1,
        Opcode::Pop => 1,
        Opcode::Ret => 1,
        Opcode::Incr => 1,
        Opcode::Decr => 1,
        Opcode::Pop2 => 2,
        _ => 2,
    }
}

/// Executable counterpart of [`pushes`].
pub fn stack_pushes(op: Opcode) -> (r: usize)
    ensures
        r as nat == pushes(op),
{
    match op {
        Opcode::Load => 1,
        Opcode::Push => 1,
        Opcode::Store => 0,
        Opcode::Pop => 0,
        Opcode::Pop2 => 0,
        Opcode::Ret => 0,
        _ => 1,
    }
}

} // verus!
