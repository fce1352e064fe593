//! The laws of the machine, stated over the step model and proved once and
//! for all: what the static verifier guarantees about every run, and how the
//! individual opcodes compose.

use vstd::prelude::*;

use crate::bytecode::arity;
use crate::bytecode::BytecodeModel;
use crate::bytecode::Opcode;
use crate::frame::check_instr;
use crate::frame::local_index_ok;
use crate::frame::spec_verify;
use crate::frame::verify_from;
use crate::frame::FrameModel;
use crate::interpreter::run_for;
use crate::interpreter::step;
use crate::interpreter::trapped;
use crate::interpreter::lemma_run_for_compose;
use crate::interpreter::lemma_run_for_one;
use crate::interpreter::MachineState;
use crate::interpreter::RunOutcome;
use crate::interpreter::StepOutcome;
use crate::interpreter::TrapKind;

verus! {

/// The machine state a step outcome carries: the next state while running,
/// the state at the moment of finishing otherwise.
pub open spec fn state_of(r: StepOutcome) -> MachineState {
    match r {
        StepOutcome::Running(s) => s,
        StepOutcome::Done(f, _) => f,
    }
}

/// `Div` or `Mod` with divisor zero always traps, with its dedicated kind
/// and the failing address, leaving the state untouched.
pub proof fn lemma_division_by_zero_traps(
    prog: Seq<BytecodeModel>,
    table: Map<i32, i32>,
    s: MachineState,
)
    requires
        0 <= s.pc < prog.len(),
        prog[s.pc].opcode is Div || prog[s.pc].opcode is Mod,
        s.stack.len() >= 2,
        s.stack.last() == 0,
    ensures
        step(prog, table, s) == trapped(s, TrapKind::DivisionByZero),
{
}

/// `Push` immediately followed by `Pop` leaves the machine exactly where it
/// was, two addresses further on: the operand stack (so in particular its
/// depth) and the frame stack are unchanged.
pub proof fn lemma_push_then_pop(
    prog: Seq<BytecodeModel>,
    table: Map<i32, i32>,
    s: MachineState,
)
    requires
        0 <= s.pc,
        s.pc + 1 < prog.len(),
        prog[s.pc].opcode is Push,
        prog[s.pc].operands.len() >= 1,
        prog[s.pc + 1].opcode is Pop,
    ensures
        run_for(prog, table, s, 2) == StepOutcome::Running(
            MachineState { pc: s.pc + 2, stack: s.stack, frames: s.frames },
        ),
{
    let s1 = MachineState {
        pc: s.pc + 1,
        stack: s.stack.push(prog[s.pc].operands[0]),
        frames: s.frames,
    };
    assert(step(prog, table, s) == StepOutcome::Running(s1));
    assert(s1.stack.drop_last() =~= s.stack);
    assert(step(prog, table, s1) == StepOutcome::Running(
        MachineState { pc: s.pc + 2, stack: s.stack, frames: s.frames },
    ));
    lemma_run_for_compose(prog, table, s, 1, 1);
    lemma_run_for_one(prog, table, s);
    lemma_run_for_one(prog, table, s1);
}

/// `Store(i)` immediately followed by `Load(i)` hands the stored value back:
/// for every valid index, the top of the stack and the local slot `i` of the
/// active frame both hold the value that was on top before the pair, and the
/// stack depth is unchanged.
pub proof fn lemma_store_then_load(
    prog: Seq<BytecodeModel>,
    table: Map<i32, i32>,
    s: MachineState,
)
    requires
        0 <= s.pc,
        s.pc + 1 < prog.len(),
        prog[s.pc].opcode is Store,
        prog[s.pc].operands.len() >= 1,
        prog[s.pc + 1].opcode is Load,
        prog[s.pc + 1].operands.len() >= 1,
        prog[s.pc + 1].operands[0] == prog[s.pc].operands[0],
        s.frames.len() >= 1,
        local_index_ok(prog[s.pc].operands[0], s.frames.last().locals.len()),
        s.stack.len() >= 1,
    ensures
        run_for(prog, table, s, 2) is Running,
        state_of(run_for(prog, table, s, 2)).pc == s.pc + 2,
        state_of(run_for(prog, table, s, 2)).stack.len() == s.stack.len(),
        state_of(run_for(prog, table, s, 2)).stack.last() == s.stack.last(),
        state_of(run_for(prog, table, s, 2)).frames.last().locals[prog[s.pc].operands[0] as int]
            == s.stack.last(),
{
    let idx = prog[s.pc].operands[0] as int;
    let stored = FrameModel {
        locals: s.frames.last().locals.update(idx, s.stack.last()),
        ..s.frames.last()
    };
    let s1 = MachineState {
        pc: s.pc + 1,
        stack: s.stack.drop_last(),
        frames: s.frames.drop_last().push(stored),
    };
    assert(step(prog, table, s) == StepOutcome::Running(s1));
    assert(s1.frames.last() == stored);
    let s2 = MachineState {
        pc: s.pc + 2,
        stack: s1.stack.push(stored.locals[idx]),
        frames: s1.frames,
    };
    assert(step(prog, table, s1) == StepOutcome::Running(s2));
    lemma_run_for_compose(prog, table, s, 1, 1);
    lemma_run_for_one(prog, table, s);
    lemma_run_for_one(prog, table, s1);
}

/// What a run of a statically verified program can never trap with: all the
/// kinds the verifier rules out ahead of time. Division by zero, falling off
/// the end of the program and a negative final return address remain runtime
/// matters.
pub open spec fn statically_excluded(k: TrapKind) -> bool {
    match k {
        TrapKind::StackUnderflow => true,
        TrapKind::ReturnStackEmpty => true,
        TrapKind::FrameStackEmpty => true,
        TrapKind::LocalOutOfBounds => true,
        TrapKind::MissingOperand => true,
        TrapKind::UnknownSubroutine => true,
        _ => false,
    }
}

/// The states a run of a verified straight-line program moves through: one
/// frame with the declared local storage, and a program position from which
/// the rest of the program still verifies with the current stack depth as
/// the symbolic one.
pub open spec fn straightline_inv(
    prog: Seq<BytecodeModel>,
    locals_len: nat,
    s: MachineState,
) -> bool {
    &&& s.frames.len() == 1
    &&& s.frames[0].locals.len() == locals_len
    &&& 0 <= s.pc <= prog.len()
    &&& verify_from(prog, locals_len, s.pc, s.stack.len()) is Ok
}

/// One transition from a straight-line-verified state either keeps the
/// invariant or finishes, and if it finishes with a trap, the trap is one
/// the verifier does not rule out.
proof fn lemma_straightline_step(
    prog: Seq<BytecodeModel>,
    table: Map<i32, i32>,
    locals_len: nat,
    s: MachineState,
)
    requires
        straightline_inv(prog, locals_len, s),
    ensures
        match step(prog, table, s) {
            StepOutcome::Running(s2) => straightline_inv(prog, locals_len, s2) && s2.pc == s.pc
                + 1,
            StepOutcome::Done(_, o) => match o {
                RunOutcome::Halted { .. } => true,
                RunOutcome::Trapped { kind, .. } => !statically_excluded(kind),
            },
        },
{
    if 0 <= s.pc < prog.len() {
        let i = prog[s.pc];
        let d = s.stack.len();
        assert(check_instr(i, locals_len, d) is Ok);
        let d2 = check_instr(i, locals_len, d)->Ok_0;
        assert(verify_from(prog, locals_len, s.pc + 1, d2) is Ok);
        assert(s.frames.last() == s.frames[0]);
        match step(prog, table, s) {
            StepOutcome::Running(s2) => {
                assert(s2.stack.len() == d2);
                assert(s2.frames.len() == 1 && s2.frames[0].locals.len() == locals_len);
            },
            StepOutcome::Done(_, _) => {},
        }
    }
}

/// For all programs that pass verification, execution never underflows the
/// operand stack — nor trips any other check the verifier makes: however
/// long it runs, a machine started on a verified program with the declared
/// local storage can only halt, fall off the end, or fail on the two genuine
/// runtime conditions (division by zero, a negative final return address).
pub proof fn lemma_verified_program_safe(
    prog: Seq<BytecodeModel>,
    table: Map<i32, i32>,
    root: FrameModel,
    n: nat,
)
    requires
        spec_verify(prog, root.locals.len()) is Ok,
    ensures
        match run_for(
            prog,
            table,
            MachineState { pc: 0, stack: Seq::<i32>::empty(), frames: seq![root] },
            n,
        ) {
            StepOutcome::Done(_, RunOutcome::Trapped { kind, .. }) => !statically_excluded(kind),
            _ => true,
        },
{
    let s0 = MachineState { pc: 0, stack: Seq::<i32>::empty(), frames: seq![root] };
    assert(straightline_inv(prog, root.locals.len(), s0));
    lemma_straightline_run(prog, table, root.locals.len(), s0, n);
}

/// The bounded-run form of the straight-line invariant: however much fuel,
/// a run from an invariant state is still in an invariant state or finished
/// without any statically excluded trap.
proof fn lemma_straightline_run(
    prog: Seq<BytecodeModel>,
    table: Map<i32, i32>,
    locals_len: nat,
    s: MachineState,
    n: nat,
)
    requires
        straightline_inv(prog, locals_len, s),
    ensures
        match run_for(prog, table, s, n) {
            StepOutcome::Running(s2) => straightline_inv(prog, locals_len, s2),
            StepOutcome::Done(_, o) => match o {
                RunOutcome::Halted { .. } => true,
                RunOutcome::Trapped { kind, .. } => !statically_excluded(kind),
            },
        },
    decreases n,
{
    if n > 0 {
        lemma_straightline_step(prog, table, locals_len, s);
        match step(prog, table, s) {
            StepOutcome::Running(s2) => {
                lemma_straightline_run(prog, table, locals_len, s2, (n - 1) as nat);
            },
            StepOutcome::Done(_, _) => {},
        }
    }
}

/// A transition that keeps at least `L + 1` frames alive touches nothing
/// below them: the bottom `L` frames and the resume address of the frame
/// above them survive unchanged. Only the active (topmost) frame's locals
/// are ever written.
proof fn lemma_step_keeps_lower_frames(
    prog: Seq<BytecodeModel>,
    table: Map<i32, i32>,
    s: MachineState,
    L: int,
)
    requires
        0 <= L < s.frames.len(),
        step(prog, table, s) is Running,
        state_of(step(prog, table, s)).frames.len() > L,
    ensures
        state_of(step(prog, table, s)).frames.subrange(0, L) == s.frames.subrange(0, L),
        state_of(step(prog, table, s)).frames[L].ret_addr == s.frames[L].ret_addr,
{
    let s2 = state_of(step(prog, table, s));
    assert(s2.frames.subrange(0, L) =~= s.frames.subrange(0, L));
}

/// A transition that shrinks the frame stack is a return into the caller:
/// it pops exactly the top frame and resumes at the address that frame
/// recorded.
proof fn lemma_step_pops_frame(
    prog: Seq<BytecodeModel>,
    table: Map<i32, i32>,
    s: MachineState,
)
    requires
        step(prog, table, s) is Running,
        state_of(step(prog, table, s)).frames.len() < s.frames.len(),
        s.frames.len() >= 2,
    ensures
        state_of(step(prog, table, s)).frames == s.frames.drop_last(),
        state_of(step(prog, table, s)).frames.len() == s.frames.len() - 1,
        state_of(step(prog, table, s)).pc == s.frames.last().ret_addr,
{
}

/// Along any run in which more than `L` frames stay alive, the bottom `L`
/// frames and the resume address of the frame above them are those of the
/// start, however many transitions have passed and however deep the nesting
/// went in between.
proof fn lemma_run_keeps_lower_frames(
    prog: Seq<BytecodeModel>,
    table: Map<i32, i32>,
    s1: MachineState,
    L: int,
    j: nat,
)
    requires
        0 <= L < s1.frames.len(),
        forall|k: nat|
            k <= j ==> run_for(prog, table, s1, k) is Running && state_of(
                #[trigger] run_for(prog, table, s1, k),
            ).frames.len() > L,
    ensures
        state_of(run_for(prog, table, s1, j)).frames.subrange(0, L) == s1.frames.subrange(0, L),
        state_of(run_for(prog, table, s1, j)).frames[L].ret_addr == s1.frames[L].ret_addr,
    decreases j,
{
    if j > 0 {
        lemma_run_keeps_lower_frames(prog, table, s1, L, (j - 1) as nat);
        let prev = state_of(run_for(prog, table, s1, (j - 1) as nat));
        lemma_run_for_compose(prog, table, s1, (j - 1) as nat, 1);
        lemma_run_for_one(prog, table, prev);
        assert((j - 1) as nat + 1 == j);
        assert(run_for(prog, table, s1, j) == step(prog, table, prev));
        lemma_step_keeps_lower_frames(prog, table, prev, L);
        assert(state_of(run_for(prog, table, s1, j)).frames.subrange(0, L) =~= s1
            .frames.subrange(0, L));
    }
}

/// A `Call` eventually matched by its callee's `Ret` — the first transition
/// that brings the frame stack back down to the caller's depth, however deep
/// the calls nested in between — resumes at exactly the address after the
/// call site, with the caller's frame active again and the whole frame stack
/// exactly as it was before the call.
pub proof fn lemma_call_matched_by_ret(
    prog: Seq<BytecodeModel>,
    table: Map<i32, i32>,
    s: MachineState,
    n: nat,
)
    requires
        0 <= s.pc < prog.len(),
        prog[s.pc].opcode is Call,
        s.frames.len() >= 1,
        step(prog, table, s) is Running,
        n >= 1,
        forall|k: nat|
            k < n ==> run_for(prog, table, state_of(step(prog, table, s)), k) is Running
                && state_of(
                #[trigger] run_for(prog, table, state_of(step(prog, table, s)), k),
            ).frames.len() > s.frames.len(),
        run_for(prog, table, state_of(step(prog, table, s)), n) is Running,
        state_of(run_for(prog, table, state_of(step(prog, table, s)), n)).frames.len()
            == s.frames.len(),
    ensures
        state_of(run_for(prog, table, state_of(step(prog, table, s)), n)).pc == s.pc + 1,
        state_of(run_for(prog, table, state_of(step(prog, table, s)), n)).frames == s.frames,
{
    let s1 = state_of(step(prog, table, s));
    let L = s.frames.len() as int;
    assert(s1.frames.len() == L + 1);
    assert(s1.frames[L].ret_addr == s.pc + 1);
    assert(s1.frames.subrange(0, L) =~= s.frames);
    lemma_run_keeps_lower_frames(prog, table, s1, L, (n - 1) as nat);
    let prev = state_of(run_for(prog, table, s1, (n - 1) as nat));
    lemma_run_for_compose(prog, table, s1, (n - 1) as nat, 1);
    lemma_run_for_one(prog, table, prev);
    assert((n - 1) as nat + 1 == n);
    assert(run_for(prog, table, s1, n) == step(prog, table, prev));
    lemma_step_pops_frame(prog, table, prev);
    assert(prev.frames.len() == L + 1);
    assert(prev.frames.drop_last() =~= prev.frames.subrange(0, L));
    assert(prev.frames.last() == prev.frames[L]);
}

/// The verifier rejects every program in which some instruction references a
/// local slot the frame does not have, whatever the declared size and
/// whatever the out-of-range index.
pub proof fn lemma_verifier_rejects_unreachable_local(
    prog: Seq<BytecodeModel>,
    locals_len: nat,
    j: int,
)
    requires
        0 <= j < prog.len(),
        prog[j].opcode is Load || prog[j].opcode is Store,
        prog[j].operands.len() == arity(prog[j].opcode),
        !local_index_ok(prog[j].operands[0], locals_len),
    ensures
        spec_verify(prog, locals_len) is Err,
{
    lemma_verify_from_rejects(prog, locals_len, j, 0, 0);
}

/// The linear pass cannot walk past a local-index defect at position `j`:
/// from any earlier position and any depth it returns some error.
proof fn lemma_verify_from_rejects(
    prog: Seq<BytecodeModel>,
    locals_len: nat,
    j: int,
    i: int,
    depth: nat,
)
    requires
        0 <= i <= j < prog.len(),
        prog[j].opcode is Load || prog[j].opcode is Store,
        prog[j].operands.len() == arity(prog[j].opcode),
        !local_index_ok(prog[j].operands[0], locals_len),
    ensures
        verify_from(prog, locals_len, i, depth) is Err,
    decreases j - i,
{
    if i == j {
        assert(check_instr(prog[j], locals_len, depth) is Err);
    } else {
        match check_instr(prog[i], locals_len, depth) {
            Err(_) => {},
            Ok(d) => {
                lemma_verify_from_rejects(prog, locals_len, j, i + 1, d);
            },
        }
    }
}

} // verus!
