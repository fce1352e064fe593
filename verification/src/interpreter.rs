//! The execution engine: a fetch-decode-execute loop over an operand stack,
//! a frame stack and a program counter.
//!
//! The whole machine is modelled by a mathematical step function ([`step`]):
//! one fetch-decode-execute transition from a [`MachineState`] to either the
//! next state or a finished [`RunOutcome`]. Iterating it ([`run_for`]) gives
//! the meaning of a bounded run, and [`Interpreter::run`] is proved to return
//! exactly that. Every precondition violation at run time — stack underflow,
//! a bad local index, an unresolved subroutine, division by zero, a program
//! counter out of bounds — becomes a [`TrapKind`], never a panic.

use vstd::prelude::*;

use std::collections::HashMap;

use crate::bytecode::Bytecode;
use crate::bytecode::BytecodeModel;
use crate::bytecode::Opcode;
use crate::frame::local_index_ok;
use crate::frame::FrameModel;
use crate::frame::StackFrame;

verus! {

broadcast use vstd::std_specs::hash::group_hash_axioms;

/// How many zero-initialized local slots every frame made by `Call` gets.
/// The subroutine table carries entry addresses only, so all callees share
/// one declared local-storage size.
pub const CALLEE_LOCALS: usize = 4;

/// The reason a run ended in a trap. A trap ends the current run with a
/// diagnostic; it never aborts the host process.
#[derive(Clone, Copy, Debug, PartialEq, Eq, Structural)]
pub enum TrapKind {
    /// A consuming opcode found fewer operand-stack values than it needs.
    StackUnderflow,
    /// `Ret` found the operand stack empty, so there is no return-address
    /// slot to consume.
    ReturnStackEmpty,
    /// The frame stack was empty where an active frame was needed; an
    /// internal-invariant break, surfaced as a trap rather than an abort.
    FrameStackEmpty,
    /// `Load` or `Store` referenced a local slot the active frame does not
    /// have.
    LocalOutOfBounds,
    /// The instruction carries fewer immediate operands than its opcode
    /// reads.
    MissingOperand,
    /// `Call` named a subroutine id that the subroutine table does not
    /// resolve.
    UnknownSubroutine,
    /// `Div` or `Mod` with divisor zero.
    DivisionByZero,
    /// A redirection (`Jump`, a taken `JumpCond`, a `Call` entry, a return
    /// address) does not point at a program address.
    PcOutOfBounds,
    /// Execution fell off the end of the program without an explicit `Ret`;
    /// treated as a trap rather than silent success, so malformed programs
    /// are not masked.
    UnexpectedEnd,
}

/// How a run ended: normal termination, or a trap with its kind and the
/// address of the failing instruction.
#[derive(Clone, Copy, Debug, PartialEq, Eq, Structural)]
pub enum RunOutcome {
    /// The root frame returned. `final_pc` is the value its `Ret` consumed
    /// from the operand stack, observable as the final program counter.
    Halted { final_pc: usize },
    /// A runtime error of kind `kind` at program address `pc`.
    Trapped { kind: TrapKind, pc: usize },
}

/// The mutable machine state: program counter, operand stack and frame
/// stack. The program and the subroutine table are read-only during a run
/// and stand apart.
pub struct MachineState {
    pub pc: int,
    pub stack: Seq<i32>,
    pub frames: Seq<FrameModel>,
}

/// What one fetch-decode-execute transition yields: the machine keeps
/// running in a new state, or it is done, with the state at the moment it
/// finished and the outcome.
pub enum StepOutcome {
    Running(MachineState),
    Done(MachineState, RunOutcome),
}

/// A trap of kind `k` at the current instruction: the machine state is left
/// exactly as it was.
pub open spec fn trapped(s: MachineState, k: TrapKind) -> StepOutcome {
    StepOutcome::Done(s, RunOutcome::Trapped { kind: k, pc: s.pc as usize })
}

/// The value a unary arithmetic opcode pushes for popped value `v`.
pub open spec fn unary_result(op: Opcode, v: i32) -> i32 {
    match op {
        Opcode::Incr => v.wrapping_add(1),
        _ => v.wrapping_sub(1),
    }
}

/// The value a binary opcode pushes for popped values `a` (lower) and `b`
/// (top). For `Div` and `Mod` this is the wrapping quotient or remainder;
/// the divisor-zero case traps before this is consulted.
pub open spec fn binary_result(op: Opcode, a: i32, b: i32) -> i32 {
    match op {
        Opcode::Add => a.wrapping_add(b),
        Opcode::Sub => a.wrapping_sub(b),
        Opcode::Mul => a.wrapping_mul(b),
        Opcode::Div => match a.checked_div(b) {
            Some(q) => q,
            None => i32::MIN,
        },
        Opcode::Mod => match a.checked_rem(b) {
            Some(m) => m,
            None => 0,
        },
        Opcode::Eq => if a == b { 1 } else { 0 },
        Opcode::Neq => if a != b { 1 } else { 0 },
        Opcode::Gt => if a > b { 1 } else { 0 },
        Opcode::Gte => if a >= b { 1 } else { 0 },
        Opcode::Lt => if a < b { 1 } else { 0 },
        Opcode::Lte => if a <= b { 1 } else { 0 },
        Opcode::BitwiseAnd => a & b,
        Opcode::BitwiseOr => a | b,
        Opcode::BitwiseXor => a ^ b,
        Opcode::ShiftLeft => a.wrapping_shl((b & 31) as u32),
        _ => a.wrapping_shr((b & 31) as u32),
    }
}

/// Whether an opcode pops two values and pushes one.
pub open spec fn is_binary(op: Opcode) -> bool {
    match op {
        Opcode::Add | Opcode::Sub | Opcode::Mul | Opcode::Div | Opcode::Mod | Opcode::Eq
            | Opcode::Neq | Opcode::Gt | Opcode::Gte | Opcode::Lt | Opcode::Lte
            | Opcode::BitwiseAnd | Opcode::BitwiseOr | Opcode::BitwiseXor | Opcode::ShiftLeft
            | Opcode::ShiftRight => true,
        _ => false,
    }
}

/// One fetch-decode-execute transition of the machine over program `prog`
/// and subroutine table `table`.
///
/// Fetching past the end of the program traps with `UnexpectedEnd`. Each
/// opcode first checks what it reads — immediate operands, the active
/// frame's local bounds, the operand-stack depth — and traps without
/// touching the state if a check fails. `Call` pushes the return address
/// `pc + 1` onto the operand stack and records it in the callee's activation
/// record; `Ret` consumes one operand-stack slot and resumes at the address
/// recorded in the record it pops, or halts the machine when the popped
/// record is the root frame, with the consumed value as the observed final
/// program counter.
pub open spec fn step(prog: Seq<BytecodeModel>, table: Map<i32, i32>, s: MachineState) -> StepOutcome {
    if !(0 <= s.pc < prog.len()) {
        trapped(s, TrapKind::UnexpectedEnd)
    } else {
        let i = prog[s.pc];
        match i.opcode {
            Opcode::Push => if i.operands.len() < 1 {
                trapped(s, TrapKind::MissingOperand)
            } else {
                StepOutcome::Running(
                    MachineState { pc: s.pc + 1, stack: s.stack.push(i.operands[0]), ..s },
                )
            },
            Opcode::Pop => if s.stack.len() < 1 {
                trapped(s, TrapKind::StackUnderflow)
            } else {
                StepOutcome::Running(
                    MachineState { pc: s.pc + 1, stack: s.stack.drop_last(), ..s },
                )
            },
            Opcode::Pop2 => if s.stack.len() < 2 {
                trapped(s, TrapKind::StackUnderflow)
            } else {
                StepOutcome::Running(
                    MachineState {
                        pc: s.pc + 1,
                        stack: s.stack.drop_last().drop_last(),
                        ..s
                    },
                )
            },
            Opcode::Load => if i.operands.len() < 1 {
                trapped(s, TrapKind::MissingOperand)
            } else if s.frames.len() < 1 {
                trapped(s, TrapKind::FrameStackEmpty)
            } else if !local_index_ok(i.operands[0], s.frames.last().locals.len()) {
                trapped(s, TrapKind::LocalOutOfBounds)
            } else {
                StepOutcome::Running(
                    MachineState {
                        pc: s.pc + 1,
                        stack: s.stack.push(s.frames.last().locals[i.operands[0] as int]),
                        ..s
                    },
                )
            },
            Opcode::Store => if i.operands.len() < 1 {
                trapped(s, TrapKind::MissingOperand)
            } else if s.frames.len() < 1 {
                trapped(s, TrapKind::FrameStackEmpty)
            } else if !local_index_ok(i.operands[0], s.frames.last().locals.len()) {
                trapped(s, TrapKind::LocalOutOfBounds)
            } else if s.stack.len() < 1 {
                trapped(s, TrapKind::StackUnderflow)
            } else {
                StepOutcome::Running(
                    MachineState {
                        pc: s.pc + 1,
                        stack: s.stack.drop_last(),
                        frames: s.frames.drop_last().push(
                            FrameModel {
                                locals: s.frames.last().locals.update(
                                    i.operands[0] as int,
                                    s.stack.last(),
                                ),
                                ..s.frames.last()
                            },
                        ),
                    },
                )
            },
            Opcode::Jump => if i.operands.len() < 1 {
                trapped(s, TrapKind::MissingOperand)
            } else if !(0 <= i.operands[0] < prog.len()) {
                trapped(s, TrapKind::PcOutOfBounds)
            } else {
                StepOutcome::Running(MachineState { pc: i.operands[0] as int, ..s })
            },
            Opcode::JumpCond => if i.operands.len() < 1 {
                trapped(s, TrapKind::MissingOperand)
            } else if s.stack.len() < 1 {
                trapped(s, TrapKind::StackUnderflow)
            } else if s.stack.last() == 0 {
                StepOutcome::Running(
                    MachineState { pc: s.pc + 1, stack: s.stack.drop_last(), ..s },
                )
            } else if !(0 <= i.operands[0] < prog.len()) {
                trapped(s, TrapKind::PcOutOfBounds)
            } else {
                StepOutcome::Running(
                    MachineState { pc: i.operands[0] as int, stack: s.stack.drop_last(), ..s },
                )
            },
            Opcode::Call => if i.operands.len() < 1 {
                trapped(s, TrapKind::MissingOperand)
            } else if !table.contains_key(i.operands[0]) {
                trapped(s, TrapKind::UnknownSubroutine)
            } else if s.pc + 1 > i32::MAX {
                trapped(s, TrapKind::PcOutOfBounds)
            } else if !(0 <= table[i.operands[0]] < prog.len()) {
                trapped(s, TrapKind::PcOutOfBounds)
            } else {
                StepOutcome::Running(
                    MachineState {
                        pc: table[i.operands[0]] as int,
                        stack: s.stack.push((s.pc + 1) as i32),
                        frames: s.frames.push(
                            FrameModel {
                                args: Seq::<i32>::empty(),
                                locals: Seq::new(CALLEE_LOCALS as nat, |k: int| 0i32),
                                start_addr: table[i.operands[0]],
                                ret_addr: s.pc + 1,
                            },
                        ),
                    },
                )
            },
            Opcode::Ret => if s.stack.len() < 1 {
                trapped(s, TrapKind::ReturnStackEmpty)
            } else if s.frames.len() < 1 {
                trapped(s, TrapKind::FrameStackEmpty)
            } else if s.frames.len() == 1 {
                if s.stack.last() < 0 {
                    trapped(s, TrapKind::PcOutOfBounds)
                } else {
                    StepOutcome::Done(
                        MachineState {
                            pc: s.stack.last() as int,
                            stack: s.stack.drop_last(),
                            frames: s.frames.drop_last(),
                        },
                        RunOutcome::Halted { final_pc: s.stack.last() as usize },
                    )
                }
            } else {
                StepOutcome::Running(
                    MachineState {
                        pc: s.frames.last().ret_addr,
                        stack: s.stack.drop_last(),
                        frames: s.frames.drop_last(),
                    },
                )
            },
            Opcode::Incr | Opcode::Decr => if s.stack.len() < 1 {
                trapped(s, TrapKind::StackUnderflow)
            } else {
                StepOutcome::Running(
                    MachineState {
                        pc: s.pc + 1,
                        stack: s.stack.drop_last().push(unary_result(i.opcode, s.stack.last())),
                        ..s
                    },
                )
            },
            _ => if s.stack.len() < 2 {
                trapped(s, TrapKind::StackUnderflow)
            } else if (i.opcode is Div || i.opcode is Mod) && s.stack.last() == 0 {
                trapped(s, TrapKind::DivisionByZero)
            } else {
                StepOutcome::Running(
                    MachineState {
                        pc: s.pc + 1,
                        stack: s.stack.drop_last().drop_last().push(
                            binary_result(
                                i.opcode,
                                s.stack[s.stack.len() - 2],
                                s.stack.last(),
                            ),
                        ),
                        ..s
                    },
                )
            },
        }
    }
}

/// The machine after at most `n` transitions from `s`: still running in some
/// state, or done with an outcome. Once a transition finishes, further fuel
/// changes nothing.
pub open spec fn run_for(
    prog: Seq<BytecodeModel>,
    table: Map<i32, i32>,
    s: MachineState,
    n: nat,
) -> StepOutcome
    decreases n,
{
    if n == 0 {
        StepOutcome::Running(s)
    } else {
        match step(prog, table, s) {
            StepOutcome::Running(s2) => run_for(prog, table, s2, (n - 1) as nat),
            done => done,
        }
    }
}

/// Splitting a bounded run: `a + b` transitions are `a` transitions and then
/// `b` more from wherever those ended.
pub proof fn lemma_run_for_compose(
    prog: Seq<BytecodeModel>,
    table: Map<i32, i32>,
    s: MachineState,
    a: nat,
    b: nat,
)
    ensures
        run_for(prog, table, s, a + b) == match run_for(prog, table, s, a) {
            StepOutcome::Running(s2) => run_for(prog, table, s2, b),
            done => done,
        },
    decreases a,
{
    if a > 0 {
        match step(prog, table, s) {
            StepOutcome::Running(s2) => {
                lemma_run_for_compose(prog, table, s2, (a - 1) as nat, b);
                assert(a + b - 1 == (a - 1) as nat + b);
            },
            StepOutcome::Done(_, _) => {},
        }
    }
}

/// A bounded run of one transition is the step function itself.
pub proof fn lemma_run_for_one(prog: Seq<BytecodeModel>, table: Map<i32, i32>, s: MachineState)
    ensures
        run_for(prog, table, s, 1) == step(prog, table, s),
{
    reveal_with_fuel(run_for, 2);
    match step(prog, table, s) {
        StepOutcome::Running(s2) => {
            assert(run_for(prog, table, s2, 0) == StepOutcome::Running(s2));
        },
        StepOutcome::Done(_, _) => {},
    }
}

/// A finished run stays finished: extra fuel does not change the outcome.
pub proof fn lemma_run_for_extend(
    prog: Seq<BytecodeModel>,
    table: Map<i32, i32>,
    s: MachineState,
    n: nat,
    m: nat,
)
    requires
        n <= m,
        run_for(prog, table, s, n) is Done,
    ensures
        run_for(prog, table, s, m) == run_for(prog, table, s, n),
{
    lemma_run_for_compose(prog, table, s, n, (m - n) as nat);
    assert(m == n + (m - n) as nat);
}

/// The mathematical image of a frame stack.
pub open spec fn frames_model(fs: Seq<StackFrame>) -> Seq<FrameModel> {
    fs.map_values(|f: StackFrame| f@)
}

/// The mathematical image of a program.
pub open spec fn prog_model(instrs: Seq<Bytecode>) -> Seq<BytecodeModel> {
    instrs.map_values(|b: Bytecode| b@)
}

/// The engine: single owner of the program counter, the operand stack and
/// the frame stack, over a read-only program and subroutine table.
#[derive(Debug)]
pub struct Interpreter {
    /// The program counter. After a halt it holds the observed final
    /// address; after a trap, the failing address.
    pub pc: usize,
    /// The operand stack; the last element is the top.
    pub stack: Vec<i32>,
    /// The frame stack; the last element is the active frame.
    pub frames: Vec<StackFrame>,
    /// The program: addressed by position, read-only during a run.
    pub instructions: Vec<Bytecode>,
    /// Subroutine id to entry address, read-only during a run.
    pub func_registers: HashMap<i32, i32>,
}

impl Interpreter {
    /// The program, as the step function sees it.
    pub open spec fn prog(&self) -> Seq<BytecodeModel> {
        prog_model(self.instructions@)
    }

    /// The subroutine table, as the step function sees it.
    pub open spec fn table(&self) -> Map<i32, i32> {
        self.func_registers@
    }

    /// The mutable machine state, as the step function sees it.
    pub open spec fn state(&self) -> MachineState {
        MachineState {
            pc: self.pc as int,
            stack: self.stack@,
            frames: frames_model(self.frames@),
        }
    }

    /// An engine at program counter 0 with an empty operand stack, whose
    /// frame stack holds exactly the given root frame.
    pub fn new(
        initial_frame: StackFrame,
        instructions: Vec<Bytecode>,
        func_registers: HashMap<i32, i32>,
    ) -> (r: Interpreter)
        ensures
            r.state() == (MachineState {
                pc: 0,
                stack: Seq::<i32>::empty(),
                frames: seq![initial_frame@],
            }),
            r.prog() == prog_model(instructions@),
            r.table() == func_registers@,
    {
        let mut frames: Vec<StackFrame> = Vec::new();
        frames.push(initial_frame);
        let r = Interpreter { pc: 0, stack: Vec::new(), frames, instructions, func_registers };
        proof {
            assert(r.state().frames =~= seq![initial_frame@]);
        }
        r
    }

    /// Runs the fetch-decode-execute loop for at most `budget` transitions:
    /// exactly the iterated step function. `Some` is the outcome the machine
    /// reached within the budget, `None` means it is still running after
    /// `budget` transitions; either way the engine's final state is the
    /// model's. The budget is the bounded-execution hook: a run that ends by
    /// `Ret` from the root frame halts, every runtime error is a trap, and
    /// the host process is never aborted.
    pub fn run(&mut self, budget: u64) -> (r: Option<RunOutcome>)
        ensures
            final(self).prog() == old(self).prog(),
            final(self).table() == old(self).table(),
            match r {
                Some(o) => run_for(
                    old(self).prog(),
                    old(self).table(),
                    old(self).state(),
                    budget as nat,
                ) == StepOutcome::Done(final(self).state(), o),
                None => run_for(
                    old(self).prog(),
                    old(self).table(),
                    old(self).state(),
                    budget as nat,
                ) == StepOutcome::Running(final(self).state()),
            },
    {
        let ghost prog = self.prog();
        let ghost table = self.table();
        let ghost s0 = self.state();
        let mut fuel: u64 = budget;
        while fuel > 0
            invariant
                fuel <= budget,
                prog == old(self).prog(),
                table == old(self).table(),
                s0 == old(self).state(),
                self.prog() == prog,
                self.table() == table,
                run_for(prog, table, s0, (budget - fuel) as nat) == StepOutcome::Running(
                    self.state(),
                ),
            decreases fuel,
        {
            let ghost done_steps = (budget - fuel) as nat;
            let ghost cur = self.state();
            let outcome = self.step_once();
            proof {
                lemma_run_for_compose(prog, table, s0, done_steps, 1);
                lemma_run_for_one(prog, table, cur);
                assert(done_steps + 1 == (budget - (fuel - 1)) as nat);
            }
            match outcome {
                Some(o) => {
                    proof {
                        lemma_run_for_extend(
                            prog,
                            table,
                            s0,
                            done_steps + 1,
                            budget as nat,
                        );
                    }
                    return Some(o);
                },
                None => {},
            }
            fuel = fuel - 1;
        }
        None
    }

    /// One fetch-decode-execute transition: exactly the step function.
    /// `Some` means the machine finished on this transition.
    #[verifier::rlimit(100)]
    fn step_once(&mut self) -> (r: Option<RunOutcome>)
        ensures
            final(self).prog() == old(self).prog(),
            final(self).table() == old(self).table(),
            match r {
                Some(o) => step(old(self).prog(), old(self).table(), old(self).state())
                    == StepOutcome::Done(final(self).state(), o),
                None => step(old(self).prog(), old(self).table(), old(self).state())
                    == StepOutcome::Running(final(self).state()),
            },
    {
        let ghost prog = self.prog();
        let ghost table = self.table();
        let ghost s = self.state();
        if self.pc >= self.instructions.len() {
            return Some(RunOutcome::Trapped { kind: TrapKind::UnexpectedEnd, pc: self.pc });
        }
        proof {
            assert(prog[s.pc] == self.instructions@[s.pc]@);
        }
        let op = self.instructions[self.pc].opcode;
        let n_operands = self.instructions[self.pc].operands.len();
        match op {
            Opcode::Push => {
                if n_operands < 1 {
                    return self.trap(TrapKind::MissingOperand);
                }
                let v = self.instructions[self.pc].operands[0];
                self.stack.push(v);
                self.pc = self.pc + 1;
                None
            },
            Opcode::Pop => {
                if self.stack.len() < 1 {
                    return self.trap(TrapKind::StackUnderflow);
                }
                self.stack.pop();
                self.pc = self.pc + 1;
                None
            },
            Opcode::Pop2 => {
                if self.stack.len() < 2 {
                    return self.trap(TrapKind::StackUnderflow);
                }
                self.stack.pop();
                self.stack.pop();
                self.pc = self.pc + 1;
                None
            },
            Opcode::Load => {
                if n_operands < 1 {
                    return self.trap(TrapKind::MissingOperand);
                }
                if self.frames.len() < 1 {
                    return self.trap(TrapKind::FrameStackEmpty);
                }
                let idx = self.instructions[self.pc].operands[0];
                let active = self.frames.len() - 1;
                if !(idx >= 0 && (idx as usize) < self.frames[active].locals.len()) {
                    return self.trap(TrapKind::LocalOutOfBounds);
                }
                let v = self.frames[active].locals[idx as usize];
                self.stack.push(v);
                self.pc = self.pc + 1;
                None
            },
            Opcode::Store => {
                if n_operands < 1 {
                    return self.trap(TrapKind::MissingOperand);
                }
                if self.frames.len() < 1 {
                    return self.trap(TrapKind::FrameStackEmpty);
                }
                let idx = self.instructions[self.pc].operands[0];
                let active = self.frames.len() - 1;
                if !(idx >= 0 && (idx as usize) < self.frames[active].locals.len()) {
                    return self.trap(TrapKind::LocalOutOfBounds);
                }
                if self.stack.len() < 1 {
                    return self.trap(TrapKind::StackUnderflow);
                }
                let v = self.stack.pop().unwrap();
                let mut frame = self.frames.pop().unwrap();
                frame.locals[idx as usize] = v;
                self.frames.push(frame);
                self.pc = self.pc + 1;
                proof {
                    assert(self.state().frames =~= step_frames(prog, table, s));
                }
                None
            },
            Opcode::Jump => {
                if n_operands < 1 {
                    return self.trap(TrapKind::MissingOperand);
                }
                let target = self.instructions[self.pc].operands[0];
                if !(target >= 0 && (target as usize) < self.instructions.len()) {
                    return self.trap(TrapKind::PcOutOfBounds);
                }
                self.pc = target as usize;
                None
            },
            Opcode::JumpCond => {
                if n_operands < 1 {
                    return self.trap(TrapKind::MissingOperand);
                }
                if self.stack.len() < 1 {
                    return self.trap(TrapKind::StackUnderflow);
                }
                let cond = self.stack[self.stack.len() - 1];
                if cond == 0 {
                    self.stack.pop();
                    self.pc = self.pc + 1;
                    return None;
                }
                let target = self.instructions[self.pc].operands[0];
                if !(target >= 0 && (target as usize) < self.instructions.len()) {
                    return self.trap(TrapKind::PcOutOfBounds);
                }
                self.stack.pop();
                self.pc = target as usize;
                None
            },
            Opcode::Call => {
                if n_operands < 1 {
                    return self.trap(TrapKind::MissingOperand);
                }
                let id = self.instructions[self.pc].operands[0];
                let entry = match self.func_registers.get(&id) {
                    Some(e) => *e,
                    None => return self.trap(TrapKind::UnknownSubroutine),
                };
                if self.pc >= i32::MAX as usize {
                    return self.trap(TrapKind::PcOutOfBounds);
                }
                if !(entry >= 0 && (entry as usize) < self.instructions.len()) {
                    return self.trap(TrapKind::PcOutOfBounds);
                }
                let ret_addr = self.pc + 1;
                self.stack.push(ret_addr as i32);
                self.frames.push(StackFrame::for_call(CALLEE_LOCALS, entry, ret_addr));
                self.pc = entry as usize;
                proof {
                    assert(self.state().frames =~= step_frames(prog, table, s));
                }
                None
            },
            Opcode::Ret => {
                if self.stack.len() < 1 {
                    return self.trap(TrapKind::ReturnStackEmpty);
                }
                if self.frames.len() < 1 {
                    return self.trap(TrapKind::FrameStackEmpty);
                }
                let v = self.stack[self.stack.len() - 1];
                if self.frames.len() == 1 {
                    if v < 0 {
                        return self.trap(TrapKind::PcOutOfBounds);
                    }
                    self.stack.pop();
                    self.frames.pop();
                    self.pc = v as usize;
                    proof {
                        assert(self.state().frames =~= s.frames.drop_last());
                    }
                    return Some(RunOutcome::Halted { final_pc: self.pc });
                }
                let frame = self.frames.pop().unwrap();
                self.stack.pop();
                self.pc = frame.ret_addr;
                proof {
                    assert(self.state().frames =~= s.frames.drop_last());
                }
                None
            },
            Opcode::Incr | Opcode::Decr => {
                if self.stack.len() < 1 {
                    return self.trap(TrapKind::StackUnderflow);
                }
                let v = self.stack.pop().unwrap();
                let r = if matches!(op, Opcode::Incr) {
                    v.wrapping_add(1)
                } else {
                    v.wrapping_sub(1)
                };
                self.stack.push(r);
                self.pc = self.pc + 1;
                None
            },
            _ => {
                if self.stack.len() < 2 {
                    return self.trap(TrapKind::StackUnderflow);
                }
                let b = self.stack[self.stack.len() - 1];
                if matches!(op, Opcode::Div | Opcode::Mod) && b == 0 {
                    return self.trap(TrapKind::DivisionByZero);
                }
                self.stack.pop();
                let a = self.stack.pop().unwrap();
                let r = binary_exec(op, a, b);
                self.stack.push(r);
                self.pc = self.pc + 1;
                None
            },
        }
    }

    /// Ends the transition with a trap of kind `k` at the current
    /// instruction, leaving the machine state untouched.
    fn trap(&mut self, k: TrapKind) -> (r: Option<RunOutcome>)
        ensures
            *final(self) == *old(self),
            r == Some(RunOutcome::Trapped { kind: k, pc: old(self).pc as usize }),
    {
        Some(RunOutcome::Trapped { kind: k, pc: self.pc })
    }
}

/// The frame stack that the step function yields from `s`; a shorthand for
/// the proofs that relate the engine's frame stack to the model's.
spec fn step_frames(
    prog: Seq<BytecodeModel>,
    table: Map<i32, i32>,
    s: MachineState,
) -> Seq<FrameModel> {
    match step(prog, table, s) {
        StepOutcome::Running(s2) => s2.frames,
        StepOutcome::Done(f, _) => f.frames,
    }
}

/// Executable counterpart of [`binary_result`]. For `Div` and `Mod` the
/// divisor-zero case never reaches this (the engine traps first); the
/// quotient of `i32::MIN` by `-1` wraps to `i32::MIN` and the corresponding
/// remainder is `0`.
fn binary_exec(op: Opcode, a: i32, b: i32) -> (r: i32)
    requires
        (op is Div || op is Mod) ==> b != 0,
        is_binary(op),
    ensures
        r == binary_result(op, a, b),
{
    match op {
        Opcode::Add => a.wrapping_add(b),
        Opcode::Sub => a.wrapping_sub(b),
        Opcode::Mul => a.wrapping_mul(b),
        Opcode::Div => match a.checked_div(b) {
            Some(q) => q,
            None => i32::MIN,
        },
        Opcode::Mod => match a.checked_rem(b) {
            Some(m) => m,
            None => 0,
        },
        Opcode::Eq => if a == b { 1 } else { 0 },
        Opcode::Neq => if a != b { 1 } else { 0 },
        Opcode::Gt => if a > b { 1 } else { 0 },
        Opcode::Gte => if a >= b { 1 } else { 0 },
        Opcode::Lt => if a < b { 1 } else { 0 },
        Opcode::Lte => if a <= b { 1 } else { 0 },
        Opcode::BitwiseAnd => a & b,
        Opcode::BitwiseOr => a | b,
        Opcode::BitwiseXor => a ^ b,
        Opcode::ShiftLeft => {
            assert(b & 31 >= 0 && b & 31 < 32) by (bit_vector);
            a.wrapping_shl((b & 31) as u32)
        },
        _ => {
            assert(b & 31 >= 0 && b & 31 < 32) by (bit_vector);
            a.wrapping_shr((b & 31) as u32)
        },
    }
}

} // verus!
