use vstd::prelude::*;

use crate::code::Code;
use crate::instruction::Instruction;
use crate::ops;
use crate::ops::{pc_room, result_view, step_spec};
use crate::state::{State, StateView};

verus! {

/// Why an instruction could not be executed.
#[derive(Clone, Copy, Debug, PartialEq, Eq, Structural)]
pub enum MachineError {
    InsufficientArguments,
    OutOfBounds,
    StackFull,
    StackEmpty,
    ArithmeticOverflow,
    IllegalInstruction,
}

/// Where a run stands after some number of fetch-and-step rounds.
pub enum Progress {
    /// Still running, in this state.
    Running(StateView),
    /// Stopped normally, by `Halt` or by leaving the program, in this state.
    Stopped(StateView),
    /// A step failed with this error; the state is the last good one.
    Failed(StateView, MachineError),
}

/// One round of the run loop on `prog` from `s`.
pub open spec fn round(prog: Seq<Instruction>, s: StateView) -> Progress {
    if s.pc >= prog.len() {
        Progress::Stopped(s)
    } else {
        let i = prog[s.pc as int];
        match step_spec(s, i) {
            Err(e) => Progress::Failed(s, e),
            Ok(t) => if i == Instruction::Halt {
                Progress::Stopped(t)
            } else {
                Progress::Running(t)
            },
        }
    }
}

/// Where a run of `prog` from `s` stands after `k` rounds.
pub open spec fn rounds(prog: Seq<Instruction>, s: StateView, k: nat) -> Progress
    decreases k,
{
    if k == 0 {
        Progress::Running(s)
    } else {
        match rounds(prog, s, (k - 1) as nat) {
            Progress::Running(t) => round(prog, t),
            other => other,
        }
    }
}

/// `r` and `last` are what a run of `prog` from `s` gives: it stopped or
/// failed within at most `u64::MAX` rounds, or ran for `u64::MAX` rounds.
pub open spec fn run_outcome(
    prog: Seq<Instruction>,
    s: StateView,
    r: Result<StateView, MachineError>,
    last: StateView,
) -> bool {
    exists|k: nat|
        k <= u64::MAX && match #[trigger] rounds(prog, s, k) {
            Progress::Stopped(t) => r == Ok::<StateView, MachineError>(t) && last == t,
            Progress::Failed(t, e) => r == Err::<StateView, MachineError>(e) && last == t,
            Progress::Running(t) => k == u64::MAX && r == Ok::<StateView, MachineError>(t)
                && last == t,
        }
}

/// Once a run has stopped or failed, further rounds change nothing.
pub proof fn lemma_rounds_settled(prog: Seq<Instruction>, s: StateView, j: nat, k: nat)
    requires
        j <= k,
        !(rounds(prog, s, j) is Running),
    ensures
        rounds(prog, s, k) == rounds(prog, s, j),
    decreases k,
{
    if j < k {
        lemma_rounds_settled(prog, s, j, (k - 1) as nat);
    }
}

/// A run has exactly one outcome: `run_outcome` fixes both the result and
/// the state left behind.
pub proof fn lemma_run_outcome_unique(
    prog: Seq<Instruction>,
    s: StateView,
    r1: Result<StateView, MachineError>,
    last1: StateView,
    r2: Result<StateView, MachineError>,
    last2: StateView,
)
    requires
        run_outcome(prog, s, r1, last1),
        run_outcome(prog, s, r2, last2),
    ensures
        r1 == r2,
        last1 == last2,
{
    let k1 = choose|k: nat|
        k <= u64::MAX && match #[trigger] rounds(prog, s, k) {
            Progress::Stopped(t) => r1 == Ok::<StateView, MachineError>(t) && last1 == t,
            Progress::Failed(t, e) => r1 == Err::<StateView, MachineError>(e) && last1 == t,
            Progress::Running(t) => k == u64::MAX && r1 == Ok::<StateView, MachineError>(t)
                && last1 == t,
        };
    let k2 = choose|k: nat|
        k <= u64::MAX && match #[trigger] rounds(prog, s, k) {
            Progress::Stopped(t) => r2 == Ok::<StateView, MachineError>(t) && last2 == t,
            Progress::Failed(t, e) => r2 == Err::<StateView, MachineError>(e) && last2 == t,
            Progress::Running(t) => k == u64::MAX && r2 == Ok::<StateView, MachineError>(t)
                && last2 == t,
        };
    if !(rounds(prog, s, k1) is Running) && !(rounds(prog, s, k2) is Running) {
        if k1 <= k2 {
            lemma_rounds_settled(prog, s, k1, k2);
        } else {
            lemma_rounds_settled(prog, s, k2, k1);
        }
    } else if !(rounds(prog, s, k1) is Running) {
        lemma_rounds_settled(prog, s, k1, k2);
    } else if !(rounds(prog, s, k2) is Running) {
        lemma_rounds_settled(prog, s, k2, k1);
    }
}

/// A program together with the state it runs on.
#[derive(Clone, Debug)]
pub struct Machine {
    pub state: State,
    pub prog: Code,
}

impl Machine {
    pub open spec fn wf(&self) -> bool {
        self.state.wf()
    }

    /// A machine about to run `prog` from the initial state.
    pub fn new(prog: Code) -> (r: Self)
        ensures
            r.state@ == StateView::initial(),
            r.prog@ == prog@,
            r.wf(),
    {
        Machine { state: State::new(), prog }
    }

    /// Executes one instruction on `state`.
    pub fn step(state: State, instruction: Instruction) -> (r: Result<State, MachineError>)
        requires
            state.wf(),
            pc_room(state@, instruction),
        ensures
            result_view(r) == step_spec(state@, instruction),
            r is Ok ==> r->Ok_0.wf(),
    {
        proof {
            crate::laws::lemma_step_keeps_depth_bound(state@, instruction);
        }
        match instruction {
            Instruction::Nop => ops::nop(state),
            Instruction::Halt => ops::halt(state),
            Instruction::Load => ops::load(state),
            Instruction::Store => ops::store(state),
            Instruction::Push => ops::push(state),
            Instruction::Pop => ops::pop(state),
            Instruction::SetReg(x) => ops::set(x, state),
            Instruction::Read => ops::read(state),
            Instruction::Write => ops::write(state),
            Instruction::Jump => ops::jump(state),
            Instruction::Add => ops::add(state),
            Instruction::Sub => ops::sub(state),
            Instruction::Mul => ops::mul(state),
            Instruction::Div => ops::div(state),
            Instruction::Mod => ops::modulo(state),
            Instruction::Cmp => ops::cmp(state),
            Instruction::And => ops::and(state),
            Instruction::Or => ops::or(state),
            Instruction::Not => ops::not(state),
            Instruction::Xor => ops::xor(state),
            _ => Err(MachineError::IllegalInstruction),
        }
    }

    /// Runs the program from the current state until it halts, leaves the
    /// program, or a step fails; a program that does none of these is
    /// stopped after `u64::MAX` rounds. On failure `state` keeps the last
    /// good state.
    pub fn run(&mut self) -> (r: Result<State, MachineError>)
        requires
            old(self).wf(),
        ensures
            final(self).wf(),
            final(self).prog@ == old(self).prog@,
            run_outcome(old(self).prog@, old(self).state@, result_view(r), final(self).state@),
    {
        self.run_callback(|_s: State, _i: Instruction| {})
    }

    /// Like `run`, and hands `f` the new state and the instruction after
    /// every step that succeeds.
    pub fn run_callback<F: Fn(State, Instruction)>(&mut self, f: F) -> (r: Result<
        State,
        MachineError,
    >)
        requires
            old(self).wf(),
            forall|s: State, i: Instruction| f.requires((s, i)),
        ensures
            final(self).wf(),
            final(self).prog@ == old(self).prog@,
            run_outcome(old(self).prog@, old(self).state@, result_view(r), final(self).state@),
    {
        let len: usize = self.prog.0.len();
        let mut rounds_done: u64 = 0;
        while rounds_done < u64::MAX
            invariant
                self.wf(),
                self.prog@ == old(self).prog@,
                len == old(self).prog@.len(),
                forall|s: State, i: Instruction| f.requires((s, i)),
                rounds(old(self).prog@, old(self).state@, rounds_done as nat) == Progress::Running(self.state@),
            decreases u64::MAX - rounds_done,
        {
            let curr_pos: u64 = self.state.pc;
            if curr_pos >= len as u64 {
                proof {
                    assert(rounds(old(self).prog@, old(self).state@, (rounds_done + 1) as nat) == Progress::Stopped(
                        self.state@,
                    ));
                }
                return Ok(self.state.clone());
            }
            let curr_instruction: Instruction = self.prog.0[curr_pos as usize];
            let new_state: State = match Machine::step(self.state.clone(), curr_instruction) {
                Ok(t) => t,
                Err(e) => {
                    proof {
                        assert(rounds(old(self).prog@, old(self).state@, (rounds_done + 1) as nat) == Progress::Failed(
                            self.state@,
                            e,
                        ));
                    }
                    return Err(e);
                },
            };
            f(new_state.clone(), curr_instruction);
            self.state = new_state;
            if curr_instruction == Instruction::Halt {
                proof {
                    assert(rounds(old(self).prog@, old(self).state@, (rounds_done + 1) as nat) == Progress::Stopped(
                        self.state@,
                    ));
                }
                return Ok(self.state.clone());
            }
            rounds_done = rounds_done + 1;
        }
        Ok(self.state.clone())
    }
}

} // verus!
