use vstd::prelude::*;

use crate::memory::Memory;
use crate::stack::{Stack, MAX_STACK_DEPTH};
use crate::types::Word;

verus! {

/// Mathematical picture of a machine state.
pub struct StateView {
    pub pc: Word,
    pub reg: Word,
    pub stack: Seq<Word>,
    pub memory: Map<Word, Word>,
}

impl StateView {
    /// The state a run starts from: every field zero or empty.
    pub open spec fn initial() -> StateView {
        StateView { pc: 0, reg: 0, stack: Seq::empty(), memory: Map::empty() }
    }

    /// The operand stack holds at most `MAX_STACK_DEPTH` words.
    pub open spec fn wf(self) -> bool {
        self.stack.len() <= MAX_STACK_DEPTH
    }
}

/// Program counter, accumulator register, operand stack and memory.
#[derive(Debug, PartialEq, Eq)]
pub struct State {
    pub pc: Word,
    pub reg: Word,
    pub stack: Stack,
    pub memory: Memory,
}

impl View for State {
    type V = StateView;

    open spec fn view(&self) -> StateView {
        StateView { pc: self.pc, reg: self.reg, stack: self.stack@, memory: self.memory@ }
    }
}

impl Clone for State {
    fn clone(&self) -> (r: Self)
        ensures
            r@ == self@,
    {
        State {
            pc: self.pc,
            reg: self.reg,
            stack: self.stack.clone(),
            memory: self.memory.clone(),
        }
    }
}

impl Default for State {
    fn default() -> (r: Self)
        ensures
            r@ == StateView::initial(),
    {
        State { pc: 0, reg: 0, stack: Stack::new(), memory: Memory::new() }
    }
}

impl State {
    pub open spec fn wf(&self) -> bool {
        self@.wf()
    }

    pub fn new() -> (r: Self)
        ensures
            r@ == StateView::initial(),
            r.wf(),
    {
        State::default()
    }

    pub fn program_counter(&self) -> (r: Word)
        ensures
            r == self.pc,
    {
        self.pc
    }
}

} // verus!
