use vstd::prelude::*;

use crate::types::Word;

verus! {

/// Largest number of words the operand stack may hold.
pub const MAX_STACK_DEPTH: usize = 65535;

/// Why a stack operation was refused.
#[derive(Clone, Copy, Debug, PartialEq, Eq, Structural)]
pub enum StackError {
    Full,
    Empty,
}

/// Bounded last-in-first-out store of words; the last element of the
/// vector is the top of the stack.
#[derive(Debug, PartialEq, Eq)]
pub struct Stack(pub Vec<Word>);

impl View for Stack {
    type V = Seq<Word>;

    open spec fn view(&self) -> Seq<Word> {
        self.0@
    }
}

impl Clone for Stack {
    fn clone(&self) -> (r: Self)
        ensures
            r@ == self@,
    {
        let v = self.0.clone();
        proof {
            assert(v@ =~= self.0@);
        }
        Stack(v)
    }
}

impl Default for Stack {
    fn default() -> (r: Self)
        ensures
            r@ == Seq::<Word>::empty(),
    {
        Stack::new()
    }
}

impl Stack {
    /// The stack never holds more than `MAX_STACK_DEPTH` words.
    pub open spec fn wf(&self) -> bool {
        self@.len() <= MAX_STACK_DEPTH
    }

    pub fn new() -> (r: Self)
        ensures
            r@ == Seq::<Word>::empty(),
            r.wf(),
    {
        Stack(Vec::new())
    }

    /// Pushes `elem` and returns the new depth, unless the stack is full.
    pub fn push(&mut self, elem: Word) -> (r: Result<usize, StackError>)
        requires
            old(self).wf(),
        ensures
            final(self).wf(),
            old(self)@.len() == MAX_STACK_DEPTH ==> r == Err::<usize, StackError>(StackError::Full)
                && final(self)@ == old(self)@,
            old(self)@.len() < MAX_STACK_DEPTH ==> r == Ok::<usize, StackError>(
                (old(self)@.len() + 1) as usize,
            ) && final(self)@ == old(self)@.push(elem),
    {
        if self.0.len() == MAX_STACK_DEPTH {
            Err(StackError::Full)
        } else {
            self.0.push(elem);
            Ok(self.0.len())
        }
    }

    /// Removes and returns the top word, unless the stack is empty.
    pub fn pop(&mut self) -> (r: Result<Word, StackError>)
        ensures
            old(self)@.len() == 0 ==> r == Err::<Word, StackError>(StackError::Empty)
                && final(self)@ == old(self)@,
            old(self)@.len() > 0 ==> r == Ok::<Word, StackError>(old(self)@.last())
                && final(self)@ == old(self)@.drop_last(),
    {
        match self.0.pop() {
            Some(v) => Ok(v),
            None => Err(StackError::Empty),
        }
    }

    /// The top word, if any; the stack is left as it is.
    pub fn peek(&self) -> (r: Option<Word>)
        ensures
            self@.len() == 0 ==> r == None::<Word>,
            self@.len() > 0 ==> r == Some(self@.last()),
    {
        if self.0.len() == 0 {
            None
        } else {
            Some(self.0[self.0.len() - 1])
        }
    }

    pub fn depth(&self) -> (r: usize)
        ensures
            r == self@.len(),
    {
        self.0.len()
    }

    pub fn full(&self) -> (r: bool)
        ensures
            r == (self@.len() == MAX_STACK_DEPTH),
    {
        self.0.len() == MAX_STACK_DEPTH
    }

    pub fn empty(&self) -> (r: bool)
        ensures
            r == (self@.len() == 0),
    {
        self.0.is_empty()
    }
}

} // verus!
