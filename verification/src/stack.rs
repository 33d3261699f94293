//! The operand stack: a bounded last-in, first-out sequence of words.

use vstd::prelude::*;
use primitive_types::U256;
use crate::error::ExitError;

verus! {

/// The operand stack of a machine. Its view is the sequence of its words, the
/// top last.
#[derive(Clone, Debug)]
pub struct Stack {
    data: Vec<U256>,
    limit: usize,
}

impl View for Stack {
    type V = Seq<U256>;

    closed spec fn view(&self) -> Seq<U256> {
        self.data@
    }
}

impl Stack {
    /// Well-formedness: the stack holds no more words than its limit allows.
    /// Every operation keeps a well-formed stack well-formed.
    pub open spec fn wf(&self) -> bool {
        self@.len() <= self.limit()
    }

    /// The greatest number of words that the stack takes.
    pub closed spec fn spec_limit(&self) -> usize {
        self.limit
    }

    /// An empty stack that takes up to `limit` words.
    pub fn new(limit: usize) -> (stack: Stack)
        ensures
            stack@ == Seq::<U256>::empty(),
            stack.limit() == limit,
            stack.wf(),
    {
        Stack { data: Vec::new(), limit }
    }

    /// The greatest number of words that the stack takes.
    #[verifier::when_used_as_spec(spec_limit)]
    pub fn limit(&self) -> (limit: usize)
        ensures
            limit == self.limit(),
    {
        self.limit
    }

    /// Number of words on the stack.
    pub fn len(&self) -> (len: usize)
        ensures
            len == self@.len(),
    {
        self.data.len()
    }

    /// Whether the stack holds no word.
    pub fn is_empty(&self) -> (empty: bool)
        ensures
            empty == (self@.len() == 0),
    {
        self.data.len() == 0
    }

    /// Puts a word on top. A full stack stays as it is and reports an overflow.
    pub fn push(&mut self, value: U256) -> (r: Result<(), ExitError>)
        ensures
            final(self).limit() == old(self).limit(),
            old(self).wf() ==> final(self).wf(),
            old(self)@.len() < old(self).limit() ==> r == Ok::<(), ExitError>(()) && final(self)@
                == old(self)@.push(value),
            old(self)@.len() >= old(self).limit() ==> r == Err::<(), ExitError>(
                ExitError::StackOverflow,
            ) && final(self)@ == old(self)@,
    {
        if self.data.len() >= self.limit {
            return Err(ExitError::StackOverflow);
        }
        self.data.push(value);
        Ok(())
    }

    /// Takes the top word off. An empty stack reports an underflow.
    pub fn pop(&mut self) -> (r: Result<U256, ExitError>)
        ensures
            final(self).limit() == old(self).limit(),
            old(self).wf() ==> final(self).wf(),
            old(self)@.len() > 0 ==> r == Ok::<U256, ExitError>(old(self)@.last()) && final(self)@
                == old(self)@.drop_last(),
            old(self)@.len() == 0 ==> r == Err::<U256, ExitError>(ExitError::StackUnderflow)
                && final(self)@ == old(self)@,
    {
        match self.data.pop() {
            Some(value) => Ok(value),
            None => Err(ExitError::StackUnderflow),
        }
    }

    /// The word that lies `depth` words below the top, the top being at depth
    /// zero. A stack that is not that deep reports an underflow.
    pub fn peek(&self, depth: usize) -> (r: Result<U256, ExitError>)
        ensures
            depth < self@.len() ==> r == Ok::<U256, ExitError>(self@[self@.len() - 1 - depth]),
            depth >= self@.len() ==> r == Err::<U256, ExitError>(ExitError::StackUnderflow),
    {
        if depth < self.data.len() {
            Ok(self.data[self.data.len() - 1 - depth])
        } else {
            Err(ExitError::StackUnderflow)
        }
    }
}

} // verus!
