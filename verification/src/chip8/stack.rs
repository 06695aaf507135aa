//! The call stack: at most 32 return addresses.

use vstd::prelude::*;
use crate::chip8::state::STACK_DEPTH;

verus! {

/// The call stack. Its view holds the return addresses, the most recent one
/// last.
pub struct Stack {
    stack: [u16; STACK_DEPTH],
    i: usize,
}

impl View for Stack {
    type V = Seq<u16>;

    closed spec fn view(&self) -> Seq<u16> {
        self.stack@.take(self.i as int)
    }
}

impl Stack {
    /// The top-of-stack index does not exceed the capacity.
    pub closed spec fn wf(&self) -> bool {
        self.i <= STACK_DEPTH
    }

    /// A well-formed stack holds at most 32 addresses.
    pub proof fn lemma_depth(&self)
        requires
            self.wf(),
        ensures
            self@.len() <= STACK_DEPTH,
    {
    }

    /// The empty stack.
    pub fn new() -> (stack: Stack)
        ensures
            stack.wf(),
            stack@ == Seq::<u16>::empty(),
    {
        let stack = Stack { stack: [0; STACK_DEPTH], i: 0 };
        assert(stack@ =~= Seq::<u16>::empty());
        stack
    }

    /// The number of addresses on the stack.
    pub fn len(&self) -> (n: usize)
        requires
            self.wf(),
        ensures
            n == self@.len(),
            n <= STACK_DEPTH,
    {
        self.i
    }

    /// Pushes `value`, unless the stack is full.
    pub fn push(&mut self, value: u16) -> (r: Result<(), &'static str>)
        requires
            old(self).wf(),
        ensures
            final(self).wf(),
            old(self)@.len() < STACK_DEPTH ==> r is Ok && final(self)@ == old(self)@.push(value),
            old(self)@.len() >= STACK_DEPTH ==> r is Err && r->Err_0@ == "Stack overflow"@
                && final(self)@ == old(self)@,
    {
        if self.i >= STACK_DEPTH {
            return Err("Stack overflow");
        }
        self.stack[self.i] = value;
        self.i += 1;
        assert(self@ =~= old(self)@.push(value));
        Ok(())
    }

    /// Pops the most recent address, unless the stack is empty.
    pub fn pop(&mut self) -> (r: Result<u16, &'static str>)
        requires
            old(self).wf(),
        ensures
            final(self).wf(),
            old(self)@.len() > 0 ==> r == Ok::<u16, &'static str>(old(self)@.last()) && final(self)@
                == old(self)@.drop_last(),
            old(self)@.len() == 0 ==> r is Err && r->Err_0@ == "Stack underflow"@ && final(self)@
                == old(self)@,
    {
        if self.i == 0 {
            return Err("Stack underflow");
        }
        self.i -= 1;
        assert(self@ =~= old(self)@.drop_last());
        Ok(self.stack[self.i])
    }

    /// The most recent address, if the stack holds any.
    pub fn peek(&self) -> (r: Option<u16>)
        requires
            self.wf(),
        ensures
            r == (if self@.len() > 0 {
                Some(self@.last())
            } else {
                None
            }),
    {
        if self.i == 0 {
            None
        } else {
            Some(self.stack[self.i - 1])
        }
    }
}

} // verus!
