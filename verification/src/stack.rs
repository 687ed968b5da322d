//! The interpreter's bounded operand stack of 256-bit words.

use vstd::prelude::*;

use crate::error::StatusCode;
use crate::word::U256;

verus! {

/// The most words the operand stack may hold.
pub const STACK_LIMIT: usize = 1024;

/// A bounded LIFO stack of 256-bit words; the top is the end of the view.
pub struct Stack {
    items: Vec<U256>,
}

impl Stack {
    /// The words on the stack, bottom first.
    pub closed spec fn view(self) -> Seq<U256> {
        self.items@
    }

    /// A stack never holds more than the limit.
    pub open spec fn well_formed(self) -> bool {
        self@.len() <= STACK_LIMIT
    }

    /// Creates an empty stack.
    pub fn new() -> (r: Stack)
        ensures
            r@ == Seq::<U256>::empty(),
            r.well_formed(),
    {
        Stack { items: Vec::new() }
    }

    /// The number of words held.
    pub fn len(&self) -> (r: usize)
        ensures
            r == self@.len(),
    {
        self.items.len()
    }

    /// Pushes a word; fails on a full stack, leaving it unchanged.
    pub fn push(&mut self, value: U256) -> (r: Result<(), StatusCode>)
        requires
            old(self).well_formed(),
        ensures
            final(self).well_formed(),
            old(self)@.len() < STACK_LIMIT ==> r is Ok && final(self)@ == old(self)@.push(value),
            old(self)@.len() >= STACK_LIMIT ==> r == Err::<(), StatusCode>(
                StatusCode::StackOverflow,
            ) && final(self)@ == old(self)@,
    {
        if self.items.len() < STACK_LIMIT {
            self.items.push(value);
            Ok(())
        } else {
            Err(StatusCode::StackOverflow)
        }
    }

    /// Pops the top word; fails on an empty stack, leaving it unchanged.
    pub fn pop(&mut self) -> (r: Result<U256, StatusCode>)
        requires
            old(self).well_formed(),
        ensures
            final(self).well_formed(),
            old(self)@.len() > 0 ==> r == Ok::<U256, StatusCode>(old(self)@.last())
                && final(self)@ == old(self)@.drop_last(),
            old(self)@.len() == 0 ==> r == Err::<U256, StatusCode>(StatusCode::StackUnderflow)
                && final(self)@ == old(self)@,
    {
        match self.items.pop() {
            Some(v) => Ok(v),
            None => Err(StatusCode::StackUnderflow),
        }
    }
}

} // verus!
