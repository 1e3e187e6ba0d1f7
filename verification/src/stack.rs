//! Bounded LIFO of return addresses with overflow and underflow detection.
//! A push beyond capacity and a pop from empty are distinct, reported
//! errors; neither ever truncates or wraps silently.

use vstd::prelude::*;

use crate::errors::MachineError;

verus! {

/// A bounded stack of 16-bit return addresses. Its model is the sequence
/// of stacked values, oldest first; its depth never exceeds the capacity
/// chosen at construction.
pub struct CallStack {
    entries: Vec<u16>,
    capacity: usize,
}

impl View for CallStack {
    type V = Seq<u16>;

    closed spec fn view(&self) -> Seq<u16> {
        self.entries@
    }
}

impl CallStack {
    /// The capacity this stack was constructed with.
    pub closed spec fn cap(&self) -> int {
        self.capacity as int
    }

    /// The depth never exceeds the capacity.
    pub open spec fn wf(&self) -> bool {
        self@.len() <= self.cap()
    }

    /// An empty stack with room for `capacity` entries.
    pub fn new(capacity: usize) -> (s: CallStack)
        ensures
            s@ == Seq::<u16>::empty(),
            s.cap() == capacity,
            s.wf(),
    {
        CallStack { entries: Vec::new(), capacity }
    }

    /// The current depth.
    pub fn depth(&self) -> (n: usize)
        ensures
            n == self@.len(),
    {
        self.entries.len()
    }

    /// Appends `value`, or fails with `StackOverflow` when the depth
    /// already equals the capacity, leaving the depth and contents
    /// unchanged.
    pub fn push(&mut self, value: u16) -> (r: Result<(), MachineError>)
        ensures
            final(self).cap() == old(self).cap(),
            old(self)@.len() < old(self).cap() ==> r == Ok::<(), MachineError>(()) && final(self)@
                == old(self)@.push(value),
            old(self)@.len() >= old(self).cap() ==> r == Err::<(), MachineError>(
                MachineError::StackOverflow,
            ) && final(self)@ == old(self)@,
    {
        if self.entries.len() < self.capacity {
            self.entries.push(value);
            Ok(())
        } else {
            Err(MachineError::StackOverflow)
        }
    }

    /// Removes and returns the most recently pushed value, or fails with
    /// `StackUnderflow` when the stack is empty, leaving it unchanged.
    pub fn pop(&mut self) -> (r: Result<u16, MachineError>)
        ensures
            final(self).cap() == old(self).cap(),
            old(self)@.len() > 0 ==> r == Ok::<u16, MachineError>(old(self)@.last())
                && final(self)@ == old(self)@.drop_last(),
            old(self)@.len() == 0 ==> r == Err::<u16, MachineError>(MachineError::StackUnderflow)
                && final(self)@ == old(self)@,
    {
        match self.entries.pop() {
            Some(value) => Ok(value),
            None => Err(MachineError::StackUnderflow),
        }
    }
}

/// The stack is LIFO: after pushing `x` and then `y`, the first pop
/// returns `y` and leaves exactly the stack with `x` on top, and the
/// second pop returns `x` and restores the original stack.
pub proof fn lemma_stack_lifo(stack: Seq<u16>, x: u16, y: u16)
    ensures
        stack.push(x).push(y).last() == y,
        stack.push(x).push(y).drop_last() == stack.push(x),
        stack.push(x).last() == x,
        stack.push(x).drop_last() == stack,
{
    assert(stack.push(x).push(y).drop_last() =~= stack.push(x));
    assert(stack.push(x).drop_last() =~= stack);
}

} // verus!
