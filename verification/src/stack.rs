//! A fixed-capacity LIFO stack with explicit overflow and underflow
//! signalling. The capacity is set at construction and never grows; a push
//! at capacity and a pop on empty both fail without touching the contents.
use vstd::prelude::*;

use crate::err::RuntimeErr;

verus! {

/// The operand stack: push and pop only at the top, within a fixed bound.
/// Its view is the sequence of held values, bottom first.
#[derive(Debug)]
pub struct VecStack<T> {
    items: Vec<T>,
    capacity: usize,
}

impl<T> View for VecStack<T> {
    type V = Seq<T>;

    closed spec fn view(&self) -> Seq<T> {
        self.items@
    }
}

impl<T> VecStack<T> {
    /// The fixed bound on how many values the stack can hold.
    pub closed spec fn cap(&self) -> nat {
        self.capacity as nat
    }

    /// The count never exceeds the capacity.
    pub open spec fn wf(&self) -> bool {
        self@.len() <= self.cap()
    }

    /// An empty stack with the given fixed capacity.
    pub fn new(capacity: usize) -> (s: VecStack<T>)
        ensures
            s.wf(),
            s@ == Seq::<T>::empty(),
            s.cap() == capacity,
    {
        VecStack { items: Vec::new(), capacity }
    }

    /// How many values the stack currently holds.
    pub fn len(&self) -> (n: usize)
        ensures
            n as nat == self@.len(),
    {
        self.items.len()
    }

    /// Push a value on top; fails with a stack overflow when the stack is
    /// full, leaving the contents unchanged.
    pub fn push(&mut self, value: T) -> (r: Result<(), RuntimeErr>)
        requires
            old(self).wf(),
        ensures
            final(self).wf(),
            final(self).cap() == old(self).cap(),
            match r {
                Ok(u) => old(self)@.len() < old(self).cap() && final(self)@ == old(self)@.push(
                    value,
                ),
                Err(e) => old(self)@.len() == old(self).cap() && final(self)@ == old(self)@ && e
                    == RuntimeErr::StackOverflow,
            },
    {
        if self.items.len() < self.capacity {
            self.items.push(value);
            Ok(())
        } else {
            Err(RuntimeErr::StackOverflow)
        }
    }

    /// Pop the top value; fails with a stack underflow when the stack is
    /// empty.
    pub fn pop(&mut self) -> (r: Result<T, RuntimeErr>)
        requires
            old(self).wf(),
        ensures
            final(self).wf(),
            final(self).cap() == old(self).cap(),
            match r {
                Ok(v) => old(self)@.len() > 0 && v == old(self)@.last() && final(self)@ == old(
                    self,
                )@.drop_last(),
                Err(e) => old(self)@.len() == 0 && final(self)@ == old(self)@ && e
                    == RuntimeErr::StackUnderflow,
            },
    {
        match self.items.pop() {
            Some(v) => Ok(v),
            None => Err(RuntimeErr::StackUnderflow),
        }
    }

    /// Logically empty the stack; the capacity is retained.
    pub fn clear(&mut self)
        ensures
            final(self).wf(),
            final(self)@ == Seq::<T>::empty(),
            final(self).cap() == old(self).cap(),
    {
        self.items.clear();
    }
}

} // verus!
