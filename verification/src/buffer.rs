//! The sequential first-in first-out buffer that the queue's lock guards.

use std::collections::VecDeque;
use vstd::prelude::*;

verus! {

/// An ordered buffer of items: producers append at the back, consumers
/// remove from the front, so items leave in the order they arrived.
///
/// This is the state that one queue's lock protects.  Every operation is
/// verified against the buffer's sequence view; the concurrent layer only
/// runs these operations while holding the lock.
pub struct Buffer<I> {
    items: VecDeque<I>,
}

impl<I> View for Buffer<I> {
    type V = Seq<I>;

    closed spec fn view(&self) -> Seq<I> {
        self.items@
    }
}

/// The buffer's contents after the oldest item is removed.
pub open spec fn drop_front<I>(s: Seq<I>) -> Seq<I> {
    s.subrange(1, s.len() as int)
}

impl<I> Buffer<I> {
    /// A fresh buffer holding nothing.
    pub fn new() -> (b: Buffer<I>)
        ensures
            b@ == Seq::<I>::empty(),
    {
        Buffer { items: VecDeque::new() }
    }

    /// How many items are currently buffered.
    pub fn len(&self) -> (n: usize)
        ensures
            n == self@.len(),
    {
        self.items.len()
    }

    /// True exactly when nothing is buffered.
    pub fn is_empty(&self) -> (e: bool)
        ensures
            e <==> self@.len() == 0,
    {
        self.items.len() == 0
    }

    /// Append `item` behind everything already buffered.
    pub fn push_back(&mut self, item: I)
        ensures
            final(self)@ == old(self)@.push(item),
    {
        self.items.push_back(item);
    }

    /// Remove and return the oldest buffered item; `None` exactly when the
    /// buffer is empty, in which case nothing changes.
    pub fn pop_front(&mut self) -> (r: Option<I>)
        ensures
            old(self)@.len() == 0 ==> r is None && final(self)@ == old(self)@,
            old(self)@.len() > 0 ==> r == Some(old(self)@[0]) && final(self)@ == drop_front(
                old(self)@,
            ),
    {
        self.items.pop_front()
    }
}

} // verus!
