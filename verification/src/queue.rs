//! The shared queue handle and its two consumption models: a blocking pop
//! for threads and a poll-driven pop for cooperative schedulers.

use std::sync::{Arc, Condvar, Mutex};

use vstd::prelude::*;

use crate::buffer::Buffer;
use crate::locking::clone_buffer_handle;
use crate::locking::clone_signal;
use crate::locking::locked_is_empty;
use crate::locking::locked_pop_front;
use crate::locking::locked_push_back;
use crate::locking::wait_and_take;
use crate::locking::wait_until_nonempty;

verus! {

/// A thread-safe, unbounded first-in first-out queue.
///
/// Every handle shares one lock-guarded [`Buffer`] and one wait/notify
/// signal.  Producers call [`Queue::push`]; consumers either block in
/// [`Queue::pop`] or poll the handle returned by [`Queue::apop`].
#[verifier::reject_recursive_types(I)]
pub struct Queue<I> {
    signal: Arc<Condvar>,
    q: Arc<Mutex<Buffer<I>>>,
}

/// What one poll of a [`PopFuture`] concluded: an item was taken, or the
/// buffer was empty at the instant the poll held the lock.
pub enum PollOutcome<I> {
    Ready(I),
    Pending,
}

/// The one decision a poll makes, verified for every probe result: an item
/// taken from the buffer resolves the poll with exactly that item, and an
/// empty probe leaves the poll pending.
pub fn poll_decision<I>(taken: Option<I>) -> (r: PollOutcome<I>)
    ensures
        match taken {
            Some(item) => r == PollOutcome::Ready(item),
            None => r == PollOutcome::<I>::Pending,
        },
{
    match taken {
        Some(item) => PollOutcome::Ready(item),
        None => PollOutcome::Pending,
    }
}

impl<I> Queue<I> {
    /// Create, and return, a new queue with an empty buffer and a fresh
    /// signal.  Never fails.
    pub fn new() -> Queue<I> {
        Queue {
            signal: Arc::new(Condvar::new()),
            q: Arc::new(Mutex::new(Buffer::new())),
        }
    }

    /// Report whether the buffer was empty at the instant the lock was held.
    ///
    /// A racy, advisory snapshot: with any concurrent producer or consumer
    /// it says nothing about whether a later [`Queue::pop`] would block.
    pub fn was_empty(&self) -> bool {
        locked_is_empty(&self.q)
    }

    /// Append `item` behind everything buffered, then wake at most one
    /// blocked waiter.  Always succeeds; the buffer grows without bound if
    /// nothing consumes.
    pub fn push(&self, item: I) {
        locked_push_back(&self.q, item);
        self.signal.notify_one();
    }

    /// Remove and return the oldest buffered item, blocking the calling
    /// thread until one is available.  Blocks indefinitely if no push ever
    /// comes; there is no timeout.
    pub fn pop(&self) -> I {
        match locked_pop_front(&self.q) {
            Some(item) => item,
            None => wait_and_take(&self.q, &self.signal),
        }
    }

    /// A single-use handle for popping asynchronously.  No immediate side
    /// effect: the handle does nothing until its scheduler polls it.
    pub fn apop(&self) -> (f: PopFuture<I>)
        ensures
            f.shares_state_of(self),
    {
        PopFuture::new(self)
    }
}

/// A single-use asynchronous pop request, sharing its queue's buffer and
/// signal.  It stays pending until one poll takes an item; after that it is
/// complete and must not be polled again.
#[verifier::reject_recursive_types(I)]
pub struct PopFuture<I> {
    signal: Arc<Condvar>,
    q: Arc<Mutex<Buffer<I>>>,
}

impl<I> PopFuture<I> {
    /// True when this handle works on the same shared state as the queue
    /// `q`: the same lock-guarded buffer and the same signal.
    pub closed spec fn shares_state_of(&self, q: &Queue<I>) -> bool {
        self.q == q.q && self.signal == q.signal
    }

    /// True when both handles work on the same shared state.
    pub closed spec fn shares_state_with(&self, other: &PopFuture<I>) -> bool {
        self.q == other.q && self.signal == other.signal
    }

    fn new(q: &Queue<I>) -> (f: PopFuture<I>)
        ensures
            f.shares_state_of(q),
    {
        PopFuture { signal: clone_signal(&q.signal), q: clone_buffer_handle(&q.q) }
    }

    /// One poll attempt: take the oldest item if any is buffered at this
    /// instant, otherwise report [`PollOutcome::Pending`].
    ///
    /// On a pending outcome the caller should arrange a wakeup (see
    /// [`PopFuture::wait_for_item`]) and poll again later.  Every poll
    /// decides afresh from the buffer, because a wakeup is only a hint:
    /// another consumer may take the item that triggered it first.
    pub fn poll_step(&self) -> PollOutcome<I> {
        poll_decision(locked_pop_front(&self.q))
    }

    /// Block the calling thread until the buffer has been observed non-empty
    /// under the lock.  This is the helper waiter's wait: it reserves
    /// nothing, so the woken party must still poll and may find the buffer
    /// empty again.
    pub fn wait_for_item(&self) {
        wait_until_nonempty(&self.q, &self.signal);
    }

    /// Another handle on the same shared state, for a helper waiter whose
    /// lifetime is independent of this handle's own.
    pub fn watcher(&self) -> (w: PopFuture<I>)
        ensures
            w.shares_state_with(self),
    {
        PopFuture { signal: clone_signal(&self.signal), q: clone_buffer_handle(&self.q) }
    }
}

} // verus!
