//! A thread-safe first-in first-out queue that can be drained both by
//! blocking callers and by poll-driven asynchronous callers.
//!
//! One lock-guarded buffer and one wait/notify signal back every handle.
//! Producers call [`Queue::push`]; synchronous consumers call [`Queue::pop`],
//! which blocks until an item arrives; asynchronous consumers obtain a
//! single-use [`PopFuture`] from [`Queue::apop`] and poll it until it yields
//! an item.

mod buffer;
mod laws;
mod locking;
mod queue;

pub use buffer::Buffer;
pub use buffer::drop_front;
pub use laws::after_pops;
pub use laws::lemma_conservation;
pub use laws::lemma_fifo_order;
pub use laws::lemma_no_item_lost_or_duplicated;
pub use laws::lemma_probe_cycle;
pub use laws::lemma_push_preserves_order;
pub use queue::PollOutcome;
pub use queue::PopFuture;
pub use queue::Queue;
pub use queue::poll_decision;
