//! The trusted concurrency layer: one mutual-exclusion lock and one
//! wait/notify signal around the verified buffer.
//!
//! Verus cannot see what other threads do between two uses of the lock, so
//! the functions here claim nothing about the shared contents: any outcome
//! must be possible.  Each function only takes the lock, runs a single
//! verified [`Buffer`] operation or waits on the signal, and releases the
//! lock.  A poisoned lock (another holder panicked while holding it) is
//! treated as fatal and aborts the calling operation.

use std::sync::{Arc, Condvar, Mutex};

use vstd::prelude::*;

use crate::buffer::Buffer;

verus! {

#[verifier::external_type_specification]
#[verifier::external_body]
#[verifier::reject_recursive_types(T)]
pub struct ExMutex<T: ?Sized>(Mutex<T>);

#[verifier::external_type_specification]
#[verifier::external_body]
pub struct ExCondvar(Condvar);

/// Relies on `Mutex::new`: a fresh, unlocked lock around `t`.
pub assume_specification<T>[ Mutex::<T>::new ](t: T) -> Mutex<T>;

/// Relies on `Condvar::new`: a fresh signal with no waiters.
pub assume_specification[ Condvar::new ]() -> Condvar;

/// Relies on `Condvar::notify_one`: wakes at most one thread blocked on the
/// signal, and does nothing when none is blocked.
pub assume_specification[ Condvar::notify_one ](c: &Condvar);

/// Relies on `Arc::clone`: another handle to the same lock-guarded buffer.
#[verifier::external_body]
pub(crate) fn clone_buffer_handle<I>(q: &Arc<Mutex<Buffer<I>>>) -> (r: Arc<Mutex<Buffer<I>>>)
    ensures
        r == *q,
{
    Arc::clone(q)
}

/// Relies on `Arc::clone`: another handle to the same signal.
#[verifier::external_body]
pub(crate) fn clone_signal(signal: &Arc<Condvar>) -> (r: Arc<Condvar>)
    ensures
        r == *signal,
{
    Arc::clone(signal)
}

/// Relies on `Mutex::lock` for exclusive access while the verified
/// [`Buffer::is_empty`] runs.  The answer is a point-in-time snapshot with no
/// validity afterwards, so nothing is claimed of it.
#[verifier::external_body]
pub(crate) fn locked_is_empty<I>(q: &Arc<Mutex<Buffer<I>>>) -> bool {
    q.lock().unwrap().is_empty()
}

/// Relies on `Mutex::lock` for exclusive access while the verified
/// [`Buffer::push_back`] appends `item`.  Where `item` lands relative to
/// concurrent pushes depends on lock order, so nothing is claimed.
#[verifier::external_body]
pub(crate) fn locked_push_back<I>(q: &Arc<Mutex<Buffer<I>>>, item: I) {
    q.lock().unwrap().push_back(item);
}

/// Relies on `Mutex::lock` for exclusive access while the verified
/// [`Buffer::pop_front`] removes the oldest item; `None` when the buffer
/// happened to be empty at that moment.
#[verifier::external_body]
pub(crate) fn locked_pop_front<I>(q: &Arc<Mutex<Buffer<I>>>) -> Option<I> {
    q.lock().unwrap().pop_front()
}

/// Relies on `Mutex::lock` and `Condvar::wait`: blocks the calling thread
/// until the verified [`Buffer::pop_front`] yields an item under the lock.
/// The loop re-checks after every wake, because wakeups may be spurious and
/// another consumer may drain the buffer first.  It cannot stand in verified
/// code: it terminates only once some producer eventually pushes.
#[verifier::external_body]
pub(crate) fn wait_and_take<I>(q: &Arc<Mutex<Buffer<I>>>, signal: &Arc<Condvar>) -> I {
    let mut guard = q.lock().unwrap();
    loop {
        match guard.pop_front() {
            Some(item) => {
                return item;
            }
            None => {
                guard = signal.wait(guard).unwrap();
            }
        }
    }
}

/// Relies on `Mutex::lock` and `Condvar::wait`: blocks the calling thread
/// until it has observed the buffer non-empty under the lock, then returns
/// without taking anything.  A wake hint only: by the time the caller acts,
/// another consumer may already have taken what was seen.
#[verifier::external_body]
pub(crate) fn wait_until_nonempty<I>(q: &Arc<Mutex<Buffer<I>>>, signal: &Arc<Condvar>) {
    let mut guard = q.lock().unwrap();
    while guard.is_empty() {
        guard = signal.wait(guard).unwrap();
    }
}

} // verus!
