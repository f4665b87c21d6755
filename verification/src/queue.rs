//! The message queue of a channel: a `ConcurrentQueue` together with the capacity it
//! was made with.
use crate::receiving::TryRecvError;
use crate::sending::{hands_back, TrySendError};
use concurrent_queue::{ConcurrentQueue, PopError, PushError};
use vstd::prelude::*;

verus! {

#[verifier::external_type_specification]
#[verifier::external_body]
#[verifier::reject_recursive_types(T)]
pub struct ExConcurrentQueue<T>(ConcurrentQueue<T>);

/// A queue of messages, with the capacity it was made with: `Some(cap)` for a queue
/// made by `ConcurrentQueue::bounded(cap)`, `None` for one made by
/// `ConcurrentQueue::unbounded()`.
///
/// The fields are private to this module, and the only ways to make such a queue are
/// `MessageQueue::bounded` and `MessageQueue::unbounded`, so the recorded capacity is
/// always the one the queue was made with.
#[verifier::reject_recursive_types(T)]
pub struct MessageQueue<T> {
    queue: ConcurrentQueue<T>,
    cap: Option<usize>,
}

impl<T> MessageQueue<T> {
    /// The capacity the queue was made with; `None` for an unbounded queue.
    pub closed spec fn made_with(&self) -> Option<usize> {
        self.cap
    }

    /// A bounded queue with room for `cap` messages.
    pub fn bounded(cap: usize) -> (q: Self)
        requires
            cap > 0,
        ensures
            q.made_with() == Some(cap),
    {
        MessageQueue { queue: queue_bounded(cap), cap: Some(cap) }
    }

    /// An unbounded queue.
    pub fn unbounded() -> (q: Self)
        ensures
            q.made_with() is None,
    {
        MessageQueue { queue: queue_unbounded(), cap: None }
    }
}

/// Calls `ConcurrentQueue::bounded`, which panics on a zero capacity.
#[verifier::external_body]
fn queue_bounded<T>(cap: usize) -> (q: ConcurrentQueue<T>)
    requires
        cap > 0,
{
    ConcurrentQueue::bounded(cap)
}

/// Calls `ConcurrentQueue::unbounded`.
#[verifier::external_body]
fn queue_unbounded<T>() -> (q: ConcurrentQueue<T>) {
    ConcurrentQueue::unbounded()
}

/// Calls `ConcurrentQueue::push`; its `Full` and `Closed` errors become those of
/// `TrySendError`. The queue's source returns the pushed value inside either error,
/// so a refused push is trusted to hand back `msg`; and an unbounded queue (the one
/// `ConcurrentQueue::unbounded` makes) can only refuse with `Closed`, so it is trusted
/// never to give `Full`. Whether a push is refused otherwise depends on what other
/// threads did to the queue, and is not stated.
#[verifier::external_body]
pub(crate) fn queue_push<T>(q: &MessageQueue<T>, msg: T) -> (r: Result<(), TrySendError<T>>)
    ensures
        hands_back(r, msg),
        q.made_with() is None ==> !(r matches Err(TrySendError::Full(_))),
{
    match q.queue.push(msg) {
        Ok(()) => Ok(()),
        Err(PushError::Full(m)) => Err(TrySendError::Full(m)),
        Err(PushError::Closed(m)) => Err(TrySendError::Closed(m)),
    }
}

/// Calls `ConcurrentQueue::pop`; its `Empty` and `Closed` errors become those of
/// `TryRecvError`, so a failed pop is never `Halted`. Which message or error comes
/// back depends on other threads, and is not stated.
#[verifier::external_body]
pub(crate) fn queue_pop<T>(q: &MessageQueue<T>) -> (r: Result<T, TryRecvError>)
    ensures
        !(r matches Err(TryRecvError::Halted)),
{
    match q.queue.pop() {
        Ok(msg) => Ok(msg),
        Err(PopError::Empty) => Err(TryRecvError::Empty),
        Err(PopError::Closed) => Err(TryRecvError::Closed),
    }
}

/// Calls `ConcurrentQueue::close`: whether this call closed the queue. Depends on
/// other threads; nothing is stated.
#[verifier::external_body]
pub(crate) fn queue_close<T>(q: &MessageQueue<T>) -> (r: bool) {
    q.queue.close()
}

/// Calls `ConcurrentQueue::is_closed`. Depends on other threads; nothing is stated.
#[verifier::external_body]
pub(crate) fn queue_is_closed<T>(q: &MessageQueue<T>) -> (r: bool) {
    q.queue.is_closed()
}

/// Calls `ConcurrentQueue::len`. Depends on other threads; nothing is stated.
#[verifier::external_body]
pub(crate) fn queue_len<T>(q: &MessageQueue<T>) -> (r: usize) {
    q.queue.len()
}

/// Calls `ConcurrentQueue::capacity`, which the queue's source documents as
/// `Some(cap)` for a queue made with `bounded(cap)` and `None` for an unbounded one:
/// trusted to be the capacity the queue was made with.
#[verifier::external_body]
pub(crate) fn queue_capacity<T>(q: &MessageQueue<T>) -> (r: Option<usize>)
    ensures
        r == q.made_with(),
{
    q.queue.capacity()
}

} // verus!
