//! The events and atomic updates a channel is built from.
use crate::counting::{next_halt_count, receiver_added, receiver_count_after_add};
use event_listener::{Event, EventListener};
use std::sync::atomic::{AtomicI32, AtomicUsize, Ordering};
use vstd::prelude::*;

verus! {

#[verifier::external_type_specification]
#[verifier::external_body]
pub struct ExEvent(Event);

#[verifier::external_type_specification]
#[verifier::external_body]
pub struct ExEventListener(EventListener);

/// Calls `Event::new`.
#[verifier::external_body]
pub(crate) fn event_new() -> (e: Event) {
    Event::new()
}

/// Calls `Event::notify`, waking up to `n` listeners.
#[verifier::external_body]
pub(crate) fn event_notify(e: &Event, n: usize) {
    e.notify(n)
}

/// Calls `Event::listen`.
#[verifier::external_body]
pub(crate) fn event_listen(e: &Event) -> (l: EventListener) {
    e.listen()
}

/// Calls `AtomicUsize::fetch_update` with `receiver_count_after_add` as the update.
/// As std documents, it returns `Ok(previous)` when the update gave `Some` for the
/// value it was applied to, and `Err(previous)` when it gave `None`; trusted to state
/// exactly that. Which value it met depends on other threads.
#[verifier::external_body]
pub(crate) fn add_receiver_update(count: &AtomicUsize) -> (r: Result<usize, usize>)
    ensures
        match r {
            Ok(prev) => receiver_added(prev) is Some,
            Err(prev) => receiver_added(prev) is None,
        },
{
    count.fetch_update(Ordering::AcqRel, Ordering::Acquire, |val| receiver_count_after_add(val))
}

/// Calls `AtomicI32::fetch_update` with `next_halt_count(_, n)` as the update. As std
/// documents, it returns `Ok(previous)` when the update gives `Some`, which
/// `next_halt_count` always does; trusted to return `Ok`. The previous value depends on
/// other threads.
#[verifier::external_body]
pub(crate) fn halt_count_update(count: &AtomicI32, n: i32) -> (r: Result<i32, i32>)
    ensures
        r is Ok,
{
    count.fetch_update(Ordering::AcqRel, Ordering::Acquire, |c| next_halt_count(c, n))
}

} // verus!
