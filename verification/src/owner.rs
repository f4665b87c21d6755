use crate::time::{duration_is_zero, duration_nanos};
use std::time::Duration;
use vstd::prelude::*;

verus! {

/// An error returned from an exiting task.
///
/// Either the task panicked, or it was aborted.
#[derive(Debug)]
pub enum ExitError<P = Box<dyn std::any::Any + Send>> {
    /// The task panicked; the payload is the panic's value (by default the boxed value
    /// that the task panicked with).
    Panic(P),
    /// The task was aborted.
    Abort,
}

impl<P> ExitError<P> {
    /// Whether the error is a panic.
    pub fn is_panic(&self) -> (r: bool)
        ensures
            r == (self is Panic),
    {
        match self {
            ExitError::Panic(_) => true,
            ExitError::Abort => false,
        }
    }

    /// Whether the error is an abort.
    pub fn is_abort(&self) -> (r: bool)
        ensures
            r == (self is Abort),
    {
        match self {
            ExitError::Panic(_) => false,
            ExitError::Abort => true,
        }
    }
}

/// An exit error is either a panic or an abort, never both.
pub proof fn exit_error_is_panic_or_abort<P>(e: ExitError<P>)
    ensures
        (e is Panic) != (e is Abort),
{
}

/// An error returned when trying to spawn more processes onto a `Channel`.
#[derive(Clone)]
pub enum TrySpawnError<T> {
    /// The channel has already exited.
    Exited(T),
    /// The inbox type did not match.
    IncorrectInboxType(T),
}

/// Whether an actor is attached to its owner: an attached actor is aborted when its
/// owner is dropped, after the abort-timeout.
#[derive(Clone, Debug, PartialEq)]
pub enum Link {
    /// Dropping the owner leaves the actor running.
    Detached,
    /// Dropping the owner halts the actor, and aborts it after this timeout.
    Attached(Duration),
}

/// The abort-timeout of `link`, if it is attached.
pub open spec fn abort_timeout(link: Link) -> Option<Duration> {
    match link {
        Link::Detached => None,
        Link::Attached(d) => Some(d),
    }
}

impl Link {
    /// Attach with the given abort-timeout. Returns the old abort-timeout, if it was
    /// attached before this.
    pub fn attach(&mut self, duration: Duration) -> (r: Option<Duration>)
        ensures
            *final(self) == Link::Attached(duration),
            r == abort_timeout(*old(self)),
    {
        let old = match self {
            Link::Detached => None,
            Link::Attached(d) => Some(*d),
        };
        *self = Link::Attached(duration);
        old
    }

    /// Detach. Returns the old abort-timeout, if it was attached before this.
    pub fn detach(&mut self) -> (r: Option<Duration>)
        ensures
            *final(self) == Link::Detached,
            r == abort_timeout(*old(self)),
    {
        let old = match self {
            Link::Detached => None,
            Link::Attached(d) => Some(*d),
        };
        *self = Link::Detached;
        old
    }

    /// Whether the link is attached.
    pub fn is_attached(&self) -> (r: bool)
        ensures
            r == (*self is Attached),
    {
        match self {
            Link::Detached => false,
            Link::Attached(_) => true,
        }
    }
}

/// What attaching with a timeout sets, detaching gives back: after `attach(d)`, the
/// next `detach()` returns `Some(d)`, and after a `detach()` the next one returns `None`.
pub proof fn detach_returns_attached_timeout(d: Duration)
    ensures
        abort_timeout(Link::Attached(d)) == Some(d),
        abort_timeout(Link::Detached) is None,
{
}

/// What dropping the owner of an actor does to it.
#[derive(Debug, PartialEq)]
pub enum DropAction {
    /// Nothing: the actor is detached, already aborted, or has exited.
    Nothing,
    /// Abort all its tasks right away.
    AbortNow,
    /// Halt all its inboxes, and abort its tasks after this timeout.
    HaltThenAbortAfter(Duration),
}

/// What dropping the owner of an actor does, given its link, whether it was aborted
/// before, and whether all its tasks have exited: an attached actor that was neither
/// aborted nor has exited is aborted at once when its abort-timeout is zero, and halted
/// and aborted after the timeout otherwise. In every other case nothing happens.
pub open spec fn drop_action_spec(link: Link, is_aborted: bool, exited: bool) -> DropAction {
    match link {
        Link::Detached => DropAction::Nothing,
        Link::Attached(timer) => if is_aborted || exited {
            DropAction::Nothing
        } else if duration_nanos(timer) == 0 {
            DropAction::AbortNow
        } else {
            DropAction::HaltThenAbortAfter(timer)
        },
    }
}

/// What dropping the owner of an actor does (see `drop_action_spec`).
pub fn drop_action(link: &Link, is_aborted: bool, exited: bool) -> (r: DropAction)
    ensures
        r == drop_action_spec(*link, is_aborted, exited),
{
    match link {
        Link::Attached(abort_timer) => {
            if !is_aborted && !exited {
                if duration_is_zero(abort_timer) {
                    DropAction::AbortNow
                } else {
                    DropAction::HaltThenAbortAfter(*abort_timer)
                }
            } else {
                DropAction::Nothing
            }
        },
        Link::Detached => DropAction::Nothing,
    }
}

/// What the owner of an actor knows of it besides its tasks: its link, and whether it
/// has been aborted.
#[derive(Clone, Debug, PartialEq)]
pub struct OwnerState {
    /// The link of the actor to its owner.
    pub link: Link,
    /// Whether the actor has been aborted.
    pub is_aborted: bool,
}

impl OwnerState {
    /// Marks the actor as aborted. Returns `true` if this is the first abort.
    pub fn abort(&mut self) -> (r: bool)
        ensures
            final(self).is_aborted,
            final(self).link == old(self).link,
            r == !old(self).is_aborted,
    {
        let was_aborted = self.is_aborted;
        self.is_aborted = true;
        !was_aborted
    }

    /// What dropping the owner does, given whether all tasks have exited.
    pub fn on_drop(&self, exited: bool) -> (r: DropAction)
        ensures
            r == drop_action_spec(self.link, self.is_aborted, exited),
    {
        drop_action(&self.link, self.is_aborted, exited)
    }
}

/// Once aborted, an actor is never aborted again by dropping its owner, and a second
/// abort is never the first: whatever the link and the tasks, dropping does nothing.
pub proof fn aborted_owner_drops_quietly(state: OwnerState, exited: bool)
    requires
        state.is_aborted,
    ensures
        drop_action_spec(state.link, state.is_aborted, exited) == DropAction::Nothing,
{
}

/// How many of the flags are `false`.
pub open spec fn count_unset(flags: Seq<bool>) -> nat
    decreases flags.len(),
{
    if flags.len() == 0 {
        0
    } else {
        count_unset(flags.drop_last()) + if flags.last() {
            0nat
        } else {
            1nat
        }
    }
}

/// Whether all tasks have exited, given for each task whether it has finished.
pub fn all_finished(finished: &Vec<bool>) -> (r: bool)
    ensures
        r == (forall|i: int| 0 <= i < finished.len() ==> #[trigger] finished[i]),
{
    let mut i: usize = 0;
    while i < finished.len()
        invariant
            i <= finished.len(),
            forall|j: int| 0 <= j < i ==> #[trigger] finished[j],
        decreases finished.len() - i,
    {
        if !finished[i] {
            return false;
        }
        i = i + 1;
    }
    true
}

/// The amount of tasks that are still alive, given for each task whether it has
/// finished.
pub fn count_alive(finished: &Vec<bool>) -> (r: usize)
    ensures
        r == count_unset(finished@),
{
    let mut count: usize = 0;
    let mut i: usize = 0;
    while i < finished.len()
        invariant
            i <= finished.len(),
            count == count_unset(finished@.take(i as int)),
            count <= i,
        decreases finished.len() - i,
    {
        assert(finished@.take(i as int + 1).drop_last() =~= finished@.take(i as int));
        if !finished[i] {
            count = count + 1;
        }
        i = i + 1;
    }
    assert(finished@.take(finished.len() as int) =~= finished@);
    count
}

/// Every task is alive or has finished: an owner with no task alive is one whose
/// tasks have all exited, and the other way round.
pub proof fn alive_count_zero_iff_all_finished(finished: Seq<bool>)
    ensures
        (count_unset(finished) == 0) <==> (forall|i: int| 0 <= i < finished.len() ==> #[trigger] finished[i]),
    decreases finished.len(),
{
    if finished.len() > 0 {
        alive_count_zero_iff_all_finished(finished.drop_last());
        if count_unset(finished) == 0 {
            assert forall|i: int| 0 <= i < finished.len() implies #[trigger] finished[i] by {
                if i < finished.len() - 1 {
                    assert(finished.drop_last()[i] == finished[i]);
                }
            }
        } else if !finished.last() {
        } else {
            let j = choose|j: int| 0 <= j < finished.drop_last().len() && !#[trigger] finished.drop_last()[j];
            assert(!finished[j]);
        }
    }
}

} // verus!
