//! What sending into a channel can give back.
use crate::capacity::{is_timeout_for, Capacity, Timeout};
use crate::channel::Channel;
use vstd::prelude::*;

verus! {

/// An error returned when trying to send a message into a `Channel`, but not waiting for space.
///
/// This can be either because the `Channel` is closed, or because it is full.
#[derive(Debug, Clone, PartialEq, Eq, Hash)]
pub enum TrySendError<M> {
    /// The channel is closed; the message is handed back.
    Closed(M),
    /// The channel is full; the message is handed back.
    Full(M),
}

/// An error returned when sending a message into a `Channel` because the `Channel` is closed.
#[derive(Debug, Clone, PartialEq, Eq, Hash)]
pub struct SendError<M>(pub M);

/// Whether `r` is an accepted send, or a refused one that hands back `msg`.
pub open spec fn hands_back<M>(r: Result<(), TrySendError<M>>, msg: M) -> bool {
    match r {
        Ok(()) => true,
        Err(TrySendError::Closed(m)) => m == msg,
        Err(TrySendError::Full(m)) => m == msg,
    }
}

impl<M> Channel<M> {
    /// Send a message at this moment. This ignores any back-pressure.
    ///
    /// A pushed message notifies one receiver; a refused one comes back in the error.
    /// Back-pressure plays no part, so an unbounded channel never refuses with `Full`.
    pub fn send_now(&self, msg: M) -> (r: Result<(), TrySendError<M>>)
        ensures
            hands_back(r, msg),
            self.configured_capacity() is Unbounded ==> !(r matches Err(TrySendError::Full(_))),
    {
        match self.push(msg) {
            Ok(()) => {
                self.notify_receivers(1);
                Ok(())
            },
            Err(e) => Err(e),
        }
    }

    /// Send a message at this moment. This fails with `Full` if the back-pressure of an
    /// unbounded channel gives a timeout for the current message count.
    pub fn try_send(&self, msg: M) -> (r: Result<(), TrySendError<M>>)
        ensures
            hands_back(r, msg),
            self.configured_capacity() matches Capacity::Unbounded(bp) && bp.start_at == 0 ==> r
                == Err::<(), TrySendError<M>>(TrySendError::Full(msg)),
    {
        match self.capacity() {
            Capacity::Bounded(_) => self.send_now(msg),
            Capacity::Unbounded(_) => {
                let msg_count = self.msg_count();
                self.try_send_with_count(msg, msg_count)
            },
        }
    }

    /// What `try_send` does once it has read that the channel holds `msg_count`
    /// messages: in an unbounded channel whose back-pressure gives a timeout for that
    /// count, the message comes back as `Full` without being pushed; otherwise it is
    /// sent at once.
    pub fn try_send_with_count(&self, msg: M, msg_count: usize) -> (r: Result<(), TrySendError<M>>)
        ensures
            hands_back(r, msg),
            self.configured_capacity() matches Capacity::Unbounded(bp) && msg_count >= bp.start_at
                ==> r == Err::<(), TrySendError<M>>(TrySendError::Full(msg)),
            self.configured_capacity() matches Capacity::Unbounded(bp) && msg_count < bp.start_at
                ==> !(r matches Err(TrySendError::Full(_))),
    {
        match self.capacity() {
            Capacity::Bounded(_) => self.send_now(msg),
            Capacity::Unbounded(backoff) => match backoff.get_timeout(msg_count) {
                Some(_) => Err(TrySendError::Full(msg)),
                None => self.send_now(msg),
            },
        }
    }
}

impl<M> Channel<M> {
    /// Pushes into an unbounded channel, which is never full: the send is over at once,
    /// and only a closed channel refuses it, handing `msg` back.
    pub fn push_unbounded(&self, msg: M) -> (r: Result<(), SendError<M>>)
        requires
            self.configured_capacity() is Unbounded,
        ensures
            r matches Err(SendError(m)) ==> m == msg,
    {
        match send_outcome(self.send_now(msg)) {
            SendStep::Done(result) => result,
            SendStep::Retry(m) => {
                proof {
                    assert(false);
                }
                Err(SendError(m))
            },
        }
    }
}

/// What a send future is waiting on between two polls.
#[derive(Debug, PartialEq)]
pub enum SndWait {
    /// Nothing yet.
    Idle,
    /// A notification that there is room in a bounded channel.
    Listener,
    /// The back-pressure timeout of an unbounded channel.
    Sleep,
}

/// What a send future does when it is polled.
#[derive(Debug, PartialEq)]
pub enum SndPoll {
    /// A bounded channel: try to send; while it is full, wait for a notification (taking
    /// a listener when there is none yet), and try again once notified.
    TrySend,
    /// An unbounded channel that is sleeping off its back-pressure: poll the sleep, and
    /// push once it is over.
    PollSleep,
    /// An unbounded channel whose back-pressure gives this timeout: start sleeping for
    /// it, poll the sleep, and push once it is over.
    StartSleep(Timeout),
    /// An unbounded channel without back-pressure for now: push at once.
    Push,
}

/// What a send future does when it is polled, given the channel's capacity, what it is
/// waiting on, and how many messages the channel holds. A bounded channel never sleeps
/// and an unbounded one never waits for a listener: for those states there is no step.
pub fn snd_poll(capacity: &Capacity, wait: &SndWait, msg_count: usize) -> (r: Option<SndPoll>)
    ensures
        match *capacity {
            Capacity::Bounded(_) => r == if *wait is Sleep {
                None
            } else {
                Some(SndPoll::TrySend)
            },
            Capacity::Unbounded(bp) => match *wait {
                SndWait::Listener => r is None,
                SndWait::Sleep => r == Some(SndPoll::PollSleep),
                SndWait::Idle => if msg_count < bp.start_at {
                    r == Some(SndPoll::Push)
                } else {
                    r matches Some(SndPoll::StartSleep(t)) && is_timeout_for(bp, msg_count, Some(t))
                },
            },
        },
{
    match capacity {
        Capacity::Bounded(_) => match wait {
            SndWait::Sleep => None,
            _ => Some(SndPoll::TrySend),
        },
        Capacity::Unbounded(backpressure) => match wait {
            SndWait::Listener => None,
            SndWait::Sleep => Some(SndPoll::PollSleep),
            SndWait::Idle => match backpressure.get_timeout(msg_count) {
                Some(timeout) => Some(SndPoll::StartSleep(timeout)),
                None => Some(SndPoll::Push),
            },
        },
    }
}

/// One step of a waiting send.
pub enum SendStep<M> {
    /// The send is over, with this result.
    Done(Result<(), SendError<M>>),
    /// The channel was full: wait for room, then try again with this message.
    Retry(M),
}

/// What a waiting send makes of one attempt to send without waiting: success and a
/// closed channel end it; a full channel means waiting and trying again with the
/// message that came back.
pub fn send_outcome<M>(attempt: Result<(), TrySendError<M>>) -> (r: SendStep<M>)
    ensures
        match attempt {
            Ok(()) => r == SendStep::<M>::Done(Ok(())),
            Err(TrySendError::Closed(m)) => r == SendStep::<M>::Done(Err(SendError(m))),
            Err(TrySendError::Full(m)) => r == SendStep::<M>::Retry(m),
        },
{
    match attempt {
        Ok(()) => SendStep::Done(Ok(())),
        Err(TrySendError::Closed(m)) => SendStep::Done(Err(SendError(m))),
        Err(TrySendError::Full(m)) => SendStep::Retry(m),
    }
}

} // verus!
