//! What receiving from a channel can give back.
use crate::channel::Channel;
use vstd::prelude::*;

verus! {

/// This inbox has been halted.
#[derive(Debug, PartialEq, Eq, Hash)]
pub struct Halted;

/// Error returned when trying to receive a message without waiting.
#[derive(Debug, PartialEq, Eq, Hash)]
pub enum TryRecvError {
    /// The channel is closed and holds no more messages.
    Closed,
    /// The channel holds no message right now.
    Empty,
    /// This inbox has been halted and should now exit.
    Halted,
}

/// Error returned when receiving a message from an inbox.
/// Reasons can be:
/// * `Halted`: This Inbox has been halted and should now exit.
/// * `ClosedAndEmpty`: This Inbox is closed and empty, it can no longer receive new messages.
#[derive(Debug, Clone, PartialEq, Eq, Hash)]
pub enum RecvError {
    /// This inbox has been halted and should now exit.
    Halted,
    /// This inbox has been closed, and contains no more messages. It was closed either because
    /// all addresses have been dropped, or because it was manually closed.
    ClosedAndEmpty,
}

impl<M> Channel<M> {
    /// Receive a message without waiting.
    ///
    /// When `check_for_halt` is set and the channel asks one more inbox to halt, this
    /// inbox takes that request: `check_for_halt` is cleared and `Halted` comes back.
    /// Otherwise one message is popped (notifying one sender and one receiver), or the
    /// channel is `Empty`, or `Closed` and empty.
    pub fn try_recv(&self, check_for_halt: &mut bool) -> (r: Result<M, TryRecvError>)
        ensures
            r matches Err(TryRecvError::Halted) ==> *old(check_for_halt),
            *final(check_for_halt) == (*old(check_for_halt) && !(r matches Err(
                TryRecvError::Halted,
            ))),
    {
        recv_step(
            check_for_halt,
            || self.should_halt(),
            (|| -> (r: Result<M, TryRecvError>) ensures is_not_halted(r), { self.pop_notifying() }),
        )
    }

    /// Pops one message; a popped message notifies one sender and one receiver.
    fn pop_notifying(&self) -> (r: Result<M, TryRecvError>)
        ensures
            !(r matches Err(TryRecvError::Halted)),
    {
        match self.pop() {
            Ok(msg) => {
                self.notify_senders(1);
                self.notify_receivers(1);
                Ok(msg)
            },
            Err(e) => Err(e),
        }
    }
}

/// Whether a receive ended in anything but `Halted`.
pub open spec fn is_not_halted<M>(r: Result<M, TryRecvError>) -> bool {
    !(r matches Err(TryRecvError::Halted))
}

/// One receive without waiting, given how to take a pending halt (`take_halt`, which
/// answers whether this inbox is to halt) and how to pop a message (`pop`).
///
/// A pending halt takes priority: when `check_for_halt` is set, the halt is asked
/// first, and if it is taken the result is `Halted` and the flag is cleared, whatever
/// the queue holds. Only otherwise is the result what `pop` gives; the flag is then
/// left as it was. Without `check_for_halt`, no halt is asked for.
pub fn recv_step<M, H, P>(check_for_halt: &mut bool, take_halt: H, pop: P) -> (r: Result<
    M,
    TryRecvError,
>) where H: FnOnce() -> bool, P: FnOnce() -> Result<M, TryRecvError>
    requires
        take_halt.requires(()),
        pop.requires(()),
    ensures
        !*old(check_for_halt) ==> pop.ensures((), r) && !*final(check_for_halt),
        *old(check_for_halt) ==> (take_halt.ensures((), true) && (r matches Err(TryRecvError::Halted))
            && !*final(check_for_halt)) || (take_halt.ensures((), false) && pop.ensures((), r)
            && *final(check_for_halt)),
        *old(check_for_halt) && (forall|b: bool| #[trigger] take_halt.ensures((), b) ==> b) ==> (r
            matches Err(TryRecvError::Halted)) && !*final(check_for_halt),
        *old(check_for_halt) && (forall|b: bool| #[trigger] take_halt.ensures((), b) ==> !b) ==> pop.ensures(
            (),
            r,
        ) && *final(check_for_halt),
{
    if *check_for_halt {
        let halted = take_halt();
        if halted {
            *check_for_halt = false;
            return Err(TryRecvError::Halted);
        }
    }
    pop()
}

/// What a waiting receive makes of one attempt to receive: a message or a final error
/// ends the wait (`Some`); an empty channel (`None`) means waiting for a notification
/// and trying again.
pub fn recv_outcome<M>(attempt: Result<M, TryRecvError>) -> (r: Option<Result<M, RecvError>>)
    ensures
        match attempt {
            Ok(msg) => r == Some(Ok::<M, RecvError>(msg)),
            Err(TryRecvError::Halted) => r == Some(Err::<M, RecvError>(RecvError::Halted)),
            Err(TryRecvError::Closed) => r == Some(Err::<M, RecvError>(RecvError::ClosedAndEmpty)),
            Err(TryRecvError::Empty) => r is None,
        },
{
    match attempt {
        Ok(msg) => Some(Ok(msg)),
        Err(TryRecvError::Halted) => Some(Err(RecvError::Halted)),
        Err(TryRecvError::Closed) => Some(Err(RecvError::ClosedAndEmpty)),
        Err(TryRecvError::Empty) => None,
    }
}

/// What a stream of messages yields for the outcome of one receive: the message, a
/// `Halted` error, or the end of the stream once the channel is closed and empty.
pub fn stream_item<M>(received: Result<M, RecvError>) -> (r: Option<Result<M, Halted>>)
    ensures
        match received {
            Ok(msg) => r == Some(Ok::<M, Halted>(msg)),
            Err(RecvError::Halted) => r == Some(Err::<M, Halted>(Halted)),
            Err(RecvError::ClosedAndEmpty) => r is None,
        },
{
    match received {
        Ok(msg) => Some(Ok(msg)),
        Err(RecvError::Halted) => Some(Err(Halted)),
        Err(RecvError::ClosedAndEmpty) => None,
    }
}

} // verus!
