//! The channel shared between the addresses, inboxes and owner of an actor.
use crate::capacity::{bound_of, Capacity};
use crate::counting::{
    halt_amount, halt_due, listeners_for_halt, no_receivers_left, previous_count_checked,
    was_last_receiver,
};
use crate::queue::{
    queue_capacity, queue_close, queue_is_closed, queue_len, queue_pop, queue_push, MessageQueue,
};
use crate::sync::{add_receiver_update, event_listen, event_new, event_notify, halt_count_update};
use event_listener::{Event, EventListener};
use std::sync::atomic::{AtomicI32, AtomicUsize, Ordering};
use vstd::prelude::*;

verus! {

/// Contains all data that should be shared between Addresses, Inboxes and the Child.
/// This is wrapped in an Arc to allow sharing between them.
#[verifier::reject_recursive_types(M)]
pub struct Channel<M> {
    /// The underlying queue
    queue: MessageQueue<M>,
    /// The capacity of the channel
    capacity: Capacity,
    /// The amount of addresses associated to this channel.
    /// Once this is 0, not more addresses can be created and the Channel is closed.
    sender_count: AtomicUsize,
    /// The amount of inboxes associated to this channel.
    /// Once this is 0, it is impossible to spawn new processes, and the Channel.
    /// has exited.
    receiver_count: AtomicUsize,
    /// Subscribe when trying to receive a message from this channel.
    recv_event: Event,
    /// Subscribe when trying to send a message into this channel.
    send_event: Event,
    /// Subscribe when waiting for Actor to exit.
    exit_event: Event,
    /// The amount of processes that should still be halted.
    /// Can be negative bigger than amount of processes in total.
    halt_count: AtomicI32,
}

impl<M> Channel<M> {
    /// The queue is bounded exactly when the capacity is, and by the same amount.
    #[verifier::type_invariant]
    spec fn queue_matches_capacity(self) -> bool {
        self.queue.made_with() == bound_of(self.capacity)
    }

    /// The capacity the channel was created with.
    pub closed spec fn configured_capacity(&self) -> Capacity {
        self.capacity
    }

    /// The bound of the channel's queue: `Some(cap)` for a queue made with room for
    /// `cap` messages, `None` for an unbounded one.
    pub closed spec fn queue_bound(&self) -> Option<usize> {
        self.queue.made_with()
    }

    /// Create a new channel, given an address count, inbox_count and capacity.
    ///
    /// It must be ensured that the correct amount of senders and receivers exist.
    /// A bounded capacity must be at least 1.
    pub fn new(sender_count: usize, receiver_count: usize, capacity: Capacity) -> (r: Self)
        requires
            capacity matches Capacity::Bounded(size) ==> size > 0,
        ensures
            r.configured_capacity() == capacity,
            r.queue_bound() == bound_of(capacity),
    {
        let queue = match &capacity {
            Capacity::Bounded(size) => MessageQueue::bounded(*size),
            Capacity::Unbounded(_) => MessageQueue::unbounded(),
        };
        Channel {
            queue,
            capacity,
            sender_count: AtomicUsize::new(sender_count),
            receiver_count: AtomicUsize::new(receiver_count),
            recv_event: event_new(),
            send_event: event_new(),
            exit_event: event_new(),
            halt_count: AtomicI32::new(0),
        }
    }

    /// Add an inbox to the channel, incrementing inbox-count by 1. Afterwards,
    /// a new Inbox may be created from this channel.
    ///
    /// Returns `Ok(previous inbox-count)`. A previous count of 0 means the channel had
    /// already exited: the count is incremented all the same, and `Err(())` comes back.
    pub fn add_receiver(&self) -> (r: Result<usize, ()>)
        ensures
            r matches Ok(prev) ==> prev != 0,
    {
        let prev_count = self.receiver_count.fetch_add(1, Ordering::AcqRel);
        previous_count_checked(prev_count)
    }

    /// Try to add an inbox to the channel, incrementing inbox-count by 1. Afterwards,
    /// a new Inbox may be created from this channel.
    ///
    /// Returns `Ok(prev inbox-count)`, or `Err(())` when the count was 0 (the channel
    /// has exited) or could not grow any further.
    pub fn try_add_receiver(&self) -> (r: Result<usize, ()>)
        ensures
            r matches Ok(prev) ==> 1 <= prev < usize::MAX,
    {
        match add_receiver_update(&self.receiver_count) {
            Ok(prev) => Ok(prev),
            Err(_) => Err(()),
        }
    }

    /// Remove an Inbox from the channel, decrementing inbox-count by 1. This should be
    /// called during the Inbox's destructor.
    ///
    /// If there are no more Inboxes remaining, this will close the channel, notify all
    /// exit-listeners, and drop any messages still inside the channel.
    ///
    /// Returns `Err(())` when the inbox-count was already 0.
    pub fn remove_receiver(&self) -> (r: Result<(), ()>) {
        let prev_count = match previous_count_checked(
            self.receiver_count.fetch_sub(1, Ordering::AcqRel),
        ) {
            Ok(prev) => prev,
            Err(()) => return Err(()),
        };
        if was_last_receiver(prev_count) {
            self.close();
            event_notify(&self.exit_event, usize::MAX);
            self.drain();
        }
        Ok(())
    }

    /// Drops the messages left in the channel once it is closed: pops as many times as
    /// the channel held messages after closing (a closed channel takes no more), and
    /// stops at the first failed pop.
    fn drain(&self) {
        let remaining = queue_len(&self.queue);
        let mut i: usize = 0;
        while i < remaining
            decreases remaining - i,
        {
            if queue_pop(&self.queue).is_err() {
                break ;
            }
            i = i + 1;
        }
    }

    /// Add an Address to the channel, incrementing address-count by 1. Afterwards,
    /// a new Address may be created from this channel.
    ///
    /// Returns the previous address-count.
    pub fn add_sender(&self) -> (r: usize) {
        self.sender_count.fetch_add(1, Ordering::AcqRel)
    }

    /// Remove an Address from the channel, decrementing address-count by 1. This should
    /// be called from the destructor of the Address.
    ///
    /// Returns `Ok(previous address-count)`, or `Err(())` when it was already 0.
    pub fn remove_sender(&self) -> (r: Result<usize, ()>)
        ensures
            r matches Ok(prev) ==> prev != 0,
    {
        let prev_address_count = self.sender_count.fetch_sub(1, Ordering::AcqRel);
        previous_count_checked(prev_address_count)
    }

    /// Close the channel. Returns `true` if the channel was not closed before this.
    /// Otherwise, this returns `false`.
    ///
    /// When it returns `true`, all send- and receive-listeners are notified.
    pub fn close(&self) -> (r: bool) {
        if queue_close(&self.queue) {
            event_notify(&self.recv_event, usize::MAX);
            event_notify(&self.send_event, usize::MAX);
            true
        } else {
            false
        }
    }

    /// Can be called by an inbox to know whether it should halt.
    ///
    /// This decrements the halt-counter by one when it is called, therefore every
    /// inbox should only receive true from this method once! The inbox keeps it's own
    /// local state about whether it has received true from this method.
    pub fn should_halt(&self) -> (r: bool) {
        // If the count is bigger than 0, we might have to halt.
        if halt_due(self.halt_count.load(Ordering::Acquire)) {
            // Now subtract 1 from the count; if it was still above 0, we halt.
            // If this decrements below 0, it is treated as 0.
            let prev_count = self.halt_count.fetch_sub(1, Ordering::AcqRel);
            if halt_due(prev_count) {
                return true;
            }
        }
        false
    }

    /// Halt n inboxes associated with this channel. If `n >= #inboxes`, all inboxes
    /// will be halted. This might leave `halt-count > inbox-count`, however that's not
    /// a problem. If n > i32::MAX, n = i32::MAX.
    ///
    /// Notifies `n` recv-listeners.
    pub fn halt(&self, n: u32) {
        let n = halt_amount(n);
        let _ = halt_count_update(&self.halt_count, n);
        event_notify(&self.recv_event, listeners_for_halt(n));
    }

    /// Whether the queue asscociated to the channel has been closed.
    pub fn closed(&self) -> (r: bool) {
        queue_is_closed(&self.queue)
    }

    /// Returns the amount of messages currently in the channel.
    pub fn msg_count(&self) -> (r: usize) {
        queue_len(&self.queue)
    }

    /// Returns the amount of addresses this channel has.
    pub fn sender_count(&self) -> (r: usize) {
        self.sender_count.load(Ordering::Acquire)
    }

    /// Returns the amount of inboxes this channel has.
    pub fn receiver_count(&self) -> (r: usize) {
        self.receiver_count.load(Ordering::Acquire)
    }

    /// Whether the channel has exited: no inbox is left.
    pub fn exited(&self) -> (r: bool) {
        no_receivers_left(self.receiver_count())
    }

    /// Capacity of the inbox.
    pub fn capacity(&self) -> (r: &Capacity)
        ensures
            *r == self.configured_capacity(),
    {
        &self.capacity
    }

    /// The capacity of the underlying queue: `Some` for a bounded channel, `None` for
    /// an unbounded one.
    pub fn queue_capacity(&self) -> (r: Option<usize>)
        ensures
            r == bound_of(self.configured_capacity()),
            r == self.queue_bound(),
    {
        proof {
            use_type_invariant(self);
        }
        queue_capacity(&self.queue)
    }

    /// Get a new recv-event listener
    pub fn get_recv_listener(&self) -> (l: EventListener) {
        event_listen(&self.recv_event)
    }

    /// Get a new send-event listener
    pub fn get_send_listener(&self) -> (l: EventListener) {
        event_listen(&self.send_event)
    }

    /// Get a new exit-event listener
    pub fn get_exit_listener(&self) -> (l: EventListener) {
        event_listen(&self.exit_event)
    }

    /// Wakes up to `n` listeners waiting to receive.
    pub(crate) fn notify_receivers(&self, n: usize) {
        event_notify(&self.recv_event, n)
    }

    /// Wakes up to `n` listeners waiting to send.
    pub(crate) fn notify_senders(&self, n: usize) {
        event_notify(&self.send_event, n)
    }

    /// Pushes one message into the queue, without notifying anyone.
    pub(crate) fn push(&self, msg: M) -> (r: Result<(), crate::sending::TrySendError<M>>)
        ensures
            crate::sending::hands_back(r, msg),
            self.configured_capacity() is Unbounded ==> !(r matches Err(
                crate::sending::TrySendError::Full(_),
            )),
    {
        proof {
            use_type_invariant(self);
        }
        queue_push(&self.queue, msg)
    }

    /// Pops one message from the queue, without any check for halting, and without
    /// notifying anyone.
    pub(crate) fn pop(&self) -> (r: Result<M, crate::receiving::TryRecvError>)
        ensures
            !(r matches Err(crate::receiving::TryRecvError::Halted)),
    {
        queue_pop(&self.queue)
    }
}

} // verus!
