# tiny_actor

The channel at the heart of an actor: a message queue shared by the actor's addresses
(senders) and inboxes (receivers), with counts of both, a halt counter, a capacity and
back-pressure, and the bookkeeping of the owner of the actor's tasks.

- `src/` is the verified library. It holds the channel and every rule it
  follows: how back-pressure computes a timeout, how receivers and halts are counted,
  what a refused send hands back, what a receive or send makes of each attempt, and
  what dropping the owner of an actor does. The queue, the events and the atomics come
  from `concurrent-queue`, `event-listener` and std; the calls into them stand behind a
  few trusted wrappers in `src/sync.rs` and `src/time.rs`.
- `app/` is the asynchronous and blocking side: the send, receive and exit futures, the
  blocking send and exit, the owner of an actor's `tokio` tasks, the type-erased channel
  trait, the `f32` step of exponential back-pressure, and the error types with their
  `Display` and `Error` impls.
