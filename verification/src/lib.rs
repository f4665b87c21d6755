//! Channels shared between the addresses, inboxes and owner of an actor.
pub mod capacity;
pub mod channel;
pub mod counting;
pub mod owner;
pub mod queue;
pub mod receiving;
pub mod sending;
pub mod sync;
pub mod time;

pub use capacity::{BackPressure, Capacity, Growth, Timeout};
pub use channel::Channel;
pub use owner::{DropAction, ExitError, Link, OwnerState, TrySpawnError};
pub use receiving::{Halted, RecvError, TryRecvError};
pub use sending::{SendError, TrySendError};
