//! A single-producer / single-consumer ring buffer with a verified core:
//! the index algebra over positions modulo twice the capacity, the
//! occupied/vacant range decomposition, single-item and bulk transfer
//! operations, and the decision logic of the asynchronous and blocking
//! frontends.

pub mod async_rb;
pub mod blocking;
pub mod halves;
pub mod laws;
pub mod local;
pub mod traits;
pub mod transfer;

pub use async_rb::{
    AsyncRb, PollResult, PopFuture, PopSliceFuture, PushFuture, PushIterFuture, PushSliceFuture,
    WaitOccupiedFuture, WaitVacantFuture,
};
pub use blocking::{BlockingRb, PopStep, PushStep, SemaphoreState, TimeoutIterator};
pub use halves::{LocalConsumer, LocalProducer, Obs};
pub use local::LocalRb;
