//! Merges terminal input and a periodic tick into one stream of events that a
//! UI loop reads with a single blocking call.
//!
//! The library holds the event types, the configuration, the queue that joins
//! the producers to the consumer, and the policy that each producer follows
//! when the queue is full or its receive end is gone. Spawning the producer
//! threads, reading the terminal and sleeping between ticks are left to the
//! caller.

mod outside;

pub mod event;
pub mod handle;
pub mod model;
pub mod queue;

pub use event::{Config, Event};
pub use handle::Events;
