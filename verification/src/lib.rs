//! An in-process task execution facility: a worker-pool scheduler with an
//! executor facade, plus a retry helper, a counter-to-text metrics exporter,
//! and a message-sink stub.
//!
//! The scheduler here is the sequential core of the worker pool: the queue,
//! the stop flag, and the decision a worker takes on each iteration of its
//! poll loop. Thread spawning, sleeping and joining live outside the library,
//! driving this core one step at a time.

pub mod connector;
pub mod executor;
pub mod metrics;
pub mod retry;
pub mod scheduler;
