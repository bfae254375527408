//! A throughput harness for message-passing channels and mutual-exclusion
//! primitives: configurable populations of producer, consumer and locking
//! workers are spawned, released together by a start barrier, and timed
//! end to end while each drives a fixed number of operations through the
//! primitive under measurement.

pub mod error;
pub mod params;
pub mod model;
pub mod barrier;
pub mod channel;
pub mod counter;
pub mod clock;
pub mod spawner;
pub mod worker;
pub mod workload;
pub mod factories;
pub mod laws;
