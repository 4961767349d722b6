//! Core of a bounded-latency audio loopback ("sidetone"): a fixed-capacity
//! sample channel, a latency relay that pre-fills it with silence, and the
//! configuration arithmetic that sizes the relay from a target latency.
//!
//! Device discovery, stream lifecycle and signal handling live outside this
//! crate; the relay only moves sample words between a capture side that feeds
//! batches and a render side that drains fixed-size requests, without ever
//! blocking either side.

pub mod channel;
pub mod config;
pub mod device;
pub mod laws;
pub mod relay;
