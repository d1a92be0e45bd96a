//! Passing futures, streams, sinks and `tracing` subscribers across an FFI boundary.
//!
//! This library holds the decisions of the bridge as verified functions on plain
//! values; the raw pointers, vtables and trait objects around them are left to the
//! caller.

pub mod auto;
pub mod channel;
pub mod dash;
pub mod poll;
pub mod registry;
pub mod tracing;
pub mod waker;
