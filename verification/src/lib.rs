//! A sans-I/O core for driving an interactive remote shell as a
//! request/response channel and for reading the monitoring data it returns.
//!
//! Nothing in this crate performs I/O. The caller owns the transport, feeds
//! the inbound channel events to the state machines defined here and writes
//! the bytes they hand back.

pub mod channel;
pub mod error;
pub mod facade;
pub mod probe;
pub mod protocol;
pub mod quantity;
pub mod session;
pub mod snapshot;
pub mod text;
