//! The verified core of a bridge to a native inference engine.
//!
//! The engine itself is reached through a foreign interface that this crate
//! never touches. What lives here is everything the bridge decides on plain
//! values: how a native status becomes a typed error, what a tensor descriptor
//! and a buffer are and when they agree, in which order a network is
//! configured and when that stops, and in which state a request may run.
//! A caller that owns the native handles performs the calls and feeds their
//! statuses back in.

pub mod status;
pub mod tags;
pub mod tensor;
pub mod blob;
pub mod preparation;
pub mod request;
pub mod engine;
