//! Device-discovery core of a software KVM switch.
//!
//! The engine merges a one-time enumeration of an input-device directory
//! with a live creation watch into one ordered, cancellable, backpressured
//! stream of captured devices. Its decisions — path filtering, outcome
//! handling, the fatal-versus-recoverable error taxonomy, and cooperative
//! shutdown — are verified here as a pure state machine ([`monitor`]), with
//! the engine's trace-level guarantees proved in [`trace`]; an async driver
//! performs the awaited operations the machine asks for.

pub mod device;
pub mod monitor;
pub mod trace;
