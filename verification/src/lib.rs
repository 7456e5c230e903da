//! A resilience wrapper for calls to an unreliable operation: a circuit
//! breaker that blocks calls to a failing dependency, a retry policy with a
//! caller-defined backoff, and the retryer that composes the two.
//!
//! The retryer decides; it neither runs the operation nor sleeps. A caller
//! asks it for the step that begins a round, runs the operation itself, reports
//! the outcome, and acts on the verdict that comes back.

pub mod breaker;
pub mod clock;
pub mod jitter;
pub mod policy;
pub mod retryer;
