//! A retry policy with capped backoff and optional jitter.
//!
//! The policy is a plain value. It caps the delay that precedes each retry,
//! randomises it where asked to, and decides, event by event, how a sequence
//! of attempts proceeds. Running the attempts, raising the backoff factor to
//! its power and waiting between attempts are left to the caller.
//!
//! All delays are whole nanoseconds held in a `u64`.

pub mod backoff;
pub mod jitter;
pub mod machine;
pub mod policy;

pub use jitter::{attempt_seed, jitter_ceiling, jittered_delay};
pub use machine::{Outcome, Replay, RetryAction, RetryEvent, RetryState, Tally};
pub use policy::{ConfigError, RetryPolicy, NANOS_PER_MILLI, NANOS_PER_SEC};
