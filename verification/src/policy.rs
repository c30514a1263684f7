//! The configuration of a retry policy and its validity.

use vstd::prelude::*;

verus! {

/// Nanoseconds in one millisecond.
pub const NANOS_PER_MILLI: u64 = 1_000_000;

/// Nanoseconds in one second.
pub const NANOS_PER_SEC: u64 = 1_000_000_000;

/// Why a policy cannot be used.
#[derive(Clone, Copy, Debug, PartialEq, Eq, Structural)]
pub enum ConfigError {
    /// `attempts` is zero: no attempt could ever run.
    ZeroAttempts,
}

/// Retry policy configuration.
///
/// The backoff factor is a real number and is not held here: the caller
/// raises it to its power and hands the product in (see
/// [`RetryPolicy::compute_backoff`]).
#[derive(Clone, Copy, Debug)]
pub struct RetryPolicy {
    /// Total number of tries, the first included.
    pub attempts: usize,
    /// Delay before the first retry, in nanoseconds.
    pub base_delay: u64,
    /// Ceiling that no backoff exceeds, in nanoseconds.
    pub max_delay: u64,
    /// Whether each delay is re-drawn at random below the backoff.
    pub jitter: bool,
    /// Seed that makes the jitter reproducible.
    pub rng_seed: Option<u64>,
}

impl RetryPolicy {
    /// The defaults: three attempts, 100 ms base delay, 5 s ceiling,
    /// unseeded jitter.
    pub open spec fn default_spec() -> Self {
        RetryPolicy {
            attempts: 3,
            base_delay: 100_000_000,
            max_delay: 5_000_000_000,
            jitter: true,
            rng_seed: None,
        }
    }

    /// At least one attempt.
    pub open spec fn is_valid(&self) -> bool {
        self.attempts >= 1
    }

    /// Validates the policy, naming what is wrong with it.
    pub fn validate(&self) -> (res: Result<(), ConfigError>)
        ensures
            res is Ok <==> self.is_valid(),
            res == Err::<(), ConfigError>(ConfigError::ZeroAttempts) <==> self.attempts == 0,
    {
        if self.attempts == 0 {
            Err(ConfigError::ZeroAttempts)
        } else {
            Ok(())
        }
    }
}

impl Default for RetryPolicy {
    fn default() -> (policy: Self)
        ensures
            policy == RetryPolicy::default_spec(),
            policy.is_valid(),
    {
        RetryPolicy {
            attempts: 3,
            base_delay: 100 * NANOS_PER_MILLI,
            max_delay: 5 * NANOS_PER_SEC,
            jitter: true,
            rng_seed: None,
        }
    }
}

} // verus!
