//! The retry policy: a ceiling on attempts and a caller-defined backoff.

use vstd::prelude::*;

verus! {

/// Whether a failure that follows `attempt` earlier ones of the same call
/// uses up a budget of `ceiling` attempts: it is failure number
/// `attempt + 1`, and the ceiling is reached with it.
pub open spec fn budget_spent(ceiling: u32, attempt: nat) -> bool {
    attempt + 1 >= ceiling
}

/// How often an operation is attempted, and how long to wait after each
/// failed attempt. The backoff is any function of the attempt's number,
/// counted from one; the policy puts no bound on what it returns.
pub struct RetryPolicy<F> where F: Fn(u32) -> u64 {
    max_retries: u32,
    backoff_ms: F,
}

impl<F> RetryPolicy<F> where F: Fn(u32) -> u64 {
    /// The ceiling on attempts.
    pub closed spec fn ceiling(&self) -> u32 {
        self.max_retries
    }

    /// The backoff function.
    pub closed spec fn backoff(&self) -> F {
        self.backoff_ms
    }

    /// Whether the backoff function may be called on `attempt`.
    pub open spec fn accepts(&self, attempt: u32) -> bool {
        self.backoff().requires((attempt,))
    }

    /// Whether `ms` is what the backoff function gives for `attempt`.
    pub open spec fn maps(&self, attempt: u32, ms: u64) -> bool {
        self.backoff().ensures((attempt,), ms)
    }

    /// Whether the failure that follows `attempt` earlier ones uses up the
    /// budget of this policy.
    pub open spec fn exhausted(&self, attempt: u32) -> bool {
        budget_spent(self.ceiling(), attempt as nat)
    }

    /// A policy of at most `max_retries` attempts with the given backoff.
    pub fn new(max_retries: u32, backoff_ms: F) -> (policy: Self)
        ensures
            policy.ceiling() == max_retries,
            policy.backoff() == backoff_ms,
    {
        RetryPolicy { max_retries, backoff_ms }
    }

    /// The ceiling on attempts.
    pub fn max_retries(&self) -> (ceiling: u32)
        ensures
            ceiling == self.ceiling(),
    {
        self.max_retries
    }

    /// The base delay in milliseconds after failed attempt `retry_count`:
    /// what the backoff function gives for it.
    pub fn get_backoff_ms(&self, retry_count: u32) -> (ms: u64)
        requires
            self.accepts(retry_count),
        ensures
            self.maps(retry_count, ms),
    {
        (self.backoff_ms)(retry_count)
    }

    /// Whether the failure that follows `attempt` earlier ones is the last.
    pub fn is_exhausted(&self, attempt: u32) -> (last: bool)
        ensures
            last == self.exhausted(attempt),
    {
        self.max_retries == 0 || attempt >= self.max_retries - 1
    }
}

} // verus!
