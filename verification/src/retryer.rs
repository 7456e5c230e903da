//! The retryer: one retry policy and one circuit breaker, composed.
//!
//! One call through the retryer is a loop that its caller runs. Before each
//! attempt the caller asks `next_step`. Where the circuit blocks the attempt,
//! the step is to pass through: the caller runs the operation once all the
//! same and hands on whatever it returns, without reporting it. A blocked
//! call does not fail fast, and no error of the retryer's own stands for it.
//! Where the circuit permits the attempt, the caller runs the operation and
//! reports the outcome: `on_success` ends the call, `on_failure` gives the
//! verdict, to give up with that error or to wait and go round again.

use crate::breaker::{BreakerModel, CircuitBreaker, CircuitState};
use crate::clock::clock_now;
use crate::jitter::{draw_below, thread_generator};
use crate::policy::{budget_spent, RetryPolicy};
use std::time::Instant;
use vstd::prelude::*;

verus! {

/// The jitter added to a base delay is below this many milliseconds.
pub const JITTER_BOUND_MS: u64 = 100;

/// What the caller does next, at the start of a round.
#[derive(Debug, Clone, Copy, PartialEq, Eq, Structural)]
pub enum Step {
    /// The circuit permits the attempt: run the operation and report its
    /// outcome.
    Attempt,
    /// The circuit blocks the attempt: run the operation once, report
    /// nothing, and end the call with whatever it returned.
    PassThrough,
}

/// The step for a round, by whether the circuit permitted the attempt.
pub open spec fn step_for(permitted: bool) -> Step {
    if permitted {
        Step::Attempt
    } else {
        Step::PassThrough
    }
}

/// What follows a failed attempt.
#[derive(Debug, Clone, Copy, PartialEq, Eq, Structural)]
pub enum Verdict {
    /// The budget is used up: the call ends with the error of this attempt.
    GiveUp,
    /// Wait `delay_ms` milliseconds, then try again; `attempt` failures have
    /// been counted in this call.
    RetryAfter { attempt: u32, delay_ms: u64 },
}

/// The delay for a base delay and a jitter: their sum, held at the largest
/// `u64` where it would pass it.
pub open spec fn jittered(base_ms: u64, jitter_ms: u64) -> u64 {
    if base_ms + jitter_ms > u64::MAX {
        u64::MAX
    } else {
        (base_ms + jitter_ms) as u64
    }
}

/// The delay in milliseconds for a base delay and a jitter.
pub fn delay_with_jitter(base_ms: u64, jitter_ms: u64) -> (delay_ms: u64)
    ensures
        delay_ms == jittered(base_ms, jitter_ms),
        base_ms <= delay_ms <= base_ms + jitter_ms,
{
    if jitter_ms > u64::MAX - base_ms {
        u64::MAX
    } else {
        base_ms + jitter_ms
    }
}

/// One round of a call, as the caller meets it: whether the circuit let the
/// attempt through, and whether the operation then succeeded.
pub struct Round {
    pub permitted: bool,
    pub succeeded: bool,
}

/// How often the operation runs in the rest of a call that has counted
/// `attempt` failures and meets `rounds` from here on. A blocked round runs
/// it once and ends the call; so does a success, and so does the failure that
/// uses up the budget. Any other failure is followed by the next round. The
/// call returns what the last of these runs returned.
pub open spec fn runs(ceiling: u32, attempt: nat, rounds: Seq<Round>) -> nat
    decreases rounds.len(),
{
    if rounds.len() == 0 {
        0
    } else if step_for(rounds[0].permitted) == Step::PassThrough || rounds[0].succeeded
        || budget_spent(ceiling, attempt) {
        1
    } else {
        1 + runs(ceiling, attempt + 1, rounds.drop_first())
    }
}

/// A call never runs the operation more often than the ceiling allows,
/// whatever the circuit and the operation do, where the ceiling is at least
/// one. (With a ceiling of zero the operation still runs once.)
pub proof fn lemma_runs_within_ceiling(ceiling: u32, rounds: Seq<Round>)
    requires
        ceiling >= 1,
    ensures
        runs(ceiling, 0, rounds) <= ceiling,
{
    lemma_runs_within_rest(ceiling, 0, rounds);
}

/// The rest of a call runs the operation at most as often as the budget has
/// attempts left.
proof fn lemma_runs_within_rest(ceiling: u32, attempt: nat, rounds: Seq<Round>)
    requires
        attempt < ceiling,
    ensures
        runs(ceiling, attempt, rounds) <= ceiling - attempt,
    decreases rounds.len(),
{
    if rounds.len() > 0 && rounds[0].permitted && !rounds[0].succeeded && !budget_spent(
        ceiling,
        attempt,
    ) {
        lemma_runs_within_rest(ceiling, attempt + 1, rounds.drop_first());
    }
}

/// While the circuit permits every attempt and the operation fails every
/// time, the rest of a call runs the operation exactly as often as the budget
/// has attempts left, and then gives up. From the start of a call that is the
/// ceiling itself.
pub proof fn lemma_runs_to_exhaustion(ceiling: u32, attempt: nat, rounds: Seq<Round>)
    requires
        attempt < ceiling,
        rounds.len() >= ceiling - attempt,
        forall|i: int| 0 <= i < rounds.len() ==> rounds[i].permitted && !rounds[i].succeeded,
    ensures
        runs(ceiling, attempt, rounds) == ceiling - attempt,
    decreases rounds.len(),
{
    if !budget_spent(ceiling, attempt) {
        let rest = rounds.drop_first();
        assert forall|i: int| 0 <= i < rest.len() implies rest[i].permitted
            && !rest[i].succeeded by {
            assert(rest[i] == rounds[i + 1]);
        }
        lemma_runs_to_exhaustion(ceiling, attempt + 1, rest);
    }
}

/// Governs the calls to one unreliable operation.
pub struct Retryer<F> where F: Fn(u32) -> u64 {
    policy: RetryPolicy<F>,
    breaker: CircuitBreaker,
}

impl<F> Retryer<F> where F: Fn(u32) -> u64 {
    /// The retry policy.
    pub closed spec fn policy(&self) -> RetryPolicy<F> {
        self.policy
    }

    /// The circuit breaker, as its model.
    pub closed spec fn breaker(&self) -> BreakerModel {
        self.breaker@
    }

    /// The instant of the most recent failure that the circuit recorded, if
    /// there was one. The cooldown is counted from it.
    pub closed spec fn stamp(&self) -> Option<Instant> {
        self.breaker.stamp()
    }

    /// The circuit's model says that a failure was stamped exactly where
    /// there is a stamp.
    pub proof fn lemma_stamped_has_stamp(&self)
        ensures
            self.breaker().stamped == (self.stamp() is Some),
    {
        self.breaker.lemma_stamped_has_stamp();
    }

    /// A retryer of at most `max_retries` attempts a call, with the given
    /// backoff, whose circuit opens after `failure_threshold` consecutive
    /// failures and cools down for `reset_timeout_ms` milliseconds.
    pub fn new(max_retries: u32, backoff_ms: F, failure_threshold: u32, reset_timeout_ms: u64) -> (retryer: Self)
        ensures
            retryer.policy().ceiling() == max_retries,
            retryer.policy().backoff() == backoff_ms,
            retryer.breaker() == BreakerModel::fresh(
                failure_threshold as nat,
                reset_timeout_ms as nat,
            ),
            retryer.stamp() is None,
            retryer.breaker().coherent(),
    {
        Retryer {
            policy: RetryPolicy::new(max_retries, backoff_ms),
            breaker: CircuitBreaker::new(failure_threshold, reset_timeout_ms),
        }
    }

    /// The state of the circuit, read without changing anything.
    pub fn get_circuit_state(&self) -> (state: CircuitState)
        ensures
            state == self.breaker().state,
    {
        self.breaker.state()
    }

    /// The failures counted since the last success, read without changing
    /// anything.
    pub fn get_failure_count(&self) -> (count: u32)
        ensures
            count == self.breaker().failure_count,
    {
        self.breaker.failure_count()
    }

    /// Asks the circuit, by the clock, for the step that begins the next
    /// round. A closed or half-open circuit permits the attempt and stays as
    /// it is. An open one either blocks it and stays as it is, or, its
    /// cooldown over, turns half-open and permits it. The cooldown is counted
    /// from the stamp, which stays.
    pub fn next_step(&mut self) -> (step: Step)
        ensures
            final(self).policy() == old(self).policy(),
            final(self).stamp() == old(self).stamp(),
            exists|elapsed_ms: nat|
                final(self).breaker() == #[trigger] old(self).breaker().after_check(elapsed_ms)
                    && step == step_for(old(self).breaker().admits(elapsed_ms)),
            old(self).breaker().state != CircuitState::Open ==> step == Step::Attempt
                && final(self).breaker() == old(self).breaker(),
            old(self).breaker().state == CircuitState::Open && old(self).breaker().cooled_down(0)
                ==> step == Step::Attempt && final(self).breaker().state == CircuitState::HalfOpen,
            step == Step::PassThrough ==> final(self).breaker() == old(self).breaker(),
            old(self).breaker().coherent() ==> final(self).breaker().coherent(),
    {
        if self.breaker.can_execute() {
            Step::Attempt
        } else {
            Step::PassThrough
        }
    }

    /// Reports that a permitted attempt succeeded: the circuit closes and its
    /// counter returns to zero; the stamp stays. The call ends with the
    /// success.
    pub fn on_success(&mut self)
        ensures
            final(self).policy() == old(self).policy(),
            final(self).breaker() == old(self).breaker().after_success(),
            final(self).stamp() == old(self).stamp(),
    {
        self.breaker.record_success();
    }

    /// Reports that a permitted attempt failed at `now`, after `attempt`
    /// earlier failures in this call, with the jitter given. The circuit
    /// records the failure and stamps it with `now`. Where the budget is used
    /// up the verdict is to give up; otherwise it is to retry after the
    /// backoff of failure `attempt + 1` plus the jitter.
    pub fn on_failure_with_jitter(
        &mut self,
        attempt: u32,
        jitter_ms: u64,
        now: Instant,
    ) -> (verdict: Verdict)
        requires
            old(self).breaker().failure_count < u32::MAX,
            !old(self).policy().exhausted(attempt) ==> old(self).policy().accepts(
                (attempt + 1) as u32,
            ),
        ensures
            final(self).policy() == old(self).policy(),
            final(self).breaker() == old(self).breaker().after_failure(),
            final(self).stamp() == Some(now),
            old(self).breaker().coherent() ==> final(self).breaker().coherent(),
            old(self).policy().exhausted(attempt) ==> verdict == Verdict::GiveUp,
            !old(self).policy().exhausted(attempt) ==> exists|base_ms: u64|
                #[trigger] old(self).policy().maps((attempt + 1) as u32, base_ms) && verdict == (
                Verdict::RetryAfter {
                    attempt: (attempt + 1) as u32,
                    delay_ms: jittered(base_ms, jitter_ms),
                }),
            verdict matches Verdict::RetryAfter { attempt: next, .. } ==> next
                < old(self).policy().ceiling(),
    {
        self.breaker.record_failure_at(now);
        if self.policy.is_exhausted(attempt) {
            Verdict::GiveUp
        } else {
            let next: u32 = attempt + 1;
            let base_ms: u64 = self.policy.get_backoff_ms(next);
            Verdict::RetryAfter { attempt: next, delay_ms: delay_with_jitter(base_ms, jitter_ms) }
        }
    }

    /// Reports that a permitted attempt failed now, after `attempt` earlier
    /// failures in this call: `on_failure_with_jitter` with the clock's
    /// reading, which becomes the stamp, and a jitter drawn at random below
    /// `JITTER_BOUND_MS`. The jitter is drawn only where a retry follows. So
    /// a delay is never shorter than the backoff of the failure it follows,
    /// and ends before that backoff plus the bound.
    pub fn on_failure(&mut self, attempt: u32) -> (verdict: Verdict)
        requires
            old(self).breaker().failure_count < u32::MAX,
            !old(self).policy().exhausted(attempt) ==> old(self).policy().accepts(
                (attempt + 1) as u32,
            ),
        ensures
            final(self).policy() == old(self).policy(),
            final(self).breaker() == old(self).breaker().after_failure(),
            final(self).stamp() is Some,
            old(self).policy().exhausted(attempt) ==> verdict == Verdict::GiveUp,
            !old(self).policy().exhausted(attempt) ==> exists|base_ms: u64|
                #[trigger] old(self).policy().maps((attempt + 1) as u32, base_ms) && (
                verdict matches Verdict::RetryAfter { attempt: next, delay_ms } && next == attempt
                    + 1 && base_ms <= delay_ms < base_ms + JITTER_BOUND_MS),
            old(self).breaker().coherent() ==> final(self).breaker().coherent(),
            verdict matches Verdict::RetryAfter { attempt: next, .. } ==> next
                < old(self).policy().ceiling(),
    {
        let now = clock_now();
        let jitter_ms: u64 = if self.policy.is_exhausted(attempt) {
            0
        } else {
            let mut generator = thread_generator();
            draw_below(&mut generator, JITTER_BOUND_MS)
        };
        self.on_failure_with_jitter(attempt, jitter_ms, now)
    }
}

} // verus!
