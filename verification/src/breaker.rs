//! The circuit breaker: a three-state governor of one dependency's health.

use crate::clock::{clock_now, elapsed_since, whole_millis};
use std::time::Instant;
use vstd::prelude::*;

verus! {

/// The health that the breaker presumes of its dependency.
#[derive(Debug, Clone, Copy, PartialEq, Eq, Structural)]
pub enum CircuitState {
    /// Presumed healthy: every call is permitted.
    Closed,
    /// Presumed unhealthy: calls are blocked until the cooldown has elapsed.
    Open,
    /// The cooldown has elapsed: trial calls are permitted.
    HalfOpen,
}

/// What a breaker is, mathematically: its state, its counter, its two
/// settings, and whether a failure has been stamped yet. The instant of the
/// stamp is opaque and stands beside the model, as the breaker's `stamp`.
pub struct BreakerModel {
    pub state: CircuitState,
    pub failure_count: nat,
    pub failure_threshold: nat,
    pub reset_timeout_ms: nat,
    pub stamped: bool,
}

impl BreakerModel {
    /// A breaker that has seen nothing yet.
    pub open spec fn fresh(failure_threshold: nat, reset_timeout_ms: nat) -> BreakerModel {
        BreakerModel {
            state: CircuitState::Closed,
            failure_count: 0,
            failure_threshold,
            reset_timeout_ms,
            stamped: false,
        }
    }

    /// The breaker after one success.
    pub open spec fn after_success(self) -> BreakerModel {
        BreakerModel { state: CircuitState::Closed, failure_count: 0, ..self }
    }

    /// The breaker after one failure.
    pub open spec fn after_failure(self) -> BreakerModel {
        let count = self.failure_count + 1;
        BreakerModel {
            state: if count >= self.failure_threshold {
                CircuitState::Open
            } else {
                self.state
            },
            failure_count: count,
            stamped: true,
            ..self
        }
    }

    /// The breaker after `n` failures in a row.
    pub open spec fn after_failures(self, n: nat) -> BreakerModel
        decreases n,
    {
        if n == 0 {
            self
        } else {
            self.after_failures((n - 1) as nat).after_failure()
        }
    }

    /// Whether the cooldown is over, `elapsed_ms` after the last failure.
    pub open spec fn cooled_down(self, elapsed_ms: nat) -> bool {
        self.stamped && elapsed_ms >= self.reset_timeout_ms
    }

    /// Whether a check lets a call through, `elapsed_ms` after the last failure.
    pub open spec fn admits(self, elapsed_ms: nat) -> bool {
        self.state != CircuitState::Open || self.cooled_down(elapsed_ms)
    }

    /// The breaker after a check made `elapsed_ms` after the last failure.
    pub open spec fn after_check(self, elapsed_ms: nat) -> BreakerModel {
        if self.state == CircuitState::Open && self.cooled_down(elapsed_ms) {
            BreakerModel { state: CircuitState::HalfOpen, ..self }
        } else {
            self
        }
    }

    /// The breaker after one check for each entry of `elapsed_ms`, in order,
    /// each made that long after the last failure.
    pub open spec fn after_checks(self, elapsed_ms: Seq<nat>) -> BreakerModel
        decreases elapsed_ms.len(),
    {
        if elapsed_ms.len() == 0 {
            self
        } else {
            self.after_checks(elapsed_ms.drop_last()).after_check(elapsed_ms.last())
        }
    }

    /// What holds of every breaker that was made fresh and has only seen
    /// successes, failures and checks: a circuit that is not closed has a
    /// stamped failure and a counter at or above the threshold.
    pub open spec fn coherent(self) -> bool {
        self.state != CircuitState::Closed ==> self.stamped && self.failure_count
            >= self.failure_threshold
    }
}

/// Tracks consecutive failures of one dependency and blocks calls to it
/// while it is presumed unhealthy.
pub struct CircuitBreaker {
    state: CircuitState,
    failure_count: u32,
    failure_threshold: u32,
    reset_timeout_ms: u64,
    last_failure_time: Option<Instant>,
}

impl View for CircuitBreaker {
    type V = BreakerModel;

    closed spec fn view(&self) -> BreakerModel {
        BreakerModel {
            state: self.state,
            failure_count: self.failure_count as nat,
            failure_threshold: self.failure_threshold as nat,
            reset_timeout_ms: self.reset_timeout_ms as nat,
            stamped: self.last_failure_time is Some,
        }
    }
}

impl CircuitBreaker {
    /// The instant of the most recent failure, if one was recorded. The
    /// cooldown is counted from it.
    pub closed spec fn stamp(&self) -> Option<Instant> {
        self.last_failure_time
    }

    /// The model says that a failure was stamped exactly where there is a
    /// stamp.
    pub proof fn lemma_stamped_has_stamp(&self)
        ensures
            self@.stamped == (self.stamp() is Some),
    {
    }

    /// A closed breaker that opens after `failure_threshold` consecutive
    /// failures and cools down for `reset_timeout_ms` milliseconds.
    pub fn new(failure_threshold: u32, reset_timeout_ms: u64) -> (breaker: Self)
        ensures
            breaker@ == BreakerModel::fresh(failure_threshold as nat, reset_timeout_ms as nat),
            breaker.stamp() is None,
            breaker@.coherent(),
    {
        CircuitBreaker {
            state: CircuitState::Closed,
            failure_count: 0,
            failure_threshold,
            reset_timeout_ms,
            last_failure_time: None,
        }
    }

    /// The current state.
    pub fn state(&self) -> (state: CircuitState)
        ensures
            state == self@.state,
    {
        self.state
    }

    /// The failures counted since the last success.
    pub fn failure_count(&self) -> (count: u32)
        ensures
            count == self@.failure_count,
    {
        self.failure_count
    }

    /// The instant of the most recent failure, if one was recorded.
    pub fn last_failure(&self) -> (instant: Option<Instant>)
        ensures
            instant == self.stamp(),
    {
        self.last_failure_time
    }

    /// Records a success: the counter returns to zero and the circuit closes,
    /// whatever the state and the counter were. The stamp of the last failure
    /// stays.
    pub fn record_success(&mut self)
        ensures
            final(self)@ == old(self)@.after_success(),
            final(self).stamp() == old(self).stamp(),
            final(self)@.state == CircuitState::Closed,
            final(self)@.failure_count == 0,
            final(self)@.coherent(),
    {
        self.failure_count = 0;
        self.state = CircuitState::Closed;
    }

    /// Records a failure that happened at `now`: the counter grows by one,
    /// `now` replaces the stamp, so that the cooldown is counted from this
    /// failure, and the circuit opens once the counter has reached the
    /// threshold. The counter must have room to grow.
    pub fn record_failure_at(&mut self, now: Instant)
        requires
            old(self)@.failure_count < u32::MAX,
        ensures
            final(self)@ == old(self)@.after_failure(),
            final(self).stamp() == Some(now),
            old(self)@.coherent() ==> final(self)@.coherent(),
    {
        self.failure_count = self.failure_count + 1;
        self.last_failure_time = Some(now);
        if self.failure_count >= self.failure_threshold {
            self.state = CircuitState::Open;
        }
    }

    /// Records a failure that happens now: `record_failure_at` with the
    /// clock's reading, which becomes the stamp.
    pub fn record_failure(&mut self)
        requires
            old(self)@.failure_count < u32::MAX,
        ensures
            final(self)@ == old(self)@.after_failure(),
            final(self).stamp() is Some,
            old(self)@.coherent() ==> final(self)@.coherent(),
    {
        let now = clock_now();
        self.record_failure_at(now);
    }

    /// The gating decision for a check made `elapsed_ms` milliseconds after
    /// the last failure. A closed or half-open circuit permits the call and
    /// stays as it is. An open circuit blocks it while `elapsed_ms` is below
    /// the cooldown, and from the cooldown on turns half-open and permits it.
    /// The stamp of the last failure stays.
    pub fn can_execute_after(&mut self, elapsed_ms: u128) -> (permitted: bool)
        ensures
            permitted == old(self)@.admits(elapsed_ms as nat),
            final(self)@ == old(self)@.after_check(elapsed_ms as nat),
            final(self).stamp() == old(self).stamp(),
            old(self)@.coherent() ==> final(self)@.coherent(),
    {
        match self.state {
            CircuitState::Closed => true,
            CircuitState::Open => {
                if self.last_failure_time.is_some() && elapsed_ms >= self.reset_timeout_ms as u128 {
                    self.state = CircuitState::HalfOpen;
                    true
                } else {
                    false
                }
            },
            CircuitState::HalfOpen => true,
        }
    }

    /// The gating decision by the clock: that of `can_execute_after` for the
    /// time that has passed since the stamp, the instant of the most recent
    /// failure. The clock is read only where the circuit is open. The stamp
    /// stays.
    pub fn can_execute(&mut self) -> (permitted: bool)
        ensures
            final(self).stamp() == old(self).stamp(),
            exists|elapsed_ms: nat|
                final(self)@ == #[trigger] old(self)@.after_check(elapsed_ms)
                    && permitted == old(self)@.admits(elapsed_ms),
            old(self)@.state != CircuitState::Open ==> permitted && final(self)@ == old(self)@,
            old(self)@.state == CircuitState::Open && old(self)@.cooled_down(0) ==> permitted
                && final(self)@.state == CircuitState::HalfOpen,
            !permitted ==> final(self)@ == old(self)@,
            old(self)@.coherent() ==> final(self)@.coherent(),
    {
        match self.state {
            CircuitState::Open => {
                let elapsed_ms: u128 = match self.last_failure() {
                    Some(failure_time) => whole_millis(&elapsed_since(&failure_time)),
                    None => 0,
                };
                self.can_execute_after(elapsed_ms)
            },
            _ => {
                proof {
                    assert(self@ == old(self)@.after_check(0));
                }
                true
            },
        }
    }
}

/// A fresh breaker is coherent, and a success, a failure and a check each
/// keep a coherent breaker coherent.
pub proof fn lemma_coherence_kept(model: BreakerModel, elapsed_ms: nat)
    requires
        model.coherent(),
    ensures
        BreakerModel::fresh(model.failure_threshold, model.reset_timeout_ms).coherent(),
        model.after_success().coherent(),
        model.after_failure().coherent(),
        model.after_check(elapsed_ms).coherent(),
{
}

/// Reading a breaker twice gives the same state and the same counter when
/// neither a success nor a failure was recorded between the reads, only
/// checks, and the circuit was not open or each check came before the
/// cooldown had elapsed. The counter is the same after any checks at all: a
/// check changes nothing but the state, and that only from open to half-open.
pub proof fn lemma_reads_repeat(model: BreakerModel, elapsed_ms: Seq<nat>)
    ensures
        model.after_checks(elapsed_ms) == (BreakerModel {
            state: model.after_checks(elapsed_ms).state,
            ..model
        }),
        model.after_checks(elapsed_ms).state == model.state || (model.state == CircuitState::Open
            && model.after_checks(elapsed_ms).state == CircuitState::HalfOpen),
        model.state != CircuitState::Open ==> model.after_checks(elapsed_ms) == model,
        (forall|i: int| 0 <= i < elapsed_ms.len() ==> elapsed_ms[i] < model.reset_timeout_ms)
            ==> model.after_checks(elapsed_ms) == model,
    decreases elapsed_ms.len(),
{
    if elapsed_ms.len() > 0 {
        lemma_reads_repeat(model, elapsed_ms.drop_last());
    }
}

/// Whether a failure opens the circuit is decided by the counter alone: on a
/// coherent breaker the circuit is open after a failure if the counter has
/// reached the threshold with it, and is closed otherwise.
pub proof fn lemma_failure_decides_by_counter(model: BreakerModel)
    requires
        model.coherent(),
    ensures
        model.failure_count + 1 >= model.failure_threshold ==> model.after_failure().state
            == CircuitState::Open,
        model.failure_count + 1 < model.failure_threshold ==> model.after_failure().state
            == CircuitState::Closed,
{
}

/// One success returns the counter to zero and closes the circuit, whatever
/// the counter and the state were, and after any number of failures before
/// it. A second success changes nothing more.
pub proof fn lemma_success_resets(model: BreakerModel, failures: nat)
    ensures
        model.after_failures(failures).after_success().failure_count == 0,
        model.after_failures(failures).after_success().state == CircuitState::Closed,
        model.after_success().after_success() == model.after_success(),
{
}

/// Failures in a row, with no success between them, on a closed circuit whose
/// counter is below the threshold: each adds one to the counter, the circuit
/// is still closed while the counter is below the threshold, and it is open
/// from the failure with which the counter reaches the threshold.
pub proof fn lemma_opens_at_threshold(model: BreakerModel, failures: nat)
    requires
        model.state == CircuitState::Closed,
        model.failure_count < model.failure_threshold,
    ensures
        model.after_failures(failures).failure_count == model.failure_count + failures,
        model.after_failures(failures).failure_threshold == model.failure_threshold,
        model.after_failures(failures).reset_timeout_ms == model.reset_timeout_ms,
        model.failure_count + failures < model.failure_threshold ==> model.after_failures(
            failures,
        ).state == CircuitState::Closed,
        model.failure_count + failures >= model.failure_threshold ==> model.after_failures(
            failures,
        ).state == CircuitState::Open && model.after_failures(failures).stamped,
    decreases failures,
{
    if failures > 0 {
        lemma_opens_at_threshold(model, (failures - 1) as nat);
    }
}

/// An open circuit stays open: a further failure leaves it open, and so does
/// every check made before the cooldown has elapsed, which is blocked and
/// changes nothing.
pub proof fn lemma_open_stays_open(model: BreakerModel, elapsed_ms: Seq<nat>)
    requires
        model.coherent(),
        model.state == CircuitState::Open,
        forall|i: int| 0 <= i < elapsed_ms.len() ==> elapsed_ms[i] < model.reset_timeout_ms,
    ensures
        model.after_failure().state == CircuitState::Open,
        forall|i: int| 0 <= i < elapsed_ms.len() ==> !model.admits(#[trigger] elapsed_ms[i]),
        model.after_checks(elapsed_ms) == model,
{
    lemma_reads_repeat(model, elapsed_ms);
}

/// On an open circuit with a stamped failure, the first check at or after the
/// cooldown is permitted and turns the circuit half-open, whatever number of
/// checks before the cooldown came first; nothing else changes.
pub proof fn lemma_first_check_after_cooldown(model: BreakerModel, early_ms: Seq<nat>, late_ms: nat)
    requires
        model.state == CircuitState::Open,
        model.stamped,
        forall|i: int| 0 <= i < early_ms.len() ==> early_ms[i] < model.reset_timeout_ms,
        late_ms >= model.reset_timeout_ms,
    ensures
        model.after_checks(early_ms).admits(late_ms),
        model.after_checks(early_ms.push(late_ms)) == (BreakerModel {
            state: CircuitState::HalfOpen,
            ..model
        }),
{
    lemma_reads_repeat(model, early_ms);
    assert(early_ms.push(late_ms).drop_last() == early_ms);
}

} // verus!
