use resilience::breaker::CircuitState;
use resilience::retryer::{delay_with_jitter, Retryer, Step, Verdict, JITTER_BOUND_MS};
use std::time::{Duration, Instant};

/// Runs one call through the retryer as its caller does, without sleeping:
/// returns what the call returns, and the delays it was told to wait.
fn run_call<F, T, E>(
    retryer: &mut Retryer<F>,
    mut operation: impl FnMut() -> Result<T, E>,
) -> (Result<T, E>, Vec<u64>)
where
    F: Fn(u32) -> u64,
{
    let mut attempt: u32 = 0;
    let mut delays = Vec::new();
    loop {
        if retryer.next_step() == Step::PassThrough {
            return (operation(), delays);
        }
        match operation() {
            Ok(value) => {
                retryer.on_success();
                return (Ok(value), delays);
            }
            Err(error) => match retryer.on_failure(attempt) {
                Verdict::GiveUp => return (Err(error), delays),
                Verdict::RetryAfter { attempt: next, delay_ms } => {
                    attempt = next;
                    delays.push(delay_ms);
                }
            },
        }
    }
}

#[test]
fn new_retryer_is_closed() {
    let mut retryer = Retryer::new(3, |_| 0, 3, 1000);
    assert_eq!(retryer.get_circuit_state(), CircuitState::Closed);
    assert_eq!(retryer.get_failure_count(), 0);
    assert_eq!(retryer.next_step(), Step::Attempt);
    assert_eq!(retryer.get_circuit_state(), CircuitState::Closed);
}

#[test]
fn delay_is_base_plus_jitter() {
    assert_eq!(delay_with_jitter(1000, 37), 1037);
    assert_eq!(delay_with_jitter(0, 0), 0);
    assert_eq!(delay_with_jitter(0, 99), 99);
    assert_eq!(delay_with_jitter(5000, 0), 5000);
}

#[test]
fn delay_is_held_at_the_largest_value() {
    assert_eq!(delay_with_jitter(u64::MAX, 1), u64::MAX);
    assert_eq!(delay_with_jitter(u64::MAX - 5, 99), u64::MAX);
    assert_eq!(delay_with_jitter(u64::MAX - 5, 5), u64::MAX);
    assert_eq!(delay_with_jitter(u64::MAX - 5, 4), u64::MAX - 1);
}

#[test]
fn jitter_bound_is_one_hundred() {
    assert_eq!(JITTER_BOUND_MS, 100);
}

#[test]
fn verdicts_for_given_jitter() {
    let mut retryer = Retryer::new(3, |attempt: u32| 1000 * u64::from(attempt), 10, 1000);
    assert_eq!(
        retryer.on_failure_with_jitter(0, 5, Instant::now()),
        Verdict::RetryAfter { attempt: 1, delay_ms: 1005 }
    );
    assert_eq!(
        retryer.on_failure_with_jitter(1, 99, Instant::now()),
        Verdict::RetryAfter { attempt: 2, delay_ms: 2099 }
    );
    assert_eq!(retryer.on_failure_with_jitter(2, 5, Instant::now()), Verdict::GiveUp);
    assert_eq!(retryer.get_failure_count(), 3);
    assert_eq!(retryer.get_circuit_state(), CircuitState::Closed);
}

#[test]
fn every_failure_reaches_the_circuit() {
    let mut retryer = Retryer::new(5, |_| 0, 2, 1_000_000);
    retryer.on_failure_with_jitter(0, 0, Instant::now());
    assert_eq!(retryer.get_circuit_state(), CircuitState::Closed);
    assert_eq!(retryer.get_failure_count(), 1);
    retryer.on_failure_with_jitter(1, 0, Instant::now());
    assert_eq!(retryer.get_circuit_state(), CircuitState::Open);
    assert_eq!(retryer.get_failure_count(), 2);
    retryer.on_success();
    assert_eq!(retryer.get_circuit_state(), CircuitState::Closed);
    assert_eq!(retryer.get_failure_count(), 0);
}

#[test]
fn drawn_delay_stays_within_the_jitter_bound() {
    let mut retryer = Retryer::new(u32::MAX, |attempt: u32| 10 * u64::from(attempt), u32::MAX, 0);
    let mut seen_low = false;
    let mut seen_high = false;
    for round in 0..2000u32 {
        let base = 10 * u64::from(round + 1);
        match retryer.on_failure(round) {
            Verdict::RetryAfter { attempt, delay_ms } => {
                assert_eq!(attempt, round + 1);
                assert!(delay_ms >= base);
                assert!(delay_ms < base + 100);
                seen_low = seen_low || delay_ms - base < 50;
                seen_high = seen_high || delay_ms - base >= 50;
            }
            Verdict::GiveUp => panic!("budget cannot be spent yet"),
        }
    }
    assert!(seen_low && seen_high);
}

#[test]
fn five_failures_return_the_fifth_error() {
    let mut retryer = Retryer::new(5, |_| 0, 100, 1000);
    let mut calls: u32 = 0;
    let (result, delays): (Result<(), String>, Vec<u64>) = run_call(&mut retryer, || {
        calls += 1;
        Err(format!("failure {}", calls))
    });
    assert_eq!(result, Err(String::from("failure 5")));
    assert_eq!(calls, 5);
    assert_eq!(delays.len(), 4);
    assert!(delays.iter().all(|delay| *delay < 100));
    assert_eq!(retryer.get_failure_count(), 5);
}

#[test]
fn one_failure_then_success_takes_two_attempts() {
    let mut retryer = Retryer::new(3, |_| 0, 3, 1000);
    let mut calls: u32 = 0;
    let (result, delays): (Result<&str, &str>, Vec<u64>) = run_call(&mut retryer, || {
        calls += 1;
        if calls == 1 {
            Err("not yet")
        } else {
            Ok("done")
        }
    });
    assert_eq!(result, Ok("done"));
    assert_eq!(calls, 2);
    assert_eq!(delays.len(), 1);
    assert_eq!(retryer.get_circuit_state(), CircuitState::Closed);
    assert_eq!(retryer.get_failure_count(), 0);
}

#[test]
fn first_success_ends_the_call() {
    let mut retryer = Retryer::new(3, |_| 1000, 3, 1000);
    let mut calls: u32 = 0;
    let (result, delays): (Result<u32, ()>, Vec<u64>) = run_call(&mut retryer, || {
        calls += 1;
        Ok(7)
    });
    assert_eq!(result, Ok(7));
    assert_eq!(calls, 1);
    assert!(delays.is_empty());
}

#[test]
fn attempts_never_pass_the_ceiling() {
    for ceiling in 1..=8u32 {
        let mut retryer = Retryer::new(ceiling, |_| 0, u32::MAX, 1000);
        let mut calls: u32 = 0;
        let (result, _): (Result<(), u32>, Vec<u64>) = run_call(&mut retryer, || {
            calls += 1;
            Err(calls)
        });
        assert_eq!(result, Err(ceiling));
        assert_eq!(calls, ceiling);
    }
}

#[test]
fn ceiling_of_zero_still_runs_once() {
    let mut retryer = Retryer::new(0, |_| 0, 3, 1000);
    let mut calls: u32 = 0;
    let (result, delays): (Result<(), u32>, Vec<u64>) = run_call(&mut retryer, || {
        calls += 1;
        Err(calls)
    });
    assert_eq!(result, Err(1));
    assert_eq!(calls, 1);
    assert!(delays.is_empty());
}

#[test]
fn delays_follow_the_backoff_of_each_failure() {
    let mut retryer = Retryer::new(4, |attempt: u32| 1000 * u64::from(attempt), 100, 1000);
    let (result, delays): (Result<(), ()>, Vec<u64>) = run_call(&mut retryer, || Err(()));
    assert_eq!(result, Err(()));
    assert_eq!(delays.len(), 3);
    for (index, delay) in delays.iter().enumerate() {
        let base = 1000 * (index as u64 + 1);
        assert!(*delay >= base && *delay < base + 100);
    }
}

#[test]
fn blocked_call_is_passed_through_unrecorded() {
    let mut retryer = Retryer::new(5, |_| 0, 2, 3_600_000);
    let mut calls: u32 = 0;
    let (result, delays): (Result<(), u32>, Vec<u64>) = run_call(&mut retryer, || {
        calls += 1;
        Err(calls)
    });
    assert_eq!(result, Err(3));
    assert_eq!(calls, 3);
    assert_eq!(delays.len(), 2);
    assert_eq!(retryer.get_circuit_state(), CircuitState::Open);
    assert_eq!(retryer.get_failure_count(), 2);
    assert_eq!(retryer.next_step(), Step::PassThrough);
    let (passed, _): (Result<&str, ()>, Vec<u64>) = run_call(&mut retryer, || Ok("through"));
    assert_eq!(passed, Ok("through"));
    assert_eq!(retryer.get_circuit_state(), CircuitState::Open);
    assert_eq!(retryer.get_failure_count(), 2);
}

#[test]
fn open_circuit_with_no_cooldown_admits_a_trial() {
    let mut retryer = Retryer::new(5, |_| 0, 1, 0);
    assert_eq!(retryer.on_failure_with_jitter(0, 0, Instant::now()), Verdict::RetryAfter { attempt: 1, delay_ms: 0 });
    assert_eq!(retryer.get_circuit_state(), CircuitState::Open);
    assert_eq!(retryer.next_step(), Step::Attempt);
    assert_eq!(retryer.get_circuit_state(), CircuitState::HalfOpen);
    retryer.on_success();
    assert_eq!(retryer.get_circuit_state(), CircuitState::Closed);
}

#[test]
fn accessors_repeat_without_change() {
    let mut retryer = Retryer::new(5, |_| 0, 2, 1000);
    retryer.on_failure_with_jitter(0, 0, Instant::now());
    let state = retryer.get_circuit_state();
    let count = retryer.get_failure_count();
    for _ in 0..10 {
        assert_eq!(retryer.get_circuit_state(), state);
        assert_eq!(retryer.get_failure_count(), count);
    }
    assert_eq!(state, CircuitState::Closed);
    assert_eq!(count, 1);
}

#[test]
fn exhausted_failure_gives_up_whatever_the_jitter() {
    let mut retryer = Retryer::new(1, |_| 500, 10, 1000);
    assert_eq!(retryer.on_failure_with_jitter(0, 99, Instant::now()), Verdict::GiveUp);
    assert_eq!(retryer.on_failure(0), Verdict::GiveUp);
    assert_eq!(retryer.on_failure(7), Verdict::GiveUp);
    assert_eq!(retryer.get_failure_count(), 3);
}

#[test]
fn cooldown_counts_from_the_failure_reported_last() {
    let now = Instant::now();
    let earlier = now.checked_sub(Duration::from_secs(120)).expect("the clock reaches back two minutes");
    let mut renewed = Retryer::new(5, |_| 0, 1, 60_000);
    renewed.on_failure_with_jitter(0, 0, earlier);
    renewed.on_failure_with_jitter(1, 0, now);
    assert_eq!(renewed.next_step(), Step::PassThrough);
    assert_eq!(renewed.get_circuit_state(), CircuitState::Open);

    let mut stale = Retryer::new(5, |_| 0, 1, 60_000);
    stale.on_failure_with_jitter(0, 0, now);
    stale.on_failure_with_jitter(1, 0, earlier);
    assert_eq!(stale.next_step(), Step::Attempt);
    assert_eq!(stale.get_circuit_state(), CircuitState::HalfOpen);
}

#[test]
fn success_and_steps_keep_the_stamp() {
    let now = Instant::now();
    let earlier = now.checked_sub(Duration::from_secs(120)).expect("the clock reaches back two minutes");
    let mut retryer = Retryer::new(5, |_| 0, 1, 60_000);
    retryer.on_failure_with_jitter(0, 0, earlier);
    assert_eq!(retryer.next_step(), Step::Attempt);
    assert_eq!(retryer.next_step(), Step::Attempt);
    retryer.on_success();
    assert_eq!(retryer.get_circuit_state(), CircuitState::Closed);
    assert_eq!(retryer.next_step(), Step::Attempt);
}
