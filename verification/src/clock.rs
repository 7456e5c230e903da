//! The monotonic clock of the standard library, as far as the breaker reads it.

use std::time::{Duration, Instant};
use vstd::prelude::*;

verus! {

#[verifier::external_type_specification]
#[verifier::external_body]
pub struct ExInstant(std::time::Instant);

/// `std::time::Instant::now`: the current reading of the monotonic clock.
/// Nothing is claimed of the instant that comes back.
#[verifier::external_body]
pub(crate) fn clock_now() -> Instant {
    Instant::now()
}

/// `std::time::Instant::elapsed`: the time that has passed since `earlier`.
/// Nothing is claimed of the span that comes back: it depends on the clock.
#[verifier::external_body]
pub(crate) fn elapsed_since(earlier: &Instant) -> Duration {
    earlier.elapsed()
}

/// `std::time::Duration::as_millis`: the whole milliseconds in `span`.
/// A span is opaque here, so nothing is claimed of the number.
#[verifier::external_body]
pub(crate) fn whole_millis(span: &Duration) -> u128 {
    span.as_millis()
}

} // verus!
