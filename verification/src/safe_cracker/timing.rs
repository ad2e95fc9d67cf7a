//! Readings of the monotonic clock, for measuring how long a run took.

use core::time::Duration;
use std::time::Instant;
use vstd::prelude::*;

verus! {

/// `std::time::Instant`, declared so that the driver can hold a clock
/// reading. The library states nothing about such values.
#[verifier::external_type_specification]
#[verifier::external_body]
pub struct ExInstant(Instant);

/// Relies on std::time::Instant::now: a reading of the monotonic clock.
/// Nothing can be promised of a clock reading.
#[verifier::external_body]
pub(crate) fn instant_now() -> Instant {
    Instant::now()
}

/// Relies on std::time::Instant::elapsed: the time since `start`, by the
/// same clock. Nothing can be promised of a clock reading.
#[verifier::external_body]
pub(crate) fn elapsed_since(start: &Instant) -> Duration {
    start.elapsed()
}

/// Relies on core::time::Duration::from_millis: the given number of
/// milliseconds as a duration. The library holds durations opaquely and
/// states nothing about them.
#[verifier::external_body]
pub(crate) fn duration_from_millis(ms: u64) -> Duration {
    Duration::from_millis(ms)
}

} // verus!
