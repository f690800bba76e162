//! The monotonic clock that times the display of a notification.

use instant::Instant;
use vstd::prelude::*;

verus! {

/// A point in time on the monotonic clock. Nothing is known of its inside.
#[verifier::external_type_specification]
#[verifier::external_body]
pub struct ExInstant(instant::Instant);

/// How long a notification stays before the bar falls back, in nanoseconds.
pub const TIMEOUT_NANOS: u128 = 5_000_000_000;

/// Calls `instant::Instant::now`. Nothing is claimed of the point in time
/// that it returns.
#[verifier::external_body]
pub(crate) fn start_clock() -> (origin: Instant) {
    Instant::now()
}

/// Calls `instant::Instant::elapsed` and gives the duration in whole
/// nanoseconds. Nothing is claimed of the number: it depends on the clock.
#[verifier::external_body]
pub(crate) fn elapsed_nanos(origin: &Instant) -> (nanos: u128) {
    origin.elapsed().as_nanos()
}

} // verus!
