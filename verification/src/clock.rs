//! A monotonic clock that reads as a plain number.

use std::time::{Duration, Instant};
use vstd::prelude::*;

verus! {

/// Nanoseconds in one second.
pub const NANOS_PER_SECOND: u128 = 1_000_000_000;

/// `std::time::Instant`, a point on the monotonic clock. Nothing is known of
/// what a value holds.
#[verifier::external_type_specification]
#[verifier::external_body]
pub struct ExInstant(std::time::Instant);

/// `Instant::now` reads the monotonic clock. Nothing is claimed of the
/// reading.
pub assume_specification[ Instant::now ]() -> Instant
;

/// `Instant::elapsed` gives the time that has passed since the instant was
/// taken. Nothing is claimed of the amount.
pub assume_specification[ Instant::elapsed ](instant: &Instant) -> Duration
;

/// `Duration::as_nanos` gives the whole span in nanoseconds. The span itself
/// is opaque here, so nothing is claimed of the number.
pub assume_specification[ Duration::as_nanos ](span: &Duration) -> u128
;

/// A monotonic clock that counts nanoseconds from the moment it was made.
pub struct Clock {
    origin: Instant,
}

impl Clock {
    /// Starts a clock at the present moment.
    pub fn new() -> Clock {
        Clock { origin: Instant::now() }
    }

    /// The nanoseconds that have passed since the clock was started. Readings
    /// depend on the machine's clock, so callers must cope with any value.
    pub fn now(&self) -> u128 {
        let span = self.origin.elapsed();
        span.as_nanos()
    }
}

/// The whole seconds that lie between two readings of one clock; none where
/// the later reading is not in fact later.
pub open spec fn seconds_between(earlier: u128, later: u128) -> int {
    if later >= earlier {
        (later - earlier) / (NANOS_PER_SECOND as int)
    } else {
        0
    }
}

/// The whole seconds between two readings, without ever going below zero.
pub fn whole_seconds_between(earlier: u128, later: u128) -> (seconds: u128)
    ensures
        seconds == seconds_between(earlier, later),
{
    if later >= earlier {
        (later - earlier) / NANOS_PER_SECOND
    } else {
        0
    }
}

} // verus!
