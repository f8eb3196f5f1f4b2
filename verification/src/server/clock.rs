//! The std clocks that the server reads: the monotonic `Instant` for ticks
//! and the system clock for timestamps. Every reading depends on the time of
//! the call, so nothing is stated of the values these functions give.

use vstd::prelude::*;

use std::time::{Duration, Instant, SystemTime, SystemTimeError};

verus! {

/// A point on the monotonic clock, carried through unread.
#[verifier::external_type_specification]
#[verifier::external_body]
pub struct ExInstant(Instant);

/// A point on the system clock, carried through unread.
#[verifier::external_type_specification]
#[verifier::external_body]
pub struct ExSystemTime(SystemTime);

/// The error of a system-clock difference that would be negative.
#[verifier::external_type_specification]
#[verifier::external_body]
pub struct ExSystemTimeError(SystemTimeError);

/// `Instant::now()`: the current point of the monotonic clock.
#[verifier::external_body]
pub(crate) fn instant_now() -> (res: Instant) {
    Instant::now()
}

/// `Instant::elapsed`: the time since `origin` (zero if the clock reads
/// earlier, as std saturates it).
#[verifier::external_body]
pub(crate) fn instant_elapsed(origin: &Instant) -> (res: Duration) {
    origin.elapsed()
}

/// `Duration::as_nanos`: the whole nanoseconds of `d`. No clause states it,
/// as vstd gives no view of a `Duration`.
#[verifier::external_body]
pub(crate) fn duration_nanos(d: &Duration) -> (res: u128) {
    d.as_nanos()
}

/// `Duration::as_secs`: the whole seconds of `d`. No clause states it, as
/// vstd gives no view of a `Duration`.
#[verifier::external_body]
pub(crate) fn duration_secs(d: &Duration) -> (res: u64) {
    d.as_secs()
}

/// `SystemTime::now()`: the current point of the system clock.
#[verifier::external_body]
pub(crate) fn system_now() -> (res: SystemTime) {
    SystemTime::now()
}

/// `std::time::UNIX_EPOCH`: 1970-01-01 00:00:00 UTC on the system clock.
#[verifier::external_body]
pub(crate) fn unix_epoch() -> (res: SystemTime) {
    std::time::UNIX_EPOCH
}

/// `SystemTime::duration_since`: the time from `earlier` to `later`, or an
/// error when `earlier` lies after `later`.
#[verifier::external_body]
pub(crate) fn system_duration_since(later: &SystemTime, earlier: SystemTime) -> (res: Result<Duration, SystemTimeError>) {
    later.duration_since(earlier)
}

} // verus!
