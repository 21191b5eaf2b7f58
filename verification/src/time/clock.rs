//! The clocks of the standard library and the durations that they measure
//! in. What a clock says depends on when it is asked, and a duration is
//! opaque here, so nothing is claimed of what these functions return.

use std::time::{Duration, Instant, SystemTime, SystemTimeError};
use vstd::prelude::*;

verus! {

/// `std::time::Instant`: a point in time by the monotonic clock.
#[verifier::external_type_specification]
#[verifier::external_body]
pub struct ExInstant(Instant);

/// `std::time::SystemTime`: a point in time by the system clock.
#[verifier::external_type_specification]
#[verifier::external_body]
pub struct ExSystemTime(SystemTime);

/// `std::time::SystemTimeError`: the system clock stands before the point
/// in time that it was compared with.
#[verifier::external_type_specification]
#[verifier::external_body]
pub struct ExSystemTimeError(SystemTimeError);

/// `Instant::now`: the time by the monotonic clock.
#[verifier::external_body]
pub(crate) fn now() -> Instant {
    Instant::now()
}

/// `Instant::elapsed`: the time that has passed since `start`.
#[verifier::external_body]
pub(crate) fn elapsed(start: &Instant) -> Duration {
    start.elapsed()
}

/// `SystemTime::now`: the time by the system clock.
#[verifier::external_body]
pub(crate) fn system_now() -> SystemTime {
    SystemTime::now()
}

/// `SystemTime::duration_since` with `UNIX_EPOCH`: the time from the start
/// of 1970 to `time`, or an error where `time` lies before it.
#[verifier::external_body]
pub(crate) fn since_unix_epoch(time: &SystemTime) -> Result<Duration, SystemTimeError> {
    time.duration_since(std::time::UNIX_EPOCH)
}

/// `Duration::as_secs`: the whole seconds of the duration.
#[verifier::external_body]
pub(crate) fn whole_seconds(duration: &Duration) -> u64 {
    duration.as_secs()
}

/// `Duration::from_secs`: the duration of that many seconds.
#[verifier::external_body]
pub(crate) fn seconds(secs: u64) -> Duration {
    Duration::from_secs(secs)
}

/// `Duration::checked_sub`: `duration` less `other`, or nothing where
/// `other` is the longer one.
#[verifier::external_body]
pub(crate) fn checked_sub(duration: Duration, other: Duration) -> Option<Duration> {
    duration.checked_sub(other)
}

/// `Duration`'s `>`: whether `duration` is longer than `limit`.
#[verifier::external_body]
pub(crate) fn is_longer(duration: &Duration, limit: &Duration) -> bool {
    duration.gt(limit)
}

} // verus!
