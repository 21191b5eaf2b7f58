//! Time values and how they are shown.

use crate::time::clock::{checked_sub, seconds, since_unix_epoch, system_now};
use std::time::Duration;
use vstd::prelude::*;

pub mod clock;
pub mod human_duration;
pub mod local_time;
pub mod rfc3339;

verus! {

/// The time that has passed since the point `unix_time` seconds after the
/// start of 1970, by the system clock. There is none where the clock stands
/// before that point.
pub fn duration_since_unix_time(unix_time: u64) -> Option<Duration> {
    let now_epoch = match since_unix_epoch(&system_now()) {
        Ok(duration) => duration,
        Err(_) => { return None; },
    };
    checked_sub(now_epoch, seconds(unix_time))
}

} // verus!
