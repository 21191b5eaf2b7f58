//! The rules by which the local offset from UTC is found.

use crate::config::{is_choice, is_truthy, truthy_values};
use vstd::prelude::*;

verus! {

/// Why the time zone could not be had.
#[derive(Clone, Copy, Debug, PartialEq, Eq, Structural)]
pub enum TimezoneFailure {
    /// The time zone file does not exist.
    NotFound,
    /// Anything else.
    Other,
}

/// Where the offset is taken from.
#[derive(Clone, Copy, Debug, PartialEq, Eq, Structural)]
pub enum OffsetSource {
    /// From the time zone that was read.
    Timezone,
    /// UTC, for want of a time zone.
    Utc,
}

/// Whether the time zone is read once and kept. It is unless the setting
/// says otherwise: no setting means yes, and a setting means yes exactly
/// when it is truthy.
pub open spec fn caches(setting: Option<&str>) -> bool {
    match setting {
        None => true,
        Some(value) => is_choice(value@, truthy_values()),
    }
}

/// Whether the time zone is read once and kept, given the value of the
/// setting for it, if it is set.
pub fn cache_timezone(setting: Option<&str>) -> (out: bool)
    ensures
        out == caches(setting),
{
    match setting {
        None => true,
        Some(value) => is_truthy(value),
    }
}

/// Where the offset is taken from, given how reading the time zone went. A
/// time zone that was read is used. A missing time zone file means UTC, but
/// only where the time zone is not kept: a time zone that is to be kept has
/// to be there. Every other failure is handed on.
pub open spec fn source(cached: bool, read: Result<(), TimezoneFailure>) -> Result<
    OffsetSource,
    TimezoneFailure,
> {
    match read {
        Ok(_) => Ok(OffsetSource::Timezone),
        Err(TimezoneFailure::NotFound) => if cached {
            Err(TimezoneFailure::NotFound)
        } else {
            Ok(OffsetSource::Utc)
        },
        Err(failure) => Err(failure),
    }
}

/// Where the offset is taken from, given how reading the time zone went.
pub fn offset_source(cached: bool, read: Result<(), TimezoneFailure>) -> (out: Result<
    OffsetSource,
    TimezoneFailure,
>)
    ensures
        out == source(cached, read),
{
    match read {
        Ok(_) => Ok(OffsetSource::Timezone),
        Err(TimezoneFailure::NotFound) => if cached {
            Err(TimezoneFailure::NotFound)
        } else {
            Ok(OffsetSource::Utc)
        },
        Err(failure) => Err(failure),
    }
}

} // verus!
