//! Timestamps cut down to the precision that they are written with.

use std::marker::PhantomData;
use vstd::prelude::*;

verus! {

pub const NANOS_PER_MILLISECOND: u32 = 1_000_000;

/// A point in time with an offset from UTC: the whole seconds since the
/// start of 1970, counted downwards for times before it, the nanoseconds
/// beyond them, and the offset in seconds.
#[derive(Clone, Copy, Debug, PartialEq, Eq, Structural)]
pub struct Timestamp {
    pub unix_seconds: i64,
    pub nanosecond: u32,
    pub offset_seconds: i32,
}

/// A timestamp that is written to the millisecond.
#[derive(Clone, Copy, Debug, PartialEq, Eq, Structural)]
pub struct Millisecond(pub Timestamp);

/// A timestamp that is written to the second.
#[derive(Clone, Copy, Debug, PartialEq, Eq, Structural)]
pub struct Second(pub Timestamp);

/// Marks the precision of a millisecond.
pub struct MillisecondUnit;

/// Marks the precision of a second.
pub struct SecondUnit;

/// A time value together with the precision that it is written with.
pub struct Serde<T, U> {
    time: T,
    unit: PhantomData<U>,
}

impl<T, U> Serde<T, U> {
    /// The time value.
    pub closed spec fn time(self) -> T {
        self.time
    }

    pub fn new(time: T) -> (out: Self)
        ensures
            out.time() == time,
    {
        Self { time, unit: PhantomData }
    }

    pub fn into_time(self) -> (out: T)
        ensures
            out == self.time(),
    {
        self.time
    }
}

/// `nanosecond` without what lies below its milliseconds.
pub open spec fn whole_milliseconds(nanosecond: u32) -> u32 {
    (nanosecond - nanosecond % NANOS_PER_MILLISECOND) as u32
}

/// `datetime` without what lies below its milliseconds: the same second and
/// offset, and the milliseconds that had begun.
pub fn floor_to_millisecond(datetime: Timestamp) -> (out: Timestamp)
    ensures
        out == (Timestamp { nanosecond: whole_milliseconds(datetime.nanosecond), ..datetime }),
{
    Timestamp {
        nanosecond: datetime.nanosecond - datetime.nanosecond % NANOS_PER_MILLISECOND,
        ..datetime
    }
}

/// `datetime` without what lies below its seconds: the same second and
/// offset, and no nanoseconds.
pub fn floor_to_second(datetime: Timestamp) -> (out: Timestamp)
    ensures
        out == (Timestamp { nanosecond: 0, ..datetime }),
{
    Timestamp { nanosecond: 0, ..datetime }
}

/// Cutting down never moves a timestamp forward nor by a millisecond or
/// more, it changes nothing that is cut down already, and what is cut to the
/// second is cut to the millisecond too.
pub proof fn lemma_floor(nanosecond: u32)
    ensures
        whole_milliseconds(nanosecond) <= nanosecond < whole_milliseconds(nanosecond)
            + NANOS_PER_MILLISECOND,
        whole_milliseconds(nanosecond) % NANOS_PER_MILLISECOND == 0,
        whole_milliseconds(whole_milliseconds(nanosecond)) == whole_milliseconds(nanosecond),
        whole_milliseconds(0) == 0,
{
}

} // verus!
