//! Elapsed time in the unit that suits it.

use crate::chars::{decimal, decimal_digits, extend_str, to_string};
use vstd::prelude::*;

verus! {

/// A helper struct that help formatting elapsed duration.
#[derive(Clone, Copy, Debug, PartialEq, Eq, Structural)]
pub struct AutoUnitDuration {
    secs: u64,
    subsec_nanos: u32,
}

impl View for AutoUnitDuration {
    type V = (nat, nat);

    /// The whole seconds, and the nanoseconds beyond them.
    closed spec fn view(&self) -> (nat, nat) {
        (self.secs as nat, self.subsec_nanos as nat)
    }
}

/// A duration in the biggest of the units s, ms, µs and ns of which it
/// holds at least one; what is left over is dropped. A duration of nothing
/// is `0 ns`.
pub open spec fn auto_unit_text(secs: nat, subsec_nanos: nat) -> Seq<char> {
    if secs != 0 {
        decimal(secs) + " s"@
    } else if subsec_nanos / 1_000_000 != 0 {
        decimal(subsec_nanos / 1_000_000) + " ms"@
    } else if subsec_nanos / 1_000 != 0 {
        decimal(subsec_nanos / 1_000) + " µs"@
    } else {
        decimal(subsec_nanos) + " ns"@
    }
}

impl AutoUnitDuration {
    /// The duration of `secs` seconds and `subsec_nanos` nanoseconds.
    pub fn new(secs: u64, subsec_nanos: u32) -> (out: Self)
        ensures
            out@ == (secs as nat, subsec_nanos as nat),
    {
        AutoUnitDuration { secs, subsec_nanos }
    }

    /// The duration as it is written, such as `15 ms`.
    pub fn text(&self) -> (out: String)
        ensures
            out@ == auto_unit_text(self@.0, self@.1),
    {
        let (amount, unit): (u64, &str) = if self.secs != 0 {
            (self.secs, " s")
        } else if self.subsec_nanos / 1_000_000 != 0 {
            ((self.subsec_nanos / 1_000_000) as u64, " ms")
        } else if self.subsec_nanos / 1_000 != 0 {
            ((self.subsec_nanos / 1_000) as u64, " µs")
        } else {
            (self.subsec_nanos as u64, " ns")
        };
        let mut out = decimal_digits(amount as u128);
        extend_str(&mut out, unit);
        to_string(&out)
    }
}

} // verus!
