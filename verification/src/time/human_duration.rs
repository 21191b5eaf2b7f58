//! Durations as people read them: days, hours, minutes and seconds.

use crate::chars::{decimal, decimal_digits, join, join_with, to_string, views};
use vstd::prelude::*;

verus! {

pub const MINUTE_SECONDS: u64 = 60;

pub const HOUR_SECONDS: u64 = 3600;

pub const DAY_SECONDS: u64 = 86400;

/// A duration of whole seconds.
#[derive(Copy, Clone, Debug, PartialEq, Eq, PartialOrd, Ord)]
pub struct HumanDuration(u64);

/// The units that a duration is shown in, from the biggest down.
#[derive(Clone, Copy, Debug, PartialEq, Eq, Structural)]
pub enum Unit {
    Day,
    Hour,
    Minute,
    Second,
}

/// One part of a duration: a count of one unit.
#[derive(Clone, Copy)]
pub struct DurationComponent {
    value: u64,
    unit: Unit,
}

/// The components of a duration that are still to come, from the biggest
/// unit down.
pub struct DurationComponents {
    time: HumanDuration,
    unit: Option<Unit>,
}

/// A duration together with the number of components to show of it.
#[derive(Copy, Clone)]
pub struct HumanDurationDisplay {
    human_duration: HumanDuration,
    num_components: u8,
}

impl View for HumanDuration {
    type V = nat;

    /// The number of seconds.
    closed spec fn view(&self) -> nat {
        self.0 as nat
    }
}

impl View for DurationComponent {
    type V = (nat, Unit);

    /// The count and its unit.
    closed spec fn view(&self) -> (nat, Unit) {
        (self.value as nat, self.unit)
    }
}

/// The count of `unit` in a duration of `secs` seconds, if that unit is
/// shown: a unit bigger than the whole duration is not, seconds always are.
/// Hours, minutes and seconds count what the bigger units leave over.
pub open spec fn component(secs: nat, unit: Unit) -> Option<nat> {
    match unit {
        Unit::Day => if secs >= DAY_SECONDS {
            Some(secs / (DAY_SECONDS as nat))
        } else {
            None
        },
        Unit::Hour => if secs >= HOUR_SECONDS {
            Some(secs / (HOUR_SECONDS as nat) % 24)
        } else {
            None
        },
        Unit::Minute => if secs >= MINUTE_SECONDS {
            Some(secs / (MINUTE_SECONDS as nat) % 60)
        } else {
            None
        },
        Unit::Second => Some(secs % (MINUTE_SECONDS as nat)),
    }
}

/// The components of a duration of `secs` seconds from `unit` down.
pub open spec fn components_from(secs: nat, unit: Option<Unit>) -> Seq<(nat, Unit)>
    decreases
        (match unit {
            Some(u) => u.rank() + 1,
            None => 0,
        }),
{
    match unit {
        None => Seq::empty(),
        Some(u) => {
            let rest = components_from(secs, u.smaller());
            match component(secs, u) {
                Some(value) => seq![(value, u)] + rest,
                None => rest,
            }
        },
    }
}

/// The components of a duration of `secs` seconds.
pub open spec fn components(secs: nat) -> Seq<(nat, Unit)> {
    components_from(secs, Some(Unit::Day))
}

/// The count of `unit` in a duration of `secs` seconds, which is nothing
/// where the unit is not shown.
pub open spec fn amount(secs: nat, unit: Unit) -> nat {
    match component(secs, unit) {
        Some(count) => count,
        None => 0,
    }
}

/// The components of a duration add up to it: nothing is lost or counted
/// twice. Hours stay below a day, and minutes and seconds below sixty.
pub proof fn lemma_components_add_up(secs: nat)
    ensures
        amount(secs, Unit::Day) * DAY_SECONDS + amount(secs, Unit::Hour) * HOUR_SECONDS + amount(
            secs,
            Unit::Minute,
        ) * MINUTE_SECONDS + amount(secs, Unit::Second) == secs,
        amount(secs, Unit::Hour) < 24,
        amount(secs, Unit::Minute) < 60,
        amount(secs, Unit::Second) < 60,
{
}

/// A duration of at least one second in a unit shows that unit and every
/// smaller one, so that its components are never empty and end in seconds.
pub proof fn lemma_components_end_in_seconds(secs: nat)
    ensures
        components(secs).len() >= 1,
        components(secs).last().1 == Unit::Second,
        components(secs).last().0 == secs % 60,
        components(secs).len() == if secs >= DAY_SECONDS {
            4nat
        } else if secs >= HOUR_SECONDS {
            3nat
        } else if secs >= MINUTE_SECONDS {
            2nat
        } else {
            1nat
        },
{
    reveal_with_fuel(components_from, 5);
}

/// How one component is written: the count, then the letter of the unit.
pub open spec fn component_text(component: (nat, Unit)) -> Seq<char> {
    decimal(component.0).push(component.1.letter())
}

/// How a duration of `secs` seconds is written with at most `limit`
/// components: the first ones, separated by single spaces.
pub open spec fn formatted(secs: nat, limit: nat) -> Seq<char> {
    let all = components(secs);
    let shown = if limit < all.len() {
        all.take(limit as int)
    } else {
        all
    };
    join(shown.map_values(|c: (nat, Unit)| component_text(c)), seq![' '])
}

impl Unit {
    /// The biggest unit.
    pub const BIGGEST: Unit = Unit::Day;

    /// How many units are smaller than this one.
    pub open spec fn rank(self) -> nat {
        match self {
            Unit::Day => 3,
            Unit::Hour => 2,
            Unit::Minute => 1,
            Unit::Second => 0,
        }
    }

    /// The next smaller unit, if there is one.
    pub open spec fn smaller(self) -> Option<Unit> {
        match self {
            Unit::Day => Some(Unit::Hour),
            Unit::Hour => Some(Unit::Minute),
            Unit::Minute => Some(Unit::Second),
            Unit::Second => None,
        }
    }

    /// The letter that stands for this unit.
    pub open spec fn letter(self) -> char {
        match self {
            Unit::Day => 'd',
            Unit::Hour => 'h',
            Unit::Minute => 'm',
            Unit::Second => 's',
        }
    }

    /// The next smaller unit, if there is one.
    pub fn next_smaller(self) -> (out: Option<Unit>)
        ensures
            out == self.smaller(),
    {
        match self {
            Unit::Day => Some(Unit::Hour),
            Unit::Hour => Some(Unit::Minute),
            Unit::Minute => Some(Unit::Second),
            Unit::Second => None,
        }
    }
}

impl HumanDuration {
    pub fn from_secs(secs: u64) -> (out: Self)
        ensures
            out@ == secs,
    {
        HumanDuration(secs)
    }

    /// The whole days, if there is at least one.
    pub fn days(self) -> (out: Option<u64>)
        ensures
            out matches Some(n) ==> component(self@, Unit::Day) == Some(n as nat),
            out is None ==> component(self@, Unit::Day) is None,
    {
        if self.0 >= DAY_SECONDS {
            Some(self.0 / DAY_SECONDS)
        } else {
            None
        }
    }

    /// The hours beyond whole days, if the duration is an hour or more.
    pub fn hours(self) -> (out: Option<u64>)
        ensures
            out matches Some(n) ==> component(self@, Unit::Hour) == Some(n as nat),
            out is None ==> component(self@, Unit::Hour) is None,
    {
        if self.0 >= HOUR_SECONDS {
            Some(self.0 / HOUR_SECONDS % 24)
        } else {
            None
        }
    }

    /// The minutes beyond whole hours, if the duration is a minute or more.
    pub fn minutes(self) -> (out: Option<u64>)
        ensures
            out matches Some(n) ==> component(self@, Unit::Minute) == Some(n as nat),
            out is None ==> component(self@, Unit::Minute) is None,
    {
        if self.0 >= MINUTE_SECONDS {
            Some(self.0 / MINUTE_SECONDS % 60)
        } else {
            None
        }
    }

    /// The seconds beyond whole minutes.
    pub fn secs(self) -> (out: u64)
        ensures
            component(self@, Unit::Second) == Some(out as nat),
    {
        self.0 % MINUTE_SECONDS
    }

    /// The duration written with at most `num_components` components.
    pub fn format(self, num_components: u8) -> (out: String)
        ensures
            out@ == formatted(self@, num_components as nat),
    {
        self.display(num_components).text()
    }

    /// The duration written with all its components.
    pub fn format_all(self) -> (out: String)
        ensures
            out@ == formatted(self@, DurationComponent::ALL_COMPONENTS as nat),
    {
        self.format(DurationComponent::ALL_COMPONENTS)
    }

    /// The components of the duration, from the biggest unit down.
    pub fn components(self) -> (out: DurationComponents)
        ensures
            out@ == components(self@),
    {
        DurationComponents::new(self)
    }

    pub fn display(self, num_components: u8) -> (out: HumanDurationDisplay)
        ensures
            out@ == (self@, num_components as nat),
    {
        HumanDurationDisplay { human_duration: self, num_components }
    }

    pub fn display_all(self) -> (out: HumanDurationDisplay)
        ensures
            out@ == (self@, DurationComponent::ALL_COMPONENTS as nat),
    {
        self.display(DurationComponent::ALL_COMPONENTS)
    }
}

impl DurationComponent {
    /// The number of components that shows a duration in full.
    pub const ALL_COMPONENTS: u8 = 4;

    pub fn days(value: u64) -> (out: Self)
        ensures
            out@ == (value as nat, Unit::Day),
    {
        Self { value, unit: Unit::Day }
    }

    pub fn hours(value: u64) -> (out: Self)
        ensures
            out@ == (value as nat, Unit::Hour),
    {
        Self { value, unit: Unit::Hour }
    }

    pub fn minutes(value: u64) -> (out: Self)
        ensures
            out@ == (value as nat, Unit::Minute),
    {
        Self { value, unit: Unit::Minute }
    }

    pub fn seconds(value: u64) -> (out: Self)
        ensures
            out@ == (value as nat, Unit::Second),
    {
        Self { value, unit: Unit::Second }
    }

    /// The component as it is written, such as `5h`.
    pub fn text(&self) -> (out: String)
        ensures
            out@ == component_text(self@),
    {
        to_string(&self.chars())
    }

    fn chars(&self) -> (out: Vec<char>)
        ensures
            out@ == component_text(self@),
    {
        let mut out = decimal_digits(self.value as u128);
        out.push(
            match self.unit {
                Unit::Day => 'd',
                Unit::Hour => 'h',
                Unit::Minute => 'm',
                Unit::Second => 's',
            },
        );
        out
    }
}

impl View for DurationComponents {
    type V = Seq<(nat, Unit)>;

    /// The components that are still to come.
    closed spec fn view(&self) -> Seq<(nat, Unit)> {
        components_from(self.time@, self.unit)
    }
}

impl DurationComponents {
    pub fn new(time: HumanDuration) -> (out: Self)
        ensures
            out@ == components(time@),
    {
        DurationComponents { time, unit: Some(Unit::BIGGEST) }
    }

    /// The next component, if one is left.
    pub fn next(&mut self) -> (out: Option<DurationComponent>)
        ensures
            match out {
                Some(c) => old(self)@ == seq![c@] + final(self)@,
                None => old(self)@.len() == 0 && final(self)@.len() == 0,
            },
    {
        loop
            invariant
                self@ == old(self)@,
            decreases
                (match self.unit {
                    Some(u) => u.rank() + 1,
                    None => 0,
                }),
        {
            let unit = match self.unit {
                Some(unit) => unit,
                None => { return None; },
            };
            self.unit = unit.next_smaller();
            let component = match unit {
                Unit::Day => match self.time.days() {
                    Some(n) => Some(DurationComponent::days(n)),
                    None => None,
                },
                Unit::Hour => match self.time.hours() {
                    Some(n) => Some(DurationComponent::hours(n)),
                    None => None,
                },
                Unit::Minute => match self.time.minutes() {
                    Some(n) => Some(DurationComponent::minutes(n)),
                    None => None,
                },
                Unit::Second => Some(DurationComponent::seconds(self.time.secs())),
            };
            if component.is_some() {
                return component;
            }
        }
    }

    /// The components that are left, in order.
    pub fn collect(self) -> (out: Vec<DurationComponent>)
        ensures
            out@.map_values(|c: DurationComponent| c@) == self@,
    {
        let mut rest = self;
        let mut out: Vec<DurationComponent> = Vec::new();
        loop
            invariant
                out@.map_values(|c: DurationComponent| c@) + rest@ == self@,
            decreases rest@.len(),
        {
            let ghost before = out@.map_values(|c: DurationComponent| c@);
            match rest.next() {
                Some(c) => {
                    out.push(c);
                    assert(out@.map_values(|c: DurationComponent| c@) == before.push(c@));
                    assert(before.push(c@) + rest@ == before + (seq![c@] + rest@));
                },
                None => {
                    assert(before + rest@ == before);
                    return out;
                },
            }
        }
    }
}

impl View for HumanDurationDisplay {
    type V = (nat, nat);

    /// The seconds of the duration and the number of components to show.
    closed spec fn view(&self) -> (nat, nat) {
        (self.human_duration@, self.num_components as nat)
    }
}

impl HumanDurationDisplay {
    /// The duration as it is written, such as `1h 0m`.
    pub fn text(&self) -> (out: String)
        ensures
            out@ == formatted(self@.0, self@.1),
    {
        let mut rest = self.human_duration.components();
        let ghost all = components(self@.0);
        let ghost texts = all.map_values(|c: (nat, Unit)| component_text(c));
        let mut parts: Vec<Vec<char>> = Vec::new();
        let mut taken: u8 = 0;
        while taken < self.num_components
            invariant
                taken <= self.num_components,
                taken as int <= all.len(),
                all == components(self@.0),
                texts == all.map_values(|c: (nat, Unit)| component_text(c)),
                rest@ == all.skip(taken as int),
                views(parts@) == texts.take(taken as int),
            decreases self.num_components - taken,
        {
            let ghost before = views(parts@);
            match rest.next() {
                Some(c) => {
                    let part = c.chars();
                    proof {
                        assert(all.skip(taken as int)[0] == c@);
                        assert(rest@ == all.skip(taken as int).skip(1));
                        assert(all.skip(taken as int).skip(1) == all.skip(taken + 1));
                        assert(part@ == texts[taken as int]);
                    }
                    parts.push(part);
                    assert(views(parts@) == before.push(part@));
                    assert(texts.take(taken + 1) == texts.take(taken as int).push(
                        texts[taken as int],
                    ));
                    taken += 1;
                },
                None => {
                    assert(all.len() == taken);
                    assert(texts.take(taken as int) == texts);
                    assert(all.take(all.len() as int) == all);
                    return to_string(&join_with(&parts, ' '));
                },
            }
        }
        proof {
            if (self.num_components as nat) < all.len() {
                assert(all.take(taken as int).map_values(|c: (nat, Unit)| component_text(c))
                    == texts.take(taken as int));
            } else {
                assert(texts.take(taken as int) == texts);
            }
        }
        to_string(&join_with(&parts, ' '))
    }
}

} // verus!
