//! The schema of the Gregorian calendar.

pub mod contexts;
pub mod day_periods;
pub mod months;
pub mod patterns;
pub mod weekdays;

use crate::schema::{same_data, Schema};
use vstd::prelude::*;
use vstd::std_specs::cmp::PartialEqSpec;

verus! {

/// The locale data of one calendar: its symbols and its patterns.
#[derive(Debug)]
pub struct DatesV1 {
    pub symbols: DateSymbolsV1,
    pub patterns: PatternsV1,
}

/// What a [`DatesV1`] holds.
pub ghost struct Dates {
    pub symbols: DateSymbols,
    pub patterns: Patterns,
}

impl View for DatesV1 {
    type V = Dates;

    open spec fn view(&self) -> Dates {
        Dates { symbols: self.symbols@, patterns: self.patterns@ }
    }
}

impl Schema for DatesV1 {
    /// The invariant symbols and the invariant patterns.
    open spec fn invariant_view() -> Dates {
        Dates {
            symbols: DateSymbolsV1::invariant_view(),
            patterns: PatternsV1::invariant_view(),
        }
    }

    fn invariant_value() -> (value: Self) {
        DatesV1 {
            symbols: DateSymbolsV1::invariant_value(),
            patterns: PatternsV1::invariant_value(),
        }
    }

    fn same(&self, other: &Self) -> (equal: bool) {
        self.symbols.same(&other.symbols) && self.patterns.same(&other.patterns)
    }

    fn duplicate(&self) -> (copy: Self) {
        DatesV1 { symbols: self.symbols.duplicate(), patterns: self.patterns.duplicate() }
    }
}

impl Clone for DatesV1 {
    fn clone(&self) -> (copy: Self)
        ensures
            copy@ == self@,
    {
        self.duplicate()
    }
}

impl Default for DatesV1 {
    fn default() -> (value: Self)
        ensures
            value@ == Self::invariant_view(),
    {
        Self::invariant_value()
    }
}

impl PartialEq for DatesV1 {
    fn eq(&self, other: &Self) -> (equal: bool) {
        self.same(other)
    }
}

impl vstd::std_specs::cmp::PartialEqSpecImpl for DatesV1 {
    open spec fn obeys_eq_spec() -> bool {
        true
    }

    open spec fn eq_spec(&self, other: &Self) -> bool {
        same_data(self, other)
    }
}

/// `==` on the data of a calendar is an equivalence: every value equals
/// itself, equality does not depend on the side, and two values equal to a
/// third are equal.
pub proof fn lemma_dates_equality_is_equivalence(a: DatesV1, b: DatesV1, c: DatesV1)
    ensures
        a.eq_spec(&a),
        a.eq_spec(&b) == b.eq_spec(&a),
        a.eq_spec(&b) && b.eq_spec(&c) ==> a.eq_spec(&c),
{
}

/// The display names of a calendar: months, days of the week and day
/// periods, each in its contexts.
#[derive(Debug)]
pub struct DateSymbolsV1 {
    pub months: months::ContextsV1,
    pub weekdays: weekdays::ContextsV1,
    pub day_periods: day_periods::ContextsV1,
}

/// What a [`DateSymbolsV1`] holds.
pub ghost struct DateSymbols {
    pub months: contexts::Contexts<Seq<Seq<char>>>,
    pub weekdays: contexts::Contexts<Seq<Seq<char>>>,
    pub day_periods: contexts::Contexts<day_periods::DayPeriods>,
}

impl View for DateSymbolsV1 {
    type V = DateSymbols;

    open spec fn view(&self) -> DateSymbols {
        DateSymbols {
            months: self.months@,
            weekdays: self.weekdays@,
            day_periods: self.day_periods@,
        }
    }
}

impl Schema for DateSymbolsV1 {
    /// The invariant names of each kind.
    open spec fn invariant_view() -> DateSymbols {
        DateSymbols {
            months: months::ContextsV1::invariant_view(),
            weekdays: weekdays::ContextsV1::invariant_view(),
            day_periods: day_periods::ContextsV1::invariant_view(),
        }
    }

    fn invariant_value() -> (value: Self) {
        DateSymbolsV1 {
            months: months::ContextsV1::invariant_value(),
            weekdays: weekdays::ContextsV1::invariant_value(),
            day_periods: day_periods::ContextsV1::invariant_value(),
        }
    }

    fn same(&self, other: &Self) -> (equal: bool) {
        self.months.same(&other.months) && self.weekdays.same(&other.weekdays)
            && self.day_periods.same(&other.day_periods)
    }

    fn duplicate(&self) -> (copy: Self) {
        DateSymbolsV1 {
            months: self.months.duplicate(),
            weekdays: self.weekdays.duplicate(),
            day_periods: self.day_periods.duplicate(),
        }
    }
}

impl Clone for DateSymbolsV1 {
    fn clone(&self) -> (copy: Self)
        ensures
            copy@ == self@,
    {
        self.duplicate()
    }
}

impl Default for DateSymbolsV1 {
    fn default() -> (value: Self)
        ensures
            value@ == Self::invariant_view(),
    {
        Self::invariant_value()
    }
}

impl PartialEq for DateSymbolsV1 {
    fn eq(&self, other: &Self) -> (equal: bool) {
        self.same(other)
    }
}

impl vstd::std_specs::cmp::PartialEqSpecImpl for DateSymbolsV1 {
    open spec fn obeys_eq_spec() -> bool {
        true
    }

    open spec fn eq_spec(&self, other: &Self) -> bool {
        same_data(self, other)
    }
}

/// The format patterns of a calendar: for dates, for times, and for a date
/// and a time together.
#[derive(Debug)]
pub struct PatternsV1 {
    pub date: patterns::StylePatternsV1,
    pub time: patterns::StylePatternsV1,
    pub date_time: patterns::StylePatternsV1,
}

/// What a [`PatternsV1`] holds.
pub ghost struct Patterns {
    pub date: patterns::StylePatterns,
    pub time: patterns::StylePatterns,
    pub date_time: patterns::StylePatterns,
}

impl View for PatternsV1 {
    type V = Patterns;

    open spec fn view(&self) -> Patterns {
        Patterns { date: self.date@, time: self.time@, date_time: self.date_time@ }
    }
}

impl Schema for PatternsV1 {
    /// The invariant patterns of each kind.
    open spec fn invariant_view() -> Patterns {
        Patterns {
            date: patterns::StylePatternsV1::invariant_view(),
            time: patterns::StylePatternsV1::invariant_view(),
            date_time: patterns::StylePatternsV1::invariant_view(),
        }
    }

    fn invariant_value() -> (value: Self) {
        PatternsV1 {
            date: patterns::StylePatternsV1::invariant_value(),
            time: patterns::StylePatternsV1::invariant_value(),
            date_time: patterns::StylePatternsV1::invariant_value(),
        }
    }

    fn same(&self, other: &Self) -> (equal: bool) {
        self.date.same(&other.date) && self.time.same(&other.time) && self.date_time.same(
            &other.date_time,
        )
    }

    fn duplicate(&self) -> (copy: Self) {
        PatternsV1 {
            date: self.date.duplicate(),
            time: self.time.duplicate(),
            date_time: self.date_time.duplicate(),
        }
    }
}

impl Clone for PatternsV1 {
    fn clone(&self) -> (copy: Self)
        ensures
            copy@ == self@,
    {
        self.duplicate()
    }
}

impl Default for PatternsV1 {
    fn default() -> (value: Self)
        ensures
            value@ == Self::invariant_view(),
    {
        Self::invariant_value()
    }
}

impl PartialEq for PatternsV1 {
    fn eq(&self, other: &Self) -> (equal: bool) {
        self.same(other)
    }
}

impl vstd::std_specs::cmp::PartialEqSpecImpl for PatternsV1 {
    open spec fn obeys_eq_spec() -> bool {
        true
    }

    open spec fn eq_spec(&self, other: &Self) -> bool {
        same_data(self, other)
    }
}

} // verus!
