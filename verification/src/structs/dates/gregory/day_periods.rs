//! The names of the two halves of the day.

use crate::schema::{same_data, Schema};
use crate::text::{duplicate_text, empty_text, same_text, text_of};
use std::borrow::Cow;
use vstd::prelude::*;

verus! {

/// The names of the time before noon and of the time after it.
#[derive(Debug)]
pub struct SymbolsV1 {
    pub am: Cow<'static, str>,
    pub pm: Cow<'static, str>,
}

/// What a day-period [`SymbolsV1`] holds, as sequences of characters.
pub ghost struct DayPeriods {
    pub am: Seq<char>,
    pub pm: Seq<char>,
}

/// The day-period names in the context of running text.
pub type FormatWidthsV1 = super::contexts::FormatWidthsV1<SymbolsV1>;

/// The day-period names for use in isolation.
pub type StandAloneWidthsV1 = super::contexts::StandAloneWidthsV1<SymbolsV1>;

/// The day-period names in both contexts.
pub type ContextsV1 = super::contexts::ContextsV1<SymbolsV1>;

impl View for SymbolsV1 {
    type V = DayPeriods;

    open spec fn view(&self) -> DayPeriods {
        DayPeriods { am: self.am@, pm: self.pm@ }
    }
}

impl Schema for SymbolsV1 {
    /// Two empty names.
    open spec fn invariant_view() -> DayPeriods {
        DayPeriods { am: Seq::empty(), pm: Seq::empty() }
    }

    fn invariant_value() -> (value: Self) {
        SymbolsV1 { am: empty_text(), pm: empty_text() }
    }

    fn same(&self, other: &Self) -> (equal: bool) {
        same_text(text_of(&self.am), text_of(&other.am)) && same_text(
            text_of(&self.pm),
            text_of(&other.pm),
        )
    }

    fn duplicate(&self) -> (copy: Self) {
        SymbolsV1 { am: duplicate_text(&self.am), pm: duplicate_text(&self.pm) }
    }
}

impl Clone for SymbolsV1 {
    fn clone(&self) -> (copy: Self)
        ensures
            copy@ == self@,
    {
        self.duplicate()
    }
}

impl Default for SymbolsV1 {
    fn default() -> (value: Self)
        ensures
            value@ == Self::invariant_view(),
    {
        Self::invariant_value()
    }
}

impl PartialEq for SymbolsV1 {
    fn eq(&self, other: &Self) -> (equal: bool) {
        self.same(other)
    }
}

impl vstd::std_specs::cmp::PartialEqSpecImpl for SymbolsV1 {
    open spec fn obeys_eq_spec() -> bool {
        true
    }

    open spec fn eq_spec(&self, other: &Self) -> bool {
        same_data(self, other)
    }
}

} // verus!
