//! The names of the twelve months.

use crate::schema::{same_data, Schema};
use crate::text::{duplicate_text, empty_text, same_texts, texts_view};
use std::borrow::Cow;
use vstd::prelude::*;

verus! {

/// The names of the months, in the order of the calendar.
#[derive(Debug)]
pub struct SymbolsV1(pub [Cow<'static, str>; 12]);

/// The month names in the context of running text.
pub type FormatWidthsV1 = super::contexts::FormatWidthsV1<SymbolsV1>;

/// The month names for use in isolation.
pub type StandAloneWidthsV1 = super::contexts::StandAloneWidthsV1<SymbolsV1>;

/// The month names in both contexts.
pub type ContextsV1 = super::contexts::ContextsV1<SymbolsV1>;

impl View for SymbolsV1 {
    type V = Seq<Seq<char>>;

    open spec fn view(&self) -> Seq<Seq<char>> {
        texts_view(self.0@)
    }
}

impl Schema for SymbolsV1 {
    /// Twelve empty names.
    open spec fn invariant_view() -> Seq<Seq<char>> {
        Seq::new(12, |i: int| Seq::<char>::empty())
    }

    fn invariant_value() -> (value: Self) {
        let value = SymbolsV1(
            [
                empty_text(),
                empty_text(),
                empty_text(),
                empty_text(),
                empty_text(),
                empty_text(),
                empty_text(),
                empty_text(),
                empty_text(),
                empty_text(),
                empty_text(),
                empty_text(),
            ],
        );
        assert(value@ =~= Self::invariant_view());
        value
    }

    fn same(&self, other: &Self) -> (equal: bool) {
        same_texts(&self.0, &other.0)
    }

    fn duplicate(&self) -> (copy: Self) {
        let copy = SymbolsV1(
            [
                duplicate_text(&self.0[0]),
                duplicate_text(&self.0[1]),
                duplicate_text(&self.0[2]),
                duplicate_text(&self.0[3]),
                duplicate_text(&self.0[4]),
                duplicate_text(&self.0[5]),
                duplicate_text(&self.0[6]),
                duplicate_text(&self.0[7]),
                duplicate_text(&self.0[8]),
                duplicate_text(&self.0[9]),
                duplicate_text(&self.0[10]),
                duplicate_text(&self.0[11]),
            ],
        );
        assert(copy@ =~= self@);
        copy
    }
}

impl Clone for SymbolsV1 {
    fn clone(&self) -> (copy: Self)
        ensures
            copy@ == self@,
    {
        self.duplicate()
    }
}

impl Default for SymbolsV1 {
    fn default() -> (value: Self)
        ensures
            value@ == Self::invariant_view(),
    {
        Self::invariant_value()
    }
}

impl PartialEq for SymbolsV1 {
    fn eq(&self, other: &Self) -> (equal: bool) {
        self.same(other)
    }
}

impl vstd::std_specs::cmp::PartialEqSpecImpl for SymbolsV1 {
    open spec fn obeys_eq_spec() -> bool {
        true
    }

    open spec fn eq_spec(&self, other: &Self) -> bool {
        same_data(self, other)
    }
}

} // verus!
