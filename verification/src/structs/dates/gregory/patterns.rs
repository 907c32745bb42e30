//! Format patterns, one per style.

use crate::schema::{same_data, Schema};
use crate::text::{duplicate_text, empty_text, same_text, text_of};
use std::borrow::Cow;
use vstd::prelude::*;

verus! {

/// The pattern strings of the four styles, all of them mandatory.
#[derive(Debug)]
pub struct StylePatternsV1 {
    pub full: Cow<'static, str>,
    pub long: Cow<'static, str>,
    pub medium: Cow<'static, str>,
    pub short: Cow<'static, str>,
}

/// What a [`StylePatternsV1`] holds, as sequences of characters.
pub ghost struct StylePatterns {
    pub full: Seq<char>,
    pub long: Seq<char>,
    pub medium: Seq<char>,
    pub short: Seq<char>,
}

impl View for StylePatternsV1 {
    type V = StylePatterns;

    open spec fn view(&self) -> StylePatterns {
        StylePatterns {
            full: self.full@,
            long: self.long@,
            medium: self.medium@,
            short: self.short@,
        }
    }
}

impl Schema for StylePatternsV1 {
    /// Four empty patterns.
    open spec fn invariant_view() -> StylePatterns {
        StylePatterns {
            full: Seq::empty(),
            long: Seq::empty(),
            medium: Seq::empty(),
            short: Seq::empty(),
        }
    }

    fn invariant_value() -> (value: Self) {
        StylePatternsV1 {
            full: empty_text(),
            long: empty_text(),
            medium: empty_text(),
            short: empty_text(),
        }
    }

    fn same(&self, other: &Self) -> (equal: bool) {
        same_text(text_of(&self.full), text_of(&other.full)) && same_text(
            text_of(&self.long),
            text_of(&other.long),
        ) && same_text(text_of(&self.medium), text_of(&other.medium)) && same_text(
            text_of(&self.short),
            text_of(&other.short),
        )
    }

    fn duplicate(&self) -> (copy: Self) {
        StylePatternsV1 {
            full: duplicate_text(&self.full),
            long: duplicate_text(&self.long),
            medium: duplicate_text(&self.medium),
            short: duplicate_text(&self.short),
        }
    }
}

impl Clone for StylePatternsV1 {
    fn clone(&self) -> (copy: Self)
        ensures
            copy@ == self@,
    {
        self.duplicate()
    }
}

impl Default for StylePatternsV1 {
    fn default() -> (value: Self)
        ensures
            value@ == Self::invariant_view(),
    {
        Self::invariant_value()
    }
}

impl PartialEq for StylePatternsV1 {
    fn eq(&self, other: &Self) -> (equal: bool) {
        self.same(other)
    }
}

impl vstd::std_specs::cmp::PartialEqSpecImpl for StylePatternsV1 {
    open spec fn obeys_eq_spec() -> bool {
        true
    }

    open spec fn eq_spec(&self, other: &Self) -> bool {
        same_data(self, other)
    }
}

} // verus!
