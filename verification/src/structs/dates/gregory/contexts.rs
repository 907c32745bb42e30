//! The shape that the symbols of every kind share: two contexts, and in
//! each the symbols by width.
//!
//! Symbols in running text always exist in their abbreviated, narrow and
//! wide forms, and may exist in a short form. Symbols for use in isolation
//! may be missing in every width, and altogether.

use crate::schema::{duplicate_option, option_view, same_data, same_option, Schema};
use vstd::prelude::*;

verus! {

/// The symbols of one kind in the context of running text, by width.
///
/// The abbreviated, narrow and wide forms are always there; the short form
/// may be absent.
#[derive(Debug)]
pub struct FormatWidthsV1<S> {
    pub abbreviated: S,
    pub narrow: S,
    pub short: Option<S>,
    pub wide: S,
}

/// What a [`FormatWidthsV1`] holds, over the view of its symbols.
pub ghost struct FormatWidths<V> {
    pub abbreviated: V,
    pub narrow: V,
    pub short: Option<V>,
    pub wide: V,
}

impl<S: View> View for FormatWidthsV1<S> {
    type V = FormatWidths<S::V>;

    open spec fn view(&self) -> FormatWidths<S::V> {
        FormatWidths {
            abbreviated: self.abbreviated@,
            narrow: self.narrow@,
            short: option_view(self.short),
            wide: self.wide@,
        }
    }
}

impl<S: Schema> Schema for FormatWidthsV1<S> {
    /// The invariant symbols in the three mandatory widths, and no short
    /// form.
    open spec fn invariant_view() -> FormatWidths<S::V> {
        FormatWidths {
            abbreviated: S::invariant_view(),
            narrow: S::invariant_view(),
            short: None,
            wide: S::invariant_view(),
        }
    }

    fn invariant_value() -> (value: Self) {
        FormatWidthsV1 {
            abbreviated: S::invariant_value(),
            narrow: S::invariant_value(),
            short: None,
            wide: S::invariant_value(),
        }
    }

    fn same(&self, other: &Self) -> (equal: bool) {
        self.abbreviated.same(&other.abbreviated) && self.narrow.same(&other.narrow)
            && same_option(&self.short, &other.short) && self.wide.same(&other.wide)
    }

    fn duplicate(&self) -> (copy: Self) {
        FormatWidthsV1 {
            abbreviated: self.abbreviated.duplicate(),
            narrow: self.narrow.duplicate(),
            short: duplicate_option(&self.short),
            wide: self.wide.duplicate(),
        }
    }
}

impl<S: Schema> Clone for FormatWidthsV1<S> {
    fn clone(&self) -> (copy: Self)
        ensures
            copy@ == self@,
    {
        self.duplicate()
    }
}

impl<S: Schema> Default for FormatWidthsV1<S> {
    fn default() -> (value: Self)
        ensures
            value@ == Self::invariant_view(),
    {
        Self::invariant_value()
    }
}

impl<S: Schema> PartialEq for FormatWidthsV1<S> {
    fn eq(&self, other: &Self) -> (equal: bool) {
        self.same(other)
    }
}

impl<S: Schema> vstd::std_specs::cmp::PartialEqSpecImpl for FormatWidthsV1<S> {
    open spec fn obeys_eq_spec() -> bool {
        true
    }

    open spec fn eq_spec(&self, other: &Self) -> bool {
        same_data(self, other)
    }
}

/// The symbols of one kind for use in isolation, by width; a locale may
/// supply none, some or all of them.
#[derive(Debug)]
pub struct StandAloneWidthsV1<S> {
    pub abbreviated: Option<S>,
    pub narrow: Option<S>,
    pub short: Option<S>,
    pub wide: Option<S>,
}

/// What a [`StandAloneWidthsV1`] holds, over the view of its symbols.
pub ghost struct StandAloneWidths<V> {
    pub abbreviated: Option<V>,
    pub narrow: Option<V>,
    pub short: Option<V>,
    pub wide: Option<V>,
}

impl<S: View> View for StandAloneWidthsV1<S> {
    type V = StandAloneWidths<S::V>;

    open spec fn view(&self) -> StandAloneWidths<S::V> {
        StandAloneWidths {
            abbreviated: option_view(self.abbreviated),
            narrow: option_view(self.narrow),
            short: option_view(self.short),
            wide: option_view(self.wide),
        }
    }
}

impl<S: Schema> Schema for StandAloneWidthsV1<S> {
    /// No width is supplied.
    open spec fn invariant_view() -> StandAloneWidths<S::V> {
        StandAloneWidths { abbreviated: None, narrow: None, short: None, wide: None }
    }

    fn invariant_value() -> (value: Self) {
        StandAloneWidthsV1 { abbreviated: None, narrow: None, short: None, wide: None }
    }

    fn same(&self, other: &Self) -> (equal: bool) {
        same_option(&self.abbreviated, &other.abbreviated) && same_option(
            &self.narrow,
            &other.narrow,
        ) && same_option(&self.short, &other.short) && same_option(&self.wide, &other.wide)
    }

    fn duplicate(&self) -> (copy: Self) {
        StandAloneWidthsV1 {
            abbreviated: duplicate_option(&self.abbreviated),
            narrow: duplicate_option(&self.narrow),
            short: duplicate_option(&self.short),
            wide: duplicate_option(&self.wide),
        }
    }
}

impl<S: Schema> Clone for StandAloneWidthsV1<S> {
    fn clone(&self) -> (copy: Self)
        ensures
            copy@ == self@,
    {
        self.duplicate()
    }
}

impl<S: Schema> Default for StandAloneWidthsV1<S> {
    fn default() -> (value: Self)
        ensures
            value@ == Self::invariant_view(),
    {
        Self::invariant_value()
    }
}

impl<S: Schema> PartialEq for StandAloneWidthsV1<S> {
    fn eq(&self, other: &Self) -> (equal: bool) {
        self.same(other)
    }
}

impl<S: Schema> vstd::std_specs::cmp::PartialEqSpecImpl for StandAloneWidthsV1<S> {
    open spec fn obeys_eq_spec() -> bool {
        true
    }

    open spec fn eq_spec(&self, other: &Self) -> bool {
        same_data(self, other)
    }
}

/// The symbols of one kind in both contexts: the one of running text, always
/// there, and the one of isolated use, which a locale may leave out.
#[derive(Debug)]
pub struct ContextsV1<S> {
    pub format: FormatWidthsV1<S>,
    pub stand_alone: Option<StandAloneWidthsV1<S>>,
}

/// What a [`ContextsV1`] holds, over the view of its symbols.
pub ghost struct Contexts<V> {
    pub format: FormatWidths<V>,
    pub stand_alone: Option<StandAloneWidths<V>>,
}

impl<S: View> View for ContextsV1<S> {
    type V = Contexts<S::V>;

    open spec fn view(&self) -> Contexts<S::V> {
        Contexts { format: self.format@, stand_alone: option_view(self.stand_alone) }
    }
}

impl<S: Schema> Schema for ContextsV1<S> {
    /// The invariant symbols in running text, and no isolated forms.
    open spec fn invariant_view() -> Contexts<S::V> {
        Contexts { format: FormatWidthsV1::<S>::invariant_view(), stand_alone: None }
    }

    fn invariant_value() -> (value: Self) {
        ContextsV1 { format: FormatWidthsV1::invariant_value(), stand_alone: None }
    }

    fn same(&self, other: &Self) -> (equal: bool) {
        self.format.same(&other.format) && same_option(&self.stand_alone, &other.stand_alone)
    }

    fn duplicate(&self) -> (copy: Self) {
        ContextsV1 {
            format: self.format.duplicate(),
            stand_alone: duplicate_option(&self.stand_alone),
        }
    }
}

impl<S: Schema> Clone for ContextsV1<S> {
    fn clone(&self) -> (copy: Self)
        ensures
            copy@ == self@,
    {
        self.duplicate()
    }
}

impl<S: Schema> Default for ContextsV1<S> {
    fn default() -> (value: Self)
        ensures
            value@ == Self::invariant_view(),
    {
        Self::invariant_value()
    }
}

impl<S: Schema> PartialEq for ContextsV1<S> {
    fn eq(&self, other: &Self) -> (equal: bool) {
        self.same(other)
    }
}

impl<S: Schema> vstd::std_specs::cmp::PartialEqSpecImpl for ContextsV1<S> {
    open spec fn obeys_eq_spec() -> bool {
        true
    }

    open spec fn eq_spec(&self, other: &Self) -> bool {
        same_data(self, other)
    }
}

} // verus!
