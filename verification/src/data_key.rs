//! The key that names one schema of one data category.

use crate::text::{lemma_text_lt_total, lemma_text_lt_transitive, same_text, text_before, text_lt};
use std::cmp::Ordering;
use vstd::prelude::*;
use vstd::std_specs::cmp::{PartialEqSpec, PartialOrdSpec};

verus! {

/// Names one schema of one data category: a category, a subcategory and
/// the version of the schema.
///
/// A key is made once, from three literal values, and is opaque afterwards:
/// it can be copied, compared and ordered, and nothing else. Versions count
/// from 1. One key stands for one schema type for good; a changed schema
/// gets a new version.
#[derive(Debug, Clone, Copy, Eq, Ord, Hash)]
pub struct DataKey {
    category: &'static str,
    subcategory: &'static str,
    version: u16,
}

/// What a [`DataKey`] holds: the text of its two names, and its version.
pub ghost struct DataKeyView {
    pub category: Seq<char>,
    pub subcategory: Seq<char>,
    pub version: u16,
}

impl DataKeyView {
    /// The order of keys: by category, then by subcategory, then by
    /// version, the names ordered as text.
    pub open spec fn precedes(self, other: DataKeyView) -> bool {
        ||| text_lt(self.category, other.category)
        ||| self.category == other.category && text_lt(self.subcategory, other.subcategory)
        ||| self.category == other.category && self.subcategory == other.subcategory
            && self.version < other.version
    }
}

impl View for DataKey {
    type V = DataKeyView;

    closed spec fn view(&self) -> DataKeyView {
        DataKeyView {
            category: self.category@,
            subcategory: self.subcategory@,
            version: self.version,
        }
    }
}

impl DataKey {
    /// Versions count from 1.
    #[verifier::type_invariant]
    spec fn positive_version(self) -> bool {
        self.version >= 1
    }

    /// Makes the key of the given category, subcategory and version.
    pub fn new(category: &'static str, subcategory: &'static str, version: u16) -> (key: DataKey)
        requires
            version >= 1,
        ensures
            key@ == (DataKeyView { category: category@, subcategory: subcategory@, version }),
    {
        DataKey { category, subcategory, version }
    }

    /// The name of the category.
    pub fn category(&self) -> (name: &'static str)
        ensures
            name@ == self@.category,
    {
        self.category
    }

    /// The name of the subcategory.
    pub fn subcategory(&self) -> (name: &'static str)
        ensures
            name@ == self@.subcategory,
    {
        self.subcategory
    }

    /// The version of the schema, 1 or more.
    pub fn version(&self) -> (version: u16)
        ensures
            version == self@.version,
            version >= 1,
    {
        proof {
            use_type_invariant(self);
        }
        self.version
    }

    /// Tells whether this key comes before `other` in the order of keys.
    pub fn precedes(&self, other: &DataKey) -> (before: bool)
        ensures
            before == self@.precedes(other@),
    {
        proof {
            lemma_text_lt_total(self.category@, other.category@);
            lemma_text_lt_total(self.subcategory@, other.subcategory@);
        }
        if text_before(self.category, other.category) {
            true
        } else if !same_text(self.category, other.category) {
            false
        } else if text_before(self.subcategory, other.subcategory) {
            true
        } else if !same_text(self.subcategory, other.subcategory) {
            false
        } else {
            self.version < other.version
        }
    }
}

impl PartialEq for DataKey {
    /// Two keys are equal when category, subcategory and version are.
    fn eq(&self, other: &Self) -> (equal: bool) {
        same_text(self.category, other.category) && same_text(self.subcategory, other.subcategory)
            && self.version == other.version
    }
}

impl vstd::std_specs::cmp::PartialEqSpecImpl for DataKey {
    open spec fn obeys_eq_spec() -> bool {
        true
    }

    open spec fn eq_spec(&self, other: &Self) -> bool {
        self@ == other@
    }
}

impl PartialOrd for DataKey {
    fn partial_cmp(&self, other: &Self) -> (order: Option<Ordering>) {
        if self.precedes(other) {
            Some(Ordering::Less)
        } else if other.precedes(self) {
            Some(Ordering::Greater)
        } else {
            Some(Ordering::Equal)
        }
    }
}

impl vstd::std_specs::cmp::PartialOrdSpecImpl for DataKey {
    open spec fn obeys_partial_cmp_spec() -> bool {
        true
    }

    open spec fn partial_cmp_spec(&self, other: &Self) -> Option<Ordering> {
        if self@.precedes(other@) {
            Some(Ordering::Less)
        } else if other@.precedes(self@) {
            Some(Ordering::Greater)
        } else {
            Some(Ordering::Equal)
        }
    }
}

/// Equality of keys is an equivalence: every key equals itself, equality
/// does not depend on the side, and two keys equal to a third are equal.
pub proof fn lemma_key_equality_is_equivalence(a: DataKey, b: DataKey, c: DataKey)
    ensures
        a.eq_spec(&a),
        a.eq_spec(&b) == b.eq_spec(&a),
        a.eq_spec(&b) && b.eq_spec(&c) ==> a.eq_spec(&c),
{
}

/// Keys are equal exactly when category, subcategory and version are.
pub proof fn lemma_key_equality_by_fields(a: DataKey, b: DataKey)
    ensures
        a.eq_spec(&b) <==> a@.category == b@.category && a@.subcategory == b@.subcategory
            && a@.version == b@.version,
{
}

/// The order of keys is total and strict: of two keys with different
/// content exactly one comes before the other, and of two keys with the
/// same content neither does.
pub proof fn lemma_key_order_is_total(a: DataKeyView, b: DataKeyView)
    ensures
        a != b ==> (a.precedes(b) <==> !b.precedes(a)),
        a == b ==> !a.precedes(b) && !b.precedes(a),
{
    lemma_text_lt_total(a.category, b.category);
    lemma_text_lt_total(a.subcategory, b.subcategory);
}

/// The order of keys is transitive.
pub proof fn lemma_key_order_is_transitive(a: DataKeyView, b: DataKeyView, c: DataKeyView)
    requires
        a.precedes(b),
        b.precedes(c),
    ensures
        a.precedes(c),
{
    lemma_text_lt_total(a.category, b.category);
    lemma_text_lt_total(b.category, c.category);
    lemma_text_lt_total(a.subcategory, b.subcategory);
    lemma_text_lt_total(b.subcategory, c.subcategory);
    if text_lt(a.category, b.category) && text_lt(b.category, c.category) {
        lemma_text_lt_transitive(a.category, b.category, c.category);
    }
    if text_lt(a.subcategory, b.subcategory) && text_lt(b.subcategory, c.subcategory) {
        lemma_text_lt_transitive(a.subcategory, b.subcategory, c.subcategory);
    }
}

/// Comparing two keys gives `Equal` exactly when they are equal.
pub proof fn lemma_key_order_agrees_with_equality(a: DataKey, b: DataKey)
    ensures
        a.partial_cmp_spec(&b) == Some(Ordering::Equal) <==> a.eq_spec(&b),
        a.partial_cmp_spec(&b) == Some(Ordering::Less) <==> b.partial_cmp_spec(&a) == Some(
            Ordering::Greater,
        ),
{
    lemma_key_order_is_total(a@, b@);
}

} // verus!
