//! What every schema type offers: a mathematical view, a locale-invariant
//! value, and equality by value.

use vstd::prelude::*;

verus! {

/// Whether two values hold the same data: whether their views are equal.
///
/// This is what [`Schema::same`] computes, and what `==` means on every
/// schema type.
pub open spec fn same_data<S: View>(a: &S, b: &S) -> bool {
    a@ == b@
}

/// A schema type: plain locale data with value semantics.
///
/// Two values are the same when their views are equal, and every schema
/// type has one built-in value that depends on no locale.
pub trait Schema: Sized + View {
    /// The view of the locale-invariant value of this type.
    spec fn invariant_view() -> Self::V;

    /// Builds the locale-invariant value of this type.
    fn invariant_value() -> (value: Self)
        ensures
            value@ == Self::invariant_view(),
    ;

    /// Tells whether `self` and `other` hold the same data.
    fn same(&self, other: &Self) -> (equal: bool)
        ensures
            equal == same_data(self, other),
    ;

    /// Makes a second value that holds the same data.
    fn duplicate(&self) -> (copy: Self)
        ensures
            copy@ == self@,
    ;
}

/// Holding the same data is an equivalence on the values of a schema type:
/// every value holds the same data as itself, the relation does not depend
/// on the side, and two values that hold the same data as a third hold the
/// same data.
pub proof fn lemma_same_data_is_equivalence<S: Schema>(a: S, b: S, c: S)
    ensures
        same_data(&a, &a),
        same_data(&a, &b) == same_data(&b, &a),
        same_data(&a, &b) && same_data(&b, &c) ==> same_data(&a, &c),
{
}

/// Two locale-invariant values of one schema type hold the same data,
/// however each of them was made.
pub proof fn lemma_invariant_values_are_same<S: Schema>(a: S, b: S)
    requires
        a@ == S::invariant_view(),
        b@ == S::invariant_view(),
    ensures
        same_data(&a, &b),
{
}

/// The view of an optional schema value: the view of what it holds, if
/// anything.
pub open spec fn option_view<S: View>(value: Option<S>) -> Option<S::V> {
    match value {
        Some(inner) => Some(inner@),
        None => None,
    }
}

/// An absent value is not a present one, whatever the present one holds: an
/// optional field that is left out is told apart from one that is there
/// and empty.
pub proof fn lemma_absent_differs_from_present<S: Schema>(present: S)
    ensures
        option_view(None::<S>) != option_view(Some(present)),
{
}

/// Tells whether two optional schema values hold the same data; an absent
/// value is the same as an absent value only.
pub fn same_option<S: Schema>(a: &Option<S>, b: &Option<S>) -> (equal: bool)
    ensures
        equal == (option_view(*a) == option_view(*b)),
{
    match (a, b) {
        (Some(x), Some(y)) => x.same(y),
        (None, None) => true,
        _ => false,
    }
}

/// Makes a second optional value that holds the same data, or nothing where
/// `value` holds nothing.
pub fn duplicate_option<S: Schema>(value: &Option<S>) -> (copy: Option<S>)
    ensures
        option_view(copy) == option_view(*value),
{
    match value {
        Some(inner) => Some(inner.duplicate()),
        None => None,
    }
}

} // verus!
