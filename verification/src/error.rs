//! The failures of dispatch and of receiving.

use crate::data_key::DataKey;
use vstd::prelude::*;

verus! {

/// Why a dispatch function or a receiver did not do what was asked.
///
/// Every failure comes back to the caller as a value. Nothing is logged
/// and nothing is tried again: what to do next is the caller's choice.
#[derive(Debug, Clone, Copy)]
pub enum DataError {
    /// The key names no schema of the category that was asked. A caller
    /// who probes categories in turn goes on to the next one.
    UnsupportedDataKey(DataKey),
    /// A receiver was given a value of another type than the one it is
    /// bound to: a mistake in the calling code, not worth a second try.
    TypeMismatch,
    /// The type a receiver is bound to has no locale-invariant value. Every
    /// schema type of this crate has one; the failure is named here for
    /// categories whose types have none.
    UnavailableInvariant,
}

impl PartialEq for DataError {
    fn eq(&self, other: &Self) -> (equal: bool) {
        match (self, other) {
            (DataError::UnsupportedDataKey(a), DataError::UnsupportedDataKey(b)) => a == b,
            (DataError::TypeMismatch, DataError::TypeMismatch) => true,
            (DataError::UnavailableInvariant, DataError::UnavailableInvariant) => true,
            _ => false,
        }
    }
}

impl vstd::std_specs::cmp::PartialEqSpecImpl for DataError {
    open spec fn obeys_eq_spec() -> bool {
        true
    }

    /// Two errors are equal when they are of the same kind and, where they
    /// carry a key, the keys are equal.
    open spec fn eq_spec(&self, other: &Self) -> bool {
        match (*self, *other) {
            (DataError::UnsupportedDataKey(a), DataError::UnsupportedDataKey(b)) => a@ == b@,
            (DataError::TypeMismatch, DataError::TypeMismatch) => true,
            (DataError::UnavailableInvariant, DataError::UnavailableInvariant) => true,
            _ => false,
        }
    }
}

} // verus!
