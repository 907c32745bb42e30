//! The category of calendar date symbols and patterns.
//!
//! The category knows one key, [`key::gregory_v1`], whose schema type is
//! [`gregory::DatesV1`]. A later schema gets a key of its own, and what
//! the keys before it stand for stays as it is.

pub mod gregory;
pub mod key;

use crate::data_key::{DataKey, DataKeyView};
use crate::data_receiver::{DataReceiver, DataReceiverView, SchemaType, SchemaValueView};
use crate::error::DataError;
use vstd::prelude::*;

verus! {

/// The schema type that a key stands for in this category, or `None` for a
/// key that the category does not know.
pub open spec fn schema_of(key: DataKeyView) -> Option<SchemaType> {
    if key == key::gregory_v1_view() {
        Some(SchemaType::DatesV1)
    } else {
        None
    }
}

/// Finds the schema type that `data_key` stands for in this category.
pub fn find_schema(data_key: &DataKey) -> (schema_type: Option<SchemaType>)
    ensures
        schema_type == schema_of(data_key@),
{
    if *data_key == key::gregory_v1() {
        Some(SchemaType::DatesV1)
    } else {
        None
    }
}

/// What [`get_invariant`] answers for a key and a receiver.
///
/// A key that the category does not know is refused with
/// [`DataError::UnsupportedDataKey`]. For a known key the receiver must be
/// bound to the key's schema type; one bound to another type is refused
/// with [`DataError::TypeMismatch`].
pub open spec fn invariant_result(data_key: DataKey, receiver: DataReceiverView) -> Result<
    (),
    DataError,
> {
    match schema_of(data_key@) {
        None => Err(DataError::UnsupportedDataKey(data_key)),
        Some(schema_type) => if receiver.bound == schema_type {
            Ok(())
        } else {
            Err(DataError::TypeMismatch)
        },
    }
}

/// The receiver after [`get_invariant`]: filled with the locale-invariant
/// value of its type where the call succeeds, unchanged where it fails.
pub open spec fn invariant_receiver(
    data_key: DataKey,
    receiver: DataReceiverView,
) -> DataReceiverView {
    if invariant_result(data_key, receiver) is Ok {
        receiver.receive_invariant()
    } else {
        receiver
    }
}

/// Fills `receiver` with the locale-invariant value of the schema type that
/// `data_key` stands for in this category.
///
/// Fails, and leaves the receiver as it was, for a key that the category
/// does not know and for a receiver bound to another type than the key's.
/// A receiver that already holds a value has it replaced.
pub fn get_invariant(data_key: &DataKey, receiver: &mut DataReceiver) -> (result: Result<
    (),
    DataError,
>)
    ensures
        result == invariant_result(*data_key, old(receiver)@),
        final(receiver)@ == invariant_receiver(*data_key, old(receiver)@),
{
    match find_schema(data_key) {
        Some(schema_type) => {
            if receiver.bound_type() == schema_type {
                receiver.receive_invariant()
            } else {
                Err(DataError::TypeMismatch)
            }
        },
        None => Err(DataError::UnsupportedDataKey(*data_key)),
    }
}

/// Makes an empty receiver bound to the schema type that `data_key` stands
/// for in this category, or `None` for a key that the category does not
/// know.
pub fn get_receiver(data_key: &DataKey) -> (receiver: Option<DataReceiver>)
    ensures
        match schema_of(data_key@) {
            Some(schema_type) => receiver matches Some(bound) && bound@ == DataReceiverView::empty(
                schema_type,
            ),
            None => receiver is None,
        },
{
    match find_schema(data_key) {
        Some(schema_type) => Some(DataReceiver::new(schema_type)),
        None => None,
    }
}

/// For a key that the category knows, a fresh receiver for that key is
/// filled with success, and then holds the locale-invariant value of the
/// key's schema type.
pub proof fn lemma_invariant_fills_fresh_receiver(data_key: DataKey)
    requires
        schema_of(data_key@) is Some,
    ensures
        ({
            let schema_type = schema_of(data_key@).unwrap();
            let fresh = DataReceiverView::empty(schema_type);
            &&& invariant_result(data_key, fresh) is Ok
            &&& invariant_receiver(data_key, fresh) == (DataReceiverView {
                bound: schema_type,
                payload: Some(SchemaValueView::invariant_of(schema_type)),
            })
        }),
{
}

/// Filling a receiver twice is the same as filling it once: the second
/// call answers as the first did and leaves the receiver as the first left
/// it.
pub proof fn lemma_invariant_twice_is_once(data_key: DataKey, receiver: DataReceiverView)
    ensures
        ({
            let once = invariant_receiver(data_key, receiver);
            &&& invariant_result(data_key, once) == invariant_result(data_key, receiver)
            &&& invariant_receiver(data_key, once) == once
        }),
{
}

/// Dispatch never rebinds a receiver: after [`get_invariant`] it is bound
/// to the type it was bound to before.
pub proof fn lemma_invariant_keeps_binding(data_key: DataKey, receiver: DataReceiverView)
    ensures
        invariant_receiver(data_key, receiver).bound == receiver.bound,
{
}

} // verus!
