//! The sink that takes the data of one schema type, without its caller
//! having to name that type.

use crate::error::DataError;
use crate::schema::{option_view, same_data, Schema};
use crate::structs::dates::gregory::{
    DateSymbols, DateSymbolsV1, Dates, DatesV1, Patterns, PatternsV1,
};
use vstd::prelude::*;

verus! {

/// The schema types that a receiver can be bound to: the data of a calendar
/// as a whole, and each of its two halves, which a source of data may
/// deliver on its own.
#[derive(Debug, Clone, Copy, PartialEq, Eq, Structural)]
pub enum SchemaType {
    /// [`DatesV1`]: the symbols and patterns of a calendar.
    DatesV1,
    /// [`DateSymbolsV1`]: the symbols alone.
    DateSymbolsV1,
    /// [`PatternsV1`]: the patterns alone.
    PatternsV1,
}

/// A value of one of the schema types, carried without naming the type in
/// the signature. A value of a schema type becomes one with `into`.
#[derive(Debug)]
pub enum SchemaValue {
    /// The symbols and patterns of a calendar.
    DatesV1(DatesV1),
    /// The symbols of a calendar.
    DateSymbolsV1(DateSymbolsV1),
    /// The patterns of a calendar.
    PatternsV1(PatternsV1),
}

/// What a [`SchemaValue`] holds: the view of the value, under its type.
pub ghost enum SchemaValueView {
    DatesV1(Dates),
    DateSymbolsV1(DateSymbols),
    PatternsV1(Patterns),
}

impl SchemaValueView {
    /// The schema type that the value is of.
    pub open spec fn schema_type(self) -> SchemaType {
        match self {
            SchemaValueView::DatesV1(_) => SchemaType::DatesV1,
            SchemaValueView::DateSymbolsV1(_) => SchemaType::DateSymbolsV1,
            SchemaValueView::PatternsV1(_) => SchemaType::PatternsV1,
        }
    }

    /// The locale-invariant value of a schema type.
    pub open spec fn invariant_of(schema_type: SchemaType) -> SchemaValueView {
        match schema_type {
            SchemaType::DatesV1 => SchemaValueView::DatesV1(DatesV1::invariant_view()),
            SchemaType::DateSymbolsV1 => SchemaValueView::DateSymbolsV1(
                DateSymbolsV1::invariant_view(),
            ),
            SchemaType::PatternsV1 => SchemaValueView::PatternsV1(PatternsV1::invariant_view()),
        }
    }
}

impl View for SchemaValue {
    type V = SchemaValueView;

    open spec fn view(&self) -> SchemaValueView {
        match self {
            SchemaValue::DatesV1(value) => SchemaValueView::DatesV1(value@),
            SchemaValue::DateSymbolsV1(value) => SchemaValueView::DateSymbolsV1(value@),
            SchemaValue::PatternsV1(value) => SchemaValueView::PatternsV1(value@),
        }
    }
}

impl SchemaValue {
    /// The schema type that this value is of.
    pub fn schema_type(&self) -> (schema_type: SchemaType)
        ensures
            schema_type == self@.schema_type(),
    {
        match self {
            SchemaValue::DatesV1(_) => SchemaType::DatesV1,
            SchemaValue::DateSymbolsV1(_) => SchemaType::DateSymbolsV1,
            SchemaValue::PatternsV1(_) => SchemaType::PatternsV1,
        }
    }

    /// Builds the locale-invariant value of a schema type.
    pub fn invariant_value(schema_type: SchemaType) -> (value: SchemaValue)
        ensures
            value@ == SchemaValueView::invariant_of(schema_type),
    {
        match schema_type {
            SchemaType::DatesV1 => SchemaValue::DatesV1(DatesV1::invariant_value()),
            SchemaType::DateSymbolsV1 => SchemaValue::DateSymbolsV1(
                DateSymbolsV1::invariant_value(),
            ),
            SchemaType::PatternsV1 => SchemaValue::PatternsV1(PatternsV1::invariant_value()),
        }
    }
}

impl From<DatesV1> for SchemaValue {
    fn from(value: DatesV1) -> (wrapped: Self) {
        SchemaValue::DatesV1(value)
    }
}

impl vstd::std_specs::convert::FromSpecImpl<DatesV1> for SchemaValue {
    open spec fn obeys_from_spec() -> bool {
        true
    }

    open spec fn from_spec(value: DatesV1) -> Self {
        SchemaValue::DatesV1(value)
    }
}

impl From<DateSymbolsV1> for SchemaValue {
    fn from(value: DateSymbolsV1) -> (wrapped: Self) {
        SchemaValue::DateSymbolsV1(value)
    }
}

impl vstd::std_specs::convert::FromSpecImpl<DateSymbolsV1> for SchemaValue {
    open spec fn obeys_from_spec() -> bool {
        true
    }

    open spec fn from_spec(value: DateSymbolsV1) -> Self {
        SchemaValue::DateSymbolsV1(value)
    }
}

impl From<PatternsV1> for SchemaValue {
    fn from(value: PatternsV1) -> (wrapped: Self) {
        SchemaValue::PatternsV1(value)
    }
}

impl vstd::std_specs::convert::FromSpecImpl<PatternsV1> for SchemaValue {
    open spec fn obeys_from_spec() -> bool {
        true
    }

    open spec fn from_spec(value: PatternsV1) -> Self {
        SchemaValue::PatternsV1(value)
    }
}

impl Clone for SchemaValue {
    fn clone(&self) -> (copy: Self)
        ensures
            copy@ == self@,
    {
        match self {
            SchemaValue::DatesV1(value) => SchemaValue::DatesV1(value.duplicate()),
            SchemaValue::DateSymbolsV1(value) => SchemaValue::DateSymbolsV1(value.duplicate()),
            SchemaValue::PatternsV1(value) => SchemaValue::PatternsV1(value.duplicate()),
        }
    }
}

impl PartialEq for SchemaValue {
    fn eq(&self, other: &Self) -> (equal: bool) {
        match (self, other) {
            (SchemaValue::DatesV1(a), SchemaValue::DatesV1(b)) => a.same(b),
            (SchemaValue::DateSymbolsV1(a), SchemaValue::DateSymbolsV1(b)) => a.same(b),
            (SchemaValue::PatternsV1(a), SchemaValue::PatternsV1(b)) => a.same(b),
            _ => false,
        }
    }
}

impl vstd::std_specs::cmp::PartialEqSpecImpl for SchemaValue {
    open spec fn obeys_eq_spec() -> bool {
        true
    }

    open spec fn eq_spec(&self, other: &Self) -> bool {
        same_data(self, other)
    }
}

/// The storage of a receiver: one variant per schema type, each with room
/// for a value of that type and of no other.
#[derive(Debug)]
enum Storage {
    DatesV1(Option<DatesV1>),
    DateSymbolsV1(Option<DateSymbolsV1>),
    PatternsV1(Option<PatternsV1>),
}

/// A sink for the data of one schema type.
///
/// A receiver is bound to one schema type when it is made, and stays bound
/// to it. It takes a value of that type, or on request fills itself with
/// the locale-invariant value of that type. It can be filled more than
/// once: each value that it takes replaces the one before.
#[derive(Debug)]
pub struct DataReceiver {
    storage: Storage,
}

/// What a [`DataReceiver`] holds: the schema type it is bound to, and the
/// value it was last given, if any.
pub ghost struct DataReceiverView {
    pub bound: SchemaType,
    pub payload: Option<SchemaValueView>,
}

impl DataReceiverView {
    /// An empty receiver bound to `schema_type`.
    pub open spec fn empty(schema_type: SchemaType) -> DataReceiverView {
        DataReceiverView { bound: schema_type, payload: None }
    }

    /// Whether this receiver takes `value`: whether `value` is of the type
    /// that the receiver is bound to.
    pub open spec fn accepts(self, value: SchemaValueView) -> bool {
        value.schema_type() == self.bound
    }

    /// This receiver after it was given `value`: it holds `value` if it
    /// takes it, and is unchanged if not.
    pub open spec fn receive(self, value: SchemaValueView) -> DataReceiverView {
        if self.accepts(value) {
            DataReceiverView { bound: self.bound, payload: Some(value) }
        } else {
            self
        }
    }

    /// This receiver after it was filled with the locale-invariant value of
    /// the type that it is bound to.
    pub open spec fn receive_invariant(self) -> DataReceiverView {
        DataReceiverView {
            bound: self.bound,
            payload: Some(SchemaValueView::invariant_of(self.bound)),
        }
    }

    /// Whether what the receiver holds, if anything, is of the type that
    /// the receiver is bound to.
    pub open spec fn well_formed(self) -> bool {
        self.payload matches Some(value) ==> value.schema_type() == self.bound
    }
}

impl View for DataReceiver {
    type V = DataReceiverView;

    closed spec fn view(&self) -> DataReceiverView {
        match self.storage {
            Storage::DatesV1(slot) => DataReceiverView {
                bound: SchemaType::DatesV1,
                payload: match slot {
                    Some(value) => Some(SchemaValueView::DatesV1(value@)),
                    None => None,
                },
            },
            Storage::DateSymbolsV1(slot) => DataReceiverView {
                bound: SchemaType::DateSymbolsV1,
                payload: match slot {
                    Some(value) => Some(SchemaValueView::DateSymbolsV1(value@)),
                    None => None,
                },
            },
            Storage::PatternsV1(slot) => DataReceiverView {
                bound: SchemaType::PatternsV1,
                payload: match slot {
                    Some(value) => Some(SchemaValueView::PatternsV1(value@)),
                    None => None,
                },
            },
        }
    }
}

impl DataReceiver {
    /// Makes an empty receiver bound to `schema_type`.
    pub fn new(schema_type: SchemaType) -> (receiver: DataReceiver)
        ensures
            receiver@ == DataReceiverView::empty(schema_type),
    {
        let storage = match schema_type {
            SchemaType::DatesV1 => Storage::DatesV1(None),
            SchemaType::DateSymbolsV1 => Storage::DateSymbolsV1(None),
            SchemaType::PatternsV1 => Storage::PatternsV1(None),
        };
        DataReceiver { storage }
    }

    /// The schema type that this receiver is bound to.
    pub fn bound_type(&self) -> (schema_type: SchemaType)
        ensures
            schema_type == self@.bound,
    {
        match &self.storage {
            Storage::DatesV1(_) => SchemaType::DatesV1,
            Storage::DateSymbolsV1(_) => SchemaType::DateSymbolsV1,
            Storage::PatternsV1(_) => SchemaType::PatternsV1,
        }
    }

    /// Takes `value` if it is of the type that this receiver is bound to,
    /// in place of whatever the receiver held. A value of another type is
    /// refused with [`DataError::TypeMismatch`], and the receiver keeps
    /// what it held.
    pub fn receive(&mut self, value: SchemaValue) -> (result: Result<(), DataError>)
        ensures
            final(self)@ == old(self)@.receive(value@),
            old(self)@.accepts(value@) ==> result == Ok::<(), DataError>(()),
            !old(self)@.accepts(value@) ==> result == Err::<(), DataError>(
                DataError::TypeMismatch,
            ),
    {
        match value {
            SchemaValue::DatesV1(inner) => {
                if let Storage::DatesV1(_) = &self.storage {
                    self.storage = Storage::DatesV1(Some(inner));
                    Ok(())
                } else {
                    Err(DataError::TypeMismatch)
                }
            },
            SchemaValue::DateSymbolsV1(inner) => {
                if let Storage::DateSymbolsV1(_) = &self.storage {
                    self.storage = Storage::DateSymbolsV1(Some(inner));
                    Ok(())
                } else {
                    Err(DataError::TypeMismatch)
                }
            },
            SchemaValue::PatternsV1(inner) => {
                if let Storage::PatternsV1(_) = &self.storage {
                    self.storage = Storage::PatternsV1(Some(inner));
                    Ok(())
                } else {
                    Err(DataError::TypeMismatch)
                }
            },
        }
    }

    /// Fills this receiver with the locale-invariant value of the type that
    /// it is bound to, in place of whatever it held.
    ///
    /// Every schema type that a receiver can be bound to has such a value,
    /// so this always succeeds.
    pub fn receive_invariant(&mut self) -> (result: Result<(), DataError>)
        ensures
            result == Ok::<(), DataError>(()),
            final(self)@ == old(self)@.receive_invariant(),
    {
        let filled = match &self.storage {
            Storage::DatesV1(_) => Storage::DatesV1(Some(DatesV1::invariant_value())),
            Storage::DateSymbolsV1(_) => Storage::DateSymbolsV1(
                Some(DateSymbolsV1::invariant_value()),
            ),
            Storage::PatternsV1(_) => Storage::PatternsV1(Some(PatternsV1::invariant_value())),
        };
        self.storage = filled;
        Ok(())
    }

    /// The calendar data that this receiver holds, if it holds any.
    pub fn dates_v1(&self) -> (value: Option<&DatesV1>)
        ensures
            match value {
                Some(held) => self@.payload == Some(SchemaValueView::DatesV1(held@)),
                None => !(self@.payload matches Some(SchemaValueView::DatesV1(_))),
            },
    {
        match &self.storage {
            Storage::DatesV1(Some(held)) => Some(held),
            _ => None,
        }
    }

    /// The date symbols that this receiver holds, if it holds any.
    pub fn date_symbols_v1(&self) -> (value: Option<&DateSymbolsV1>)
        ensures
            match value {
                Some(held) => self@.payload == Some(SchemaValueView::DateSymbolsV1(held@)),
                None => !(self@.payload matches Some(SchemaValueView::DateSymbolsV1(_))),
            },
    {
        match &self.storage {
            Storage::DateSymbolsV1(Some(held)) => Some(held),
            _ => None,
        }
    }

    /// The patterns that this receiver holds, if it holds any.
    pub fn patterns_v1(&self) -> (value: Option<&PatternsV1>)
        ensures
            match value {
                Some(held) => self@.payload == Some(SchemaValueView::PatternsV1(held@)),
                None => !(self@.payload matches Some(SchemaValueView::PatternsV1(_))),
            },
    {
        match &self.storage {
            Storage::PatternsV1(Some(held)) => Some(held),
            _ => None,
        }
    }

    /// Hands out the value that this receiver holds, if any.
    pub fn into_value(self) -> (value: Option<SchemaValue>)
        ensures
            option_view(value) == self@.payload,
    {
        match self.storage {
            Storage::DatesV1(Some(inner)) => Some(SchemaValue::DatesV1(inner)),
            Storage::DateSymbolsV1(Some(inner)) => Some(SchemaValue::DateSymbolsV1(inner)),
            Storage::PatternsV1(Some(inner)) => Some(SchemaValue::PatternsV1(inner)),
            _ => None,
        }
    }

    /// What a receiver holds is of the type that the receiver is bound to.
    pub proof fn lemma_well_formed(self)
        ensures
            self@.well_formed(),
    {
    }
}

/// A receiver stays bound to its type, and stays well formed, whatever it
/// is given and whether or not it takes it.
pub proof fn lemma_binding_is_kept(receiver: DataReceiverView, value: SchemaValueView)
    ensures
        receiver.receive(value).bound == receiver.bound,
        receiver.receive_invariant().bound == receiver.bound,
        receiver.well_formed() ==> receiver.receive(value).well_formed(),
        receiver.receive_invariant().well_formed(),
{
}

/// The last value wins: a receiver that takes a second value holds what it
/// would hold had it never been given the first, or never been filled with
/// the locale-invariant value.
pub proof fn lemma_last_value_wins(
    receiver: DataReceiverView,
    first: SchemaValueView,
    second: SchemaValueView,
)
    requires
        receiver.accepts(second),
    ensures
        receiver.receive(first).receive(second) == receiver.receive(second),
        receiver.receive_invariant().receive(second) == receiver.receive(second),
        receiver.receive(first).receive_invariant() == receiver.receive_invariant(),
        receiver.receive_invariant().receive_invariant() == receiver.receive_invariant(),
{
}

/// A value of another type changes nothing: the receiver holds what it held
/// before, or is as empty as it was.
pub proof fn lemma_refused_value_changes_nothing(
    receiver: DataReceiverView,
    value: SchemaValueView,
)
    requires
        !receiver.accepts(value),
    ensures
        receiver.receive(value) == receiver,
{
}

} // verus!
