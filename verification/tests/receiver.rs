use data_provider::data_key::DataKey;
use data_provider::data_receiver::{DataReceiver, SchemaType, SchemaValue};
use data_provider::error::DataError;
use data_provider::structs::dates::gregory::{DateSymbolsV1, DatesV1, PatternsV1};
use std::borrow::Cow;

fn german_dates() -> DatesV1 {
    let mut dates = DatesV1::default();
    dates.symbols.months.format.wide.0[0] = Cow::Owned(String::from("Januar"));
    dates.symbols.months.format.wide.0[2] = Cow::Owned(String::from("März"));
    dates.symbols.weekdays.format.abbreviated.0[1] = Cow::Owned(String::from("Mo"));
    dates.symbols.day_periods.format.abbreviated.am = Cow::Owned(String::from("AM"));
    dates.symbols.day_periods.format.abbreviated.pm = Cow::Owned(String::from("PM"));
    dates.patterns.date.full = Cow::Owned(String::from("EEEE, d. MMMM y"));
    dates
}

#[test]
fn new_receiver_is_empty_and_bound() {
    for schema_type in [
        SchemaType::DatesV1,
        SchemaType::DateSymbolsV1,
        SchemaType::PatternsV1,
    ] {
        let receiver = DataReceiver::new(schema_type);
        assert_eq!(receiver.bound_type(), schema_type);
        assert!(receiver.dates_v1().is_none());
        assert!(receiver.date_symbols_v1().is_none());
        assert!(receiver.patterns_v1().is_none());
        assert_eq!(receiver.into_value(), None);
    }
}

#[test]
fn receive_stores_a_value_of_the_bound_type() {
    let mut receiver = DataReceiver::new(SchemaType::DatesV1);
    assert_eq!(receiver.receive(SchemaValue::DatesV1(german_dates())), Ok(()));
    assert_eq!(receiver.bound_type(), SchemaType::DatesV1);
    assert_eq!(receiver.dates_v1(), Some(&german_dates()));
    assert!(receiver.patterns_v1().is_none());
    assert!(receiver.date_symbols_v1().is_none());
    assert_eq!(
        receiver.into_value(),
        Some(SchemaValue::DatesV1(german_dates()))
    );
}

#[test]
fn receive_of_each_type_into_its_own_receiver() {
    let mut symbols = DateSymbolsV1::default();
    symbols.weekdays.format.wide.0[6] = Cow::Owned(String::from("Saturday"));
    let mut receiver = DataReceiver::new(SchemaType::DateSymbolsV1);
    assert_eq!(
        receiver.receive(SchemaValue::DateSymbolsV1(symbols.clone())),
        Ok(())
    );
    assert_eq!(receiver.date_symbols_v1(), Some(&symbols));
    assert!(receiver.dates_v1().is_none());

    let mut patterns = PatternsV1::default();
    patterns.date_time.medium = Cow::Owned(String::from("{1}, {0}"));
    let mut receiver = DataReceiver::new(SchemaType::PatternsV1);
    assert_eq!(
        receiver.receive(SchemaValue::PatternsV1(patterns.clone())),
        Ok(())
    );
    assert_eq!(receiver.patterns_v1(), Some(&patterns));
    assert_eq!(receiver.into_value(), Some(SchemaValue::PatternsV1(patterns)));
}

#[test]
fn receive_replaces_the_value_before() {
    let mut receiver = DataReceiver::new(SchemaType::DatesV1);
    assert_eq!(receiver.receive(SchemaValue::DatesV1(german_dates())), Ok(()));
    let mut second = DatesV1::default();
    second.patterns.time.short = Cow::Owned(String::from("HH:mm"));
    assert_eq!(receiver.receive(SchemaValue::DatesV1(second.clone())), Ok(()));
    assert_eq!(receiver.into_value(), Some(SchemaValue::DatesV1(second)));
}

#[test]
fn type_mismatch_keeps_previous_value() {
    let mut receiver = DataReceiver::new(SchemaType::DatesV1);
    assert_eq!(receiver.receive(SchemaValue::DatesV1(german_dates())), Ok(()));
    let mut unrelated = PatternsV1::default();
    unrelated.date.short = Cow::Owned(String::from("dd.MM.yy"));
    assert_eq!(
        receiver.receive(SchemaValue::PatternsV1(unrelated)),
        Err(DataError::TypeMismatch)
    );
    assert_eq!(
        receiver.receive(SchemaValue::DateSymbolsV1(DateSymbolsV1::default())),
        Err(DataError::TypeMismatch)
    );
    assert_eq!(receiver.bound_type(), SchemaType::DatesV1);
    assert_eq!(
        receiver.into_value(),
        Some(SchemaValue::DatesV1(german_dates()))
    );
}

#[test]
fn type_mismatch_keeps_an_empty_receiver_empty() {
    let mut receiver = DataReceiver::new(SchemaType::DatesV1);
    assert_eq!(
        receiver.receive(SchemaValue::PatternsV1(PatternsV1::default())),
        Err(DataError::TypeMismatch)
    );
    assert_eq!(receiver.bound_type(), SchemaType::DatesV1);
    assert_eq!(receiver.into_value(), None);

    let mut receiver = DataReceiver::new(SchemaType::PatternsV1);
    assert_eq!(
        receiver.receive(SchemaValue::DatesV1(DatesV1::default())),
        Err(DataError::TypeMismatch)
    );
    assert_eq!(receiver.into_value(), None);
}

#[test]
fn receive_invariant_fills_each_type_with_its_default() {
    let mut receiver = DataReceiver::new(SchemaType::DatesV1);
    assert_eq!(receiver.receive_invariant(), Ok(()));
    assert_eq!(
        receiver.into_value(),
        Some(SchemaValue::DatesV1(DatesV1::default()))
    );

    let mut receiver = DataReceiver::new(SchemaType::DateSymbolsV1);
    assert_eq!(receiver.receive_invariant(), Ok(()));
    assert_eq!(
        receiver.into_value(),
        Some(SchemaValue::DateSymbolsV1(DateSymbolsV1::default()))
    );

    let mut receiver = DataReceiver::new(SchemaType::PatternsV1);
    assert_eq!(receiver.receive_invariant(), Ok(()));
    assert_eq!(
        receiver.into_value(),
        Some(SchemaValue::PatternsV1(PatternsV1::default()))
    );
}

#[test]
fn receive_invariant_replaces_the_value_before() {
    let mut receiver = DataReceiver::new(SchemaType::DatesV1);
    assert_eq!(receiver.receive(SchemaValue::DatesV1(german_dates())), Ok(()));
    assert_eq!(receiver.receive_invariant(), Ok(()));
    assert_eq!(receiver.dates_v1(), Some(&DatesV1::default()));
    assert_eq!(receiver.receive_invariant(), Ok(()));
    assert_eq!(receiver.dates_v1(), Some(&DatesV1::default()));
}

#[test]
fn a_schema_value_is_made_with_into() {
    let mut receiver = DataReceiver::new(SchemaType::DatesV1);
    assert_eq!(receiver.receive(german_dates().into()), Ok(()));
    assert_eq!(
        receiver.receive(PatternsV1::default().into()),
        Err(DataError::TypeMismatch)
    );
    assert_eq!(
        receiver.receive(DateSymbolsV1::default().into()),
        Err(DataError::TypeMismatch)
    );
    assert_eq!(receiver.dates_v1(), Some(&german_dates()));
    assert_eq!(
        SchemaValue::from(german_dates()),
        SchemaValue::DatesV1(german_dates())
    );
    assert_eq!(
        SchemaValue::from(DateSymbolsV1::default()),
        SchemaValue::DateSymbolsV1(DateSymbolsV1::default())
    );
    assert_eq!(
        SchemaValue::from(PatternsV1::default()),
        SchemaValue::PatternsV1(PatternsV1::default())
    );
}

#[test]
fn schema_value_knows_its_type() {
    assert_eq!(
        SchemaValue::DatesV1(DatesV1::default()).schema_type(),
        SchemaType::DatesV1
    );
    assert_eq!(
        SchemaValue::DateSymbolsV1(DateSymbolsV1::default()).schema_type(),
        SchemaType::DateSymbolsV1
    );
    assert_eq!(
        SchemaValue::PatternsV1(PatternsV1::default()).schema_type(),
        SchemaType::PatternsV1
    );
}

#[test]
fn schema_value_invariant_is_the_default_of_its_type() {
    assert_eq!(
        SchemaValue::invariant_value(SchemaType::DatesV1),
        SchemaValue::DatesV1(DatesV1::default())
    );
    assert_eq!(
        SchemaValue::invariant_value(SchemaType::DateSymbolsV1),
        SchemaValue::DateSymbolsV1(DateSymbolsV1::default())
    );
    assert_eq!(
        SchemaValue::invariant_value(SchemaType::PatternsV1),
        SchemaValue::PatternsV1(PatternsV1::default())
    );
}

#[test]
fn schema_values_of_different_types_differ() {
    assert_ne!(
        SchemaValue::DatesV1(DatesV1::default()),
        SchemaValue::PatternsV1(PatternsV1::default())
    );
    assert_ne!(
        SchemaValue::DateSymbolsV1(DateSymbolsV1::default()),
        SchemaValue::PatternsV1(PatternsV1::default())
    );
    let value = SchemaValue::DatesV1(german_dates());
    assert_eq!(value.clone(), value);
    assert_ne!(value, SchemaValue::DatesV1(DatesV1::default()));
}

#[test]
fn errors_compare_by_kind_and_key() {
    let first = DataKey::new("dates", "gregory", 2);
    let second = DataKey::new("dates", "gregory", 3);
    assert_eq!(
        DataError::UnsupportedDataKey(first),
        DataError::UnsupportedDataKey(DataKey::new("dates", "gregory", 2))
    );
    assert_ne!(
        DataError::UnsupportedDataKey(first),
        DataError::UnsupportedDataKey(second)
    );
    assert_ne!(DataError::UnsupportedDataKey(first), DataError::TypeMismatch);
    assert_ne!(DataError::TypeMismatch, DataError::UnavailableInvariant);
    assert_eq!(DataError::TypeMismatch, DataError::TypeMismatch);
    assert_eq!(
        DataError::UnavailableInvariant,
        DataError::UnavailableInvariant
    );
}
