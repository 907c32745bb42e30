//! A typed, versioned data-provider dispatch mechanism.
//!
//! A [`data_key::DataKey`] names one schema of one data category. Each
//! category offers two dispatch functions: one hands out a
//! [`data_receiver::DataReceiver`] bound to the schema type of a key, the
//! other fills a receiver with the locale-invariant value of that type.
//! The module [`structs::dates`] is the category of calendar date symbols
//! and patterns.

pub mod data_key;
pub mod data_receiver;
pub mod error;
pub mod prelude;
pub mod schema;
pub mod structs;
pub mod text;
