//! The names that most callers need.

pub use crate::data_key::DataKey;
pub use crate::data_receiver::{DataReceiver, SchemaType, SchemaValue};
pub use crate::error::DataError;
pub use crate::schema::Schema;
