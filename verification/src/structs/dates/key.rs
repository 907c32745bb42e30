//! The keys of the category of dates.

use crate::data_key::{DataKey, DataKeyView};
use vstd::prelude::*;

verus! {

/// What the key of the Gregorian calendar's data holds: category `dates`,
/// subcategory `gregory`, version 1.
pub open spec fn gregory_v1_view() -> DataKeyView {
    DataKeyView { category: "dates"@, subcategory: "gregory"@, version: 1 }
}

/// The key of the Gregorian calendar's data in its first schema.
pub fn gregory_v1() -> (key: DataKey)
    ensures
        key@ == gregory_v1_view(),
{
    DataKey::new("dates", "gregory", 1)
}

} // verus!
