//! The data categories and their schema types.

pub mod dates;
