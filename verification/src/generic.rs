//! Type-level building blocks of generic data type representations.

pub mod datatypes;
pub mod enums;
pub mod fields;
pub mod names;
pub mod nums;
pub mod product;
pub mod structs;
pub mod sum;
pub mod untagged_sum;
pub mod variants;
