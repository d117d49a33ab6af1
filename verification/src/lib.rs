//! Generic, type-level representations of Rust data types, their (de)serialisation through a
//! self-describing data model, and the code generation that derives representations.

pub mod generic;
pub mod serde;
pub mod macros;
