//! Canonical JSON Schema fragments for primitive types, with the schema value
//! model they are written in and the laws they obey.
pub mod schema;
pub mod generator;
pub mod primitives;
pub mod laws;
pub mod json_schema;
