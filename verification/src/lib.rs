//! A typed model of an OpenAPI document together with a verified
//! reference resolver and schema validator.
//!
//! The crate models a document as plain data: a tree of typed nodes in
//! which every slot that admits a `$ref` holds an `ObjectOrReference`.
//! The resolver turns such a cell into the concrete object it names, and
//! the validator checks a structured `Value` against a `Schema` node,
//! collecting every violation rather than stopping at the first.

pub mod document;
pub mod formats;
pub mod laws;
pub mod resolve;
pub mod schema;
pub mod validate;
pub mod value;
