//! A verified model of a builder-pattern code generator.
//!
//! Given the metadata of a record declaration (field names, type
//! expressions, annotations), the library classifies every field as
//! required, optional or accumulating, synthesizes the shape of a
//! companion builder type, and emits declarations for its mutators and
//! its finalizer.  A dynamic semantics of the generated builder is
//! verified alongside the generator itself.

pub mod classify;
pub mod laws;
pub mod model;
pub mod ops;
pub mod runtime;
pub mod shape;
