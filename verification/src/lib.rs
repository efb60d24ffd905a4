//! Synthesis of builder companions for field-list aggregates.
//!
//! Given the structural description of an aggregate — its name and its
//! ordered fields, each a name and a declared type — the generator derives
//! the companion builder: a type holding every field in optional storage,
//! one fluent setter per field, a fallible finalizer that demands every
//! mandatory field, and a factory that starts with every field unset.
//!
//! The work happens in three phases, one module each: [`classify`] decides
//! which fields are optional and extracts their inner types, [`shape`]
//! derives each builder field's storage and setter-parameter types, and
//! [`emit`] assembles the four code fragments. [`semantics`] gives the
//! emitted builder's runtime behaviour a verified model: what setting and
//! finalizing mean, and the guarantees a finished builder provides.

pub mod ast;
pub mod classify;
pub mod emit;
pub mod semantics;
pub mod shape;
