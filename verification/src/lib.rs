//! A schema-driven builder synthesizer.
//!
//! Given a description of a struct's fields (name, declared type, raw
//! per-field annotation tokens), the engine classifies each field's type
//! shape, parses its annotation, plans its generated behaviour, and emits a
//! structured declaration of a companion builder: storage slots, default
//! initializers, setters, per-element appenders, and a validated assembly
//! method that reports every missing required field.
//!
//! The `runtime` module gives the emitted declaration its reference
//! semantics, so that the behaviour of the generated builder is itself
//! verified: assembly never panics and its failure message lists the missing
//! fields in declaration order.

pub mod annot;
pub mod emit;
pub mod plan;
pub mod runtime;
pub mod schema;
pub mod shape;
