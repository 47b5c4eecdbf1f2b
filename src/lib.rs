//! Derivation of a builder for a record type.
//!
//! The generator works on a structural description of the record
//! ([`record::DeriveInput`]): it isolates the named fields, classifies each
//! declared type as `Option<T>` or not, and describes the builder to emit
//! ([`synth::GeneratedBuilder`]). [`instance::BuilderInstance`] is the
//! behaviour of the emitted builder: its initializer, setters and completion
//! operation.

pub mod classify;
pub mod instance;
pub mod record;
pub mod synth;
pub mod syntax;
