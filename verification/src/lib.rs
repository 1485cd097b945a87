//! Intermediate representation for a source-code generator.
//!
//! The IR describes a grammar's abstract syntax tree declaratively: each
//! declared node is a struct or an enum ([`types::Node`]), fields and variant
//! payloads carry a recursive [`types::Type`], and every node is guarded by a
//! set of feature flags ([`features::Features`]) that records under which
//! compile-time configuration the node exists. The one non-trivial algorithm
//! is [`features::Features::join`], which consolidates the feature sets of
//! repeated declarations of the same logical node while holding them to a
//! strict subset/superset ordering.

pub mod features;
pub mod types;
