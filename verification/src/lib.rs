//! A validating conversion layer for a small instruction-based program
//! representation.
//!
//! An upstream text layer produces a loosely structured ("abstract") program
//! tree in which operation names and type names are raw strings and type
//! annotations are optional.  This crate converts such a tree into a strongly
//! typed ("resolved") tree whose every operation and type is drawn from a
//! closed vocabulary, gated by a runtime [`config::ExtensionConfig`].  Any
//! name outside the active vocabulary fails the conversion with a reason and,
//! where position tracking is enabled, the nearest available source position.

pub mod abstract_program;
pub mod config;
pub mod conversion;
pub mod laws;
pub mod program;
pub mod text;
