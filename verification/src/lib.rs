//! A lint core for a Cairo-like language: pattern detectors that emit
//! anchored diagnostics, a classifier that maps a diagnostic's message back
//! to its lint category, and fix synthesis that produces literal replacement
//! text for a subset of categories.
//!
//! The host compiler owns parsing and name resolution; this crate consumes
//! plain-data views of syntax and semantic nodes (see [`node`]) and hands
//! back diagnostics and `(range, replacement)` pairs. All text surgery is
//! specified down to the character.

pub mod fix;
pub mod lints;
pub mod node;
pub mod plugin;
pub mod text;
pub mod transform;
