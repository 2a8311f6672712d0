//! The individual lints: one module per pattern family. Each module holds
//! the category's fixed message constant, the specification of what the
//! detector recognizes, and the detector itself: a pure check that appends
//! zero or more diagnostics to the caller's list.

pub mod bool_comparison;
pub mod breaks;
pub mod collapsible_if_else;
pub mod double_comparison;
pub mod double_parens;
pub mod duplicate_underscore_args;
pub mod equatable_if_let;
pub mod loops;
pub mod single_match;
