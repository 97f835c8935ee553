//! Core machinery of a single-pass linter: diagnostics, a shared diagnostic
//! sink, a check interface, a pre-order tree traversal that dispatches to
//! checks by node kind, and one worked example check that flags sparse array
//! literals.

pub mod ast;
pub mod context;
pub mod diagnostic;
pub mod rules;
pub mod visit;
