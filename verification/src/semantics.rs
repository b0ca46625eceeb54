//! Semantic analysis of a parsed program.

pub mod depth;
pub mod diagnostics;
pub mod laws;
pub mod rules;
pub mod scope_checking;
pub mod semantic_analysis;
