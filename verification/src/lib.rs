//! Front end of a small imperative language: a recursive-descent parser from
//! tokens to a syntax tree, a semantic analyzer that checks scopes, types,
//! return paths and loop context on that tree, and a generator of
//! three-address code for trees that have passed.
//!
//! Every function of the library is verified against a contract. The
//! contracts speak of mathematical models: the grammar in
//! [`parser::grammar`], the rules of analysis in [`semantics::rules`], the
//! shape of the code in [`ir::tac`].

pub mod ir;
pub mod parser;
pub mod semantics;
pub mod text;
pub mod tokens;
