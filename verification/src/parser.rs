//! The parser: token stream in, syntax tree out.

pub mod bounds;
pub mod enums;
pub mod errors;
pub mod expressions;
pub mod grammar;
pub mod parser;
pub mod precedence;
pub mod statements;
pub mod token_iterator;
