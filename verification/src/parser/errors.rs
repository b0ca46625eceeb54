//! What can go wrong while parsing.

use crate::tokens::Token;
use vstd::prelude::*;

verus! {

/// A parse error. The first one met ends the parse.
#[derive(Debug, PartialEq)]
pub enum Errors {
    /// The input ended where a token was required.
    UnexpectedEOF,
    /// The named token was required and is missing.
    FailedToFindToken(Token),
    /// A type keyword was required; the token found is carried.
    ExpectedTypeToken(Token),
    /// An identifier was required; the token found is carried.
    ExpectedIdentifier(Token),
    /// The carried token cannot stand where it was found.
    UnexpectedToken(Token),
    ExpectedFloatLit,
    ExpectedIntLit,
    /// An opening quote was not followed by a string literal.
    ExpectedStringLit,
    ExpectedBoolLit,
    ExpectedExpr,
    /// The left side of `=` is not a plain identifier.
    InvalidAssignmentTarget,
    /// The input nests constructs deeper than the parser's limit.
    NestingTooDeep,
}

} // verus!
