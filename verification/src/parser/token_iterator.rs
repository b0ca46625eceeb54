//! A cursor over a token sequence with one token of lookahead.

use crate::parser::errors::Errors;
use crate::tokens::{same_token, Token};
use vstd::prelude::*;

verus! {

/// The mathematical content of a [`TokenIterator`]: the whole token sequence
/// and how many of its tokens have been consumed.
pub struct Cursor {
    pub tokens: Seq<Token>,
    pub position: nat,
}

/// The token at `position`, if the sequence is that long.
pub open spec fn token_at(tokens: Seq<Token>, position: nat) -> Option<Token> {
    if position < tokens.len() {
        Some(tokens[position as int])
    } else {
        None
    }
}

/// How many tokens lie at or after `position`.
pub open spec fn remaining(tokens: Seq<Token>, position: nat) -> nat {
    if position <= tokens.len() {
        (tokens.len() - position) as nat
    } else {
        0
    }
}

/// What requiring `expected` at `position` gives: success when the token there
/// is the same, else the token found, or the end of input.
pub open spec fn expect_token(tokens: Seq<Token>, position: nat, expected: Token) -> Result<
    (),
    Errors,
> {
    match token_at(tokens, position) {
        Some(t) => if same_token(t, expected) {
            Ok(())
        } else {
            Err(Errors::UnexpectedToken(t))
        },
        None => Err(Errors::UnexpectedEOF),
    }
}

/// A token sequence and a position in it. The position never passes the end.
#[derive(Debug)]
pub struct TokenIterator {
    position: usize,
    stream: Vec<Token>,
}

impl View for TokenIterator {
    type V = Cursor;

    closed spec fn view(&self) -> Cursor {
        Cursor { tokens: self.stream@, position: self.position as nat }
    }
}

impl TokenIterator {
    #[verifier::type_invariant]
    spec fn position_in_bounds(self) -> bool {
        self.position <= self.stream.len()
    }

    /// A cursor at the first of the tokens.
    pub fn new(stream: Vec<Token>) -> (iterator: Self)
        ensures
            iterator@.tokens == stream@,
            iterator@.position == 0,
    {
        TokenIterator { position: 0, stream }
    }

    /// The current token, not consumed.
    pub fn peek_curr(&self) -> (token: Option<&Token>)
        ensures
            token == match token_at(self@.tokens, self@.position) {
                Some(t) => Some(&t),
                None => None,
            },
    {
        if self.position < self.stream.len() {
            Some(&self.stream[self.position])
        } else {
            None
        }
    }

    /// The token after the current one, not consumed.
    pub fn peek_next(&self) -> (token: Option<&Token>)
        ensures
            token == match token_at(self@.tokens, self@.position + 1) {
                Some(t) => Some(&t),
                None => None,
            },
    {
        proof {
            use_type_invariant(self);
        }
        if self.position < self.stream.len() && self.position + 1 < self.stream.len() {
            Some(&self.stream[self.position + 1])
        } else {
            None
        }
    }

    /// Consumes the current token if it is the same as `expected`; otherwise
    /// leaves the cursor where it is and reports the token found, or the end.
    pub fn seek_if(&mut self, expected: Token) -> (outcome: Result<(), Errors>)
        ensures
            final(self)@.tokens == old(self)@.tokens,
            outcome == expect_token(old(self)@.tokens, old(self)@.position, expected),
            final(self)@.position == old(self)@.position + (if outcome is Ok {
                1nat
            } else {
                0nat
            }),
    {
        if self.position < self.stream.len() {
            if self.stream[self.position] == expected {
                self.position = self.position + 1;
                Ok(())
            } else {
                Err(Errors::UnexpectedToken(self.stream[self.position].clone()))
            }
        } else {
            Err(Errors::UnexpectedEOF)
        }
    }

    /// Consumes the current token and returns it, or reports the end.
    pub fn consume(&mut self) -> (outcome: Result<&Token, Errors>)
        ensures
            final(self)@.tokens == old(self)@.tokens,
            match token_at(old(self)@.tokens, old(self)@.position) {
                Some(t) => outcome == Ok::<&Token, Errors>(&t) && final(self)@.position == old(self)@.position + 1,
                None => outcome == Err::<&Token, Errors>(Errors::UnexpectedEOF)
                    && final(self)@.position == old(self)@.position,
            },
    {
        if self.position < self.stream.len() {
            self.position = self.position + 1;
            Ok(&self.stream[self.position - 1])
        } else {
            Err(Errors::UnexpectedEOF)
        }
    }

    /// Whether every token has been consumed.
    pub fn is_at_end(&self) -> (at_end: bool)
        ensures
            at_end == (self@.position == self@.tokens.len()),
            self@.position <= self@.tokens.len(),
    {
        proof {
            use_type_invariant(self);
        }
        self.position >= self.stream.len()
    }
}

} // verus!
