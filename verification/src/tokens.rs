//! The token vocabulary that the parser consumes.

use vstd::prelude::*;

verus! {

/// One lexical token.
///
/// A float literal carries its decimal text: no part of the front end computes
/// with the value, and the text is what the intermediate code prints.
#[allow(non_camel_case_types)]
#[derive(Debug)]
pub enum Token {
    T_FUNCTION,
    T_IF,
    T_ELSE,
    T_ELSE_IF,
    T_WHILE,
    T_FOR,
    T_RETURN,
    T_PRINT,
    T_IDENTIFIER(String),
    T_STRINGLIT(String),
    T_CONST_INT(i64),
    T_CONST_FLOAT(String),
    T_CONST_BOOL(bool),
    T_ROUND_BRACKET_OPEN,
    T_ROUND_BRACKET_CLOSE,
    T_SQUARE_BRACKET_OPEN,
    T_SQUARE_BRACKET_CLOSE,
    T_CURLY_BRACKET_OPEN,
    T_CURLY_BRACKET_CLOSE,
    T_COMMA,
    T_SEMICOLON,
    T_DOUBLE_QUOTE,
    T_ASSIGNMENT_OPR,
    T_EQUALS_OPR,
    T_NOT,
    T_NOT_EQUALS_OPR,
    T_LESS_THAN_OPR,
    T_GREATER_THAN_OPR,
    T_LESS_THAN_EQUAL_TO_OPR,
    T_GREATER_THAN_EQUAL_TO_OPR,
    T_AND_OPR,
    T_OR_OPR,
    T_RIGHT_SHIFT_OPR,
    T_LEFT_SHIFT_OPR,
    T_PLUS_OPR,
    T_MINUS_OPR,
    T_MULTIPLY_OPR,
    T_DIVIDE_OPR,
    T_EXPONENT_OPR,
    T_INT,
    T_FLOAT,
    T_BOOL,
    T_STRING,
}

/// Two tokens are the same when they have the same kind and carry the same
/// text or value.
pub open spec fn same_token(a: Token, b: Token) -> bool {
    match (a, b) {
        (Token::T_IDENTIFIER(x), Token::T_IDENTIFIER(y)) => x@ == y@,
        (Token::T_STRINGLIT(x), Token::T_STRINGLIT(y)) => x@ == y@,
        (Token::T_CONST_FLOAT(x), Token::T_CONST_FLOAT(y)) => x@ == y@,
        _ => a == b,
    }
}

impl Token {
    /// True for the four keywords that name a type: `int`, `float`, `bool`, `string`.
    pub open spec fn spec_is_type_keyword(&self) -> bool {
        self is T_INT || self is T_FLOAT || self is T_BOOL || self is T_STRING
    }

    /// Whether the token is one of the keywords `int`, `float`, `bool`, `string`.
    #[verifier::when_used_as_spec(spec_is_type_keyword)]
    pub fn is_type_keyword(&self) -> (b: bool)
        ensures
            b == self.spec_is_type_keyword(),
    {
        match self {
            Token::T_INT | Token::T_FLOAT | Token::T_BOOL | Token::T_STRING => true,
            _ => false,
        }
    }
}

impl Clone for Token {
    fn clone(&self) -> (copy: Token)
        ensures
            copy == *self,
    {
        match self {
            Token::T_FUNCTION => Token::T_FUNCTION,
            Token::T_IF => Token::T_IF,
            Token::T_ELSE => Token::T_ELSE,
            Token::T_ELSE_IF => Token::T_ELSE_IF,
            Token::T_WHILE => Token::T_WHILE,
            Token::T_FOR => Token::T_FOR,
            Token::T_RETURN => Token::T_RETURN,
            Token::T_PRINT => Token::T_PRINT,
            Token::T_IDENTIFIER(name) => Token::T_IDENTIFIER(name.clone()),
            Token::T_STRINGLIT(text) => Token::T_STRINGLIT(text.clone()),
            Token::T_CONST_INT(value) => Token::T_CONST_INT(*value),
            Token::T_CONST_FLOAT(text) => Token::T_CONST_FLOAT(text.clone()),
            Token::T_CONST_BOOL(value) => Token::T_CONST_BOOL(*value),
            Token::T_ROUND_BRACKET_OPEN => Token::T_ROUND_BRACKET_OPEN,
            Token::T_ROUND_BRACKET_CLOSE => Token::T_ROUND_BRACKET_CLOSE,
            Token::T_SQUARE_BRACKET_OPEN => Token::T_SQUARE_BRACKET_OPEN,
            Token::T_SQUARE_BRACKET_CLOSE => Token::T_SQUARE_BRACKET_CLOSE,
            Token::T_CURLY_BRACKET_OPEN => Token::T_CURLY_BRACKET_OPEN,
            Token::T_CURLY_BRACKET_CLOSE => Token::T_CURLY_BRACKET_CLOSE,
            Token::T_COMMA => Token::T_COMMA,
            Token::T_SEMICOLON => Token::T_SEMICOLON,
            Token::T_DOUBLE_QUOTE => Token::T_DOUBLE_QUOTE,
            Token::T_ASSIGNMENT_OPR => Token::T_ASSIGNMENT_OPR,
            Token::T_EQUALS_OPR => Token::T_EQUALS_OPR,
            Token::T_NOT => Token::T_NOT,
            Token::T_NOT_EQUALS_OPR => Token::T_NOT_EQUALS_OPR,
            Token::T_LESS_THAN_OPR => Token::T_LESS_THAN_OPR,
            Token::T_GREATER_THAN_OPR => Token::T_GREATER_THAN_OPR,
            Token::T_LESS_THAN_EQUAL_TO_OPR => Token::T_LESS_THAN_EQUAL_TO_OPR,
            Token::T_GREATER_THAN_EQUAL_TO_OPR => Token::T_GREATER_THAN_EQUAL_TO_OPR,
            Token::T_AND_OPR => Token::T_AND_OPR,
            Token::T_OR_OPR => Token::T_OR_OPR,
            Token::T_RIGHT_SHIFT_OPR => Token::T_RIGHT_SHIFT_OPR,
            Token::T_LEFT_SHIFT_OPR => Token::T_LEFT_SHIFT_OPR,
            Token::T_PLUS_OPR => Token::T_PLUS_OPR,
            Token::T_MINUS_OPR => Token::T_MINUS_OPR,
            Token::T_MULTIPLY_OPR => Token::T_MULTIPLY_OPR,
            Token::T_DIVIDE_OPR => Token::T_DIVIDE_OPR,
            Token::T_EXPONENT_OPR => Token::T_EXPONENT_OPR,
            Token::T_INT => Token::T_INT,
            Token::T_FLOAT => Token::T_FLOAT,
            Token::T_BOOL => Token::T_BOOL,
            Token::T_STRING => Token::T_STRING,
        }
    }
}

impl PartialEq for Token {
    fn eq(&self, other: &Token) -> (equal: bool) {
        match (self, other) {
            (Token::T_FUNCTION, Token::T_FUNCTION) => true,
            (Token::T_IF, Token::T_IF) => true,
            (Token::T_ELSE, Token::T_ELSE) => true,
            (Token::T_ELSE_IF, Token::T_ELSE_IF) => true,
            (Token::T_WHILE, Token::T_WHILE) => true,
            (Token::T_FOR, Token::T_FOR) => true,
            (Token::T_RETURN, Token::T_RETURN) => true,
            (Token::T_PRINT, Token::T_PRINT) => true,
            (Token::T_IDENTIFIER(x), Token::T_IDENTIFIER(y)) => *x == *y,
            (Token::T_STRINGLIT(x), Token::T_STRINGLIT(y)) => *x == *y,
            (Token::T_CONST_INT(x), Token::T_CONST_INT(y)) => *x == *y,
            (Token::T_CONST_FLOAT(x), Token::T_CONST_FLOAT(y)) => *x == *y,
            (Token::T_CONST_BOOL(x), Token::T_CONST_BOOL(y)) => *x == *y,
            (Token::T_ROUND_BRACKET_OPEN, Token::T_ROUND_BRACKET_OPEN) => true,
            (Token::T_ROUND_BRACKET_CLOSE, Token::T_ROUND_BRACKET_CLOSE) => true,
            (Token::T_SQUARE_BRACKET_OPEN, Token::T_SQUARE_BRACKET_OPEN) => true,
            (Token::T_SQUARE_BRACKET_CLOSE, Token::T_SQUARE_BRACKET_CLOSE) => true,
            (Token::T_CURLY_BRACKET_OPEN, Token::T_CURLY_BRACKET_OPEN) => true,
            (Token::T_CURLY_BRACKET_CLOSE, Token::T_CURLY_BRACKET_CLOSE) => true,
            (Token::T_COMMA, Token::T_COMMA) => true,
            (Token::T_SEMICOLON, Token::T_SEMICOLON) => true,
            (Token::T_DOUBLE_QUOTE, Token::T_DOUBLE_QUOTE) => true,
            (Token::T_ASSIGNMENT_OPR, Token::T_ASSIGNMENT_OPR) => true,
            (Token::T_EQUALS_OPR, Token::T_EQUALS_OPR) => true,
            (Token::T_NOT, Token::T_NOT) => true,
            (Token::T_NOT_EQUALS_OPR, Token::T_NOT_EQUALS_OPR) => true,
            (Token::T_LESS_THAN_OPR, Token::T_LESS_THAN_OPR) => true,
            (Token::T_GREATER_THAN_OPR, Token::T_GREATER_THAN_OPR) => true,
            (Token::T_LESS_THAN_EQUAL_TO_OPR, Token::T_LESS_THAN_EQUAL_TO_OPR) => true,
            (Token::T_GREATER_THAN_EQUAL_TO_OPR, Token::T_GREATER_THAN_EQUAL_TO_OPR) => true,
            (Token::T_AND_OPR, Token::T_AND_OPR) => true,
            (Token::T_OR_OPR, Token::T_OR_OPR) => true,
            (Token::T_RIGHT_SHIFT_OPR, Token::T_RIGHT_SHIFT_OPR) => true,
            (Token::T_LEFT_SHIFT_OPR, Token::T_LEFT_SHIFT_OPR) => true,
            (Token::T_PLUS_OPR, Token::T_PLUS_OPR) => true,
            (Token::T_MINUS_OPR, Token::T_MINUS_OPR) => true,
            (Token::T_MULTIPLY_OPR, Token::T_MULTIPLY_OPR) => true,
            (Token::T_DIVIDE_OPR, Token::T_DIVIDE_OPR) => true,
            (Token::T_EXPONENT_OPR, Token::T_EXPONENT_OPR) => true,
            (Token::T_INT, Token::T_INT) => true,
            (Token::T_FLOAT, Token::T_FLOAT) => true,
            (Token::T_BOOL, Token::T_BOOL) => true,
            (Token::T_STRING, Token::T_STRING) => true,
            _ => false,
        }
    }
}

impl vstd::std_specs::cmp::PartialEqSpecImpl for Token {
    open spec fn obeys_eq_spec() -> bool {
        true
    }

    open spec fn eq_spec(&self, other: &Token) -> bool {
        same_token(*self, *other)
    }
}

} // verus!
