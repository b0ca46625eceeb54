//! The expression parser: one function for each precedence level.
//!
//! Every function here consumes tokens from a [`TokenIterator`] and yields what
//! the grammar rule of the same name yields in [`crate::parser::grammar`]. The
//! parser stops at the first error and leaves the cursor where the error was
//! found.

use crate::parser::enums::{
    binary_operator, exprs_view, function_call, unary_operator, Expr, ExprView, FunctionCallView,
    Literal,
};
use crate::parser::errors::Errors;
use crate::parser::grammar::{
    operator_at, parse_argument_list_spec, parse_assignment_spec, parse_binary_rest_spec,
    parse_binary_spec, parse_expression_spec, parse_function_call_arguments_spec,
    parse_function_call_spec, parse_operand_spec, parse_primary_spec, parse_unary_spec,
    prefix_operator, Parsed,
};
use crate::parser::token_iterator::{remaining, Cursor, TokenIterator};
use crate::tokens::Token;
use vstd::prelude::*;

verus! {


/// A parse that started at `before` and ended at `after` with `result` did
/// what the grammar says: same tokens, the stated number consumed, the stated
/// tree or error.
pub open spec fn yields<T>(
    before: Cursor,
    after: Cursor,
    result: Result<T, Errors>,
    expected: Parsed<T>,
) -> bool {
    &&& after.tokens == before.tokens
    &&& after.position == before.position + expected.consumed
    &&& result == expected.result
}

/// The outcome of parsing an expression, with the expression as its model.
pub open spec fn expr_model(result: Result<Expr, Errors>) -> Result<ExprView, Errors> {
    match result {
        Ok(e) => Ok(e@),
        Err(error) => Err(error),
    }
}

/// The outcome of parsing a call, with the call as its model.
pub open spec fn call_model(result: Result<function_call, Errors>) -> Result<
    FunctionCallView,
    Errors,
> {
    match result {
        Ok(call) => Ok(call@),
        Err(error) => Err(error),
    }
}

/// The outcome of parsing arguments, with the arguments as their models.
pub open spec fn arguments_model(result: Result<Vec<Expr>, Errors>) -> Result<
    Seq<ExprView>,
    Errors,
> {
    match result {
        Ok(args) => Ok(exprs_view(args@)),
        Err(error) => Err(error),
    }
}

/// Orders the parsing functions that call each other without consuming a
/// token, level by level.
pub open spec fn level_rank(level: u8) -> nat {
    if level < 7 {
        (30 - 3 * level) as nat
    } else {
        9
    }
}

/// The binary operator that a token is at a precedence level, if it is one there.
fn binary_operator_of(level: u8, token: &Token) -> (operator: Option<binary_operator>)
    ensures
        operator == operator_at(level, *token),
{
    match (level, token) {
        (0, Token::T_OR_OPR) => Some(binary_operator::Or),
        (1, Token::T_AND_OPR) => Some(binary_operator::And),
        (2, Token::T_EQUALS_OPR) => Some(binary_operator::Equals),
        (2, Token::T_NOT_EQUALS_OPR) => Some(binary_operator::NotEquals),
        (3, Token::T_LESS_THAN_OPR) => Some(binary_operator::LessThan),
        (3, Token::T_GREATER_THAN_OPR) => Some(binary_operator::GreaterThan),
        (3, Token::T_LESS_THAN_EQUAL_TO_OPR) => Some(binary_operator::LessThanEqual),
        (3, Token::T_GREATER_THAN_EQUAL_TO_OPR) => Some(binary_operator::GreaterThanEqual),
        (4, Token::T_LEFT_SHIFT_OPR) => Some(binary_operator::LeftShift),
        (4, Token::T_RIGHT_SHIFT_OPR) => Some(binary_operator::RightShift),
        (5, Token::T_PLUS_OPR) => Some(binary_operator::Plus),
        (5, Token::T_MINUS_OPR) => Some(binary_operator::Minus),
        (6, Token::T_MULTIPLY_OPR) => Some(binary_operator::Multiply),
        (6, Token::T_DIVIDE_OPR) => Some(binary_operator::Divide),
        (7, Token::T_EXPONENT_OPR) => Some(binary_operator::Exponent),
        _ => None,
    }
}

/// The prefix operator that a token is, if it is one.
fn prefix_operator_of(token: &Token) -> (operator: Option<unary_operator>)
    ensures
        operator == prefix_operator(*token),
{
    match token {
        Token::T_NOT => Some(unary_operator::Not),
        Token::T_MINUS_OPR => Some(unary_operator::Minus),
        _ => None,
    }
}

/// expression := assignment
pub(crate) fn parse_expression(tokens: &mut TokenIterator, depth: usize) -> (result: Result<Expr, Errors>)
    ensures
        yields(
            old(tokens)@,
            final(tokens)@,
            expr_model(result),
            parse_expression_spec(old(tokens)@.tokens, old(tokens)@.position, depth as nat),
        ),
    decreases remaining(old(tokens)@.tokens, old(tokens)@.position), 32nat,
{
    reveal(parse_expression_spec);
    parse_assignment(tokens, depth)
}

/// assignment := logical-or [ `=` assignment ]
fn parse_assignment(tokens: &mut TokenIterator, depth: usize) -> (result: Result<Expr, Errors>)
    ensures
        yields(
            old(tokens)@,
            final(tokens)@,
            expr_model(result),
            parse_assignment_spec(old(tokens)@.tokens, old(tokens)@.position, depth as nat),
        ),
    decreases remaining(old(tokens)@.tokens, old(tokens)@.position), 31nat,
{
    let target = parse_logical_or(tokens, depth)?;
    let assigns = match tokens.peek_curr() {
        Some(Token::T_ASSIGNMENT_OPR) => true,
        _ => false,
    };
    if !assigns {
        return Ok(target);
    }
    let _ = tokens.consume();
    if depth == 0 {
        return Err(Errors::NestingTooDeep);
    }
    let value = parse_assignment(tokens, depth - 1)?;
    match target {
        Expr::Identifier(_) => Ok(Expr::Assignment { left: Box::new(target), right: Box::new(value) }),
        _ => Err(Errors::InvalidAssignmentTarget),
    }
}

/// One operand of the operators at `level`.
fn parse_operand(tokens: &mut TokenIterator, depth: usize, level: u8) -> (result: Result<
    Expr,
    Errors,
>)
    ensures
        yields(
            old(tokens)@,
            final(tokens)@,
            expr_model(result),
            parse_operand_spec(old(tokens)@.tokens, old(tokens)@.position, depth as nat, level),
        ),
    decreases remaining(old(tokens)@.tokens, old(tokens)@.position), (level_rank(level) - 2) as nat,
{
    match level {
        0 => parse_logical_and(tokens, depth),
        1 => parse_equality(tokens, depth),
        2 => parse_comparison(tokens, depth),
        3 => parse_shift(tokens, depth),
        4 => parse_term(tokens, depth),
        5 => parse_factor(tokens, depth),
        6 => parse_exponential(tokens, depth),
        _ => parse_unary(tokens, depth),
    }
}

/// One precedence level: an operand, then operator and operand as long as an
/// operator of the level follows, grouped to the left.
fn parse_binary_level(tokens: &mut TokenIterator, depth: usize, level: u8) -> (result: Result<
    Expr,
    Errors,
>)
    ensures
        yields(
            old(tokens)@,
            final(tokens)@,
            expr_model(result),
            parse_binary_spec(old(tokens)@.tokens, old(tokens)@.position, depth as nat, level),
        ),
    decreases remaining(old(tokens)@.tokens, old(tokens)@.position), (level_rank(level) - 1) as nat,
{
    let ghost start = tokens@;
    let mut expr = parse_operand(tokens, depth, level)?;
    loop
        invariant
            start == old(tokens)@,
            tokens@.tokens == start.tokens,
            tokens@.position >= start.position,
            parse_binary_spec(start.tokens, start.position, depth as nat, level)
                == parse_binary_rest_spec(
                start.tokens,
                tokens@.position,
                depth as nat,
                level,
                expr@,
            ).after((tokens@.position - start.position) as nat),
        decreases remaining(tokens@.tokens, tokens@.position),
    {
        let operator = match tokens.peek_curr() {
            Some(token) => binary_operator_of(level, token),
            None => None,
        };
        match operator {
            None => {
                return Ok(expr);
            },
            Some(operator) => {
                let _ = tokens.consume();
                let right = parse_operand(tokens, depth, level)?;
                expr =
                Expr::BinaryOperation { left: Box::new(expr), operator, right: Box::new(right) };
            },
        }
    }
}

/// logical-or := logical-and { `||` logical-and }
fn parse_logical_or(tokens: &mut TokenIterator, depth: usize) -> (result: Result<Expr, Errors>)
    ensures
        yields(
            old(tokens)@,
            final(tokens)@,
            expr_model(result),
            parse_binary_spec(old(tokens)@.tokens, old(tokens)@.position, depth as nat, 0),
        ),
    decreases remaining(old(tokens)@.tokens, old(tokens)@.position), level_rank(0),
{
    parse_binary_level(tokens, depth, 0)
}

/// logical-and := equality { `&&` equality }
fn parse_logical_and(tokens: &mut TokenIterator, depth: usize) -> (result: Result<Expr, Errors>)
    ensures
        yields(
            old(tokens)@,
            final(tokens)@,
            expr_model(result),
            parse_binary_spec(old(tokens)@.tokens, old(tokens)@.position, depth as nat, 1),
        ),
    decreases remaining(old(tokens)@.tokens, old(tokens)@.position), level_rank(1),
{
    parse_binary_level(tokens, depth, 1)
}

/// equality := comparison { ( `==` | `!=` ) comparison }
fn parse_equality(tokens: &mut TokenIterator, depth: usize) -> (result: Result<Expr, Errors>)
    ensures
        yields(
            old(tokens)@,
            final(tokens)@,
            expr_model(result),
            parse_binary_spec(old(tokens)@.tokens, old(tokens)@.position, depth as nat, 2),
        ),
    decreases remaining(old(tokens)@.tokens, old(tokens)@.position), level_rank(2),
{
    parse_binary_level(tokens, depth, 2)
}

/// comparison := shift { ( `<` | `>` | `<=` | `>=` ) shift }
fn parse_comparison(tokens: &mut TokenIterator, depth: usize) -> (result: Result<Expr, Errors>)
    ensures
        yields(
            old(tokens)@,
            final(tokens)@,
            expr_model(result),
            parse_binary_spec(old(tokens)@.tokens, old(tokens)@.position, depth as nat, 3),
        ),
    decreases remaining(old(tokens)@.tokens, old(tokens)@.position), level_rank(3),
{
    parse_binary_level(tokens, depth, 3)
}

/// shift := term { ( `<<` | `>>` ) term }
fn parse_shift(tokens: &mut TokenIterator, depth: usize) -> (result: Result<Expr, Errors>)
    ensures
        yields(
            old(tokens)@,
            final(tokens)@,
            expr_model(result),
            parse_binary_spec(old(tokens)@.tokens, old(tokens)@.position, depth as nat, 4),
        ),
    decreases remaining(old(tokens)@.tokens, old(tokens)@.position), level_rank(4),
{
    parse_binary_level(tokens, depth, 4)
}

/// term := factor { ( `+` | `-` ) factor }
fn parse_term(tokens: &mut TokenIterator, depth: usize) -> (result: Result<Expr, Errors>)
    ensures
        yields(
            old(tokens)@,
            final(tokens)@,
            expr_model(result),
            parse_binary_spec(old(tokens)@.tokens, old(tokens)@.position, depth as nat, 5),
        ),
    decreases remaining(old(tokens)@.tokens, old(tokens)@.position), level_rank(5),
{
    parse_binary_level(tokens, depth, 5)
}

/// factor := exponential { ( `*` | `/` ) exponential }
fn parse_factor(tokens: &mut TokenIterator, depth: usize) -> (result: Result<Expr, Errors>)
    ensures
        yields(
            old(tokens)@,
            final(tokens)@,
            expr_model(result),
            parse_binary_spec(old(tokens)@.tokens, old(tokens)@.position, depth as nat, 6),
        ),
    decreases remaining(old(tokens)@.tokens, old(tokens)@.position), level_rank(6),
{
    parse_binary_level(tokens, depth, 6)
}

/// exponential := unary { `^` unary }
fn parse_exponential(tokens: &mut TokenIterator, depth: usize) -> (result: Result<Expr, Errors>)
    ensures
        yields(
            old(tokens)@,
            final(tokens)@,
            expr_model(result),
            parse_binary_spec(old(tokens)@.tokens, old(tokens)@.position, depth as nat, 7),
        ),
    decreases remaining(old(tokens)@.tokens, old(tokens)@.position), level_rank(7),
{
    parse_binary_level(tokens, depth, 7)
}

/// unary := ( `!` | `-` ) unary | primary
fn parse_unary(tokens: &mut TokenIterator, depth: usize) -> (result: Result<Expr, Errors>)
    ensures
        yields(
            old(tokens)@,
            final(tokens)@,
            expr_model(result),
            parse_unary_spec(old(tokens)@.tokens, old(tokens)@.position, depth as nat),
        ),
    decreases remaining(old(tokens)@.tokens, old(tokens)@.position), 2nat,
{
    let operator = match tokens.peek_curr() {
        Some(token) => prefix_operator_of(token),
        None => None,
    };
    match operator {
        Some(operator) => {
            let _ = tokens.consume();
            if depth == 0 {
                return Err(Errors::NestingTooDeep);
            }
            let operand = parse_unary(tokens, depth - 1)?;
            Ok(Expr::UnaryOperation { prefix: operator, operand: Box::new(operand) })
        },
        None => parse_primary(tokens, depth),
    }
}

/// primary := literal | identifier | call | `(` expression `)`
fn parse_primary(tokens: &mut TokenIterator, depth: usize) -> (result: Result<Expr, Errors>)
    ensures
        yields(
            old(tokens)@,
            final(tokens)@,
            expr_model(result),
            parse_primary_spec(old(tokens)@.tokens, old(tokens)@.position, depth as nat),
        ),
    decreases remaining(old(tokens)@.tokens, old(tokens)@.position), 1nat,
{
    reveal(parse_expression_spec);
    let starts_call = match tokens.peek_curr() {
        Some(Token::T_IDENTIFIER(_)) => match tokens.peek_next() {
            Some(Token::T_ROUND_BRACKET_OPEN) => true,
            _ => false,
        },
        _ => false,
    };
    if starts_call {
        let call = parse_function_call_within(tokens, depth)?;
        return Ok(Expr::FuncCall(call));
    }
    let current = tokens.consume()?.clone();
    match current {
        Token::T_IDENTIFIER(name) => Ok(Expr::Identifier(name)),
        Token::T_CONST_INT(value) => Ok(Expr::Literal(Literal::Int(value))),
        Token::T_CONST_FLOAT(text) => Ok(Expr::Literal(Literal::Float(text))),
        Token::T_CONST_BOOL(value) => Ok(Expr::Literal(Literal::Bool(value))),
        Token::T_STRINGLIT(text) => Ok(Expr::Literal(Literal::Str(text))),
        Token::T_DOUBLE_QUOTE => {
            let text = match tokens.consume()? {
                Token::T_STRINGLIT(text) => text.clone(),
                _ => {
                    return Err(Errors::ExpectedStringLit);
                },
            };
            tokens.seek_if(Token::T_DOUBLE_QUOTE)?;
            Ok(Expr::Literal(Literal::Str(text)))
        },
        Token::T_ROUND_BRACKET_OPEN => {
            if depth == 0 {
                return Err(Errors::NestingTooDeep);
            }
            let inner = parse_expression(tokens, depth - 1)?;
            tokens.seek_if(Token::T_ROUND_BRACKET_CLOSE)?;
            Ok(inner)
        },
        other => Err(Errors::UnexpectedToken(other)),
    }
}

/// The arguments of a call, with `depth` nesting levels left for them.
pub(crate) fn parse_arguments_within(tokens: &mut TokenIterator, depth: usize) -> (result: Result<
    Vec<Expr>,
    Errors,
>)
    ensures
        yields(
            old(tokens)@,
            final(tokens)@,
            arguments_model(result),
            parse_function_call_arguments_spec(
                old(tokens)@.tokens,
                old(tokens)@.position,
                depth as nat,
            ),
        ),
    decreases remaining(old(tokens)@.tokens, old(tokens)@.position), 34nat,
{
    let mut args: Vec<Expr> = Vec::new();
    assert(exprs_view(args@) =~= Seq::empty());
    let empty = match tokens.peek_curr() {
        Some(Token::T_ROUND_BRACKET_CLOSE) => true,
        _ => false,
    };
    if empty {
        return Ok(args);
    }
    let ghost start = tokens@;
    loop
        invariant
            start == old(tokens)@,
            tokens@.tokens == start.tokens,
            tokens@.position >= start.position,
            parse_function_call_arguments_spec(start.tokens, start.position, depth as nat)
                == parse_argument_list_spec(
                start.tokens,
                tokens@.position,
                depth as nat,
                exprs_view(args@),
            ).after((tokens@.position - start.position) as nat),
        decreases remaining(tokens@.tokens, tokens@.position),
    {
        let ghost done = exprs_view(args@);
        reveal(parse_expression_spec);
        let argument = parse_expression(tokens, depth)?;
        args.push(argument);
        assert(exprs_view(args@) == done.push(argument@));
        let more = match tokens.peek_curr() {
            Some(Token::T_COMMA) => true,
            _ => false,
        };
        if more {
            let _ = tokens.consume();
        } else {
            return Ok(args);
        }
    }
}

/// A call, with `depth` nesting levels left for its arguments.
pub(crate) fn parse_function_call_within(tokens: &mut TokenIterator, depth: usize) -> (result: Result<
    function_call,
    Errors,
>)
    ensures
        yields(
            old(tokens)@,
            final(tokens)@,
            call_model(result),
            parse_function_call_spec(old(tokens)@.tokens, old(tokens)@.position, depth as nat),
        ),
    decreases remaining(old(tokens)@.tokens, old(tokens)@.position), 0nat,
{
    let identifier = match tokens.consume()? {
        Token::T_IDENTIFIER(name) => name.clone(),
        other => {
            return Err(Errors::ExpectedIdentifier(other.clone()));
        },
    };
    tokens.seek_if(Token::T_ROUND_BRACKET_OPEN)?;
    if depth == 0 {
        return Err(Errors::NestingTooDeep);
    }
    let args = parse_arguments_within(tokens, depth - 1)?;
    tokens.seek_if(Token::T_ROUND_BRACKET_CLOSE)?;
    Ok(function_call { identifier, args })
}

} // verus!
