//! The entry points of the parser.

use crate::parser::enums::{function_call, program_view, root, root_list, Expr, RootView};
use crate::parser::errors::Errors;
use crate::parser::expressions::{
    arguments_model, call_model, parse_arguments_within, parse_function_call_within, yields,
};
use crate::parser::grammar::{
    declaration_rest_spec, parse_function_call_arguments_spec, parse_function_call_spec,
    parse_program_spec, program_rest_spec, MAX_NESTING_DEPTH,
};
use crate::parser::statements::{parse_function_statement, parse_variable_declaration};
use crate::parser::token_iterator::{remaining, TokenIterator};
use crate::tokens::Token;
use vstd::prelude::*;

verus! {

/// Parses the arguments of a call up to, and without, the closing `)`.
pub fn parse_function_call_arguments(tokens: &mut TokenIterator) -> (result: Result<
    Vec<Expr>,
    Errors,
>)
    ensures
        yields(
            old(tokens)@,
            final(tokens)@,
            arguments_model(result),
            parse_function_call_arguments_spec(
                old(tokens)@.tokens,
                old(tokens)@.position,
                MAX_NESTING_DEPTH as nat,
            ),
        ),
{
    parse_arguments_within(tokens, MAX_NESTING_DEPTH)
}

/// Parses `name(arguments)` at the cursor, through the closing `)`.
pub fn parse_function_call(tokens: &mut TokenIterator) -> (result: Result<function_call, Errors>)
    ensures
        yields(
            old(tokens)@,
            final(tokens)@,
            call_model(result),
            parse_function_call_spec(
                old(tokens)@.tokens,
                old(tokens)@.position,
                MAX_NESTING_DEPTH as nat,
            ),
        ),
{
    parse_function_call_within(tokens, MAX_NESTING_DEPTH)
}

/// How the declaration at the cursor begins.
#[derive(Clone, Copy, PartialEq, Eq, Structural)]
enum DeclarationStart {
    Variable,
    Function,
}

/// Parses a whole program: variable declarations and functions up to the end
/// of the tokens. The first error ends the parse and is the result.
pub fn parser(tokens: Vec<Token>) -> (result: Result<root_list, Errors>)
    ensures
        match result {
            Ok(program) => parse_program_spec(tokens@) == Ok::<Seq<RootView>, Errors>(
                program_view(program@),
            ),
            Err(error) => parse_program_spec(tokens@) == Err::<Seq<RootView>, Errors>(error),
        },
{
    reveal(program_rest_spec);
    let mut token_iterator = TokenIterator::new(tokens);
    let mut roots: root_list = Vec::new();
    assert(program_view(roots@) =~= Seq::empty());
    loop
        invariant
            token_iterator@.tokens == tokens@,
            parse_program_spec(tokens@) == program_rest_spec(
                tokens@,
                token_iterator@.position,
                program_view(roots@),
            ).result,
        decreases remaining(token_iterator@.tokens, token_iterator@.position),
    {
        reveal(program_rest_spec);
        reveal(declaration_rest_spec);
        let ghost done = program_view(roots@);
        let start = match token_iterator.peek_curr() {
            None => {
                return Ok(roots);
            },
            Some(Token::T_FUNCTION) => DeclarationStart::Function,
            Some(first) => if first.is_type_keyword() {
                DeclarationStart::Variable
            } else {
                return Err(Errors::UnexpectedToken(first.clone()));
            },
        };
        let next = match start {
            DeclarationStart::Variable => root::Var(
                parse_variable_declaration(&mut token_iterator, MAX_NESTING_DEPTH)?,
            ),
            DeclarationStart::Function => root::Func(
                parse_function_statement(&mut token_iterator, MAX_NESTING_DEPTH)?,
            ),
        };
        roots.push(next);
        assert(program_view(roots@) =~= done.push(next@));
    }
}

} // verus!
