//! The statement parser: declarations, blocks and control flow.
//!
//! As in [`crate::parser::expressions`], every function yields what the grammar
//! rule of the same name yields in [`crate::parser::grammar`].

use crate::parser::enums::{
    elif_statement, elifs_view, expression_statement, for_statement, function_statement,
    if_statement, if_statement_expression, param, params_view, return_statement, statement,
    statements_view, variable_declaration, while_statement, Block, Expr, ExprView, StatementView,
    VariableDeclarationView,
};
use crate::parser::errors::Errors;
use crate::parser::expressions::{parse_expression, yields};
use crate::parser::grammar::{
    block_rest_spec, braced_block_spec, branch_spec, declared_type, elifs_rest_spec,
    for_clauses_spec, for_condition_spec, for_init_spec, for_rest_spec, for_update_spec,
    function_head_spec, function_rest_spec, if_rest_spec, lemma_block_rest_unfolds,
    lemma_statement_consumes, parameter_list_rest_spec, parse_block_spec, parse_elif_blocks_spec,
    parse_else_block_spec, parse_for_statement_spec, parse_function_statement_spec,
    parse_if_statement_spec, parse_parameter_list_spec, parse_parameter_spec,
    parse_return_statement_spec, parse_statement_spec, parse_variable_declaration_spec,
    return_rest_spec, variable_declaration_rest_spec, while_loop_parser_spec,
};
use crate::parser::token_iterator::{remaining, token_at, TokenIterator};
use crate::semantics::semantic_analysis::Type;
use crate::tokens::Token;
use vstd::prelude::*;

verus! {

/// The outcome of parsing a declaration, with the declaration as its model.
pub open spec fn declaration_model(result: Result<variable_declaration, Errors>) -> Result<
    VariableDeclarationView,
    Errors,
> {
    match result {
        Ok(declaration) => Ok(declaration@),
        Err(error) => Err(error),
    }
}

/// The outcome of parsing a block, with the block as its model.
pub open spec fn block_model(result: Result<Block, Errors>) -> Result<Seq<StatementView>, Errors> {
    match result {
        Ok(block) => Ok(block@),
        Err(error) => Err(error),
    }
}

/// The outcome of parsing a block that may be absent.
pub open spec fn optional_block_model(result: Result<Option<Block>, Errors>) -> Result<
    Option<Seq<StatementView>>,
    Errors,
> {
    match result {
        Ok(Some(block)) => Ok(Some(block@)),
        Ok(None) => Ok(None),
        Err(error) => Err(error),
    }
}

/// The outcome of parsing a declaration that may be absent.
pub open spec fn optional_declaration_model(
    result: Result<Option<variable_declaration>, Errors>,
) -> Result<Option<VariableDeclarationView>, Errors> {
    match result {
        Ok(Some(declaration)) => Ok(Some(declaration@)),
        Ok(None) => Ok(None),
        Err(error) => Err(error),
    }
}

/// The outcome of parsing an expression that may be absent.
pub open spec fn optional_expr_model(result: Result<Option<Expr>, Errors>) -> Result<
    Option<ExprView>,
    Errors,
> {
    match result {
        Ok(Some(e)) => Ok(Some(e@)),
        Ok(None) => Ok(None),
        Err(error) => Err(error),
    }
}

/// The models of the three clauses of a `for`.
pub open spec fn clauses_model(
    result: Result<(Option<variable_declaration>, expression_statement, Option<Expr>), Errors>,
) -> Result<(Option<VariableDeclarationView>, Option<ExprView>, Option<ExprView>), Errors> {
    match result {
        Ok(clauses) => Ok(
            (
                match clauses.0 {
                    Some(declaration) => Some(declaration@),
                    None => None,
                },
                clauses.1@,
                match clauses.2 {
                    Some(e) => Some(e@),
                    None => None,
                },
            ),
        ),
        Err(error) => Err(error),
    }
}

/// The type that a type keyword declares; `None` for any other token.
fn declared_type_of(token: &Token) -> (declared: Option<Type>)
    ensures
        declared is Some == token.is_type_keyword(),
        declared is Some ==> declared->0 == declared_type(*token),
{
    match token {
        Token::T_INT => Some(Type::Int),
        Token::T_FLOAT => Some(Type::Float),
        Token::T_BOOL => Some(Type::Bool),
        Token::T_STRING => Some(Type::String),
        _ => None,
    }
}

/// declaration := type identifier `=` expression `;`
pub(crate) fn parse_variable_declaration(tokens: &mut TokenIterator, depth: usize) -> (result:
    Result<variable_declaration, Errors>)
    ensures
        yields(
            old(tokens)@,
            final(tokens)@,
            declaration_model(result),
            parse_variable_declaration_spec(
                old(tokens)@.tokens,
                old(tokens)@.position,
                depth as nat,
            ),
        ),
{
    reveal(variable_declaration_rest_spec);
    let keyword = tokens.consume()?;
    let type_token = match declared_type_of(keyword) {
        Some(declared) => declared,
        None => {
            return Err(Errors::ExpectedTypeToken(keyword.clone()));
        },
    };
    let identifier = match tokens.consume()? {
        Token::T_IDENTIFIER(name) => name.clone(),
        other => {
            return Err(Errors::ExpectedIdentifier(other.clone()));
        },
    };
    tokens.seek_if(Token::T_ASSIGNMENT_OPR)?;
    let expression = parse_expression(tokens, depth)?;
    tokens.seek_if(Token::T_SEMICOLON)?;
    Ok(variable_declaration { type_token, identifier, expression })
}

/// parameter := type identifier
fn parse_parameter(tokens: &mut TokenIterator) -> (result: Result<param, Errors>)
    ensures
        yields(
            old(tokens)@,
            final(tokens)@,
            match result {
                Ok(p) => Ok(p@),
                Err(error) => Err(error),
            },
            parse_parameter_spec(old(tokens)@.tokens, old(tokens)@.position),
        ),
{
    reveal(parse_parameter_spec);
    let keyword = tokens.consume()?;
    let type_token = match declared_type_of(keyword) {
        Some(declared) => declared,
        None => {
            return Err(Errors::ExpectedTypeToken(keyword.clone()));
        },
    };
    let identifier = match tokens.consume()? {
        Token::T_IDENTIFIER(name) => name.clone(),
        other => {
            return Err(Errors::ExpectedIdentifier(other.clone()));
        },
    };
    Ok(param { type_token, identifier })
}

/// parameters := [ parameter { `,` parameter } ]
fn parse_parameter_list(tokens: &mut TokenIterator) -> (result: Result<Vec<param>, Errors>)
    ensures
        yields(
            old(tokens)@,
            final(tokens)@,
            match result {
                Ok(params) => Ok(params_view(params@)),
                Err(error) => Err(error),
            },
            parse_parameter_list_spec(old(tokens)@.tokens, old(tokens)@.position),
        ),
{
    reveal(parse_parameter_list_spec);
    let mut parameters: Vec<param> = Vec::new();
    assert(params_view(parameters@) =~= Seq::empty());
    let empty = match tokens.peek_curr() {
        Some(Token::T_ROUND_BRACKET_CLOSE) => true,
        _ => false,
    };
    if empty {
        return Ok(parameters);
    }
    let ghost start = tokens@;
    loop
        invariant
            start == old(tokens)@,
            tokens@.tokens == start.tokens,
            tokens@.position >= start.position,
            parse_parameter_list_spec(start.tokens, start.position) == parameter_list_rest_spec(
                start.tokens,
                tokens@.position,
                params_view(parameters@),
            ).after((tokens@.position - start.position) as nat),
        decreases remaining(tokens@.tokens, tokens@.position),
    {
        reveal(parameter_list_rest_spec);
        let ghost done = params_view(parameters@);
        let parameter = parse_parameter(tokens)?;
        parameters.push(parameter);
        assert(params_view(parameters@) =~= done.push(parameter@));
        let more = match tokens.peek_curr() {
            Some(Token::T_COMMA) => true,
            _ => false,
        };
        if more {
            let _ = tokens.consume();
        } else {
            return Ok(parameters);
        }
    }
}

/// `{` block `}`, with `depth` nesting levels left, one of which the block uses.
fn parse_braced_block(tokens: &mut TokenIterator, depth: usize) -> (result: Result<Block, Errors>)
    ensures
        yields(
            old(tokens)@,
            final(tokens)@,
            block_model(result),
            braced_block_spec(old(tokens)@.tokens, old(tokens)@.position, depth as nat),
        ),
    decreases remaining(old(tokens)@.tokens, old(tokens)@.position), 0nat,
{
    reveal(braced_block_spec);
    tokens.seek_if(Token::T_CURLY_BRACKET_OPEN)?;
    if depth == 0 {
        return Err(Errors::NestingTooDeep);
    }
    let block = parse_block(tokens, depth - 1)?;
    tokens.seek_if(Token::T_CURLY_BRACKET_CLOSE)?;
    Ok(block)
}

/// `(` condition `)` `{` block `}`
fn parse_branch(tokens: &mut TokenIterator, depth: usize) -> (result: Result<
    if_statement_expression,
    Errors,
>)
    ensures
        yields(
            old(tokens)@,
            final(tokens)@,
            match result {
                Ok(branch) => Ok(branch.view()),
                Err(error) => Err(error),
            },
            branch_spec(old(tokens)@.tokens, old(tokens)@.position, depth as nat),
        ),
    decreases remaining(old(tokens)@.tokens, old(tokens)@.position), 1nat,
{
    reveal(branch_spec);
    reveal(braced_block_spec);
    tokens.seek_if(Token::T_ROUND_BRACKET_OPEN)?;
    let condition = parse_expression(tokens, depth)?;
    tokens.seek_if(Token::T_ROUND_BRACKET_CLOSE)?;
    let block = parse_braced_block(tokens, depth)?;
    Ok(if_statement_expression { condition, block })
}

/// The return type and the name that follow `fn`.
fn parse_function_head(tokens: &mut TokenIterator) -> (result: Result<(Type, String), Errors>)
    ensures
        yields(
            old(tokens)@,
            final(tokens)@,
            match result {
                Ok(head) => Ok((head.0, head.1@)),
                Err(error) => Err(error),
            },
            function_head_spec(old(tokens)@.tokens, old(tokens)@.position),
        ),
{
    reveal(function_head_spec);
    let explicit = match tokens.peek_curr() {
        None => {
            return Err(Errors::UnexpectedEOF);
        },
        Some(Token::T_IDENTIFIER(_)) => None,
        Some(first) => match declared_type_of(first) {
            Some(declared) => Some(declared),
            None => {
                return Err(Errors::ExpectedIdentifier(first.clone()));
            },
        },
    };
    let type_token = match explicit {
        Some(declared) => {
            let _ = tokens.consume();
            declared
        },
        None => Type::Void,
    };
    let identifier = match tokens.consume()? {
        Token::T_IDENTIFIER(name) => name.clone(),
        other => {
            return Err(Errors::ExpectedIdentifier(other.clone()));
        },
    };
    Ok((type_token, identifier))
}

/// function := `fn` [ type ] identifier `(` parameters `)` `{` block `}`
pub(crate) fn parse_function_statement(tokens: &mut TokenIterator, depth: usize) -> (result:
    Result<function_statement, Errors>)
    ensures
        yields(
            old(tokens)@,
            final(tokens)@,
            match result {
                Ok(function) => Ok(function@),
                Err(error) => Err(error),
            },
            parse_function_statement_spec(old(tokens)@.tokens, old(tokens)@.position, depth as nat),
        ),
{
    reveal(function_rest_spec);
    tokens.seek_if(Token::T_FUNCTION)?;
    let (type_token, identifier) = parse_function_head(tokens)?;
    tokens.seek_if(Token::T_ROUND_BRACKET_OPEN)?;
    let params = parse_parameter_list(tokens)?;
    tokens.seek_if(Token::T_ROUND_BRACKET_CLOSE)?;
    let block = parse_braced_block(tokens, depth)?;
    Ok(function_statement { type_token, identifier, params, block })
}

/// How the statement at the cursor begins.
#[derive(Clone, Copy, PartialEq, Eq, Structural)]
enum StatementStart {
    End,
    Declaration,
    If,
    For,
    While,
    Return,
    Expression,
}

/// How the statement at the cursor begins; nothing is consumed.
fn statement_start(tokens: &TokenIterator) -> (start: StatementStart)
    ensures
        start == match token_at(tokens@.tokens, tokens@.position) {
            None => StatementStart::End,
            Some(Token::T_CURLY_BRACKET_CLOSE) => StatementStart::End,
            Some(Token::T_IF) => StatementStart::If,
            Some(Token::T_FOR) => StatementStart::For,
            Some(Token::T_WHILE) => StatementStart::While,
            Some(Token::T_RETURN) => StatementStart::Return,
            Some(first) => if first.is_type_keyword() {
                StatementStart::Declaration
            } else {
                StatementStart::Expression
            },
        },
{
    match tokens.peek_curr() {
        None => StatementStart::End,
        Some(Token::T_CURLY_BRACKET_CLOSE) => StatementStart::End,
        Some(Token::T_IF) => StatementStart::If,
        Some(Token::T_FOR) => StatementStart::For,
        Some(Token::T_WHILE) => StatementStart::While,
        Some(Token::T_RETURN) => StatementStart::Return,
        Some(first) => if first.is_type_keyword() {
            StatementStart::Declaration
        } else {
            StatementStart::Expression
        },
    }
}

/// One statement, of the kind that its first token announces. An expression
/// statement is an expression and the `;` behind it.
fn parse_statement(tokens: &mut TokenIterator, depth: usize) -> (result: Result<statement, Errors>)
    ensures
        yields(
            old(tokens)@,
            final(tokens)@,
            match result {
                Ok(s) => Ok(s.view()),
                Err(error) => Err(error),
            },
            parse_statement_spec(old(tokens)@.tokens, old(tokens)@.position, depth as nat),
        ),
    decreases remaining(old(tokens)@.tokens, old(tokens)@.position), 15nat,
{
    match statement_start(tokens) {
        StatementStart::Declaration => Ok(
            statement::Var(parse_variable_declaration(tokens, depth)?),
        ),
        StatementStart::If => Ok(statement::If(parse_if_statement(tokens, depth)?)),
        StatementStart::For => Ok(statement::For(parse_for_statement(tokens, depth)?)),
        StatementStart::While => Ok(statement::While(while_loop_parser(tokens, depth)?)),
        StatementStart::Return => Ok(statement::Return(parse_return_statement(tokens, depth)?)),
        _ => {
            let expression = parse_expression(tokens, depth)?;
            tokens.seek_if(Token::T_SEMICOLON)?;
            Ok(statement::Expr(expression))
        },
    }
}

/// block := { statement }, up to a `}` or the end of input
fn parse_block(tokens: &mut TokenIterator, depth: usize) -> (result: Result<Block, Errors>)
    ensures
        yields(
            old(tokens)@,
            final(tokens)@,
            block_model(result),
            parse_block_spec(old(tokens)@.tokens, old(tokens)@.position, depth as nat),
        ),
    decreases remaining(old(tokens)@.tokens, old(tokens)@.position), 20nat,
{
    let mut statements: Vec<statement> = Vec::new();
    assert(statements_view(statements@) =~= Seq::empty());
    let ghost start = tokens@;
    proof {
        lemma_block_rest_unfolds(start.tokens, start.position, depth as nat, Seq::empty());
    }
    loop
        invariant
            start == old(tokens)@,
            tokens@.tokens == start.tokens,
            tokens@.position >= start.position,
            parse_block_spec(start.tokens, start.position, depth as nat) == block_rest_spec(
                start.tokens,
                tokens@.position,
                depth as nat,
                statements_view(statements@),
            ).after((tokens@.position - start.position) as nat),
        decreases remaining(tokens@.tokens, tokens@.position),
    {
        let ghost done = statements_view(statements@);
        proof {
            lemma_block_rest_unfolds(start.tokens, tokens@.position, depth as nat, done);
            lemma_statement_consumes(start.tokens, tokens@.position, depth as nat);
        }
        match statement_start(tokens) {
            StatementStart::End => {
                return Ok(Block { statements });
            },
            _ => {},
        }
        let next = parse_statement(tokens, depth)?;
        statements.push(next);
        assert(statements_view(statements@) =~= done.push(next.view()));
    }
}

/// if := `if` branch { `elif` branch } [ `else` `{` block `}` ]
fn parse_if_statement(tokens: &mut TokenIterator, depth: usize) -> (result: Result<
    if_statement,
    Errors,
>)
    ensures
        yields(
            old(tokens)@,
            final(tokens)@,
            match result {
                Ok(s) => Ok(s.view()),
                Err(error) => Err(error),
            },
            parse_if_statement_spec(old(tokens)@.tokens, old(tokens)@.position, depth as nat),
        ),
    decreases remaining(old(tokens)@.tokens, old(tokens)@.position), 10nat,
{
    reveal(if_rest_spec);
    reveal(branch_spec);
    reveal(elifs_rest_spec);
    reveal(parse_else_block_spec);
    tokens.seek_if(Token::T_IF)?;
    let first = parse_branch(tokens, depth)?;
    let elifs = parse_elif_blocks(tokens, depth)?;
    let otherwise = parse_else_block(tokens, depth)?;
    Ok(if_statement { if_statement: first, elif_statement: elifs, else_statement: otherwise })
}

/// while := `while` branch
fn while_loop_parser(tokens: &mut TokenIterator, depth: usize) -> (result: Result<
    while_statement,
    Errors,
>)
    ensures
        yields(
            old(tokens)@,
            final(tokens)@,
            match result {
                Ok(s) => Ok(s.view()),
                Err(error) => Err(error),
            },
            while_loop_parser_spec(old(tokens)@.tokens, old(tokens)@.position, depth as nat),
        ),
    decreases remaining(old(tokens)@.tokens, old(tokens)@.position), 10nat,
{
    tokens.seek_if(Token::T_WHILE)?;
    let branch = parse_branch(tokens, depth)?;
    Ok(while_statement { condition: branch.condition, block: branch.block })
}

/// { `elif` branch }
fn parse_elif_blocks(tokens: &mut TokenIterator, depth: usize) -> (result: Result<
    Vec<elif_statement>,
    Errors,
>)
    ensures
        yields(
            old(tokens)@,
            final(tokens)@,
            match result {
                Ok(elifs) => Ok(elifs_view(elifs@)),
                Err(error) => Err(error),
            },
            parse_elif_blocks_spec(old(tokens)@.tokens, old(tokens)@.position, depth as nat),
        ),
    decreases remaining(old(tokens)@.tokens, old(tokens)@.position), 9nat,
{
    let mut elifs: Vec<elif_statement> = Vec::new();
    assert(elifs_view(elifs@) =~= Seq::empty());
    let ghost start = tokens@;
    loop
        invariant
            start == old(tokens)@,
            tokens@.tokens == start.tokens,
            tokens@.position >= start.position,
            parse_elif_blocks_spec(start.tokens, start.position, depth as nat) == elifs_rest_spec(
                start.tokens,
                tokens@.position,
                depth as nat,
                elifs_view(elifs@),
            ).after((tokens@.position - start.position) as nat),
        decreases remaining(tokens@.tokens, tokens@.position),
    {
        reveal(elifs_rest_spec);
        reveal(branch_spec);
        let ghost done = elifs_view(elifs@);
        let more = match tokens.peek_curr() {
            Some(Token::T_ELSE_IF) => true,
            _ => false,
        };
        if !more {
            return Ok(elifs);
        }
        let _ = tokens.consume();
        let branch = parse_branch(tokens, depth)?;
        let next = elif_statement::Elif { if_statement: branch };
        elifs.push(next);
        assert(elifs_view(elifs@) =~= done.push(next.view()));
    }
}

/// [ `else` `{` block `}` ]
fn parse_else_block(tokens: &mut TokenIterator, depth: usize) -> (result: Result<
    Option<Block>,
    Errors,
>)
    ensures
        yields(
            old(tokens)@,
            final(tokens)@,
            optional_block_model(result),
            parse_else_block_spec(old(tokens)@.tokens, old(tokens)@.position, depth as nat),
        ),
    decreases remaining(old(tokens)@.tokens, old(tokens)@.position), 9nat,
{
    reveal(parse_else_block_spec);
    reveal(braced_block_spec);
    let present = match tokens.peek_curr() {
        Some(Token::T_ELSE) => true,
        _ => false,
    };
    if present {
        let _ = tokens.consume();
        let block = parse_braced_block(tokens, depth)?;
        Ok(Some(block))
    } else {
        Ok(None)
    }
}

/// How the first clause of a `for` begins.
#[derive(Clone, Copy, PartialEq, Eq, Structural)]
enum ClauseStart {
    Empty,
    Filled,
}

/// The first clause of a `for`: `;` alone, or a variable declaration.
fn parse_for_init(tokens: &mut TokenIterator, depth: usize) -> (result: Result<
    Option<variable_declaration>,
    Errors,
>)
    ensures
        yields(
            old(tokens)@,
            final(tokens)@,
            optional_declaration_model(result),
            for_init_spec(old(tokens)@.tokens, old(tokens)@.position, depth as nat),
        ),
{
    reveal(for_init_spec);
    let start = match tokens.peek_curr() {
        None => {
            return Err(Errors::UnexpectedEOF);
        },
        Some(Token::T_SEMICOLON) => ClauseStart::Empty,
        Some(other) => if other.is_type_keyword() {
            ClauseStart::Filled
        } else {
            return Err(Errors::UnexpectedToken(other.clone()));
        },
    };
    match start {
        ClauseStart::Empty => {
            let _ = tokens.consume();
            Ok(None)
        },
        ClauseStart::Filled => {
            let declaration = parse_variable_declaration(tokens, depth)?;
            Ok(Some(declaration))
        },
    }
}

/// The second clause of a `for`: `;` alone, or an expression and `;`.
fn parse_for_condition(tokens: &mut TokenIterator, depth: usize) -> (result: Result<
    expression_statement,
    Errors,
>)
    ensures
        yields(
            old(tokens)@,
            final(tokens)@,
            match result {
                Ok(condition) => Ok(condition@),
                Err(error) => Err(error),
            },
            for_condition_spec(old(tokens)@.tokens, old(tokens)@.position, depth as nat),
        ),
{
    reveal(for_condition_spec);
    let empty = match tokens.peek_curr() {
        Some(Token::T_SEMICOLON) => true,
        _ => false,
    };
    if empty {
        let _ = tokens.consume();
        Ok(expression_statement::SemiColon)
    } else {
        let condition = parse_expression(tokens, depth)?;
        tokens.seek_if(Token::T_SEMICOLON)?;
        Ok(expression_statement::Expr(condition))
    }
}

/// The third clause of a `for`: nothing before the `)`, or an expression.
fn parse_for_update(tokens: &mut TokenIterator, depth: usize) -> (result: Result<
    Option<Expr>,
    Errors,
>)
    ensures
        yields(
            old(tokens)@,
            final(tokens)@,
            optional_expr_model(result),
            for_update_spec(old(tokens)@.tokens, old(tokens)@.position, depth as nat),
        ),
{
    reveal(for_update_spec);
    let empty = match tokens.peek_curr() {
        Some(Token::T_ROUND_BRACKET_CLOSE) => true,
        _ => false,
    };
    if empty {
        Ok(None)
    } else {
        let update = parse_expression(tokens, depth)?;
        Ok(Some(update))
    }
}

/// `(` init condition update `)`
fn parse_for_clauses(tokens: &mut TokenIterator, depth: usize) -> (result: Result<
    (Option<variable_declaration>, expression_statement, Option<Expr>),
    Errors,
>)
    ensures
        yields(
            old(tokens)@,
            final(tokens)@,
            clauses_model(result),
            for_clauses_spec(old(tokens)@.tokens, old(tokens)@.position, depth as nat),
        ),
{
    reveal(for_clauses_spec);
    tokens.seek_if(Token::T_ROUND_BRACKET_OPEN)?;
    let init = parse_for_init(tokens, depth)?;
    let condition = parse_for_condition(tokens, depth)?;
    let update = parse_for_update(tokens, depth)?;
    tokens.seek_if(Token::T_ROUND_BRACKET_CLOSE)?;
    Ok((init, condition, update))
}

/// for := `for` `(` init condition update `)` `{` block `}`
fn parse_for_statement(tokens: &mut TokenIterator, depth: usize) -> (result: Result<
    for_statement,
    Errors,
>)
    ensures
        yields(
            old(tokens)@,
            final(tokens)@,
            match result {
                Ok(s) => Ok(s.view()),
                Err(error) => Err(error),
            },
            parse_for_statement_spec(old(tokens)@.tokens, old(tokens)@.position, depth as nat),
        ),
    decreases remaining(old(tokens)@.tokens, old(tokens)@.position), 10nat,
{
    reveal(for_rest_spec);
    reveal(braced_block_spec);
    tokens.seek_if(Token::T_FOR)?;
    let (init_loop_var, loop_condition, update_loop_var) = parse_for_clauses(tokens, depth)?;
    let block = parse_braced_block(tokens, depth)?;
    Ok(for_statement { init_loop_var, loop_condition, update_loop_var, block })
}

/// return := `return` expression `;`
fn parse_return_statement(tokens: &mut TokenIterator, depth: usize) -> (result: Result<
    return_statement,
    Errors,
>)
    ensures
        yields(
            old(tokens)@,
            final(tokens)@,
            match result {
                Ok(s) => Ok(s@),
                Err(error) => Err(error),
            },
            parse_return_statement_spec(old(tokens)@.tokens, old(tokens)@.position, depth as nat),
        ),
{
    reveal(return_rest_spec);
    tokens.seek_if(Token::T_RETURN)?;
    let expr = parse_expression(tokens, depth)?;
    tokens.seek_if(Token::T_SEMICOLON)?;
    Ok(return_statement { expr })
}

} // verus!
