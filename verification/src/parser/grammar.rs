//! The grammar, as functions from a token sequence and a position to a parse
//! result.
//!
//! Each function says what one grammar rule yields when it starts at a given
//! position: the tree it builds or the error it stops on, and how many tokens
//! it has consumed by then. The first error ends the parse; nothing is skipped
//! or retried.
//!
//! `depth` is the number of nesting levels still allowed. It goes down by one
//! where a rule enters itself again: inside parentheses, in the arguments of a
//! call, behind a prefix operator, on the right of `=`, and in the block of a
//! function, an `if`, `elif`, `else`, `while` or `for`.

use crate::parser::enums::{
    binary_operator, unary_operator, BranchView, ExprView, ForView, FunctionCallView, FunctionView,
    IfView, LiteralView, ParamView, RootView, StatementView, VariableDeclarationView,
};
use crate::parser::errors::Errors;
use crate::parser::token_iterator::{expect_token, remaining, token_at};
use crate::semantics::semantic_analysis::Type;
use crate::tokens::Token;
use vstd::prelude::*;

verus! {

/// The nesting levels that a parse may use.
pub const MAX_NESTING_DEPTH: usize = 100;

/// What a grammar rule yields, and how many tokens it consumed on the way.
pub struct Parsed<T> {
    pub result: Result<T, Errors>,
    pub consumed: nat,
}

impl<T> Parsed<T> {
    /// The same outcome, reached after `n` tokens more.
    pub open spec fn after(self, n: nat) -> Parsed<T> {
        Parsed { result: self.result, consumed: n + self.consumed }
    }
}

/// Success with `value` after `consumed` tokens.
pub open spec fn parsed<T>(value: T, consumed: nat) -> Parsed<T> {
    Parsed { result: Ok(value), consumed }
}

/// Failure with `error` after `consumed` tokens.
pub open spec fn failed<T>(error: Errors, consumed: nat) -> Parsed<T> {
    Parsed { result: Err(error), consumed }
}

/// The type that a type keyword declares.
pub open spec fn declared_type(keyword: Token) -> Type {
    match keyword {
        Token::T_INT => Type::Int,
        Token::T_FLOAT => Type::Float,
        Token::T_BOOL => Type::Bool,
        Token::T_STRING => Type::String,
        _ => Type::Unknown,
    }
}

/// The binary operator that `token` is at a precedence level, if it is one
/// there. Level 0 binds loosest: `||`; then `&&`; `==` `!=`; `<` `>` `<=` `>=`;
/// `<<` `>>`; `+` `-`; `*` `/`; and at level 7 `^`.
pub open spec fn operator_at(level: u8, token: Token) -> Option<binary_operator> {
    match (level, token) {
        (0, Token::T_OR_OPR) => Some(binary_operator::Or),
        (1, Token::T_AND_OPR) => Some(binary_operator::And),
        (2, Token::T_EQUALS_OPR) => Some(binary_operator::Equals),
        (2, Token::T_NOT_EQUALS_OPR) => Some(binary_operator::NotEquals),
        (3, Token::T_LESS_THAN_OPR) => Some(binary_operator::LessThan),
        (3, Token::T_GREATER_THAN_OPR) => Some(binary_operator::GreaterThan),
        (3, Token::T_LESS_THAN_EQUAL_TO_OPR) => Some(binary_operator::LessThanEqual),
        (3, Token::T_GREATER_THAN_EQUAL_TO_OPR) => Some(binary_operator::GreaterThanEqual),
        (4, Token::T_LEFT_SHIFT_OPR) => Some(binary_operator::LeftShift),
        (4, Token::T_RIGHT_SHIFT_OPR) => Some(binary_operator::RightShift),
        (5, Token::T_PLUS_OPR) => Some(binary_operator::Plus),
        (5, Token::T_MINUS_OPR) => Some(binary_operator::Minus),
        (6, Token::T_MULTIPLY_OPR) => Some(binary_operator::Multiply),
        (6, Token::T_DIVIDE_OPR) => Some(binary_operator::Divide),
        (7, Token::T_EXPONENT_OPR) => Some(binary_operator::Exponent),
        _ => None,
    }
}

/// The prefix operator that `token` is, if it is one.
pub open spec fn prefix_operator(token: Token) -> Option<unary_operator> {
    match token {
        Token::T_NOT => Some(unary_operator::Not),
        Token::T_MINUS_OPR => Some(unary_operator::Minus),
        _ => None,
    }
}

/// Orders the rules that may call each other without consuming a token.
pub open spec fn binary_rank(level: u8) -> nat {
    if level < 7 {
        (18 - 2 * level) as nat
    } else {
        4
    }
}

/// expression := assignment
#[verifier::opaque]
pub open spec fn parse_expression_spec(tokens: Seq<Token>, pos: nat, depth: nat) -> Parsed<
    ExprView,
> {
    parse_assignment_spec(tokens, pos, depth)
}

/// assignment := logical-or [ `=` assignment ]
///
/// The right side is parsed before the left is checked to be an identifier.
pub open spec fn parse_assignment_spec(tokens: Seq<Token>, pos: nat, depth: nat) -> Parsed<
    ExprView,
>
    decreases remaining(tokens, pos), 19nat,
{
    let target = parse_binary_spec(tokens, pos, depth, 0);
    match target.result {
        Err(_) => target,
        Ok(left) => {
            let at = pos + target.consumed;
            if token_at(tokens, at) matches Some(Token::T_ASSIGNMENT_OPR) {
                if depth == 0 {
                    failed(Errors::NestingTooDeep, target.consumed + 1)
                } else {
                    let value = parse_assignment_spec(tokens, at + 1, (depth - 1) as nat);
                    let consumed = target.consumed + 1 + value.consumed;
                    match value.result {
                        Err(e) => failed(e, consumed),
                        Ok(right) => if left is Identifier {
                            parsed(
                                ExprView::Assignment {
                                    left: Box::new(left),
                                    right: Box::new(right),
                                },
                                consumed,
                            )
                        } else {
                            failed(Errors::InvalidAssignmentTarget, consumed)
                        },
                    }
                }
            } else {
                target
            }
        },
    }
}

/// One operand of the operators at `level`: the next tighter level, or a
/// prefix expression above the tightest.
pub open spec fn parse_operand_spec(tokens: Seq<Token>, pos: nat, depth: nat, level: u8) -> Parsed<
    ExprView,
>
    decreases remaining(tokens, pos), (binary_rank(level) - 1) as nat,
{
    if level < 7 {
        parse_binary_spec(tokens, pos, depth, (level + 1) as u8)
    } else {
        parse_unary_spec(tokens, pos, depth)
    }
}

/// level := operand { operator operand }, grouped to the left.
pub open spec fn parse_binary_spec(tokens: Seq<Token>, pos: nat, depth: nat, level: u8) -> Parsed<
    ExprView,
>
    decreases remaining(tokens, pos), binary_rank(level),
{
    let first = parse_operand_spec(tokens, pos, depth, level);
    match first.result {
        Err(_) => first,
        Ok(left) => parse_binary_rest_spec(tokens, pos + first.consumed, depth, level, left).after(
            first.consumed,
        ),
    }
}

/// The rest of a level once `left` has been built: while an operator of the
/// level follows, its right operand is parsed and joined to what stands left.
pub open spec fn parse_binary_rest_spec(
    tokens: Seq<Token>,
    pos: nat,
    depth: nat,
    level: u8,
    left: ExprView,
) -> Parsed<ExprView>
    decreases remaining(tokens, pos), 3nat,
{
    match token_at(tokens, pos) {
        Some(token) => match operator_at(level, token) {
            Some(operator) => {
                let operand = parse_operand_spec(tokens, pos + 1, depth, level);
                match operand.result {
                    Err(e) => failed(e, 1 + operand.consumed),
                    Ok(right) => parse_binary_rest_spec(
                        tokens,
                        pos + 1 + operand.consumed,
                        depth,
                        level,
                        ExprView::BinaryOperation {
                            left: Box::new(left),
                            operator,
                            right: Box::new(right),
                        },
                    ).after(1 + operand.consumed),
                }
            },
            None => parsed(left, 0),
        },
        None => parsed(left, 0),
    }
}

/// unary := ( `!` | `-` ) unary | primary
pub open spec fn parse_unary_spec(tokens: Seq<Token>, pos: nat, depth: nat) -> Parsed<ExprView>
    decreases remaining(tokens, pos), 2nat,
{
    match token_at(tokens, pos) {
        Some(token) => match prefix_operator(token) {
            Some(operator) => if depth == 0 {
                failed(Errors::NestingTooDeep, 1)
            } else {
                let inner = parse_unary_spec(tokens, pos + 1, (depth - 1) as nat);
                match inner.result {
                    Err(e) => failed(e, 1 + inner.consumed),
                    Ok(operand) => parsed(
                        ExprView::UnaryOperation { prefix: operator, operand: Box::new(operand) },
                        1 + inner.consumed,
                    ),
                }
            },
            None => parse_primary_spec(tokens, pos, depth),
        },
        None => parse_primary_spec(tokens, pos, depth),
    }
}

/// primary := literal | identifier | call | `(` expression `)`
///
/// An identifier directly followed by `(` starts a call. A string literal is
/// its token alone, or its token between two quote tokens. The expression in parentheses is written
/// here as the assignment that every expression is.
pub open spec fn parse_primary_spec(tokens: Seq<Token>, pos: nat, depth: nat) -> Parsed<ExprView>
    decreases remaining(tokens, pos), 1nat,
{
    match token_at(tokens, pos) {
        None => failed(Errors::UnexpectedEOF, 0),
        Some(Token::T_IDENTIFIER(name)) => {
            if token_at(tokens, pos + 1) matches Some(Token::T_ROUND_BRACKET_OPEN) {
                let call = parse_function_call_spec(tokens, pos, depth);
                match call.result {
                    Err(e) => failed(e, call.consumed),
                    Ok(c) => parsed(ExprView::FuncCall(c), call.consumed),
                }
            } else {
                parsed(ExprView::Identifier(name@), 1)
            }
        },
        Some(Token::T_CONST_INT(value)) => parsed(ExprView::Literal(LiteralView::Int(value)), 1),
        Some(Token::T_CONST_FLOAT(text)) => parsed(
            ExprView::Literal(LiteralView::Float(text@)),
            1,
        ),
        Some(Token::T_CONST_BOOL(value)) => parsed(ExprView::Literal(LiteralView::Bool(value)), 1),
        Some(Token::T_STRINGLIT(text)) => parsed(ExprView::Literal(LiteralView::Str(text@)), 1),
        Some(Token::T_DOUBLE_QUOTE) => match token_at(tokens, pos + 1) {
            None => failed(Errors::UnexpectedEOF, 1),
            Some(Token::T_STRINGLIT(text)) => match expect_token(
                tokens,
                pos + 2,
                Token::T_DOUBLE_QUOTE,
            ) {
                Err(e) => failed(e, 2),
                Ok(_) => parsed(ExprView::Literal(LiteralView::Str(text@)), 3),
            },
            Some(_) => failed(Errors::ExpectedStringLit, 2),
        },
        Some(Token::T_ROUND_BRACKET_OPEN) => if depth == 0 {
            failed(Errors::NestingTooDeep, 1)
        } else {
            let inner = parse_assignment_spec(tokens, pos + 1, (depth - 1) as nat);
            match inner.result {
                Err(e) => failed(e, 1 + inner.consumed),
                Ok(e) => match expect_token(
                    tokens,
                    pos + 1 + inner.consumed,
                    Token::T_ROUND_BRACKET_CLOSE,
                ) {
                    Err(error) => failed(error, 1 + inner.consumed),
                    Ok(_) => parsed(e, 2 + inner.consumed),
                },
            }
        },
        Some(other) => failed(Errors::UnexpectedToken(other), 1),
    }
}

/// call := identifier `(` arguments `)`
///
/// A call ends with its closing `)`; what follows belongs to the expression
/// or the statement around it.
pub open spec fn parse_function_call_spec(tokens: Seq<Token>, pos: nat, depth: nat) -> Parsed<
    FunctionCallView,
>
    decreases remaining(tokens, pos), 0nat,
{
    match token_at(tokens, pos) {
        None => failed(Errors::UnexpectedEOF, 0),
        Some(Token::T_IDENTIFIER(name)) => match expect_token(
            tokens,
            pos + 1,
            Token::T_ROUND_BRACKET_OPEN,
        ) {
            Err(e) => failed(e, 1),
            Ok(_) => if depth == 0 {
                failed(Errors::NestingTooDeep, 2)
            } else {
                let arguments = parse_function_call_arguments_spec(
                    tokens,
                    pos + 2,
                    (depth - 1) as nat,
                );
                let end = 2 + arguments.consumed;
                match arguments.result {
                    Err(e) => failed(e, end),
                    Ok(args) => match expect_token(
                        tokens,
                        pos + end,
                        Token::T_ROUND_BRACKET_CLOSE,
                    ) {
                        Err(e) => failed(e, end),
                        Ok(_) => parsed(FunctionCallView { identifier: name@, args }, end + 1),
                    },
                }
            },
        },
        Some(other) => failed(Errors::ExpectedIdentifier(other), 1),
    }
}

/// arguments := [ expression { `,` expression } ], ended by a `)` that is not
/// consumed.
pub open spec fn parse_function_call_arguments_spec(
    tokens: Seq<Token>,
    pos: nat,
    depth: nat,
) -> Parsed<Seq<ExprView>>
    decreases remaining(tokens, pos), 22nat,
{
    if token_at(tokens, pos) matches Some(Token::T_ROUND_BRACKET_CLOSE) {
        parsed(Seq::empty(), 0)
    } else {
        parse_argument_list_spec(tokens, pos, depth, Seq::empty())
    }
}

/// One argument and, behind a comma, the arguments after it, added to `done`.
pub open spec fn parse_argument_list_spec(
    tokens: Seq<Token>,
    pos: nat,
    depth: nat,
    done: Seq<ExprView>,
) -> Parsed<Seq<ExprView>>
    decreases remaining(tokens, pos), 21nat,
{
    let argument = parse_assignment_spec(tokens, pos, depth);
    match argument.result {
        Err(e) => failed(e, argument.consumed),
        Ok(a) => {
            if token_at(tokens, pos + argument.consumed) matches Some(Token::T_COMMA) {
                parse_argument_list_spec(
                    tokens,
                    pos + argument.consumed + 1,
                    depth,
                    done.push(a),
                ).after(argument.consumed + 1)
            } else {
                parsed(done.push(a), argument.consumed)
            }
        },
    }
}

/// `first`, and then `expected` required where `first` ended. `pos` is where
/// `first` began.
pub open spec fn then_expect<T>(
    first: Parsed<T>,
    tokens: Seq<Token>,
    pos: nat,
    expected: Token,
) -> Parsed<T> {
    match first.result {
        Err(_) => first,
        Ok(value) => match expect_token(tokens, pos + first.consumed, expected) {
            Err(e) => failed(e, first.consumed),
            Ok(_) => parsed(value, first.consumed + 1),
        },
    }
}

/// The same outcome with the value, if there is one, passed through `f`.
pub open spec fn map_parsed<T, U>(first: Parsed<T>, f: spec_fn(T) -> U) -> Parsed<U> {
    match first.result {
        Err(e) => failed(e, first.consumed),
        Ok(value) => parsed(f(value), first.consumed),
    }
}

/// Every expression that parses consumes at least one token.
pub proof fn lemma_expression_consumes(tokens: Seq<Token>, pos: nat, depth: nat)
    ensures
        parse_expression_spec(tokens, pos, depth).result is Ok ==> parse_expression_spec(
            tokens,
            pos,
            depth,
        ).consumed >= 1,
{
    reveal(parse_expression_spec);
    lemma_binary_consumes(tokens, pos, depth, 0);
}

/// Every operand chain that parses consumes at least one token.
pub proof fn lemma_binary_consumes(tokens: Seq<Token>, pos: nat, depth: nat, level: u8)
    ensures
        parse_binary_spec(tokens, pos, depth, level).result is Ok ==> parse_binary_spec(
            tokens,
            pos,
            depth,
            level,
        ).consumed >= 1,
    decreases binary_rank(level),
{
    if level < 7 {
        lemma_binary_consumes(tokens, pos, depth, (level + 1) as u8);
    } else {
        lemma_unary_consumes(tokens, pos, depth);
    }
}

/// Every prefix expression that parses consumes at least one token.
pub proof fn lemma_unary_consumes(tokens: Seq<Token>, pos: nat, depth: nat)
    ensures
        parse_unary_spec(tokens, pos, depth).result is Ok ==> parse_unary_spec(
            tokens,
            pos,
            depth,
        ).consumed >= 1,
{
    let primary = parse_primary_spec(tokens, pos, depth);
    let call = parse_function_call_spec(tokens, pos, depth);
    assert(primary.result is Ok ==> primary.consumed >= 1);
}

/// declaration := type identifier `=` expression `;`
pub open spec fn parse_variable_declaration_spec(tokens: Seq<Token>, pos: nat, depth: nat) -> Parsed<
    VariableDeclarationView,
> {
    match token_at(tokens, pos) {
        None => failed(Errors::UnexpectedEOF, 0),
        Some(keyword) => if keyword.is_type_keyword() {
            variable_declaration_rest_spec(tokens, pos + 1, depth, declared_type(keyword)).after(1)
        } else {
            failed(Errors::ExpectedTypeToken(keyword), 1)
        },
    }
}

/// A variable declaration behind its type keyword.
#[verifier::opaque]
pub open spec fn variable_declaration_rest_spec(
    tokens: Seq<Token>,
    pos: nat,
    depth: nat,
    declared: Type,
) -> Parsed<VariableDeclarationView> {
    match token_at(tokens, pos) {
        None => failed(Errors::UnexpectedEOF, 0),
        Some(Token::T_IDENTIFIER(name)) => match expect_token(
            tokens,
            pos + 1,
            Token::T_ASSIGNMENT_OPR,
        ) {
            Err(e) => failed(e, 1),
            Ok(_) => map_parsed(
                then_expect(
                    parse_expression_spec(tokens, pos + 2, depth).after(2),
                    tokens,
                    pos,
                    Token::T_SEMICOLON,
                ),
                |expression: ExprView|
                    VariableDeclarationView { declared, identifier: name@, expression },
            ),
        },
        Some(other) => failed(Errors::ExpectedIdentifier(other), 1),
    }
}

/// parameter := type identifier
#[verifier::opaque]
pub open spec fn parse_parameter_spec(tokens: Seq<Token>, pos: nat) -> Parsed<ParamView> {
    match token_at(tokens, pos) {
        None => failed(Errors::UnexpectedEOF, 0),
        Some(keyword) => if keyword.is_type_keyword() {
            match token_at(tokens, pos + 1) {
                None => failed(Errors::UnexpectedEOF, 1),
                Some(Token::T_IDENTIFIER(name)) => parsed(
                    ParamView { declared: declared_type(keyword), identifier: name@ },
                    2,
                ),
                Some(other) => failed(Errors::ExpectedIdentifier(other), 2),
            }
        } else {
            failed(Errors::ExpectedTypeToken(keyword), 1)
        },
    }
}

/// parameters := [ parameter { `,` parameter } ], ended by a `)` that is not
/// consumed.
#[verifier::opaque]
pub open spec fn parse_parameter_list_spec(tokens: Seq<Token>, pos: nat) -> Parsed<Seq<ParamView>> {
    if token_at(tokens, pos) matches Some(Token::T_ROUND_BRACKET_CLOSE) {
        parsed(Seq::empty(), 0)
    } else {
        parameter_list_rest_spec(tokens, pos, Seq::empty())
    }
}

/// One parameter and, behind a comma, the parameters after it, added to `done`.
#[verifier::opaque]
pub open spec fn parameter_list_rest_spec(
    tokens: Seq<Token>,
    pos: nat,
    done: Seq<ParamView>,
) -> Parsed<Seq<ParamView>>
    decreases remaining(tokens, pos),
{
    let parameter = parse_parameter_spec(tokens, pos);
    match parameter.result {
        Err(e) => failed(e, parameter.consumed),
        Ok(p) => {
            if token_at(tokens, pos + parameter.consumed) matches Some(Token::T_COMMA) {
                parameter_list_rest_spec(tokens, pos + parameter.consumed + 1, done.push(p)).after(
                    parameter.consumed + 1,
                )
            } else {
                parsed(done.push(p), parameter.consumed)
            }
        },
    }
}

/// return := `return` expression `;`
pub open spec fn parse_return_statement_spec(tokens: Seq<Token>, pos: nat, depth: nat) -> Parsed<
    ExprView,
> {
    match expect_token(tokens, pos, Token::T_RETURN) {
        Err(e) => failed(e, 0),
        Ok(_) => return_rest_spec(tokens, pos + 1, depth).after(1),
    }
}

/// A return statement behind its keyword.
#[verifier::opaque]
pub open spec fn return_rest_spec(tokens: Seq<Token>, pos: nat, depth: nat) -> Parsed<ExprView> {
    then_expect(parse_expression_spec(tokens, pos, depth), tokens, pos, Token::T_SEMICOLON)
}

/// The first clause of a `for`: `;` alone, or a variable declaration with its
/// own `;`.
#[verifier::opaque]
pub open spec fn for_init_spec(tokens: Seq<Token>, pos: nat, depth: nat) -> Parsed<
    Option<VariableDeclarationView>,
> {
    match token_at(tokens, pos) {
        None => failed(Errors::UnexpectedEOF, 0),
        Some(Token::T_SEMICOLON) => parsed(None, 1),
        Some(other) => if other.is_type_keyword() {
            map_parsed(
                parse_variable_declaration_spec(tokens, pos, depth),
                |declaration: VariableDeclarationView| Some(declaration),
            )
        } else {
            failed(Errors::UnexpectedToken(other), 0)
        },
    }
}

/// The second clause of a `for`: `;` alone, or an expression and `;`.
#[verifier::opaque]
pub open spec fn for_condition_spec(tokens: Seq<Token>, pos: nat, depth: nat) -> Parsed<
    Option<ExprView>,
> {
    if token_at(tokens, pos) matches Some(Token::T_SEMICOLON) {
        parsed(None, 1)
    } else {
        map_parsed(
            then_expect(parse_expression_spec(tokens, pos, depth), tokens, pos, Token::T_SEMICOLON),
            |condition: ExprView| Some(condition),
        )
    }
}

/// The third clause of a `for`: nothing before the `)`, or an expression.
#[verifier::opaque]
pub open spec fn for_update_spec(tokens: Seq<Token>, pos: nat, depth: nat) -> Parsed<
    Option<ExprView>,
> {
    if token_at(tokens, pos) matches Some(Token::T_ROUND_BRACKET_CLOSE) {
        parsed(None, 0)
    } else {
        map_parsed(parse_expression_spec(tokens, pos, depth), |update: ExprView| Some(update))
    }
}

/// The three clauses of a `for` between `(` and `)`.
#[verifier::opaque]
pub open spec fn for_clauses_spec(tokens: Seq<Token>, pos: nat, depth: nat) -> Parsed<
    (Option<VariableDeclarationView>, Option<ExprView>, Option<ExprView>),
> {
    match expect_token(tokens, pos, Token::T_ROUND_BRACKET_OPEN) {
        Err(e) => failed(e, 0),
        Ok(_) => {
            let init = for_init_spec(tokens, pos + 1, depth).after(1);
            match init.result {
                Err(e) => failed(e, init.consumed),
                Ok(i) => {
                    let condition = for_condition_spec(tokens, pos + init.consumed, depth).after(
                        init.consumed,
                    );
                    match condition.result {
                        Err(e) => failed(e, condition.consumed),
                        Ok(c) => {
                            let update = then_expect(
                                for_update_spec(tokens, pos + condition.consumed, depth).after(
                                    condition.consumed,
                                ),
                                tokens,
                                pos,
                                Token::T_ROUND_BRACKET_CLOSE,
                            );
                            map_parsed(update, |u: Option<ExprView>| (i, c, u))
                        },
                    }
                },
            }
        },
    }
}

/// expression-statement := expression `;`
///
/// An expression stands as a statement only with a `;` behind it, a bare call
/// like every other expression: `f(1);`, `x = 5;`.
pub open spec fn expression_statement_spec(tokens: Seq<Token>, pos: nat, depth: nat) -> Parsed<
    ExprView,
> {
    then_expect(parse_expression_spec(tokens, pos, depth), tokens, pos, Token::T_SEMICOLON)
}

/// Whether a statement that begins with `first` is one of the keyword
/// statements; every other token begins an expression statement.
pub open spec fn starts_keyword_statement(first: Token) -> bool {
    first.is_type_keyword() || first is T_IF || first is T_FOR || first is T_WHILE
        || first is T_RETURN
}

/// block := { statement }, up to a `}` or the end of input, neither consumed.
pub open spec fn parse_block_spec(tokens: Seq<Token>, pos: nat, depth: nat) -> Parsed<
    Seq<StatementView>,
>
    decreases remaining(tokens, pos), 11nat,
{
    block_rest_spec(tokens, pos, depth, Seq::empty())
}

/// The statements of a block that follow those in `done`.
#[verifier::opaque]
pub open spec fn block_rest_spec(
    tokens: Seq<Token>,
    pos: nat,
    depth: nat,
    done: Seq<StatementView>,
) -> Parsed<Seq<StatementView>>
    decreases remaining(tokens, pos), 10nat,
{
    match token_at(tokens, pos) {
        None => parsed(done, 0),
        Some(Token::T_CURLY_BRACKET_CLOSE) => parsed(done, 0),
        Some(first) => if starts_keyword_statement(first) {
            let statement = keyword_statement_rest_spec(tokens, pos + 1, depth, first).after(1);
            match statement.result {
                Err(e) => failed(e, statement.consumed),
                Ok(s) => block_rest_spec(
                    tokens,
                    pos + statement.consumed,
                    depth,
                    done.push(s),
                ).after(statement.consumed),
            }
        } else {
            let expression = expression_statement_spec(tokens, pos, depth);
            match expression.result {
                Err(e) => failed(e, expression.consumed),
                Ok(e) => block_rest_spec(
                    tokens,
                    pos + expression.consumed,
                    depth,
                    done.push(StatementView::Expr(e)),
                ).after(expression.consumed),
            }
        },
    }
}

/// A statement that begins with the keyword `first`, behind that keyword.
#[verifier::opaque]
pub open spec fn keyword_statement_rest_spec(
    tokens: Seq<Token>,
    pos: nat,
    depth: nat,
    first: Token,
) -> Parsed<StatementView>
    decreases remaining(tokens, pos), 5nat,
{
    match first {
        Token::T_IF => map_parsed(
            if_rest_spec(tokens, pos, depth),
            |s: IfView| StatementView::If(s),
        ),
        Token::T_FOR => map_parsed(
            for_rest_spec(tokens, pos, depth),
            |s: ForView| StatementView::For(s),
        ),
        Token::T_WHILE => map_parsed(
            branch_spec(tokens, pos, depth),
            |s: BranchView| StatementView::While(s),
        ),
        Token::T_RETURN => map_parsed(
            return_rest_spec(tokens, pos, depth),
            |e: ExprView| StatementView::Return(e),
        ),
        _ => map_parsed(
            variable_declaration_rest_spec(tokens, pos, depth, declared_type(first)),
            |d: VariableDeclarationView| StatementView::Var(d),
        ),
    }
}

/// `{` block `}`, the block one nesting level further in.
#[verifier::opaque]
pub open spec fn braced_block_spec(tokens: Seq<Token>, pos: nat, depth: nat) -> Parsed<
    Seq<StatementView>,
>
    decreases remaining(tokens, pos), 0nat,
{
    match expect_token(tokens, pos, Token::T_CURLY_BRACKET_OPEN) {
        Err(e) => failed(e, 0),
        Ok(_) => if depth == 0 {
            failed(Errors::NestingTooDeep, 1)
        } else {
            then_expect(
                parse_block_spec(tokens, pos + 1, (depth - 1) as nat).after(1),
                tokens,
                pos,
                Token::T_CURLY_BRACKET_CLOSE,
            )
        },
    }
}

/// `(` expression `)` `{` block `}`: the condition and body of an `if`, an
/// `elif` or a `while`.
#[verifier::opaque]
pub open spec fn branch_spec(tokens: Seq<Token>, pos: nat, depth: nat) -> Parsed<BranchView>
    decreases remaining(tokens, pos), 1nat,
{
    match expect_token(tokens, pos, Token::T_ROUND_BRACKET_OPEN) {
        Err(e) => failed(e, 0),
        Ok(_) => {
            let condition = then_expect(
                parse_expression_spec(tokens, pos + 1, depth).after(1),
                tokens,
                pos,
                Token::T_ROUND_BRACKET_CLOSE,
            );
            match condition.result {
                Err(e) => failed(e, condition.consumed),
                Ok(c) => map_parsed(
                    braced_block_spec(tokens, pos + condition.consumed, depth).after(
                        condition.consumed,
                    ),
                    |block: Seq<StatementView>| BranchView { condition: c, block },
                ),
            }
        },
    }
}

/// { `elif` branch }, added to `done`.
#[verifier::opaque]
pub open spec fn elifs_rest_spec(
    tokens: Seq<Token>,
    pos: nat,
    depth: nat,
    done: Seq<BranchView>,
) -> Parsed<Seq<BranchView>>
    decreases remaining(tokens, pos), 3nat,
{
    if token_at(tokens, pos) matches Some(Token::T_ELSE_IF) {
        let branch = branch_spec(tokens, pos + 1, depth).after(1);
        match branch.result {
            Err(e) => failed(e, branch.consumed),
            Ok(b) => elifs_rest_spec(tokens, pos + branch.consumed, depth, done.push(b)).after(
                branch.consumed,
            ),
        }
    } else {
        parsed(done, 0)
    }
}

/// [ `else` `{` block `}` ]
#[verifier::opaque]
pub open spec fn parse_else_block_spec(tokens: Seq<Token>, pos: nat, depth: nat) -> Parsed<
    Option<Seq<StatementView>>,
>
    decreases remaining(tokens, pos), 2nat,
{
    if token_at(tokens, pos) matches Some(Token::T_ELSE) {
        map_parsed(
            braced_block_spec(tokens, pos + 1, depth).after(1),
            |block: Seq<StatementView>| Some(block),
        )
    } else {
        parsed(None, 0)
    }
}

/// An `if` statement behind its keyword: branch { `elif` branch } [ `else` block ]
#[verifier::opaque]
pub open spec fn if_rest_spec(tokens: Seq<Token>, pos: nat, depth: nat) -> Parsed<IfView>
    decreases remaining(tokens, pos), 4nat,
{
    let first = branch_spec(tokens, pos, depth);
    match first.result {
        Err(e) => failed(e, first.consumed),
        Ok(f) => {
            let elifs = elifs_rest_spec(tokens, pos + first.consumed, depth, Seq::empty()).after(
                first.consumed,
            );
            match elifs.result {
                Err(e) => failed(e, elifs.consumed),
                Ok(branches) => map_parsed(
                    parse_else_block_spec(tokens, pos + elifs.consumed, depth).after(
                        elifs.consumed,
                    ),
                    |otherwise: Option<Seq<StatementView>>|
                        IfView { first: f, elifs: branches, otherwise },
                ),
            }
        },
    }
}

/// A `for` statement behind its keyword: `(` init condition update `)` `{` block `}`
#[verifier::opaque]
pub open spec fn for_rest_spec(tokens: Seq<Token>, pos: nat, depth: nat) -> Parsed<ForView>
    decreases remaining(tokens, pos), 4nat,
{
    let clauses = for_clauses_spec(tokens, pos, depth);
    match clauses.result {
        Err(e) => failed(e, clauses.consumed),
        Ok(c) => map_parsed(
            braced_block_spec(tokens, pos + clauses.consumed, depth).after(clauses.consumed),
            |block: Seq<StatementView>|
                ForView { init: c.0, condition: c.1, update: c.2, block },
        ),
    }
}

/// if := `if` branch { `elif` branch } [ `else` block ]
pub open spec fn parse_if_statement_spec(tokens: Seq<Token>, pos: nat, depth: nat) -> Parsed<
    IfView,
> {
    match expect_token(tokens, pos, Token::T_IF) {
        Err(e) => failed(e, 0),
        Ok(_) => if_rest_spec(tokens, pos + 1, depth).after(1),
    }
}

/// while := `while` branch
pub open spec fn while_loop_parser_spec(tokens: Seq<Token>, pos: nat, depth: nat) -> Parsed<
    BranchView,
> {
    match expect_token(tokens, pos, Token::T_WHILE) {
        Err(e) => failed(e, 0),
        Ok(_) => branch_spec(tokens, pos + 1, depth).after(1),
    }
}

/// for := `for` `(` init condition update `)` `{` block `}`
pub open spec fn parse_for_statement_spec(tokens: Seq<Token>, pos: nat, depth: nat) -> Parsed<
    ForView,
> {
    match expect_token(tokens, pos, Token::T_FOR) {
        Err(e) => failed(e, 0),
        Ok(_) => for_rest_spec(tokens, pos + 1, depth).after(1),
    }
}

/// { `elif` branch }
pub open spec fn parse_elif_blocks_spec(tokens: Seq<Token>, pos: nat, depth: nat) -> Parsed<
    Seq<BranchView>,
> {
    elifs_rest_spec(tokens, pos, depth, Seq::empty())
}

/// function := `fn` [ type ] identifier `(` parameters `)` `{` block `}`
pub open spec fn parse_function_statement_spec(tokens: Seq<Token>, pos: nat, depth: nat) -> Parsed<
    FunctionView,
> {
    match expect_token(tokens, pos, Token::T_FUNCTION) {
        Err(e) => failed(e, 0),
        Ok(_) => function_rest_spec(tokens, pos + 1, depth).after(1),
    }
}

/// The return type and name of a function: a type keyword and an identifier,
/// or an identifier alone, which makes the function `Void`.
#[verifier::opaque]
pub open spec fn function_head_spec(tokens: Seq<Token>, pos: nat) -> Parsed<(Type, Seq<char>)> {
    match token_at(tokens, pos) {
        None => failed(Errors::UnexpectedEOF, 0),
        Some(Token::T_IDENTIFIER(name)) => parsed((Type::Void, name@), 1),
        Some(first) => if first.is_type_keyword() {
            match token_at(tokens, pos + 1) {
                None => failed(Errors::UnexpectedEOF, 1),
                Some(Token::T_IDENTIFIER(name)) => parsed((declared_type(first), name@), 2),
                Some(other) => failed(Errors::ExpectedIdentifier(other), 2),
            }
        } else {
            failed(Errors::ExpectedIdentifier(first), 0)
        },
    }
}

/// A function behind its `fn` keyword.
#[verifier::opaque]
pub open spec fn function_rest_spec(tokens: Seq<Token>, pos: nat, depth: nat) -> Parsed<
    FunctionView,
> {
    let head = function_head_spec(tokens, pos);
    match head.result {
        Err(e) => failed(e, head.consumed),
        Ok(h) => match expect_token(tokens, pos + head.consumed, Token::T_ROUND_BRACKET_OPEN) {
            Err(e) => failed(e, head.consumed),
            Ok(_) => {
                let params = then_expect(
                    parse_parameter_list_spec(tokens, pos + head.consumed + 1).after(
                        head.consumed + 1,
                    ),
                    tokens,
                    pos,
                    Token::T_ROUND_BRACKET_CLOSE,
                );
                match params.result {
                    Err(e) => failed(e, params.consumed),
                    Ok(p) => map_parsed(
                        braced_block_spec(tokens, pos + params.consumed, depth).after(
                            params.consumed,
                        ),
                        |block: Seq<StatementView>|
                            FunctionView { return_type: h.0, identifier: h.1, params: p, block },
                    ),
                }
            },
        },
    }
}

/// A top-level declaration that begins with `first`, behind that token: a
/// function behind `fn`, a variable behind its type keyword.
#[verifier::opaque]
pub open spec fn declaration_rest_spec(tokens: Seq<Token>, pos: nat, first: Token) -> Parsed<
    RootView,
> {
    if first is T_FUNCTION {
        map_parsed(
            function_rest_spec(tokens, pos, MAX_NESTING_DEPTH as nat),
            |f: FunctionView| RootView::Func(f),
        )
    } else {
        map_parsed(
            variable_declaration_rest_spec(
                tokens,
                pos,
                MAX_NESTING_DEPTH as nat,
                declared_type(first),
            ),
            |d: VariableDeclarationView| RootView::Var(d),
        )
    }
}

/// program := { declaration | function }, to the end of input.
pub open spec fn parse_program_spec(tokens: Seq<Token>) -> Result<Seq<RootView>, Errors> {
    program_rest_spec(tokens, 0, Seq::empty()).result
}

/// The declarations of a program that follow those in `done`.
#[verifier::opaque]
pub open spec fn program_rest_spec(tokens: Seq<Token>, pos: nat, done: Seq<RootView>) -> Parsed<
    Seq<RootView>,
>
    decreases remaining(tokens, pos),
{
    match token_at(tokens, pos) {
        None => parsed(done, 0),
        Some(first) => if first.is_type_keyword() || first is T_FUNCTION {
            let declaration = declaration_rest_spec(tokens, pos + 1, first).after(1);
            match declaration.result {
                Err(e) => failed(e, declaration.consumed),
                Ok(d) => program_rest_spec(tokens, pos + declaration.consumed, done.push(d)).after(
                    declaration.consumed,
                ),
            }
        } else {
            failed(Errors::UnexpectedToken(first), 0)
        },
    }
}

/// statement := declaration | if | for | while | return | expression-statement
///
/// The first token decides; a token that begins none of the keyword
/// statements begins an expression statement.
pub open spec fn parse_statement_spec(tokens: Seq<Token>, pos: nat, depth: nat) -> Parsed<
    StatementView,
> {
    match token_at(tokens, pos) {
        Some(Token::T_IF) => map_parsed(
            parse_if_statement_spec(tokens, pos, depth),
            |s: IfView| StatementView::If(s),
        ),
        Some(Token::T_FOR) => map_parsed(
            parse_for_statement_spec(tokens, pos, depth),
            |s: ForView| StatementView::For(s),
        ),
        Some(Token::T_WHILE) => map_parsed(
            while_loop_parser_spec(tokens, pos, depth),
            |s: BranchView| StatementView::While(s),
        ),
        Some(Token::T_RETURN) => map_parsed(
            parse_return_statement_spec(tokens, pos, depth),
            |e: ExprView| StatementView::Return(e),
        ),
        Some(first) => if first.is_type_keyword() {
            map_parsed(
                parse_variable_declaration_spec(tokens, pos, depth),
                |d: VariableDeclarationView| StatementView::Var(d),
            )
        } else {
            map_parsed(
                expression_statement_spec(tokens, pos, depth),
                |e: ExprView| StatementView::Expr(e),
            )
        },
        None => map_parsed(
            expression_statement_spec(tokens, pos, depth),
            |e: ExprView| StatementView::Expr(e),
        ),
    }
}

/// A block is its statements one after the other: where a block does not end,
/// a statement is parsed and the rest of the block follows it.
pub proof fn lemma_block_rest_unfolds(
    tokens: Seq<Token>,
    pos: nat,
    depth: nat,
    done: Seq<StatementView>,
)
    ensures
        block_rest_spec(tokens, pos, depth, done) == (match token_at(tokens, pos) {
            None => parsed(done, 0),
            Some(Token::T_CURLY_BRACKET_CLOSE) => parsed(done, 0),
            Some(_) => {
                let statement = parse_statement_spec(tokens, pos, depth);
                match statement.result {
                    Err(e) => failed(e, statement.consumed),
                    Ok(s) => block_rest_spec(
                        tokens,
                        pos + statement.consumed,
                        depth,
                        done.push(s),
                    ).after(statement.consumed),
                }
            },
        }),
        parse_block_spec(tokens, pos, depth) == block_rest_spec(tokens, pos, depth, Seq::empty()),
{
    reveal(block_rest_spec);
    reveal(keyword_statement_rest_spec);
    match token_at(tokens, pos) {
        Some(first) => {
            if starts_keyword_statement(first) {
                lemma_keyword_statement(tokens, pos, depth, first);
            }
        },
        None => {},
    }
}

/// A statement that begins with a keyword is that keyword and what the rule
/// of the keyword asks behind it.
pub proof fn lemma_keyword_statement(tokens: Seq<Token>, pos: nat, depth: nat, first: Token)
    requires
        token_at(tokens, pos) == Some(first),
        starts_keyword_statement(first),
    ensures
        parse_statement_spec(tokens, pos, depth) == keyword_statement_rest_spec(
            tokens,
            pos + 1,
            depth,
            first,
        ).after(1),
{
    reveal(keyword_statement_rest_spec);
    match first {
        Token::T_IF => {
            reveal(if_rest_spec);
        },
        Token::T_FOR => {
            reveal(for_rest_spec);
        },
        Token::T_WHILE => {
            reveal(branch_spec);
        },
        _ => {},
    }
}

/// Every statement that parses consumes at least one token.
pub proof fn lemma_statement_consumes(tokens: Seq<Token>, pos: nat, depth: nat)
    ensures
        parse_statement_spec(tokens, pos, depth).result is Ok ==> parse_statement_spec(
            tokens,
            pos,
            depth,
        ).consumed >= 1,
{
}

} // verus!
