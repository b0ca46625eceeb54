//! Laws of the expression grammar: how tightly the operators bind and to
//! which side they group.

use crate::parser::enums::{
    binary_operator, ExprView, FunctionCallView, LiteralView, StatementView,
};
use crate::parser::grammar::{
    operator_at, parse_argument_list_spec, parse_assignment_spec, parse_binary_rest_spec,
    parse_binary_spec, parse_expression_spec, parse_function_call_arguments_spec,
    parse_function_call_spec, parse_operand_spec, parse_primary_spec, parse_statement_spec,
    parse_unary_spec, parsed, prefix_operator,
};
use crate::parser::token_iterator::token_at;
use crate::tokens::Token;
use vstd::prelude::*;

verus! {

/// The expression that a token is by itself, if it is one: a name or a
/// literal.
pub open spec fn operand_of(token: Token) -> Option<ExprView> {
    match token {
        Token::T_IDENTIFIER(name) => Some(ExprView::Identifier(name@)),
        Token::T_CONST_INT(value) => Some(ExprView::Literal(LiteralView::Int(value))),
        Token::T_CONST_FLOAT(text) => Some(ExprView::Literal(LiteralView::Float(text@))),
        Token::T_CONST_BOOL(value) => Some(ExprView::Literal(LiteralView::Bool(value))),
        Token::T_STRINGLIT(text) => Some(ExprView::Literal(LiteralView::Str(text@))),
        _ => None,
    }
}

/// Whether a token is a binary operator at one of the levels from `low` on.
pub open spec fn operator_from(low: u8, token: Token) -> bool {
    exists|level: u8| low <= level && #[trigger] operator_at(level, token) is Some
}

/// Whether the token behind an expression ends it: the end of input, or a
/// token that is no binary operator, no `=` and no `(`.
pub open spec fn ends_expression(next: Option<Token>) -> bool {
    match next {
        None => true,
        Some(token) => !operator_from(0, token) && !(token is T_ASSIGNMENT_OPR) && !(token
            is T_ROUND_BRACKET_OPEN),
    }
}

/// Whether the token behind an operand leaves the operand alone at the
/// levels from `low` on: it is no operator there and opens no call.
pub open spec fn leaves_operand(low: u8, next: Option<Token>) -> bool {
    match next {
        None => true,
        Some(token) => !operator_from(low, token) && !(token is T_ROUND_BRACKET_OPEN),
    }
}

/// A token that is an expression by itself parses as that expression, unless
/// a `(` behind it makes it the start of a call.
pub proof fn lemma_single_token_operand(tokens: Seq<Token>, pos: nat, depth: nat, operand: ExprView)
    requires
        token_at(tokens, pos) is Some,
        operand_of(token_at(tokens, pos)->0) == Some(operand),
        !(token_at(tokens, pos + 1) matches Some(Token::T_ROUND_BRACKET_OPEN)),
    ensures
        parse_unary_spec(tokens, pos, depth) == parsed(operand, 1),
{
    assert(prefix_operator(token_at(tokens, pos)->0) is None);
    assert(parse_primary_spec(tokens, pos, depth) == parsed(operand, 1));
}

/// What parses at a level parses unchanged at every looser level down to
/// `low`, if no operator of those levels follows it.
pub proof fn lemma_operand_rises(
    tokens: Seq<Token>,
    pos: nat,
    depth: nat,
    low: u8,
    high: u8,
    e: ExprView,
    consumed: nat,
)
    requires
        low <= high <= 7,
        parse_operand_spec(tokens, pos, depth, high) == parsed(e, consumed),
        token_at(tokens, pos + consumed) is Some ==> !operator_from(
            low,
            token_at(tokens, pos + consumed)->0,
        ),
    ensures
        parse_binary_spec(tokens, pos, depth, low) == parsed(e, consumed),
    decreases high - low,
{
    let next = token_at(tokens, pos + consumed);
    if next is Some {
        assert(operator_at(high, next->0) is None);
    }
    assert(parse_binary_rest_spec(tokens, pos + consumed, depth, high, e) == parsed(e, 0));
    assert(parse_binary_spec(tokens, pos, depth, high) == parsed(e, consumed));
    if low < high {
        let below = (high - 1) as u8;
        assert(parse_operand_spec(tokens, pos, depth, below) == parse_binary_spec(
            tokens,
            pos,
            depth,
            high,
        ));
        lemma_operand_rises(tokens, pos, depth, low, below, e, consumed);
    }
}

/// A token that is an expression by itself is the operand of every level
/// from `low` on, if no operator of those levels and no `(` follows it.
pub proof fn lemma_single_token_at_level(
    tokens: Seq<Token>,
    pos: nat,
    depth: nat,
    low: u8,
    operand: ExprView,
)
    requires
        low <= 7,
        token_at(tokens, pos) is Some,
        operand_of(token_at(tokens, pos)->0) == Some(operand),
        leaves_operand(low, token_at(tokens, pos + 1)),
    ensures
        parse_binary_spec(tokens, pos, depth, low) == parsed(operand, 1),
        low >= 1 ==> parse_operand_spec(tokens, pos, depth, (low - 1) as u8) == parsed(operand, 1),
{
    lemma_single_token_operand(tokens, pos, depth, operand);
    assert(parse_operand_spec(tokens, pos, depth, 7) == parse_unary_spec(tokens, pos, depth));
    lemma_operand_rises(tokens, pos, depth, low, 7, operand, 1);
}

/// Two operands joined by an operator of their level parse as that
/// operation, if no operator of the level follows.
pub proof fn lemma_one_operation(
    tokens: Seq<Token>,
    pos: nat,
    depth: nat,
    level: u8,
    left: ExprView,
    left_consumed: nat,
    operator: binary_operator,
    right: ExprView,
    right_consumed: nat,
)
    requires
        parse_operand_spec(tokens, pos, depth, level) == parsed(left, left_consumed),
        token_at(tokens, pos + left_consumed) is Some,
        operator_at(level, token_at(tokens, pos + left_consumed)->0) == Some(operator),
        parse_operand_spec(tokens, pos + left_consumed + 1, depth, level) == parsed(
            right,
            right_consumed,
        ),
        token_at(tokens, pos + left_consumed + 1 + right_consumed) is Some ==> operator_at(
            level,
            token_at(tokens, pos + left_consumed + 1 + right_consumed)->0,
        ) is None,
    ensures
        parse_binary_spec(tokens, pos, depth, level) == parsed(
            ExprView::BinaryOperation {
                left: Box::new(left),
                operator,
                right: Box::new(right),
            },
            left_consumed + 1 + right_consumed,
        ),
{
    let joined = ExprView::BinaryOperation {
        left: Box::new(left),
        operator,
        right: Box::new(right),
    };
    let end = pos + left_consumed + 1 + right_consumed;
    assert(parse_binary_rest_spec(tokens, end, depth, level, joined) == parsed(joined, 0));
    assert(parse_binary_rest_spec(tokens, pos + left_consumed, depth, level, left) == parsed(
        joined,
        1 + right_consumed,
    ));
}

/// Of two operators, the one of the tighter level takes the operand between
/// them: `x + y * z` is `x + (y * z)`, for any three operands that are one
/// token each, any operator `+` of a level and any operator `*` of a tighter
/// level.
pub proof fn lemma_tighter_operator_binds_first(
    tokens: Seq<Token>,
    pos: nat,
    depth: nat,
    x: ExprView,
    loose: u8,
    first: binary_operator,
    y: ExprView,
    tight: u8,
    second: binary_operator,
    z: ExprView,
)
    requires
        loose < tight <= 7,
        token_at(tokens, pos) is Some && operand_of(token_at(tokens, pos)->0) == Some(x),
        token_at(tokens, pos + 1) is Some && operator_at(loose, token_at(tokens, pos + 1)->0)
            == Some(first),
        token_at(tokens, pos + 2) is Some && operand_of(token_at(tokens, pos + 2)->0) == Some(y),
        token_at(tokens, pos + 3) is Some && operator_at(tight, token_at(tokens, pos + 3)->0)
            == Some(second),
        token_at(tokens, pos + 4) is Some && operand_of(token_at(tokens, pos + 4)->0) == Some(z),
        ends_expression(token_at(tokens, pos + 5)),
    ensures
        parse_expression_spec(tokens, pos, depth) == parsed(
            ExprView::BinaryOperation {
                left: Box::new(x),
                operator: first,
                right: Box::new(
                    ExprView::BinaryOperation {
                        left: Box::new(y),
                        operator: second,
                        right: Box::new(z),
                    },
                ),
            },
            5,
        ),
{
    let plus = token_at(tokens, pos + 1)->0;
    let times = token_at(tokens, pos + 3)->0;
    let product = ExprView::BinaryOperation {
        left: Box::new(y),
        operator: second,
        right: Box::new(z),
    };
    let sum = ExprView::BinaryOperation {
        left: Box::new(x),
        operator: first,
        right: Box::new(product),
    };
    lemma_operator_has_one_level(plus, loose);
    lemma_operator_has_one_level(times, tight);
    // y * z at the tight level
    assert(leaves_operand((tight + 1) as u8, Some(times))) by {
        assert forall|level: u8| (tight + 1) as u8 <= level implies operator_at(level, times)
            is None by {}
    }
    if tight < 7 {
        lemma_single_token_at_level(tokens, pos + 2, depth, (tight + 1) as u8, y);
        lemma_single_token_at_level(tokens, pos + 4, depth, (tight + 1) as u8, z);
    } else {
        lemma_single_token_operand(tokens, pos + 2, depth, y);
        lemma_single_token_operand(tokens, pos + 4, depth, z);
    }
    assert(parse_operand_spec(tokens, pos + 2, depth, tight) == parsed(y, 1));
    assert(parse_operand_spec(tokens, pos + 4, depth, tight) == parsed(z, 1));
    let next = token_at(tokens, pos + 5);
    if next is Some {
        assert(operator_at(tight, next->0) is None);
    }
    lemma_one_operation(tokens, pos + 2, depth, tight, y, 1, second, z, 1);
    // the product is the right operand of the loose level
    assert(parse_binary_spec(tokens, pos + 2, depth, tight) == parsed(product, 3));
    assert(parse_operand_spec(tokens, pos + 2, depth, (tight - 1) as u8) == parsed(product, 3));
    if loose + 1 < tight {
        lemma_operand_rises(
            tokens,
            pos + 2,
            depth,
            (loose + 1) as u8,
            (tight - 1) as u8,
            product,
            3,
        );
    }
    assert(parse_operand_spec(tokens, pos + 2, depth, loose) == parsed(product, 3));
    // x is the left operand of the loose level
    assert(leaves_operand((loose + 1) as u8, Some(plus))) by {
        assert forall|level: u8| (loose + 1) as u8 <= level implies operator_at(level, plus)
            is None by {}
    }
    lemma_single_token_at_level(tokens, pos, depth, (loose + 1) as u8, x);
    assert(parse_operand_spec(tokens, pos, depth, loose) == parsed(x, 1));
    if next is Some {
        assert(operator_at(loose, next->0) is None);
    }
    lemma_one_operation(tokens, pos, depth, loose, x, 1, first, product, 3);
    lemma_whole_expression(tokens, pos, depth, loose, sum, 5);
}

/// An operator token is an operator at one level only.
pub proof fn lemma_operator_has_one_level(token: Token, level: u8)
    requires
        operator_at(level, token) is Some,
    ensures
        forall|other: u8| other != level ==> operator_at(other, token) is None,
{
}

/// What parses at a level is the whole expression, if the token behind it
/// ends the expression.
pub proof fn lemma_whole_expression(
    tokens: Seq<Token>,
    pos: nat,
    depth: nat,
    level: u8,
    e: ExprView,
    consumed: nat,
)
    requires
        level <= 7,
        parse_binary_spec(tokens, pos, depth, level) == parsed(e, consumed),
        ends_expression(token_at(tokens, pos + consumed)),
    ensures
        parse_expression_spec(tokens, pos, depth) == parsed(e, consumed),
{
    reveal(parse_expression_spec);
    if level > 0 {
        let below = (level - 1) as u8;
        assert(parse_operand_spec(tokens, pos, depth, below) == parse_binary_spec(
            tokens,
            pos,
            depth,
            level,
        ));
        lemma_operand_rises(tokens, pos, depth, 0, below, e, consumed);
    }
    assert(parse_binary_spec(tokens, pos, depth, 0) == parsed(e, consumed));
}

/// Operators of one level group to the left: `x ^ y ^ z` is `(x ^ y) ^ z`,
/// for any three operands that are one token each and any two operators of
/// one level. This holds of exponentiation as of every other level.
pub proof fn lemma_same_level_groups_left(
    tokens: Seq<Token>,
    pos: nat,
    depth: nat,
    level: u8,
    x: ExprView,
    first: binary_operator,
    y: ExprView,
    second: binary_operator,
    z: ExprView,
)
    requires
        level <= 7,
        token_at(tokens, pos) is Some && operand_of(token_at(tokens, pos)->0) == Some(x),
        token_at(tokens, pos + 1) is Some && operator_at(level, token_at(tokens, pos + 1)->0)
            == Some(first),
        token_at(tokens, pos + 2) is Some && operand_of(token_at(tokens, pos + 2)->0) == Some(y),
        token_at(tokens, pos + 3) is Some && operator_at(level, token_at(tokens, pos + 3)->0)
            == Some(second),
        token_at(tokens, pos + 4) is Some && operand_of(token_at(tokens, pos + 4)->0) == Some(z),
        ends_expression(token_at(tokens, pos + 5)),
    ensures
        parse_expression_spec(tokens, pos, depth) == parsed(
            ExprView::BinaryOperation {
                left: Box::new(
                    ExprView::BinaryOperation {
                        left: Box::new(x),
                        operator: first,
                        right: Box::new(y),
                    },
                ),
                operator: second,
                right: Box::new(z),
            },
            5,
        ),
{
    let one = token_at(tokens, pos + 1)->0;
    let two = token_at(tokens, pos + 3)->0;
    let inner = ExprView::BinaryOperation {
        left: Box::new(x),
        operator: first,
        right: Box::new(y),
    };
    let outer = ExprView::BinaryOperation {
        left: Box::new(inner),
        operator: second,
        right: Box::new(z),
    };
    lemma_operator_has_one_level(one, level);
    lemma_operator_has_one_level(two, level);
    lemma_operand_at(tokens, pos, depth, level, x);
    lemma_operand_at(tokens, pos + 2, depth, level, y);
    lemma_operand_at(tokens, pos + 4, depth, level, z);
    let next = token_at(tokens, pos + 5);
    if next is Some {
        assert(operator_at(level, next->0) is None);
    }
    assert(parse_binary_rest_spec(tokens, pos + 5, depth, level, outer) == parsed(outer, 0));
    assert(parse_binary_rest_spec(tokens, pos + 3, depth, level, inner) == parsed(outer, 2));
    assert(parse_binary_rest_spec(tokens, pos + 1, depth, level, x) == parsed(outer, 4));
    assert(parse_binary_spec(tokens, pos, depth, level) == parsed(outer, 5));
    lemma_whole_expression(tokens, pos, depth, level, outer, 5);
}

/// A token that is an expression by itself is an operand of a level, if the
/// token behind it is no operator of a tighter level and no `(`.
pub proof fn lemma_operand_at(
    tokens: Seq<Token>,
    pos: nat,
    depth: nat,
    level: u8,
    operand: ExprView,
)
    requires
        level <= 7,
        token_at(tokens, pos) is Some,
        operand_of(token_at(tokens, pos)->0) == Some(operand),
        leaves_operand((level + 1) as u8, token_at(tokens, pos + 1)),
    ensures
        parse_operand_spec(tokens, pos, depth, level) == parsed(operand, 1),
{
    if level < 7 {
        lemma_single_token_at_level(tokens, pos, depth, (level + 1) as u8, operand);
    } else {
        lemma_single_token_operand(tokens, pos, depth, operand);
    }
}

/// A name, `=` and an assignment are an assignment to the name: the right
/// side of `=` is itself an assignment, so that `=` groups to the right.
pub proof fn lemma_assignment_to_name(
    tokens: Seq<Token>,
    pos: nat,
    depth: nat,
    name: Seq<char>,
    value: ExprView,
    consumed: nat,
)
    requires
        depth > 0,
        token_at(tokens, pos) is Some,
        operand_of(token_at(tokens, pos)->0) == Some(ExprView::Identifier(name)),
        token_at(tokens, pos + 1) matches Some(Token::T_ASSIGNMENT_OPR),
        parse_assignment_spec(tokens, pos + 2, (depth - 1) as nat) == parsed(value, consumed),
    ensures
        parse_assignment_spec(tokens, pos, depth) == parsed(
            ExprView::Assignment {
                left: Box::new(ExprView::Identifier(name)),
                right: Box::new(value),
            },
            consumed + 2,
        ),
{
    let equals = token_at(tokens, pos + 1)->0;
    assert(leaves_operand(0, Some(equals))) by {
        assert forall|level: u8| 0 <= level implies operator_at(level, equals) is None by {}
    }
    lemma_single_token_at_level(tokens, pos, depth, 0, ExprView::Identifier(name));
}

/// `a = b = v` is `a = (b = v)`, for any two names and any value that is one
/// token.
pub proof fn lemma_assignment_groups_right(
    tokens: Seq<Token>,
    pos: nat,
    depth: nat,
    a: Seq<char>,
    b: Seq<char>,
    v: ExprView,
)
    requires
        depth >= 2,
        token_at(tokens, pos) is Some && operand_of(token_at(tokens, pos)->0) == Some(
            ExprView::Identifier(a),
        ),
        token_at(tokens, pos + 1) matches Some(Token::T_ASSIGNMENT_OPR),
        token_at(tokens, pos + 2) is Some && operand_of(token_at(tokens, pos + 2)->0) == Some(
            ExprView::Identifier(b),
        ),
        token_at(tokens, pos + 3) matches Some(Token::T_ASSIGNMENT_OPR),
        token_at(tokens, pos + 4) is Some && operand_of(token_at(tokens, pos + 4)->0) == Some(v),
        ends_expression(token_at(tokens, pos + 5)),
    ensures
        parse_expression_spec(tokens, pos, depth) == parsed(
            ExprView::Assignment {
                left: Box::new(ExprView::Identifier(a)),
                right: Box::new(
                    ExprView::Assignment {
                        left: Box::new(ExprView::Identifier(b)),
                        right: Box::new(v),
                    },
                ),
            },
            5,
        ),
{
    reveal(parse_expression_spec);
    let inner_depth = (depth - 2) as nat;
    lemma_single_token_at_level(tokens, pos + 4, inner_depth, 0, v);
    assert(parse_assignment_spec(tokens, pos + 4, inner_depth) == parsed(v, 1));
    lemma_assignment_to_name(tokens, pos + 2, (depth - 1) as nat, b, v, 1);
    lemma_assignment_to_name(
        tokens,
        pos,
        depth,
        a,
        ExprView::Assignment { left: Box::new(ExprView::Identifier(b)), right: Box::new(v) },
        3,
    );
}

/// A name, `(`, one argument that is one token, and `)` are a call of the
/// name with that argument, and the call ends with its `)`.
pub proof fn lemma_call_with_one_argument(
    tokens: Seq<Token>,
    pos: nat,
    depth: nat,
    name: Seq<char>,
    argument: ExprView,
)
    requires
        depth >= 1,
        token_at(tokens, pos) is Some,
        operand_of(token_at(tokens, pos)->0) == Some(ExprView::Identifier(name)),
        token_at(tokens, pos + 1) matches Some(Token::T_ROUND_BRACKET_OPEN),
        token_at(tokens, pos + 2) is Some,
        operand_of(token_at(tokens, pos + 2)->0) == Some(argument),
        token_at(tokens, pos + 3) matches Some(Token::T_ROUND_BRACKET_CLOSE),
    ensures
        parse_function_call_spec(tokens, pos, depth) == parsed(
            FunctionCallView { identifier: name, args: seq![argument] },
            4,
        ),
{
    let inner = (depth - 1) as nat;
    let close = token_at(tokens, pos + 3)->0;
    assert(leaves_operand(0, Some(close))) by {
        assert forall|level: u8| 0 <= level implies operator_at(level, close) is None by {}
    }
    lemma_single_token_at_level(tokens, pos + 2, inner, 0, argument);
    assert(parse_assignment_spec(tokens, pos + 2, inner) == parsed(argument, 1));
    assert(Seq::<ExprView>::empty().push(argument) =~= seq![argument]);
    assert(parse_argument_list_spec(tokens, pos + 2, inner, Seq::empty()) == parsed(
        seq![argument],
        1,
    ));
    assert(parse_function_call_arguments_spec(tokens, pos + 2, inner) == parsed(
        seq![argument],
        1,
    ));
}

/// A call is an operand like any other: with an operator and a second
/// operand behind its `)`, it is the left operand of the operation. So
/// `f(1) + 2` is the sum of the call and `2`.
pub proof fn lemma_call_is_an_operand(
    tokens: Seq<Token>,
    pos: nat,
    depth: nat,
    call: FunctionCallView,
    consumed: nat,
    level: u8,
    operator: binary_operator,
    right: ExprView,
)
    requires
        level <= 7,
        token_at(tokens, pos) is Some && token_at(tokens, pos)->0 is T_IDENTIFIER,
        token_at(tokens, pos + 1) matches Some(Token::T_ROUND_BRACKET_OPEN),
        parse_function_call_spec(tokens, pos, depth) == parsed(call, consumed),
        token_at(tokens, pos + consumed) is Some && operator_at(
            level,
            token_at(tokens, pos + consumed)->0,
        ) == Some(operator),
        token_at(tokens, pos + consumed + 1) is Some && operand_of(
            token_at(tokens, pos + consumed + 1)->0,
        ) == Some(right),
        ends_expression(token_at(tokens, pos + consumed + 2)),
    ensures
        parse_expression_spec(tokens, pos, depth) == parsed(
            ExprView::BinaryOperation {
                left: Box::new(ExprView::FuncCall(call)),
                operator,
                right: Box::new(right),
            },
            consumed + 2,
        ),
{
    let sign = token_at(tokens, pos + consumed)->0;
    let left = ExprView::FuncCall(call);
    let joined = ExprView::BinaryOperation {
        left: Box::new(left),
        operator,
        right: Box::new(right),
    };
    lemma_operator_has_one_level(sign, level);
    assert(prefix_operator(token_at(tokens, pos)->0) is None);
    assert(parse_primary_spec(tokens, pos, depth) == parsed(left, consumed));
    assert(parse_unary_spec(tokens, pos, depth) == parsed(left, consumed));
    if level < 7 {
        assert(parse_operand_spec(tokens, pos, depth, 7) == parsed(left, consumed));
        assert(!operator_from((level + 1) as u8, sign)) by {
            assert forall|other: u8| (level + 1) as u8 <= other implies operator_at(other, sign)
                is None by {}
        }
        lemma_operand_rises(tokens, pos, depth, (level + 1) as u8, 7, left, consumed);
    }
    assert(parse_operand_spec(tokens, pos, depth, level) == parsed(left, consumed));
    lemma_operand_at(tokens, pos + consumed + 1, depth, level, right);
    let next = token_at(tokens, pos + consumed + 2);
    if next is Some {
        assert(operator_at(level, next->0) is None);
    }
    lemma_one_operation(tokens, pos, depth, level, left, consumed, operator, right, 1);
    lemma_whole_expression(tokens, pos, depth, level, joined, consumed + 2);
}

/// A bare call with a `;` behind it is a statement: the call is the
/// expression, and the statement takes the `;`.
pub proof fn lemma_bare_call_is_a_statement(
    tokens: Seq<Token>,
    pos: nat,
    depth: nat,
    call: FunctionCallView,
    consumed: nat,
)
    requires
        token_at(tokens, pos) is Some && token_at(tokens, pos)->0 is T_IDENTIFIER,
        token_at(tokens, pos + 1) matches Some(Token::T_ROUND_BRACKET_OPEN),
        parse_function_call_spec(tokens, pos, depth) == parsed(call, consumed),
        token_at(tokens, pos + consumed) matches Some(Token::T_SEMICOLON),
    ensures
        parse_statement_spec(tokens, pos, depth) == parsed(
            StatementView::Expr(ExprView::FuncCall(call)),
            consumed + 1,
        ),
{
    let left = ExprView::FuncCall(call);
    let end = token_at(tokens, pos + consumed)->0;
    assert(prefix_operator(token_at(tokens, pos)->0) is None);
    assert(parse_primary_spec(tokens, pos, depth) == parsed(left, consumed));
    assert(parse_unary_spec(tokens, pos, depth) == parsed(left, consumed));
    assert(parse_operand_spec(tokens, pos, depth, 7) == parsed(left, consumed));
    assert(!operator_from(0, end)) by {
        assert forall|level: u8| 0 <= level implies operator_at(level, end) is None by {}
    }
    lemma_operand_rises(tokens, pos, depth, 0, 7, left, consumed);
    lemma_whole_expression(tokens, pos, depth, 0, left, consumed);
}

} // verus!
