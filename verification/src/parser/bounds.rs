//! A parse never reads past the end of its tokens.

use crate::parser::enums::{BranchView, ExprView, ParamView, RootView, StatementView};
use crate::parser::grammar::{
    block_rest_spec, braced_block_spec, branch_spec, declaration_rest_spec, elifs_rest_spec,
    for_clauses_spec, for_condition_spec, for_init_spec, for_rest_spec, for_update_spec,
    function_head_spec, function_rest_spec, if_rest_spec, keyword_statement_rest_spec,
    parameter_list_rest_spec, parse_argument_list_spec, parse_assignment_spec,
    parse_binary_rest_spec, parse_binary_spec, parse_block_spec, parse_else_block_spec,
    parse_expression_spec, parse_function_call_arguments_spec, parse_function_call_spec,
    parse_operand_spec, parse_parameter_list_spec, parse_parameter_spec, parse_primary_spec,
    parse_unary_spec, parse_variable_declaration_spec, program_rest_spec, return_rest_spec,
    variable_declaration_rest_spec, binary_rank, declared_type, expression_statement_spec,
    operator_at, prefix_operator, starts_keyword_statement, then_expect, Parsed,
    MAX_NESTING_DEPTH,
};
use crate::parser::token_iterator::remaining;
use crate::semantics::semantic_analysis::Type;
use crate::tokens::Token;
use vstd::prelude::*;

verus! {

/// An outcome reached from `pos` has consumed no more tokens than there were.
pub open spec fn within<T>(tokens: Seq<Token>, pos: nat, outcome: Parsed<T>) -> bool {
    pos + outcome.consumed <= tokens.len()
}

/// No expression reads past the end of the tokens.
pub proof fn lemma_expression_within(tokens: Seq<Token>, pos: nat, depth: nat)
    requires
        pos <= tokens.len(),
    ensures
        within(tokens, pos, parse_expression_spec(tokens, pos, depth)),
{
    reveal(parse_expression_spec);
    lemma_assignment_within(tokens, pos, depth);
}

/// No assignment reads past the end of the tokens.
pub proof fn lemma_assignment_within(tokens: Seq<Token>, pos: nat, depth: nat)
    requires
        pos <= tokens.len(),
    ensures
        within(tokens, pos, parse_assignment_spec(tokens, pos, depth)),
    decreases remaining(tokens, pos), 19nat,
{
    let target = parse_binary_spec(tokens, pos, depth, 0);
    lemma_binary_within(tokens, pos, depth, 0);
    if target.result is Ok {
        let at = pos + target.consumed;
        if at < tokens.len() && tokens[at as int] is T_ASSIGNMENT_OPR && depth > 0 {
            lemma_assignment_within(tokens, at + 1, (depth - 1) as nat);
        }
    }
}

/// No operand of a level reads past the end of the tokens.
pub proof fn lemma_operand_within(tokens: Seq<Token>, pos: nat, depth: nat, level: u8)
    requires
        pos <= tokens.len(),
    ensures
        within(tokens, pos, parse_operand_spec(tokens, pos, depth, level)),
    decreases remaining(tokens, pos), (binary_rank(level) - 1) as nat,
{
    if level < 7 {
        lemma_binary_within(tokens, pos, depth, (level + 1) as u8);
    } else {
        lemma_unary_within(tokens, pos, depth);
    }
}

/// No level of binary operators reads past the end of the tokens.
pub proof fn lemma_binary_within(tokens: Seq<Token>, pos: nat, depth: nat, level: u8)
    requires
        pos <= tokens.len(),
    ensures
        within(tokens, pos, parse_binary_spec(tokens, pos, depth, level)),
    decreases remaining(tokens, pos), binary_rank(level),
{
    let first = parse_operand_spec(tokens, pos, depth, level);
    lemma_operand_within(tokens, pos, depth, level);
    if first.result is Ok {
        lemma_binary_rest_within(tokens, pos + first.consumed, depth, level, first.result->Ok_0);
    }
}

/// No run of operators and operands reads past the end of the tokens.
pub proof fn lemma_binary_rest_within(
    tokens: Seq<Token>,
    pos: nat,
    depth: nat,
    level: u8,
    left: ExprView,
)
    requires
        pos <= tokens.len(),
    ensures
        within(tokens, pos, parse_binary_rest_spec(tokens, pos, depth, level, left)),
    decreases remaining(tokens, pos), 3nat,
{
    if pos < tokens.len() {
        match operator_at(level, tokens[pos as int]) {
            Some(operator) => {
                let operand = parse_operand_spec(tokens, pos + 1, depth, level);
                lemma_operand_within(tokens, pos + 1, depth, level);
                if operand.result is Ok {
                    lemma_binary_rest_within(
                        tokens,
                        pos + 1 + operand.consumed,
                        depth,
                        level,
                        ExprView::BinaryOperation {
                            left: Box::new(left),
                            operator,
                            right: Box::new(operand.result->Ok_0),
                        },
                    );
                }
            },
            None => {},
        }
    }
}

/// No prefix expression reads past the end of the tokens.
pub proof fn lemma_unary_within(tokens: Seq<Token>, pos: nat, depth: nat)
    requires
        pos <= tokens.len(),
    ensures
        within(tokens, pos, parse_unary_spec(tokens, pos, depth)),
    decreases remaining(tokens, pos), 2nat,
{
    if pos < tokens.len() && prefix_operator(tokens[pos as int]) is Some {
        if depth > 0 {
            lemma_unary_within(tokens, pos + 1, (depth - 1) as nat);
        }
    } else {
        lemma_primary_within(tokens, pos, depth);
    }
}

/// No primary expression reads past the end of the tokens.
pub proof fn lemma_primary_within(tokens: Seq<Token>, pos: nat, depth: nat)
    requires
        pos <= tokens.len(),
    ensures
        within(tokens, pos, parse_primary_spec(tokens, pos, depth)),
    decreases remaining(tokens, pos), 1nat,
{
    if pos < tokens.len() {
        match tokens[pos as int] {
            Token::T_IDENTIFIER(_) => {
                lemma_call_within(tokens, pos, depth);
            },
            Token::T_ROUND_BRACKET_OPEN => {
                if depth > 0 {
                    lemma_assignment_within(tokens, pos + 1, (depth - 1) as nat);
                }
            },
            _ => {},
        }
    }
}

/// No call reads past the end of the tokens.
pub proof fn lemma_call_within(tokens: Seq<Token>, pos: nat, depth: nat)
    requires
        pos <= tokens.len(),
    ensures
        within(tokens, pos, parse_function_call_spec(tokens, pos, depth)),
    decreases remaining(tokens, pos), 0nat,
{
    if pos + 1 < tokens.len() && tokens[pos as int] is T_IDENTIFIER && tokens[pos + 1 as int]
        is T_ROUND_BRACKET_OPEN && depth > 0 {
        lemma_arguments_within(tokens, pos + 2, (depth - 1) as nat);
    }
}

/// No argument list reads past the end of the tokens.
pub proof fn lemma_arguments_within(tokens: Seq<Token>, pos: nat, depth: nat)
    requires
        pos <= tokens.len(),
    ensures
        within(tokens, pos, parse_function_call_arguments_spec(tokens, pos, depth)),
    decreases remaining(tokens, pos), 22nat,
{
    lemma_argument_list_within(tokens, pos, depth, Seq::empty());
}

/// No run of arguments reads past the end of the tokens.
pub proof fn lemma_argument_list_within(
    tokens: Seq<Token>,
    pos: nat,
    depth: nat,
    done: Seq<ExprView>,
)
    requires
        pos <= tokens.len(),
    ensures
        within(tokens, pos, parse_argument_list_spec(tokens, pos, depth, done)),
    decreases remaining(tokens, pos), 21nat,
{
    let argument = parse_assignment_spec(tokens, pos, depth);
    lemma_assignment_within(tokens, pos, depth);
    if argument.result is Ok {
        let at = pos + argument.consumed;
        if at < tokens.len() && tokens[at as int] is T_COMMA {
            lemma_argument_list_within(tokens, at + 1, depth, done.push(argument.result->Ok_0));
        }
    }
}

/// No variable declaration reads past the end of the tokens.
pub proof fn lemma_declaration_within(tokens: Seq<Token>, pos: nat, depth: nat)
    requires
        pos <= tokens.len(),
    ensures
        within(tokens, pos, parse_variable_declaration_spec(tokens, pos, depth)),
{
    if pos < tokens.len() {
        lemma_declaration_rest_within(
            tokens,
            pos + 1,
            depth,
            declared_type(tokens[pos as int]),
        );
    }
}

/// No declaration behind its type keyword reads past the end of the tokens.
pub proof fn lemma_declaration_rest_within(
    tokens: Seq<Token>,
    pos: nat,
    depth: nat,
    declared: Type,
)
    requires
        pos <= tokens.len(),
    ensures
        within(tokens, pos, variable_declaration_rest_spec(tokens, pos, depth, declared)),
{
    reveal(variable_declaration_rest_spec);
    if pos + 2 <= tokens.len() {
        lemma_expression_within(tokens, pos + 2, depth);
    }
}

/// No return statement reads past the end of the tokens.
pub proof fn lemma_return_rest_within(tokens: Seq<Token>, pos: nat, depth: nat)
    requires
        pos <= tokens.len(),
    ensures
        within(tokens, pos, return_rest_spec(tokens, pos, depth)),
{
    reveal(return_rest_spec);
    lemma_expression_within(tokens, pos, depth);
}

/// The clauses of no `for` read past the end of the tokens.
pub proof fn lemma_for_clauses_within(tokens: Seq<Token>, pos: nat, depth: nat)
    requires
        pos <= tokens.len(),
    ensures
        within(tokens, pos, for_clauses_spec(tokens, pos, depth)),
{
    reveal(for_clauses_spec);
    reveal(for_init_spec);
    reveal(for_condition_spec);
    reveal(for_update_spec);
    if pos < tokens.len() {
        lemma_declaration_within(tokens, pos + 1, depth);
        let init = for_init_spec(tokens, pos + 1, depth).after(1);
        assert(pos + init.consumed <= tokens.len());
        lemma_expression_within(tokens, pos + init.consumed, depth);
        let condition = for_condition_spec(tokens, pos + init.consumed, depth).after(init.consumed);
        assert(pos + condition.consumed <= tokens.len());
        lemma_expression_within(tokens, pos + condition.consumed, depth);
    }
}

/// No block reads past the end of the tokens.
pub proof fn lemma_block_within(tokens: Seq<Token>, pos: nat, depth: nat)
    requires
        pos <= tokens.len(),
    ensures
        within(tokens, pos, parse_block_spec(tokens, pos, depth)),
    decreases remaining(tokens, pos), 11nat,
{
    reveal(block_rest_spec);
    lemma_block_rest_within(tokens, pos, depth, Seq::empty());
}

/// No run of statements reads past the end of the tokens.
pub proof fn lemma_block_rest_within(
    tokens: Seq<Token>,
    pos: nat,
    depth: nat,
    done: Seq<StatementView>,
)
    requires
        pos <= tokens.len(),
    ensures
        within(tokens, pos, block_rest_spec(tokens, pos, depth, done)),
    decreases remaining(tokens, pos), 10nat,
{
    reveal(block_rest_spec);
    reveal(keyword_statement_rest_spec);
    if pos < tokens.len() && !(tokens[pos as int] is T_CURLY_BRACKET_CLOSE) {
        let first = tokens[pos as int];
        if starts_keyword_statement(first) {
            let statement = keyword_statement_rest_spec(tokens, pos + 1, depth, first).after(1);
            lemma_keyword_statement_within(tokens, pos + 1, depth, first);
            if statement.result is Ok {
                lemma_block_rest_within(
                    tokens,
                    pos + statement.consumed,
                    depth,
                    done.push(statement.result->Ok_0),
                );
            }
        } else {
            let expression = expression_statement_spec(tokens, pos, depth);
            lemma_expression_within(tokens, pos, depth);
            if expression.result is Ok {
                lemma_block_rest_within(
                    tokens,
                    pos + expression.consumed,
                    depth,
                    done.push(StatementView::Expr(expression.result->Ok_0)),
                );
            }
        }
    }
}

/// No keyword statement reads past the end of the tokens.
pub proof fn lemma_keyword_statement_within(
    tokens: Seq<Token>,
    pos: nat,
    depth: nat,
    first: Token,
)
    requires
        pos <= tokens.len(),
    ensures
        within(tokens, pos, keyword_statement_rest_spec(tokens, pos, depth, first)),
    decreases remaining(tokens, pos), 5nat,
{
    reveal(keyword_statement_rest_spec);
    reveal(if_rest_spec);
    reveal(for_rest_spec);
    reveal(branch_spec);
    match first {
        Token::T_IF => {
            lemma_if_rest_within(tokens, pos, depth);
        },
        Token::T_FOR => {
            lemma_for_rest_within(tokens, pos, depth);
        },
        Token::T_WHILE => {
            lemma_branch_within(tokens, pos, depth);
        },
        Token::T_RETURN => {
            lemma_return_rest_within(tokens, pos, depth);
        },
        _ => {
            lemma_declaration_rest_within(
                tokens,
                pos,
                depth,
                declared_type(first),
            );
        },
    }
}

/// No block in braces reads past the end of the tokens.
pub proof fn lemma_braced_block_within(tokens: Seq<Token>, pos: nat, depth: nat)
    requires
        pos <= tokens.len(),
    ensures
        within(tokens, pos, braced_block_spec(tokens, pos, depth)),
    decreases remaining(tokens, pos), 0nat,
{
    reveal(braced_block_spec);
    if pos < tokens.len() && tokens[pos as int] is T_CURLY_BRACKET_OPEN && depth > 0 {
        lemma_block_within(tokens, pos + 1, (depth - 1) as nat);
    }
}

/// No branch reads past the end of the tokens.
pub proof fn lemma_branch_within(tokens: Seq<Token>, pos: nat, depth: nat)
    requires
        pos <= tokens.len(),
    ensures
        within(tokens, pos, branch_spec(tokens, pos, depth)),
    decreases remaining(tokens, pos), 1nat,
{
    reveal(branch_spec);
    reveal(braced_block_spec);
    if pos < tokens.len() && tokens[pos as int] is T_ROUND_BRACKET_OPEN {
        lemma_expression_within(tokens, pos + 1, depth);
        let condition = then_expect(
            parse_expression_spec(tokens, pos + 1, depth).after(1),
            tokens,
            pos,
            Token::T_ROUND_BRACKET_CLOSE,
        );
        if condition.result is Ok {
            lemma_braced_block_within(tokens, pos + condition.consumed, depth);
        }
    }
}

/// No run of `elif` branches reads past the end of the tokens.
pub proof fn lemma_elifs_rest_within(
    tokens: Seq<Token>,
    pos: nat,
    depth: nat,
    done: Seq<BranchView>,
)
    requires
        pos <= tokens.len(),
    ensures
        within(tokens, pos, elifs_rest_spec(tokens, pos, depth, done)),
    decreases remaining(tokens, pos), 3nat,
{
    reveal(elifs_rest_spec);
    reveal(branch_spec);
    if pos < tokens.len() && tokens[pos as int] is T_ELSE_IF {
        let branch = branch_spec(tokens, pos + 1, depth).after(1);
        lemma_branch_within(tokens, pos + 1, depth);
        if branch.result is Ok {
            lemma_elifs_rest_within(
                tokens,
                pos + branch.consumed,
                depth,
                done.push(branch.result->Ok_0),
            );
        }
    }
}

/// No `else` reads past the end of the tokens.
pub proof fn lemma_else_within(tokens: Seq<Token>, pos: nat, depth: nat)
    requires
        pos <= tokens.len(),
    ensures
        within(tokens, pos, parse_else_block_spec(tokens, pos, depth)),
    decreases remaining(tokens, pos), 2nat,
{
    reveal(parse_else_block_spec);
    reveal(braced_block_spec);
    if pos < tokens.len() && tokens[pos as int] is T_ELSE {
        lemma_braced_block_within(tokens, pos + 1, depth);
    }
}

/// No `if` reads past the end of the tokens.
pub proof fn lemma_if_rest_within(tokens: Seq<Token>, pos: nat, depth: nat)
    requires
        pos <= tokens.len(),
    ensures
        within(tokens, pos, if_rest_spec(tokens, pos, depth)),
    decreases remaining(tokens, pos), 4nat,
{
    reveal(if_rest_spec);
    reveal(branch_spec);
    reveal(elifs_rest_spec);
    reveal(parse_else_block_spec);
    let first = branch_spec(tokens, pos, depth);
    lemma_branch_within(tokens, pos, depth);
    if first.result is Ok {
        let elifs = elifs_rest_spec(tokens, pos + first.consumed, depth, Seq::empty()).after(
            first.consumed,
        );
        lemma_elifs_rest_within(tokens, pos + first.consumed, depth, Seq::empty());
        if elifs.result is Ok {
            lemma_else_within(tokens, pos + elifs.consumed, depth);
        }
    }
}

/// No `for` reads past the end of the tokens.
pub proof fn lemma_for_rest_within(tokens: Seq<Token>, pos: nat, depth: nat)
    requires
        pos <= tokens.len(),
    ensures
        within(tokens, pos, for_rest_spec(tokens, pos, depth)),
    decreases remaining(tokens, pos), 4nat,
{
    reveal(for_rest_spec);
    reveal(braced_block_spec);
    let clauses = for_clauses_spec(tokens, pos, depth);
    lemma_for_clauses_within(tokens, pos, depth);
    if clauses.result is Ok {
        lemma_braced_block_within(tokens, pos + clauses.consumed, depth);
    }
}

/// No parameter list reads past the end of the tokens.
pub proof fn lemma_parameter_list_within(tokens: Seq<Token>, pos: nat)
    requires
        pos <= tokens.len(),
    ensures
        within(tokens, pos, parse_parameter_list_spec(tokens, pos)),
{
    reveal(parse_parameter_list_spec);
    lemma_parameter_list_rest_within(tokens, pos, Seq::empty());
}

/// No run of parameters reads past the end of the tokens.
pub proof fn lemma_parameter_list_rest_within(
    tokens: Seq<Token>,
    pos: nat,
    done: Seq<ParamView>,
)
    requires
        pos <= tokens.len(),
    ensures
        within(tokens, pos, parameter_list_rest_spec(tokens, pos, done)),
    decreases remaining(tokens, pos),
{
    reveal(parameter_list_rest_spec);
    reveal(parse_parameter_spec);
    let parameter = parse_parameter_spec(tokens, pos);
    if parameter.result is Ok {
        let at = pos + parameter.consumed;
        if at < tokens.len() && tokens[at as int] is T_COMMA {
            lemma_parameter_list_rest_within(tokens, at + 1, done.push(parameter.result->Ok_0));
        }
    }
}

/// No function reads past the end of the tokens.
pub proof fn lemma_function_rest_within(tokens: Seq<Token>, pos: nat, depth: nat)
    requires
        pos <= tokens.len(),
    ensures
        within(tokens, pos, function_rest_spec(tokens, pos, depth)),
{
    reveal(function_rest_spec);
    reveal(function_head_spec);
    let head = function_head_spec(tokens, pos);
    if head.result is Ok && pos + head.consumed < tokens.len() {
        lemma_parameter_list_within(tokens, pos + head.consumed + 1);
        let params = then_expect(
            parse_parameter_list_spec(tokens, pos + head.consumed + 1).after(head.consumed + 1),
            tokens,
            pos,
            Token::T_ROUND_BRACKET_CLOSE,
        );
        if params.result is Ok {
            lemma_braced_block_within(tokens, pos + params.consumed, depth);
        }
    }
}

/// No program reads past the end of its tokens.
pub proof fn lemma_program_within(
    tokens: Seq<Token>,
    pos: nat,
    done: Seq<RootView>,
)
    requires
        pos <= tokens.len(),
    ensures
        within(tokens, pos, program_rest_spec(tokens, pos, done)),
    decreases remaining(tokens, pos),
{
    reveal(program_rest_spec);
    reveal(declaration_rest_spec);
    if pos < tokens.len() {
        let first = tokens[pos as int];
        if first.is_type_keyword() || first is T_FUNCTION {
            let declaration = declaration_rest_spec(tokens, pos + 1, first).after(1);
            lemma_function_rest_within(
                tokens,
                pos + 1,
                MAX_NESTING_DEPTH as nat,
            );
            lemma_declaration_rest_within(
                tokens,
                pos + 1,
                MAX_NESTING_DEPTH as nat,
                declared_type(first),
            );
            if declaration.result is Ok {
                lemma_program_within(
                    tokens,
                    pos + declaration.consumed,
                    done.push(declaration.result->Ok_0),
                );
            }
        }
    }
}

} // verus!
