//! Nesting depth of syntax trees, measured with a bound so that the measuring
//! itself never goes deeper than the bound.

use crate::parser::enums::{
    elif_statement, elifs_view, expression_statement, exprs_view, for_statement, if_statement,
    if_statement_expression, root, statement, statements_view, Block, Expr, ExprView,
    StatementView,
};
use crate::semantics::rules::{
    block_depth, branch_depth, branches_depth, expr_depth, exprs_depth,
    lemma_block_depth_covers, lemma_branches_depth_covers, optional_expr_depth, root_depth,
    statement_depth,
};
use vstd::prelude::*;

verus! {

/// Whether an expression nests no deeper than `budget`.
pub fn expr_within(e: &Expr, budget: usize) -> (within: bool)
    ensures
        within == (expr_depth(e@) <= budget),
    decreases e,
{
    if budget == 0 {
        return false;
    }
    match e {
        Expr::Literal(_) => true,
        Expr::Identifier(_) => true,
        Expr::BinaryOperation { left, right, .. } => {
            let within = expr_within(left, budget - 1) && expr_within(right, budget - 1);
            within
        },
        Expr::UnaryOperation { operand, .. } => {
            let within = expr_within(operand, budget - 1);
            within
        },
        Expr::Assignment { left, right } => {
            let within = expr_within(left, budget - 1) && expr_within(right, budget - 1);
            within
        },
        Expr::FuncCall(call) => {
            let within = exprs_within(&call.args, budget - 1);
            assert(e@ == ExprView::FuncCall(call@));
            assert(call@.args == exprs_view(call.args@));
            within
        },
    }
}

/// Whether none of the expressions nests deeper than `budget`.
pub fn exprs_within(exprs: &Vec<Expr>, budget: usize) -> (within: bool)
    ensures
        within == (exprs_depth(exprs_view(exprs@)) <= budget),
    decreases exprs,
{
    let ghost all = exprs_view(exprs@);
    let mut i: usize = 0;
    assert(all.take(0) =~= Seq::empty());
    while i < exprs.len()
        invariant
            0 <= i <= exprs@.len(),
            all == exprs_view(exprs@),
            exprs_depth(all.take(i as int)) <= budget,
        decreases exprs@.len() - i,
    {
        assert(all.take(i + 1).drop_last() =~= all.take(i as int));
        assert(all.take(i + 1).last() == exprs@[i as int]@);
        if !expr_within(&exprs[i], budget) {
            proof {
                lemma_exprs_depth_covers(all, i as int);
            }
            return false;
        }
        i = i + 1;
    }
    assert(all.take(exprs@.len() as int) =~= all);
    true
}

/// No expression of a run nests deeper than the run.
pub proof fn lemma_exprs_depth_covers(exprs: Seq<ExprView>, i: int)
    requires
        0 <= i < exprs.len(),
    ensures
        expr_depth(exprs[i]) <= exprs_depth(exprs),
    decreases exprs.len(),
{
    if i < exprs.len() - 1 {
        lemma_exprs_depth_covers(exprs.drop_last(), i);
    }
}

/// Whether an expression that may be absent nests no deeper than `budget`.
fn optional_expr_within(e: &Option<Expr>, budget: usize) -> (within: bool)
    ensures
        within == (optional_expr_depth(
            match e {
                Some(e) => Some(e@),
                None => None,
            },
        ) <= budget),
{
    match e {
        Some(e) => expr_within(e, budget),
        None => true,
    }
}

/// Whether a statement nests no deeper than `budget`.
pub fn statement_within(s: &statement, budget: usize) -> (within: bool)
    ensures
        within == (statement_depth(s.view()) <= budget),
    decreases s,
{
    if budget == 0 {
        return false;
    }
    match s {
        statement::Var(declaration) => expr_within(&declaration.expression, budget - 1),
        statement::Expr(e) => expr_within(e, budget - 1),
        statement::Return(r) => expr_within(&r.expr, budget - 1),
        statement::Break => true,
        statement::Continue => true,
        statement::If(i) => if_within(i, budget - 1),
        statement::While(w) => expr_within(&w.condition, budget - 1) && block_within(
            &w.block,
            budget - 1,
        ),
        statement::For(f) => for_within(f, budget - 1),
    }
}

/// Whether the parts of an `if` nest no deeper than `budget`.
fn if_within(i: &if_statement, budget: usize) -> (within: bool)
    ensures
        within == (statement_depth(StatementView::If(i.view())) <= budget + 1),
    decreases i,
{
    branch_within(&i.if_statement, budget) && elifs_within(&i.elif_statement, budget) && match &i.else_statement {
        Some(block) => block_within(block, budget),
        None => true,
    }
}

/// Whether the parts of a `for` nest no deeper than `budget`.
fn for_within(f: &for_statement, budget: usize) -> (within: bool)
    ensures
        within == (statement_depth(StatementView::For(f.view())) <= budget + 1),
    decreases f,
{
    let init = match &f.init_loop_var {
        Some(declaration) => expr_within(&declaration.expression, budget),
        None => true,
    };
    let condition = match &f.loop_condition {
        expression_statement::Expr(e) => expr_within(e, budget),
        expression_statement::SemiColon => true,
    };
    init && condition && optional_expr_within(&f.update_loop_var, budget) && block_within(
        &f.block,
        budget,
    )
}

/// Whether the condition and the block of a branch nest no deeper than `budget`.
fn branch_within(branch: &if_statement_expression, budget: usize) -> (within: bool)
    ensures
        within == (branch_depth(branch.view()) <= budget),
    decreases branch,
{
    expr_within(&branch.condition, budget) && block_within(&branch.block, budget)
}

/// Whether none of the `elif` branches nests deeper than `budget`.
fn elifs_within(elifs: &Vec<elif_statement>, budget: usize) -> (within: bool)
    ensures
        within == (branches_depth(elifs_view(elifs@)) <= budget),
    decreases elifs,
{
    let ghost all = elifs_view(elifs@);
    let mut i: usize = 0;
    assert(all.take(0) =~= Seq::empty());
    while i < elifs.len()
        invariant
            0 <= i <= elifs@.len(),
            all == elifs_view(elifs@),
            branches_depth(all.take(i as int)) <= budget,
        decreases elifs@.len() - i,
    {
        assert(all.take(i + 1).drop_last() =~= all.take(i as int));
        assert(all.take(i + 1).last() == elifs@[i as int].view());
        let within = match &elifs[i] {
            elif_statement::Elif { if_statement } => branch_within(if_statement, budget),
        };
        if !within {
            proof {
                lemma_branches_depth_covers(all, i as int);
            }
            return false;
        }
        i = i + 1;
    }
    assert(all.take(elifs@.len() as int) =~= all);
    true
}

/// Whether no statement of a block nests deeper than `budget`.
pub fn block_within(block: &Block, budget: usize) -> (within: bool)
    ensures
        within == (block_depth(block@) <= budget),
    decreases block,
{
    let ghost all = block@;
    let mut i: usize = 0;
    assert(all.take(0) =~= Seq::empty());
    while i < block.statements.len()
        invariant
            0 <= i <= block.statements@.len(),
            all == statements_view(block.statements@),
            block_depth(all.take(i as int)) <= budget,
        decreases block.statements@.len() - i,
    {
        assert(all.take(i + 1).drop_last() =~= all.take(i as int));
        assert(all.take(i + 1).last() == block.statements@[i as int].view());
        if !statement_within(&block.statements[i], budget) {
            proof {
                lemma_block_depth_covers(all, i as int);
            }
            return false;
        }
        i = i + 1;
    }
    assert(all.take(block.statements@.len() as int) =~= all);
    true
}

/// Whether a top-level declaration nests no deeper than `budget`.
pub fn root_within(declaration: &root, budget: usize) -> (within: bool)
    ensures
        within == (root_depth(declaration@) <= budget),
{
    if budget == 0 {
        return false;
    }
    match declaration {
        root::Var(v) => expr_within(&v.expression, budget - 1),
        root::Func(f) => block_within(&f.block, budget - 1),
    }
}

} // verus!
