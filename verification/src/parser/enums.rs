//! The syntax tree, and for each node type the mathematical value that
//! contracts speak of.
//!
//! A tree node owns its children. The model of a node holds the same data with
//! `Seq` in place of `Vec` and of `String`.

use crate::semantics::semantic_analysis::Type;
use vstd::prelude::*;

verus! {

/// A whole program: its top-level declarations in source order.
#[allow(non_camel_case_types)]
pub type root_list = Vec<root>;

/// A top-level declaration.
#[allow(non_camel_case_types)]
#[derive(Debug, PartialEq)]
pub enum root {
    Var(variable_declaration),
    Func(function_statement),
}

/// `type name = expression;`
#[allow(non_camel_case_types)]
#[derive(Debug, PartialEq)]
pub struct variable_declaration {
    pub type_token: Type,
    pub identifier: String,
    pub expression: Expr,
}

/// `fn [type] name(params) { block }`; without a type the function is `Void`.
#[allow(non_camel_case_types)]
#[derive(Debug, PartialEq)]
pub struct function_statement {
    pub type_token: Type,
    pub identifier: String,
    pub params: Vec<param>,
    pub block: Block,
}

/// A parameter of a function: its type and its name.
#[allow(non_camel_case_types)]
#[derive(Debug, PartialEq)]
pub struct param {
    pub type_token: Type,
    pub identifier: String,
}

/// The statements between a pair of braces.
#[derive(Debug, PartialEq)]
pub struct Block {
    pub statements: Vec<statement>,
}

/// A statement of a block.
#[allow(non_camel_case_types)]
#[derive(Debug, PartialEq)]
pub enum statement {
    If(if_statement),
    While(while_statement),
    For(for_statement),
    Var(variable_declaration),
    Expr(Expr),
    Break,
    Continue,
    Return(return_statement),
}

/// `while (condition) { block }`
#[allow(non_camel_case_types)]
#[derive(Debug, PartialEq)]
pub struct while_statement {
    pub condition: Expr,
    pub block: Block,
}

/// `for (init; condition; update) { block }`, each of the three clauses optional.
#[allow(non_camel_case_types)]
#[derive(Debug, PartialEq)]
pub struct for_statement {
    pub init_loop_var: Option<variable_declaration>,
    pub loop_condition: expression_statement,
    pub update_loop_var: Option<Expr>,
    pub block: Block,
}

/// `if`, then any number of `elif`, then at most one `else`.
#[allow(non_camel_case_types)]
#[derive(Debug, PartialEq)]
pub struct if_statement {
    pub if_statement: if_statement_expression,
    pub elif_statement: Vec<elif_statement>,
    pub else_statement: Option<Block>,
}

/// A condition in parentheses and the block it guards.
#[allow(non_camel_case_types)]
#[derive(Debug, PartialEq)]
pub struct if_statement_expression {
    pub condition: Expr,
    pub block: Block,
}

/// An `elif` branch of an `if`.
#[allow(non_camel_case_types)]
#[derive(Debug, PartialEq)]
pub enum elif_statement {
    Elif { if_statement: if_statement_expression },
}

/// `return expr;`
#[allow(non_camel_case_types)]
#[derive(Debug, PartialEq)]
pub struct return_statement {
    pub expr: Expr,
}

/// An expression closed by `;`, or the `;` alone.
#[allow(non_camel_case_types)]
#[derive(Debug, PartialEq)]
pub enum expression_statement {
    Expr(Expr),
    SemiColon,
}

/// An expression.
#[derive(Debug, PartialEq)]
pub enum Expr {
    Literal(Literal),
    Identifier(String),
    BinaryOperation { left: Box<Expr>, operator: binary_operator, right: Box<Expr> },
    UnaryOperation { prefix: unary_operator, operand: Box<Expr> },
    Assignment { left: Box<Expr>, right: Box<Expr> },
    FuncCall(function_call),
}

/// A literal value. A float keeps the decimal text it was written with.
#[derive(Debug, PartialEq)]
pub enum Literal {
    Int(i64),
    Float(String),
    Str(String),
    Bool(bool),
}

/// A call: the name of the callee and the arguments in order.
#[allow(non_camel_case_types)]
#[derive(Debug, PartialEq)]
pub struct function_call {
    pub identifier: String,
    pub args: Vec<Expr>,
}

/// The prefix operators.
#[allow(non_camel_case_types)]
#[derive(Debug, Clone, Copy, PartialEq, Eq, Structural)]
pub enum unary_operator {
    Minus,
    Not,
}

/// The binary operators, from the loosest level to the tightest.
#[allow(non_camel_case_types)]
#[derive(Debug, Clone, Copy, PartialEq, Eq, Structural)]
pub enum binary_operator {
    Or,
    And,
    Equals,
    NotEquals,
    LessThan,
    GreaterThan,
    LessThanEqual,
    GreaterThanEqual,
    LeftShift,
    RightShift,
    Plus,
    Minus,
    Multiply,
    Divide,
    Exponent,
}

/// The model of a [`Literal`].
pub enum LiteralView {
    Int(i64),
    Float(Seq<char>),
    Str(Seq<char>),
    Bool(bool),
}

/// The model of an [`Expr`].
pub enum ExprView {
    Literal(LiteralView),
    Identifier(Seq<char>),
    BinaryOperation { left: Box<ExprView>, operator: binary_operator, right: Box<ExprView> },
    UnaryOperation { prefix: unary_operator, operand: Box<ExprView> },
    Assignment { left: Box<ExprView>, right: Box<ExprView> },
    FuncCall(FunctionCallView),
}

/// The model of a [`function_call`].
pub struct FunctionCallView {
    pub identifier: Seq<char>,
    pub args: Seq<ExprView>,
}

/// The model of a [`variable_declaration`].
pub struct VariableDeclarationView {
    pub declared: Type,
    pub identifier: Seq<char>,
    pub expression: ExprView,
}

/// The model of a [`param`].
pub struct ParamView {
    pub declared: Type,
    pub identifier: Seq<char>,
}

/// A condition and the statements it guards.
pub struct BranchView {
    pub condition: ExprView,
    pub block: Seq<StatementView>,
}

/// The model of an [`if_statement`]: the first branch, the `elif` branches in
/// order, and the block of the `else` if there is one.
pub struct IfView {
    pub first: BranchView,
    pub elifs: Seq<BranchView>,
    pub otherwise: Option<Seq<StatementView>>,
}

/// The model of a [`for_statement`].
pub struct ForView {
    pub init: Option<VariableDeclarationView>,
    pub condition: Option<ExprView>,
    pub update: Option<ExprView>,
    pub block: Seq<StatementView>,
}

/// The model of a [`statement`].
pub enum StatementView {
    If(IfView),
    While(BranchView),
    For(ForView),
    Var(VariableDeclarationView),
    Expr(ExprView),
    Break,
    Continue,
    Return(ExprView),
}

/// The model of a [`function_statement`].
pub struct FunctionView {
    pub return_type: Type,
    pub identifier: Seq<char>,
    pub params: Seq<ParamView>,
    pub block: Seq<StatementView>,
}

/// The model of a [`root`].
pub enum RootView {
    Var(VariableDeclarationView),
    Func(FunctionView),
}

impl Literal {
    pub open spec fn view(&self) -> LiteralView {
        match self {
            Literal::Int(value) => LiteralView::Int(*value),
            Literal::Float(text) => LiteralView::Float(text@),
            Literal::Str(text) => LiteralView::Str(text@),
            Literal::Bool(value) => LiteralView::Bool(*value),
        }
    }
}

impl Expr {
    pub open spec fn view(&self) -> ExprView
        decreases self,
    {
        match self {
            Expr::Literal(literal) => ExprView::Literal(literal@),
            Expr::Identifier(name) => ExprView::Identifier(name@),
            Expr::BinaryOperation { left, operator, right } => ExprView::BinaryOperation {
                left: Box::new(left.view()),
                operator: *operator,
                right: Box::new(right.view()),
            },
            Expr::UnaryOperation { prefix, operand } => ExprView::UnaryOperation {
                prefix: *prefix,
                operand: Box::new(operand.view()),
            },
            Expr::Assignment { left, right } => ExprView::Assignment {
                left: Box::new(left.view()),
                right: Box::new(right.view()),
            },
            Expr::FuncCall(call) => ExprView::FuncCall(call.view()),
        }
    }
}

/// The models of a run of expressions, in order.
pub open spec fn exprs_view(exprs: Seq<Expr>) -> Seq<ExprView>
    decreases exprs,
{
    Seq::new(
        exprs.len(),
        |i: int|
            if 0 <= i < exprs.len() {
                exprs[i].view()
            } else {
                arbitrary()
            },
    )
}

impl function_call {
    pub open spec fn view(&self) -> FunctionCallView
        decreases self,
    {
        FunctionCallView { identifier: self.identifier@, args: exprs_view(self.args@) }
    }
}

impl variable_declaration {
    pub open spec fn view(&self) -> VariableDeclarationView {
        VariableDeclarationView {
            declared: self.type_token,
            identifier: self.identifier@,
            expression: self.expression@,
        }
    }
}

impl param {
    pub open spec fn view(&self) -> ParamView {
        ParamView { declared: self.type_token, identifier: self.identifier@ }
    }
}

impl expression_statement {
    pub open spec fn view(&self) -> Option<ExprView> {
        match self {
            expression_statement::Expr(e) => Some(e@),
            expression_statement::SemiColon => None,
        }
    }
}

impl return_statement {
    pub open spec fn view(&self) -> ExprView {
        self.expr@
    }
}

/// The models of a run of statements, in order.
pub open spec fn statements_view(statements: Seq<statement>) -> Seq<StatementView>
    decreases statements,
{
    Seq::new(
        statements.len(),
        |i: int|
            if 0 <= i < statements.len() {
                statements[i].view()
            } else {
                arbitrary()
            },
    )
}

/// The models of a run of `elif` branches, in order.
pub open spec fn elifs_view(elifs: Seq<elif_statement>) -> Seq<BranchView>
    decreases elifs,
{
    Seq::new(
        elifs.len(),
        |i: int|
            if 0 <= i < elifs.len() {
                elifs[i].view()
            } else {
                arbitrary()
            },
    )
}

/// The models of a run of parameters, in order.
pub open spec fn params_view(params: Seq<param>) -> Seq<ParamView> {
    Seq::new(params.len(), |i: int| params[i]@)
}

impl Block {
    pub open spec fn view(&self) -> Seq<StatementView>
        decreases self,
    {
        statements_view(self.statements@)
    }
}

impl statement {
    pub open spec fn view(&self) -> StatementView
        decreases self,
    {
        match self {
            statement::If(s) => StatementView::If(s.view()),
            statement::While(s) => StatementView::While(s.view()),
            statement::For(s) => StatementView::For(s.view()),
            statement::Var(declaration) => StatementView::Var(declaration@),
            statement::Expr(e) => StatementView::Expr(e@),
            statement::Break => StatementView::Break,
            statement::Continue => StatementView::Continue,
            statement::Return(r) => StatementView::Return(r@),
        }
    }
}

impl while_statement {
    pub open spec fn view(&self) -> BranchView
        decreases self,
    {
        BranchView { condition: self.condition@, block: self.block.view() }
    }
}

impl if_statement_expression {
    pub open spec fn view(&self) -> BranchView
        decreases self,
    {
        BranchView { condition: self.condition@, block: self.block.view() }
    }
}

impl elif_statement {
    pub open spec fn view(&self) -> BranchView
        decreases self,
    {
        match self {
            elif_statement::Elif { if_statement } => if_statement.view(),
        }
    }
}

impl if_statement {
    pub open spec fn view(&self) -> IfView
        decreases self,
    {
        IfView {
            first: self.if_statement.view(),
            elifs: elifs_view(self.elif_statement@),
            otherwise: match self.else_statement {
                Some(block) => Some(block.view()),
                None => None,
            },
        }
    }
}

impl for_statement {
    pub open spec fn view(&self) -> ForView
        decreases self,
    {
        ForView {
            init: match self.init_loop_var {
                Some(declaration) => Some(declaration@),
                None => None,
            },
            condition: self.loop_condition@,
            update: match self.update_loop_var {
                Some(e) => Some(e@),
                None => None,
            },
            block: self.block.view(),
        }
    }
}

impl function_statement {
    pub open spec fn view(&self) -> FunctionView {
        FunctionView {
            return_type: self.type_token,
            identifier: self.identifier@,
            params: params_view(self.params@),
            block: self.block@,
        }
    }
}

impl root {
    pub open spec fn view(&self) -> RootView {
        match self {
            root::Var(declaration) => RootView::Var(declaration@),
            root::Func(function) => RootView::Func(function@),
        }
    }
}

/// The model of a program: the models of its declarations, in order.
pub open spec fn program_view(program: Seq<root>) -> Seq<RootView> {
    Seq::new(program.len(), |i: int| program[i]@)
}

} // verus!
