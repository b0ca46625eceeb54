//! The rules of semantic analysis, as functions on the models of the syntax
//! tree and of the analyzer's state.
//!
//! An expression is looked at in two passes. The scope pass reports names that
//! are undefined or of the wrong kind, and checks the arguments of every call
//! against the callee's parameters. The type pass infers the expression's type
//! bottom-up and reports operands that an operator does not take. Where a type
//! cannot be found it is `Unknown`: the cause has been reported by then, and
//! nothing is reported for the unknown type itself. A statement maps the
//! analyzer's state to a new state: diagnostics are only ever added, and
//! analysis goes on after each of them.

use crate::parser::enums::{
    binary_operator, unary_operator, BranchView, ExprView, ForView, FunctionCallView, FunctionView,
    IfView, LiteralView, ParamView, RootView, StatementView, VariableDeclarationView,
};
use crate::semantics::diagnostics::{Construct, DiagnosticView, Side};
use crate::semantics::semantic_analysis::{
    arithmetic_result, known, mismatched, misses, numeric, Type,
};
use vstd::prelude::*;

verus! {

/// The deepest nesting of expressions and statements that the analyzer
/// follows inside one top-level declaration. Every operator, call and
/// statement is one level; a chain of operators of one level nests as deep
/// as it is long.
pub const MAX_ANALYSIS_DEPTH: usize = 256;

/// The model of what a declared name stands for.
pub enum SymbolTypeView {
    Variable(Type),
    Function { return_type: Type, params: Seq<Type> },
}

/// The model of a declared name.
pub struct SymbolView {
    pub name: Seq<char>,
    pub symbol_type: SymbolTypeView,
}

/// The state of an analyzer: the stack of scopes with the global scope first
/// and the current one last, the diagnostics so far in the order they were
/// found, the return type of the function being analyzed, and the number of
/// loops around the statement being analyzed.
pub struct AnalyzerView {
    pub scopes: Seq<Map<Seq<char>, SymbolView>>,
    pub errors: Seq<DiagnosticView>,
    pub current_function_return_type: Option<Type>,
    pub loop_depth: nat,
}

/// The symbol that a name stands for: the one in the innermost scope that
/// holds the name.
pub open spec fn lookup_in(scopes: Seq<Map<Seq<char>, SymbolView>>, name: Seq<char>) -> Option<
    SymbolView,
>
    decreases scopes.len(),
{
    if scopes.len() == 0 {
        None
    } else if scopes.last().contains_key(name) {
        Some(scopes.last()[name])
    } else {
        lookup_in(scopes.drop_last(), name)
    }
}

/// The diagnostic for declaring `name` as `declared` where it stands as
/// `existing` in the same scope.
pub open spec fn redeclaration(
    existing: SymbolTypeView,
    declared: SymbolTypeView,
    name: Seq<char>,
) -> DiagnosticView {
    match (existing, declared) {
        (
            SymbolTypeView::Function { .. },
            SymbolTypeView::Function { .. },
        ) => DiagnosticView::FunctionRedefined { name },
        (
            SymbolTypeView::Variable(_),
            SymbolTypeView::Variable(_),
        ) => DiagnosticView::VariableRedeclared { name },
        (
            SymbolTypeView::Function { .. },
            SymbolTypeView::Variable(_),
        ) => DiagnosticView::FunctionRedeclaredAsVariable { name },
        (
            SymbolTypeView::Variable(_),
            SymbolTypeView::Function { .. },
        ) => DiagnosticView::VariableRedefinedAsFunction { name },
    }
}

impl AnalyzerView {
    /// A fresh analyzer: the global scope alone, and nothing reported.
    pub open spec fn initial() -> AnalyzerView {
        AnalyzerView {
            scopes: seq![Map::empty()],
            errors: Seq::empty(),
            current_function_return_type: None,
            loop_depth: 0,
        }
    }

    /// Adds a diagnostic at the end.
    pub open spec fn report(self, diagnostic: DiagnosticView) -> AnalyzerView {
        AnalyzerView { errors: self.errors.push(diagnostic), ..self }
    }

    /// Adds diagnostics at the end, in their order.
    pub open spec fn report_all(self, diagnostics: Seq<DiagnosticView>) -> AnalyzerView {
        AnalyzerView { errors: self.errors + diagnostics, ..self }
    }

    /// Adds a diagnostic at the end if the condition holds.
    pub open spec fn report_if(self, condition: bool, diagnostic: DiagnosticView) -> AnalyzerView {
        if condition {
            self.report(diagnostic)
        } else {
            self
        }
    }

    /// Opens an empty scope inside the current one.
    pub open spec fn enter_scope(self) -> AnalyzerView {
        AnalyzerView { scopes: self.scopes.push(Map::empty()), ..self }
    }

    /// Closes the current scope and forgets its names.
    pub open spec fn exit_scope(self) -> AnalyzerView {
        if self.scopes.len() == 0 {
            self
        } else {
            AnalyzerView { scopes: self.scopes.drop_last(), ..self }
        }
    }

    /// Counts one loop more around what follows.
    pub open spec fn enter_loop(self) -> AnalyzerView {
        AnalyzerView { loop_depth: self.loop_depth + 1, ..self }
    }

    /// Counts one loop less around what follows.
    pub open spec fn exit_loop(self) -> AnalyzerView {
        AnalyzerView { loop_depth: (self.loop_depth - 1) as nat, ..self }
    }

    /// Sets the return type that `return` statements are held against.
    pub open spec fn with_return_type(self, return_type: Option<Type>) -> AnalyzerView {
        AnalyzerView { current_function_return_type: return_type, ..self }
    }

    /// The symbol that a name stands for, if it is declared.
    pub open spec fn lookup(self, name: Seq<char>) -> Option<SymbolView> {
        lookup_in(self.scopes, name)
    }

    /// Declares a name in the current scope. A name that the current scope
    /// holds already is reported and keeps its first meaning; a name that only
    /// outer scopes hold is shadowed without a diagnostic.
    pub open spec fn declare(self, name: Seq<char>, symbol: SymbolView) -> AnalyzerView {
        if self.scopes.len() == 0 {
            self
        } else if self.scopes.last().contains_key(name) {
            self.report(redeclaration(self.scopes.last()[name].symbol_type, symbol.symbol_type, name))
        } else {
            AnalyzerView {
                scopes: self.scopes.update(
                    self.scopes.len() - 1,
                    self.scopes.last().insert(name, symbol),
                ),
                ..self
            }
        }
    }

    /// Declares a name as a variable of the given type.
    pub open spec fn declare_variable(self, name: Seq<char>, declared: Type) -> AnalyzerView {
        self.declare(name, SymbolView { name, symbol_type: SymbolTypeView::Variable(declared) })
    }
}

/// The type of a literal.
pub open spec fn literal_type(literal: LiteralView) -> Type {
    match literal {
        LiteralView::Int(_) => Type::Int,
        LiteralView::Float(_) => Type::Float,
        LiteralView::Str(_) => Type::String,
        LiteralView::Bool(_) => Type::Bool,
    }
}

/// The classes of binary operators, each with its own typing rule.
pub enum OperatorClass {
    Arithmetic,
    Comparison,
    Logical,
    Shift,
}

/// The class of a binary operator.
pub open spec fn operator_class(operator: binary_operator) -> OperatorClass {
    match operator {
        binary_operator::Plus | binary_operator::Minus | binary_operator::Multiply
        | binary_operator::Divide | binary_operator::Exponent => OperatorClass::Arithmetic,
        binary_operator::Equals | binary_operator::NotEquals | binary_operator::LessThan
        | binary_operator::GreaterThan | binary_operator::LessThanEqual
        | binary_operator::GreaterThanEqual => OperatorClass::Comparison,
        binary_operator::And | binary_operator::Or => OperatorClass::Logical,
        binary_operator::LeftShift | binary_operator::RightShift => OperatorClass::Shift,
    }
}

/// The type of a binary operation on operands of the given types.
pub open spec fn binary_type(operator: binary_operator, left: Type, right: Type) -> Type {
    match operator_class(operator) {
        OperatorClass::Arithmetic => arithmetic_result(left, right),
        OperatorClass::Comparison => Type::Bool,
        OperatorClass::Logical => Type::Bool,
        OperatorClass::Shift => Type::Int,
    }
}

/// Whether an arithmetic operation on operands of these types is reported:
/// when both types are known and one of them is not numeric.
pub open spec fn arithmetic_mismatch(left: Type, right: Type) -> bool {
    known(left) && known(right) && !(numeric(left) && numeric(right))
}

/// What a binary operation on operands of the given types is reported for.
/// An operand of unknown type is never reported.
pub open spec fn binary_diagnostics(operator: binary_operator, left: Type, right: Type) -> Seq<
    DiagnosticView,
> {
    match operator_class(operator) {
        OperatorClass::Arithmetic => if arithmetic_mismatch(left, right) {
            seq![DiagnosticView::ArithmeticMismatch { left, right }]
        } else {
            Seq::empty()
        },
        OperatorClass::Comparison => if mismatched(left, right) {
            seq![DiagnosticView::ComparisonMismatch { left, right }]
        } else {
            Seq::empty()
        },
        OperatorClass::Logical => (if misses(left, Type::Bool) {
            seq![DiagnosticView::LogicalOperand { found: left, side: Side::Left }]
        } else {
            Seq::empty()
        }) + (if misses(right, Type::Bool) {
            seq![DiagnosticView::LogicalOperand { found: right, side: Side::Right }]
        } else {
            Seq::empty()
        }),
        OperatorClass::Shift => (if misses(left, Type::Int) {
            seq![DiagnosticView::ShiftOperand { found: left }]
        } else {
            Seq::empty()
        }) + (if misses(right, Type::Int) {
            seq![DiagnosticView::ShiftOperand { found: right }]
        } else {
            Seq::empty()
        }),
    }
}

/// The type of a prefix operation: that of a numeric operand for `-`, `Bool`
/// for `!`.
pub open spec fn unary_type(prefix: unary_operator, operand: Type) -> Type {
    match prefix {
        unary_operator::Minus => if numeric(operand) {
            operand
        } else {
            Type::Unknown
        },
        unary_operator::Not => Type::Bool,
    }
}

/// What a prefix operation is reported for: `-` before an operand of a known
/// type that is not numeric, `!` before one of a known type that is not
/// `Bool`.
pub open spec fn unary_diagnostics(prefix: unary_operator, operand: Type) -> Seq<DiagnosticView> {
    match prefix {
        unary_operator::Minus => if known(operand) && !numeric(operand) {
            seq![DiagnosticView::UnaryMinusOperand { found: operand }]
        } else {
            Seq::empty()
        },
        unary_operator::Not => if misses(operand, Type::Bool) {
            seq![DiagnosticView::LogicalNotOperand { found: operand }]
        } else {
            Seq::empty()
        },
    }
}

/// The type of an expression in the given scopes; `Unknown` where a name does
/// not resolve to what is needed or an operator does not take its operands.
pub open spec fn expr_type(scopes: Seq<Map<Seq<char>, SymbolView>>, e: ExprView) -> Type
    decreases e,
{
    match e {
        ExprView::Literal(literal) => literal_type(literal),
        ExprView::Identifier(name) => match lookup_in(scopes, name) {
            Some(SymbolView { symbol_type: SymbolTypeView::Variable(declared), .. }) => declared,
            _ => Type::Unknown,
        },
        ExprView::BinaryOperation { left, operator, right } => binary_type(
            operator,
            expr_type(scopes, *left),
            expr_type(scopes, *right),
        ),
        ExprView::UnaryOperation { prefix, operand } => unary_type(
            prefix,
            expr_type(scopes, *operand),
        ),
        ExprView::Assignment { left, right } => expr_type(scopes, *left),
        ExprView::FuncCall(call) => match lookup_in(scopes, call.identifier) {
            Some(
                SymbolView { symbol_type: SymbolTypeView::Function { return_type, .. }, .. },
            ) => return_type,
            _ => Type::Unknown,
        },
    }
}

/// What the type pass reports in an expression: for every operator, after the
/// reports of its operands, what the operator itself is reported for. The
/// arguments of a call are not entered.
pub open spec fn type_diagnostics(scopes: Seq<Map<Seq<char>, SymbolView>>, e: ExprView) -> Seq<
    DiagnosticView,
>
    decreases e,
{
    match e {
        ExprView::Literal(_) => Seq::empty(),
        ExprView::Identifier(_) => Seq::empty(),
        ExprView::BinaryOperation { left, operator, right } => type_diagnostics(scopes, *left)
            + type_diagnostics(scopes, *right) + binary_diagnostics(
            operator,
            expr_type(scopes, *left),
            expr_type(scopes, *right),
        ),
        ExprView::UnaryOperation { prefix, operand } => type_diagnostics(scopes, *operand)
            + unary_diagnostics(prefix, expr_type(scopes, *operand)),
        ExprView::Assignment { left, right } => type_diagnostics(scopes, *left) + type_diagnostics(
            scopes,
            *right,
        ) + (if mismatched(expr_type(scopes, *left), expr_type(scopes, *right)) {
            seq![
                DiagnosticView::AssignmentMismatch {
                    value: expr_type(scopes, *right),
                    target: expr_type(scopes, *left),
                },
            ]
        } else {
            Seq::empty()
        }),
        ExprView::FuncCall(_) => Seq::empty(),
    }
}

/// What the scope pass reports in an expression.
pub open spec fn scope_diagnostics(scopes: Seq<Map<Seq<char>, SymbolView>>, e: ExprView) -> Seq<
    DiagnosticView,
>
    decreases e,
{
    match e {
        ExprView::Literal(_) => Seq::empty(),
        ExprView::Identifier(name) => match lookup_in(scopes, name) {
            None => seq![DiagnosticView::UndefinedVariable { name }],
            Some(SymbolView { symbol_type: SymbolTypeView::Function { .. }, .. }) => seq![
                DiagnosticView::FunctionUsedAsVariable { name },
            ],
            Some(_) => Seq::empty(),
        },
        ExprView::BinaryOperation { left, operator, right } => scope_diagnostics(scopes, *left)
            + scope_diagnostics(scopes, *right),
        ExprView::UnaryOperation { prefix, operand } => scope_diagnostics(scopes, *operand),
        ExprView::Assignment { left, right } => scope_diagnostics(scopes, *left)
            + scope_diagnostics(scopes, *right),
        ExprView::FuncCall(call) => call_diagnostics(scopes, call),
    }
}

/// What the callee of a call is reported for: a name that is undefined or
/// stands for a variable.
pub open spec fn callee_diagnostics(
    scopes: Seq<Map<Seq<char>, SymbolView>>,
    name: Seq<char>,
) -> Seq<DiagnosticView> {
    match lookup_in(scopes, name) {
        None => seq![DiagnosticView::UndefinedFunction { name }],
        Some(SymbolView { symbol_type: SymbolTypeView::Variable(_), .. }) => seq![
            DiagnosticView::VariableUsedAsFunction { name },
        ],
        Some(_) => Seq::empty(),
    }
}

/// The parameter types of the function that a name stands for, if it stands
/// for one.
pub open spec fn callee_parameters(
    scopes: Seq<Map<Seq<char>, SymbolView>>,
    name: Seq<char>,
) -> Option<Seq<Type>> {
    match lookup_in(scopes, name) {
        Some(SymbolView { symbol_type: SymbolTypeView::Function { params, .. }, .. }) => Some(
            params,
        ),
        _ => None,
    }
}

/// What a call is reported for: first its callee, then the scope pass of each
/// argument, then, where the callee is a function, either the wrong number of
/// arguments or each argument's type pass and its mismatch with the parameter
/// in its place.
pub open spec fn call_diagnostics(
    scopes: Seq<Map<Seq<char>, SymbolView>>,
    call: FunctionCallView,
) -> Seq<DiagnosticView>
    decreases call,
{
    callee_diagnostics(scopes, call.identifier) + arguments_scope_diagnostics(scopes, call.args)
        + (match callee_parameters(scopes, call.identifier) {
        None => Seq::empty(),
        Some(params) => if call.args.len() != params.len() {
            seq![
                DiagnosticView::ArgumentCountMismatch {
                    name: call.identifier,
                    parameters: params.len(),
                    arguments: call.args.len(),
                },
            ]
        } else {
            arguments_type_diagnostics(scopes, call.identifier, call.args, params)
        },
    })
}

/// The scope pass of each argument, in order.
pub open spec fn arguments_scope_diagnostics(
    scopes: Seq<Map<Seq<char>, SymbolView>>,
    args: Seq<ExprView>,
) -> Seq<DiagnosticView>
    decreases args,
{
    if args.len() == 0 {
        Seq::empty()
    } else {
        arguments_scope_diagnostics(scopes, args.drop_last()) + scope_diagnostics(
            scopes,
            args.last(),
        )
    }
}

/// For each argument in order, its type pass and then its mismatch with the
/// parameter in the same place, if there is one. An argument of unknown type
/// is not held against its parameter.
pub open spec fn arguments_type_diagnostics(
    scopes: Seq<Map<Seq<char>, SymbolView>>,
    name: Seq<char>,
    args: Seq<ExprView>,
    params: Seq<Type>,
) -> Seq<DiagnosticView>
    decreases args.len(),
{
    if args.len() == 0 || params.len() < args.len() {
        Seq::empty()
    } else {
        let last = args.last();
        let expected = params[args.len() - 1];
        arguments_type_diagnostics(scopes, name, args.drop_last(), params) + type_diagnostics(
            scopes,
            last,
        ) + (if mismatched(expected, expr_type(scopes, last)) {
            seq![
                DiagnosticView::ArgumentTypeMismatch {
                    name,
                    position: args.len(),
                    expected,
                    found: expr_type(scopes, last),
                },
            ]
        } else {
            Seq::empty()
        })
    }
}

/// Both passes over an expression: the scope pass, then the type pass.
pub open spec fn check_expression(state: AnalyzerView, e: ExprView) -> AnalyzerView {
    state.report_all(scope_diagnostics(state.scopes, e)).report_all(
        type_diagnostics(state.scopes, e),
    )
}

/// A condition is checked as an expression and must then be `Bool`; a
/// condition of unknown type is let through.
pub open spec fn check_condition(
    state: AnalyzerView,
    condition: ExprView,
    construct: Construct,
) -> AnalyzerView {
    let found = expr_type(state.scopes, condition);
    check_expression(state, condition).report_if(
        misses(found, Type::Bool),
        DiagnosticView::ConditionNotBoolean { construct, found },
    )
}

/// The diagnostic for an initializer of type `found` that the declared type
/// of `declaration` does not take.
pub open spec fn initializer_mismatch(
    declaration: VariableDeclarationView,
    found: Type,
    in_for: bool,
) -> DiagnosticView {
    if in_for {
        DiagnosticView::ForInitializerMismatch {
            name: declaration.identifier,
            expected: declaration.declared,
            found,
        }
    } else {
        DiagnosticView::VariableInitializerMismatch {
            name: declaration.identifier,
            expected: declaration.declared,
            found,
        }
    }
}

/// A variable declaration: the initializer is checked and, where its type is
/// known, compared with the declared type; then the name is declared,
/// whatever the checks found.
pub open spec fn analyze_declaration_spec(
    state: AnalyzerView,
    declaration: VariableDeclarationView,
    in_for: bool,
) -> AnalyzerView {
    let found = expr_type(state.scopes, declaration.expression);
    check_expression(state, declaration.expression).report_if(
        mismatched(declaration.declared, found),
        initializer_mismatch(declaration, found, in_for),
    ).declare_variable(declaration.identifier, declaration.declared)
}

/// A return statement: the expression is checked and, where its type is
/// known, compared with the return type of the function around it.
pub open spec fn analyze_return_spec(state: AnalyzerView, e: ExprView) -> AnalyzerView {
    let found = expr_type(state.scopes, e);
    match state.current_function_return_type {
        Some(expected) => check_expression(state, e).report_if(
            mismatched(expected, found),
            DiagnosticView::ReturnMismatch { expected, found },
        ),
        None => check_expression(state, e),
    }
}

/// Whether a statement returns on every path through it, as far as its shape
/// shows: a `return` does; an `if` does when it has an `else` and each of its
/// blocks holds a statement that does; a loop never does.
pub open spec fn statement_returns(s: StatementView) -> bool
    decreases s,
{
    match s {
        StatementView::Return(_) => true,
        StatementView::If(i) => {
            &&& block_returns(i.first.block)
            &&& branches_return(i.elifs)
            &&& match i.otherwise {
                Some(block) => block_returns(block),
                None => false,
            }
        },
        _ => false,
    }
}

/// Whether one of the statements of a block returns on every path.
pub open spec fn block_returns(block: Seq<StatementView>) -> bool
    decreases block,
{
    if block.len() == 0 {
        false
    } else {
        block_returns(block.drop_last()) || statement_returns(block.last())
    }
}

/// Whether the block of every one of the branches returns on every path.
pub open spec fn branches_return(branches: Seq<BranchView>) -> bool
    decreases branches,
{
    if branches.len() == 0 {
        true
    } else {
        branches_return(branches.drop_last()) && block_returns(branches.last().block)
    }
}

/// A block in a scope of its own.
pub open spec fn analyze_scoped_block_spec(
    state: AnalyzerView,
    block: Seq<StatementView>,
) -> AnalyzerView
    decreases block, 1nat,
{
    analyze_block_spec(state.enter_scope(), block).exit_scope()
}

/// The statements of a block one after the other.
pub open spec fn analyze_block_spec(state: AnalyzerView, block: Seq<StatementView>) -> AnalyzerView
    decreases block, 0nat,
{
    if block.len() == 0 {
        state
    } else {
        analyze_statement_spec(analyze_block_spec(state, block.drop_last()), block.last())
    }
}

/// A statement. An expression statement is checked like every expression,
/// by both passes; `break` and `continue` are reported where no loop is
/// around them.
pub open spec fn analyze_statement_spec(state: AnalyzerView, s: StatementView) -> AnalyzerView
    decreases s, 0nat,
{
    match s {
        StatementView::Var(declaration) => analyze_declaration_spec(state, declaration, false),
        StatementView::Expr(e) => check_expression(state, e),
        StatementView::Return(e) => analyze_return_spec(state, e),
        StatementView::Break => state.report_if(
            state.loop_depth == 0,
            DiagnosticView::BreakOutsideLoop,
        ),
        StatementView::Continue => state.report_if(
            state.loop_depth == 0,
            DiagnosticView::ContinueOutsideLoop,
        ),
        StatementView::If(i) => analyze_if_statement_spec(state, i),
        StatementView::While(w) => analyze_while_statement_spec(state, w),
        StatementView::For(f) => analyze_for_statement_spec(state, f),
    }
}

/// An `if` statement: each condition is checked where it stands, and each
/// block is analyzed in a scope of its own.
pub open spec fn analyze_if_statement_spec(state: AnalyzerView, i: IfView) -> AnalyzerView
    decreases i, 0nat,
{
    let after_first = analyze_scoped_block_spec(
        check_condition(state, i.first.condition, Construct::If),
        i.first.block,
    );
    let after_elifs = analyze_elifs_spec(after_first, i.elifs);
    match i.otherwise {
        Some(block) => analyze_scoped_block_spec(after_elifs, block),
        None => after_elifs,
    }
}

/// The `elif` branches of an `if`, one after the other.
pub open spec fn analyze_elifs_spec(state: AnalyzerView, elifs: Seq<BranchView>) -> AnalyzerView
    decreases elifs, 0nat,
{
    if elifs.len() == 0 {
        state
    } else {
        let before = analyze_elifs_spec(state, elifs.drop_last());
        analyze_scoped_block_spec(
            check_condition(before, elifs.last().condition, Construct::Elif),
            elifs.last().block,
        )
    }
}

/// A `while` statement: the condition is checked outside the loop's scope,
/// the block inside it and inside the loop.
pub open spec fn analyze_while_statement_spec(state: AnalyzerView, w: BranchView) -> AnalyzerView
    decreases w, 0nat,
{
    analyze_block_spec(
        check_condition(state, w.condition, Construct::While).enter_scope().enter_loop(),
        w.block,
    ).exit_loop().exit_scope()
}

/// The clauses of a `for`, in the loop's scope: the declaration, the
/// condition, and the update, checked like every expression.
pub open spec fn analyze_for_clauses_spec(state: AnalyzerView, f: ForView) -> AnalyzerView {
    let after_init = match f.init {
        Some(declaration) => analyze_declaration_spec(state, declaration, true),
        None => state,
    };
    let after_condition = match f.condition {
        Some(condition) => check_condition(after_init, condition, Construct::For),
        None => after_init,
    };
    match f.update {
        Some(update) => check_expression(after_condition, update),
        None => after_condition,
    }
}

/// A `for` statement: one scope spans the clauses and the block, so that the
/// loop variable is seen in all of them.
pub open spec fn analyze_for_statement_spec(state: AnalyzerView, f: ForView) -> AnalyzerView
    decreases f, 0nat,
{
    analyze_block_spec(
        analyze_for_clauses_spec(state.enter_scope(), f).enter_loop(),
        f.block,
    ).exit_loop().exit_scope()
}

/// The declared types of a run of parameters, in order.
pub open spec fn parameter_types(params: Seq<ParamView>) -> Seq<Type> {
    Seq::new(params.len(), |i: int| params[i].declared)
}

/// The symbol that a function is declared as.
pub open spec fn function_symbol(f: FunctionView) -> SymbolView {
    SymbolView {
        name: f.identifier,
        symbol_type: SymbolTypeView::Function {
            return_type: f.return_type,
            params: parameter_types(f.params),
        },
    }
}

/// The parameters of a function, declared as variables one after the other.
pub open spec fn declare_parameters(state: AnalyzerView, params: Seq<ParamView>) -> AnalyzerView
    decreases params.len(),
{
    if params.len() == 0 {
        state
    } else {
        declare_parameters(state, params.drop_last()).declare_variable(
            params.last().identifier,
            params.last().declared,
        )
    }
}

/// The body of a function, in the function's scope: the parameters are
/// declared, the block is analyzed, and a function that is not `Void` is
/// reported if its block does not return on every path.
pub open spec fn analyze_function_body_spec(state: AnalyzerView, f: FunctionView) -> AnalyzerView {
    analyze_block_spec(
        declare_parameters(
            state.with_return_type(Some(f.return_type)).enter_scope(),
            f.params,
        ),
        f.block,
    ).report_if(
        f.return_type != Type::Void && !block_returns(f.block),
        DiagnosticView::MissingReturn { name: f.identifier, return_type: f.return_type },
    ).exit_scope().with_return_type(None)
}

/// A function: its name is declared in the scope around it before its body
/// is entered, so that the body may call the function itself.
pub open spec fn analyze_function_spec(state: AnalyzerView, f: FunctionView) -> AnalyzerView {
    analyze_function_body_spec(state.declare(f.identifier, function_symbol(f)), f)
}

/// The larger of two numbers.
pub open spec fn larger(a: nat, b: nat) -> nat {
    if a >= b {
        a
    } else {
        b
    }
}

/// How deep an expression nests: 1 for a literal or a name, and one more than
/// its deepest part for everything else.
pub open spec fn expr_depth(e: ExprView) -> nat
    decreases e,
{
    match e {
        ExprView::Literal(_) => 1,
        ExprView::Identifier(_) => 1,
        ExprView::BinaryOperation { left, operator, right } => 1 + larger(
            expr_depth(*left),
            expr_depth(*right),
        ),
        ExprView::UnaryOperation { prefix, operand } => 1 + expr_depth(*operand),
        ExprView::Assignment { left, right } => 1 + larger(expr_depth(*left), expr_depth(*right)),
        ExprView::FuncCall(call) => 1 + exprs_depth(call.args),
    }
}

/// The depth of the deepest of a run of expressions; 0 for none.
pub open spec fn exprs_depth(exprs: Seq<ExprView>) -> nat
    decreases exprs,
{
    if exprs.len() == 0 {
        0
    } else {
        larger(exprs_depth(exprs.drop_last()), expr_depth(exprs.last()))
    }
}

/// The depth of an expression that may be absent; 0 for none.
pub open spec fn optional_expr_depth(e: Option<ExprView>) -> nat {
    match e {
        Some(e) => expr_depth(e),
        None => 0,
    }
}

/// How deep a statement nests: one more than its deepest expression or inner
/// statement.
pub open spec fn statement_depth(s: StatementView) -> nat
    decreases s,
{
    match s {
        StatementView::Var(declaration) => 1 + expr_depth(declaration.expression),
        StatementView::Expr(e) => 1 + expr_depth(e),
        StatementView::Return(e) => 1 + expr_depth(e),
        StatementView::Break => 1,
        StatementView::Continue => 1,
        StatementView::If(i) => 1 + larger(
            larger(branch_depth(i.first), branches_depth(i.elifs)),
            match i.otherwise {
                Some(block) => block_depth(block),
                None => 0,
            },
        ),
        StatementView::While(w) => 1 + branch_depth(w),
        StatementView::For(f) => 1 + larger(
            larger(
                match f.init {
                    Some(declaration) => expr_depth(declaration.expression),
                    None => 0,
                },
                optional_expr_depth(f.condition),
            ),
            larger(optional_expr_depth(f.update), block_depth(f.block)),
        ),
    }
}

/// The depth of the deepest statement of a block; 0 for an empty block.
pub open spec fn block_depth(block: Seq<StatementView>) -> nat
    decreases block,
{
    if block.len() == 0 {
        0
    } else {
        larger(block_depth(block.drop_last()), statement_depth(block.last()))
    }
}

/// The depth of the deeper of a branch's condition and block.
pub open spec fn branch_depth(branch: BranchView) -> nat
    decreases branch,
{
    larger(expr_depth(branch.condition), block_depth(branch.block))
}

/// The depth of the deepest of a run of branches; 0 for none.
pub open spec fn branches_depth(branches: Seq<BranchView>) -> nat
    decreases branches,
{
    if branches.len() == 0 {
        0
    } else {
        larger(branches_depth(branches.drop_last()), branch_depth(branches.last()))
    }
}

/// How deep a top-level declaration nests.
pub open spec fn root_depth(root: RootView) -> nat {
    match root {
        RootView::Var(declaration) => 1 + expr_depth(declaration.expression),
        RootView::Func(f) => 1 + block_depth(f.block),
    }
}

/// The name that a top-level declaration declares.
pub open spec fn root_name(root: RootView) -> Seq<char> {
    match root {
        RootView::Var(declaration) => declaration.identifier,
        RootView::Func(f) => f.identifier,
    }
}

/// What is left of a declaration that nests too deep: its name is declared,
/// its inside is not looked at.
pub open spec fn declare_root(state: AnalyzerView, root: RootView) -> AnalyzerView {
    match root {
        RootView::Var(declaration) => state.declare_variable(
            declaration.identifier,
            declaration.declared,
        ),
        RootView::Func(f) => state.declare(f.identifier, function_symbol(f)),
    }
}

/// Whether the analyzer follows a declaration to its full depth from the
/// given state.
pub open spec fn within_depth(state: AnalyzerView, root: RootView) -> bool {
    state.loop_depth + root_depth(root) <= MAX_ANALYSIS_DEPTH
}

/// A top-level declaration. One that nests deeper than the analyzer follows
/// is reported and declared by its name alone.
pub open spec fn analyze_root_spec(state: AnalyzerView, root: RootView) -> AnalyzerView {
    if within_depth(state, root) {
        match root {
            RootView::Var(declaration) => analyze_declaration_spec(state, declaration, false),
            RootView::Func(f) => analyze_function_spec(state, f),
        }
    } else {
        declare_root(state.report(DiagnosticView::NestingTooDeep { name: root_name(root) }), root)
    }
}

/// The declarations of a program in source order. A name is known from its
/// declaration on: a call of a function that is declared further down does
/// not resolve.
pub open spec fn analyze_program_spec(state: AnalyzerView, program: Seq<RootView>) -> AnalyzerView
    decreases program.len(),
{
    if program.len() == 0 {
        state
    } else {
        analyze_root_spec(analyze_program_spec(state, program.drop_last()), program.last())
    }
}

/// No statement of a block nests deeper than the block.
pub proof fn lemma_block_depth_covers(block: Seq<StatementView>, i: int)
    requires
        0 <= i < block.len(),
    ensures
        statement_depth(block[i]) <= block_depth(block),
        block_depth(block.take(i)) <= block_depth(block),
    decreases block.len(),
{
    if i == block.len() - 1 {
        assert(block.take(i) =~= block.drop_last());
    } else {
        lemma_block_depth_covers(block.drop_last(), i);
        assert(block.drop_last().take(i) =~= block.take(i));
    }
}

/// No branch of a run nests deeper than the run.
pub proof fn lemma_branches_depth_covers(branches: Seq<BranchView>, i: int)
    requires
        0 <= i < branches.len(),
    ensures
        branch_depth(branches[i]) <= branches_depth(branches),
    decreases branches.len(),
{
    if i < branches.len() - 1 {
        lemma_branches_depth_covers(branches.drop_last(), i);
    }
}

} // verus!
