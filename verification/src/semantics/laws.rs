//! Laws of semantic analysis, proved from the rules.

use crate::parser::enums::{
    binary_operator, unary_operator, BranchView, ExprView, ForView, FunctionCallView, FunctionView, IfView,
    LiteralView, ParamView, RootView, StatementView, VariableDeclarationView,
};
use crate::semantics::diagnostics::{diagnostic_types, Construct, DiagnosticView};
use crate::semantics::rules::{
    analyze_block_spec, analyze_declaration_spec, analyze_elifs_spec, analyze_for_clauses_spec,
    analyze_for_statement_spec, analyze_function_body_spec, analyze_function_spec,
    analyze_if_statement_spec, analyze_program_spec, analyze_return_spec, analyze_root_spec,
    analyze_scoped_block_spec, analyze_statement_spec, analyze_while_statement_spec,
    arguments_scope_diagnostics, arguments_type_diagnostics, binary_diagnostics, block_returns,
    call_diagnostics, callee_diagnostics, callee_parameters, check_condition, check_expression,
    declare_parameters, declare_root, expr_type, function_symbol, initializer_mismatch,
    literal_type, redeclaration, root_name, scope_diagnostics, statement_returns,
    type_diagnostics, unary_diagnostics, within_depth, AnalyzerView, SymbolTypeView, SymbolView,
};
use crate::semantics::semantic_analysis::{
    arithmetic_result, compatible, known, mismatched, numeric, Type,
};
use vstd::prelude::*;

verus! {

/// `after` is `before` with diagnostics added at the end and nothing else
/// changed but the contents of its current scope.
pub open spec fn extends(before: AnalyzerView, after: AnalyzerView) -> bool {
    &&& before.errors.is_prefix_of(after.errors)
    &&& after.scopes.len() == before.scopes.len()
    &&& forall|i: int| 0 <= i < before.scopes.len() - 1 ==> after.scopes[i] == before.scopes[i]
    &&& after.loop_depth == before.loop_depth
    &&& after.current_function_return_type == before.current_function_return_type
}

/// Declaring a name that the current scope holds reports exactly one
/// redeclaration and leaves every scope as it was.
pub proof fn lemma_redeclaration_reported_once(
    state: AnalyzerView,
    name: Seq<char>,
    symbol: SymbolView,
)
    requires
        state.scopes.len() > 0,
        state.scopes.last().contains_key(name),
    ensures
        state.declare(name, symbol).scopes == state.scopes,
        state.declare(name, symbol).errors == state.errors.push(
            redeclaration(state.scopes.last()[name].symbol_type, symbol.symbol_type, name),
        ),
{
}

/// Declaring a name that the current scope does not hold reports nothing,
/// whatever the scopes around it hold, and makes the name stand for the new
/// symbol.
pub proof fn lemma_fresh_declaration_is_silent(
    state: AnalyzerView,
    name: Seq<char>,
    symbol: SymbolView,
)
    requires
        state.scopes.len() > 0,
        !state.scopes.last().contains_key(name),
    ensures
        state.declare(name, symbol).errors == state.errors,
        state.declare(name, symbol).lookup(name) == Some(symbol),
{
    let after = state.declare(name, symbol);
    assert(after.scopes.last().contains_key(name));
}

/// A name may be declared in a new scope without a diagnostic, whatever it
/// stands for outside: the inner declaration shadows the outer one, and the
/// outer scopes are as before once the new scope is left.
pub proof fn lemma_shadowing_is_silent(state: AnalyzerView, name: Seq<char>, symbol: SymbolView)
    ensures
        state.enter_scope().declare(name, symbol).errors == state.errors,
        state.enter_scope().declare(name, symbol).lookup(name) == Some(symbol),
        state.enter_scope().declare(name, symbol).exit_scope().scopes == state.scopes,
{
    let inner = state.enter_scope();
    assert(!inner.scopes.last().contains_key(name));
    lemma_fresh_declaration_is_silent(inner, name, symbol);
    assert(inner.declare(name, symbol).exit_scope().scopes =~= state.scopes);
}

/// After a variable declaration the current scope holds the variable's name,
/// whatever the declaration was reported for.
pub proof fn lemma_declaration_declares(
    state: AnalyzerView,
    declaration: VariableDeclarationView,
    in_for: bool,
)
    requires
        state.scopes.len() > 0,
    ensures
        analyze_declaration_spec(state, declaration, in_for).scopes.len() == state.scopes.len(),
        analyze_declaration_spec(state, declaration, in_for).scopes.last().contains_key(
            declaration.identifier,
        ),
{
}

/// A second declaration of a name in one block adds, to what its own
/// initializer is reported for, exactly one redeclaration.
pub proof fn lemma_second_declaration_reported_once(
    state: AnalyzerView,
    first: VariableDeclarationView,
    second: VariableDeclarationView,
)
    requires
        state.scopes.len() > 0,
        first.identifier == second.identifier,
    ensures
        ({
            let between = analyze_declaration_spec(state, first, false);
            let found = expr_type(between.scopes, second.expression);
            let checked = check_expression(between, second.expression).report_if(
                mismatched(second.declared, found),
                initializer_mismatch(second, found, false),
            );
            let after = analyze_declaration_spec(between, second, false);
            &&& after.scopes == between.scopes
            &&& after.errors == checked.errors.push(
                redeclaration(
                    between.scopes.last()[second.identifier].symbol_type,
                    SymbolTypeView::Variable(second.declared),
                    second.identifier,
                ),
            )
        }),
{
    lemma_declaration_declares(state, first, false);
}

/// A declaration alone in a block of its own is reported for its initializer
/// only, also where the name is declared outside the block.
pub proof fn lemma_declaration_in_inner_block(
    state: AnalyzerView,
    declaration: VariableDeclarationView,
)
    ensures
        ({
            let inner = state.enter_scope();
            let found = expr_type(inner.scopes, declaration.expression);
            analyze_scoped_block_spec(state, seq![StatementView::Var(declaration)]).errors
                == check_expression(inner, declaration.expression).report_if(
                mismatched(declaration.declared, found),
                initializer_mismatch(declaration, found, false),
            ).errors
        }),
{
    let inner = state.enter_scope();
    let block = seq![StatementView::Var(declaration)];
    assert(block.drop_last() =~= Seq::<StatementView>::empty());
    assert(analyze_block_spec(inner, block.drop_last()) == inner);
    assert(analyze_block_spec(inner, block) == analyze_statement_spec(inner, block.last()));
    assert(!inner.scopes.last().contains_key(declaration.identifier));
}

/// `Int` and `Float` are compatible in both directions, and an arithmetic
/// operation on them is a `Float`.
pub proof fn lemma_numeric_promotion()
    ensures
        compatible(Type::Int, Type::Float),
        compatible(Type::Float, Type::Int),
        arithmetic_result(Type::Int, Type::Float) == Type::Float,
        arithmetic_result(Type::Float, Type::Int) == Type::Float,
        forall|a: Type, b: Type| numeric(a) && numeric(b) ==> compatible(a, b) && numeric(
            arithmetic_result(a, b),
        ),
{
}

/// A variable declared `Int` takes the sum of an integer and a float without
/// a diagnostic: the sum is a `Float`, and `Float` is compatible with `Int`.
pub proof fn lemma_int_takes_promoted_sum(
    state: AnalyzerView,
    name: Seq<char>,
    integer: i64,
    float: Seq<char>,
)
    requires
        state.scopes.len() > 0,
        !state.scopes.last().contains_key(name),
    ensures
        ({
            let sum = ExprView::BinaryOperation {
                left: Box::new(ExprView::Literal(LiteralView::Int(integer))),
                operator: binary_operator::Plus,
                right: Box::new(ExprView::Literal(LiteralView::Float(float))),
            };
            let declaration = VariableDeclarationView {
                declared: Type::Int,
                identifier: name,
                expression: sum,
            };
            &&& expr_type(state.scopes, sum) == Type::Float
            &&& analyze_declaration_spec(state, declaration, false).errors == state.errors
        }),
{
    let left = ExprView::Literal(LiteralView::Int(integer));
    let right = ExprView::Literal(LiteralView::Float(float));
    let sum = ExprView::BinaryOperation {
        left: Box::new(left),
        operator: binary_operator::Plus,
        right: Box::new(right),
    };
    assert(scope_diagnostics(state.scopes, left) =~= Seq::empty());
    assert(scope_diagnostics(state.scopes, right) =~= Seq::empty());
    assert(scope_diagnostics(state.scopes, sum) =~= Seq::empty());
    assert(type_diagnostics(state.scopes, left) =~= Seq::empty());
    assert(type_diagnostics(state.scopes, right) =~= Seq::empty());
    assert(type_diagnostics(state.scopes, sum) =~= Seq::empty());
    assert(check_expression(state, sum).errors =~= state.errors);
}

/// An operand of unknown type is reported for nothing: what an operator is
/// reported for speaks of known types only.
pub proof fn lemma_unknown_operand_is_silent(
    operator: binary_operator,
    prefix: unary_operator,
    other: Type,
)
    ensures
        unary_diagnostics(prefix, Type::Unknown) == Seq::<DiagnosticView>::empty(),
        binary_diagnostics(operator, Type::Unknown, Type::Unknown) == Seq::<
            DiagnosticView,
        >::empty(),
        forall|i: int|
            0 <= i < binary_diagnostics(operator, Type::Unknown, other).len() ==> diagnostic_types(
                #[trigger] binary_diagnostics(operator, Type::Unknown, other)[i],
            ) == seq![other],
        forall|i: int|
            0 <= i < binary_diagnostics(operator, other, Type::Unknown).len() ==> diagnostic_types(
                #[trigger] binary_diagnostics(operator, other, Type::Unknown)[i],
            ) == seq![other],
        !mismatched(Type::Unknown, other),
        !mismatched(other, Type::Unknown),
{
    assert(unary_diagnostics(prefix, Type::Unknown) =~= Seq::<DiagnosticView>::empty());
    assert(binary_diagnostics(operator, Type::Unknown, Type::Unknown) =~= Seq::<
        DiagnosticView,
    >::empty());
}

/// No diagnostic that the type pass finds in an expression speaks of an
/// unknown type.
pub proof fn lemma_type_pass_speaks_of_known_types(
    scopes: Seq<Map<Seq<char>, SymbolView>>,
    e: ExprView,
    i: int,
)
    requires
        0 <= i < type_diagnostics(scopes, e).len(),
    ensures
        forall|k: int|
            0 <= k < diagnostic_types(type_diagnostics(scopes, e)[i]).len() ==> known(
                #[trigger] diagnostic_types(type_diagnostics(scopes, e)[i])[k],
            ),
    decreases e,
{
    match e {
        ExprView::BinaryOperation { left, operator, right } => {
            let first = type_diagnostics(scopes, *left);
            let second = type_diagnostics(scopes, *right);
            if i < first.len() {
                lemma_type_pass_speaks_of_known_types(scopes, *left, i);
            } else if i < first.len() + second.len() {
                lemma_type_pass_speaks_of_known_types(scopes, *right, i - first.len());
            }
        },
        ExprView::UnaryOperation { prefix, operand } => {
            let first = type_diagnostics(scopes, *operand);
            if i < first.len() {
                lemma_type_pass_speaks_of_known_types(scopes, *operand, i);
            }
        },
        ExprView::Assignment { left, right } => {
            let first = type_diagnostics(scopes, *left);
            let second = type_diagnostics(scopes, *right);
            if i < first.len() {
                lemma_type_pass_speaks_of_known_types(scopes, *left, i);
            } else if i < first.len() + second.len() {
                lemma_type_pass_speaks_of_known_types(scopes, *right, i - first.len());
            }
        },
        _ => {},
    }
}

/// A variable initialized with a name that is not declared is reported for
/// the name alone: the unknown type of the initializer is held against
/// nothing, and the variable is declared all the same.
pub proof fn lemma_undefined_initializer_reported_once(
    state: AnalyzerView,
    declared: Type,
    name: Seq<char>,
    undefined: Seq<char>,
)
    requires
        state.scopes.len() > 0,
        state.lookup(undefined) is None,
        !state.scopes.last().contains_key(name),
    ensures
        ({
            let declaration = VariableDeclarationView {
                declared,
                identifier: name,
                expression: ExprView::Identifier(undefined),
            };
            let after = analyze_declaration_spec(state, declaration, false);
            &&& after.errors == state.errors.push(
                DiagnosticView::UndefinedVariable { name: undefined },
            )
            &&& after.scopes.last().contains_key(name)
        }),
{
    let e = ExprView::Identifier(undefined);
    assert(type_diagnostics(state.scopes, e) =~= Seq::empty());
    assert(check_expression(state, e).errors =~= state.errors.push(
        DiagnosticView::UndefinedVariable { name: undefined },
    ));
}

/// An `if` without an `else` does not return on every path, whatever its
/// blocks hold.
pub proof fn lemma_if_without_else_may_fall_through(i: IfView)
    requires
        i.otherwise is None,
    ensures
        !statement_returns(StatementView::If(i)),
{
}

/// A block that holds a `return` returns on every path.
pub proof fn lemma_block_with_return_returns(block: Seq<StatementView>, at: int)
    requires
        0 <= at < block.len(),
        block[at] is Return,
    ensures
        block_returns(block),
    decreases block.len(),
{
    if at < block.len() - 1 {
        lemma_block_with_return_returns(block.drop_last(), at);
    } else {
        assert(statement_returns(block.last()));
    }
}

/// An `if` with an `else` and no `elif` returns on every path if both of its
/// blocks do.
pub proof fn lemma_if_else_returns(i: IfView)
    requires
        i.elifs.len() == 0,
        block_returns(i.first.block),
        i.otherwise is Some,
        block_returns(i.otherwise->0),
    ensures
        statement_returns(StatementView::If(i)),
{
}

/// A loop is never taken to return, and neither is a statement that is not a
/// `return` or an `if`.
pub proof fn lemma_loops_never_return(s: StatementView)
    requires
        !(s is Return) && !(s is If),
    ensures
        !statement_returns(s),
{
}

/// A function that is not `Void` is reported for a missing return exactly
/// when its block does not return on every path, and this is the last thing
/// reported for it.
pub proof fn lemma_missing_return(state: AnalyzerView, f: FunctionView)
    requires
        f.return_type != Type::Void,
    ensures
        ({
            let entered = declare_parameters(
                state.with_return_type(Some(f.return_type)).enter_scope(),
                f.params,
            );
            let body = analyze_block_spec(entered, f.block);
            let after = analyze_function_body_spec(state, f);
            if block_returns(f.block) {
                after.errors == body.errors
            } else {
                after.errors == body.errors.push(
                    DiagnosticView::MissingReturn { name: f.identifier, return_type: f.return_type },
                )
            }
        }),
{
}

/// A function that is not `Void` and whose block is one `if` without an
/// `else` is reported for a missing return, whatever the `if` holds.
pub proof fn lemma_if_alone_misses_return(state: AnalyzerView, f: FunctionView, i: IfView)
    requires
        f.return_type != Type::Void,
        f.block == seq![StatementView::If(i)],
        i.otherwise is None,
    ensures
        analyze_function_body_spec(state, f).errors.len() > 0,
        analyze_function_body_spec(state, f).errors.last() == (DiagnosticView::MissingReturn {
            name: f.identifier,
            return_type: f.return_type,
        }),
{
    assert(f.block.drop_last() =~= Seq::<StatementView>::empty());
    assert(!block_returns(f.block.drop_last()));
    assert(!statement_returns(f.block.last()));
    assert(!block_returns(f.block));
    lemma_missing_return(state, f);
}

/// With an `else` added, and a `return` in both blocks, the function is no
/// longer reported for a missing return: nothing is reported after what the
/// block itself is reported for.
pub proof fn lemma_if_else_has_return(
    state: AnalyzerView,
    f: FunctionView,
    i: IfView,
    then_at: int,
    else_at: int,
)
    requires
        f.return_type != Type::Void,
        f.block == seq![StatementView::If(i)],
        i.elifs.len() == 0,
        i.otherwise is Some,
        0 <= then_at < i.first.block.len() && i.first.block[then_at] is Return,
        0 <= else_at < i.otherwise->0.len() && i.otherwise->0[else_at] is Return,
    ensures
        analyze_function_body_spec(state, f).errors == analyze_block_spec(
            declare_parameters(
                state.with_return_type(Some(f.return_type)).enter_scope(),
                f.params,
            ),
            f.block,
        ).errors,
{
    lemma_block_with_return_returns(i.first.block, then_at);
    lemma_block_with_return_returns(i.otherwise->0, else_at);
    lemma_if_else_returns(i);
    assert(statement_returns(f.block.last()));
    assert(block_returns(f.block));
    lemma_missing_return(state, f);
}

/// A call with another number of arguments than the function has parameters
/// is reported for that once, after what the scope pass finds in the
/// arguments; the types of the arguments are then not compared.
pub proof fn lemma_wrong_argument_count(
    scopes: Seq<Map<Seq<char>, SymbolView>>,
    call: FunctionCallView,
    params: Seq<Type>,
)
    requires
        callee_parameters(scopes, call.identifier) == Some(params),
        call.args.len() != params.len(),
    ensures
        call_diagnostics(scopes, call) == arguments_scope_diagnostics(scopes, call.args).push(
            DiagnosticView::ArgumentCountMismatch {
                name: call.identifier,
                parameters: params.len(),
                arguments: call.args.len(),
            },
        ),
{
    assert(callee_diagnostics(scopes, call.identifier) =~= Seq::empty());
    assert(call_diagnostics(scopes, call) =~= arguments_scope_diagnostics(scopes, call.args).push(
        DiagnosticView::ArgumentCountMismatch {
            name: call.identifier,
            parameters: params.len(),
            arguments: call.args.len(),
        },
    ));
}

/// A call with one literal argument of a type that the one parameter, of a
/// known type, is not compatible with is reported for that once and for
/// nothing else.
pub proof fn lemma_wrong_argument_type(
    scopes: Seq<Map<Seq<char>, SymbolView>>,
    name: Seq<char>,
    literal: LiteralView,
    expected: Type,
)
    requires
        callee_parameters(scopes, name) == Some(seq![expected]),
        known(expected),
        !compatible(expected, literal_type(literal)),
    ensures
        call_diagnostics(
            scopes,
            FunctionCallView { identifier: name, args: seq![ExprView::Literal(literal)] },
        ) == seq![
            DiagnosticView::ArgumentTypeMismatch {
                name,
                position: 1,
                expected,
                found: literal_type(literal),
            },
        ],
{
    let argument = ExprView::Literal(literal);
    let args = seq![argument];
    let call = FunctionCallView { identifier: name, args };
    let params = seq![expected];
    assert(args.drop_last() =~= Seq::<ExprView>::empty());
    assert(callee_diagnostics(scopes, name) =~= Seq::empty());
    assert(scope_diagnostics(scopes, argument) =~= Seq::empty());
    assert(arguments_scope_diagnostics(scopes, args.drop_last()) =~= Seq::empty());
    assert(arguments_scope_diagnostics(scopes, args) =~= Seq::empty());
    assert(type_diagnostics(scopes, argument) =~= Seq::empty());
    assert(arguments_type_diagnostics(scopes, name, args.drop_last(), params) =~= Seq::empty());
    assert(arguments_type_diagnostics(scopes, name, args, params) =~= seq![
        DiagnosticView::ArgumentTypeMismatch {
            name,
            position: 1,
            expected,
            found: literal_type(literal),
        },
    ]);
    assert(call_diagnostics(scopes, call) =~= arguments_type_diagnostics(
        scopes,
        name,
        args,
        params,
    ));
}

/// A `break` or `continue` with no loop around it is reported once; with a
/// loop around it, it is not reported.
pub proof fn lemma_break_needs_loop(state: AnalyzerView)
    ensures
        state.loop_depth == 0 ==> analyze_statement_spec(state, StatementView::Break)
            == state.report(DiagnosticView::BreakOutsideLoop),
        state.loop_depth == 0 ==> analyze_statement_spec(state, StatementView::Continue)
            == state.report(DiagnosticView::ContinueOutsideLoop),
        state.loop_depth > 0 ==> analyze_statement_spec(state, StatementView::Break) == state,
        state.loop_depth > 0 ==> analyze_statement_spec(state, StatementView::Continue) == state,
{
}

/// A `break` that is the body of a `while` is not reported, whatever stands
/// around the `while`: nothing is reported but what the condition is
/// reported for.
pub proof fn lemma_break_in_while_is_silent(state: AnalyzerView, condition: ExprView)
    ensures
        analyze_while_statement_spec(
            state,
            BranchView { condition, block: seq![StatementView::Break] },
        ).errors == check_condition(state, condition, Construct::While).errors,
{
    let block = seq![StatementView::Break];
    let inside = check_condition(state, condition, Construct::While).enter_scope().enter_loop();
    assert(block.drop_last() =~= Seq::<StatementView>::empty());
    assert(analyze_block_spec(inside, block.drop_last()) == inside);
    assert(analyze_block_spec(inside, block) == analyze_statement_spec(inside, block.last()));
}

/// Reporting adds at the end.
pub proof fn lemma_report_all_extends(state: AnalyzerView, diagnostics: Seq<DiagnosticView>)
    ensures
        extends(state, state.report_all(diagnostics)),
        extends(state, state),
{
    assert(state.errors =~= (state.errors + diagnostics).subrange(0, state.errors.len() as int));
    assert(state.errors =~= state.errors.subrange(0, state.errors.len() as int));
}

/// Adding at the end twice is adding at the end.
pub proof fn lemma_extends_transitive(a: AnalyzerView, b: AnalyzerView, c: AnalyzerView)
    requires
        extends(a, b),
        extends(b, c),
    ensures
        extends(a, c),
{
    assert(a.errors =~= c.errors.subrange(0, a.errors.len() as int)) by {
        assert(b.errors =~= c.errors.subrange(0, b.errors.len() as int));
        assert(a.errors =~= b.errors.subrange(0, a.errors.len() as int));
    }
}

/// Declaring a name adds at most a diagnostic and keeps the height of the
/// scope stack.
pub proof fn lemma_declare_extends(state: AnalyzerView, name: Seq<char>, symbol: SymbolView)
    ensures
        extends(state, state.declare(name, symbol)),
{
    lemma_report_all_extends(state, Seq::empty());
    if state.scopes.len() > 0 && state.scopes.last().contains_key(name) {
        let d = redeclaration(state.scopes.last()[name].symbol_type, symbol.symbol_type, name);
        assert(state.report(d).errors =~= state.errors + seq![d]);
        lemma_report_all_extends(state, seq![d]);
    }
}

/// Reporting on a condition adds at the end or does nothing.
pub proof fn lemma_report_if_extends(state: AnalyzerView, condition: bool, d: DiagnosticView)
    ensures
        extends(state, state.report_if(condition, d)),
{
    lemma_report_all_extends(state, seq![d]);
    assert(state.report(d).errors =~= state.errors + seq![d]);
}

/// Checking an expression only adds diagnostics and leaves the scopes alone.
pub proof fn lemma_check_expression_extends(state: AnalyzerView, e: ExprView)
    ensures
        extends(state, check_expression(state, e)),
        check_expression(state, e).scopes == state.scopes,
{
    let first = state.report_all(scope_diagnostics(state.scopes, e));
    lemma_report_all_extends(state, scope_diagnostics(state.scopes, e));
    lemma_report_all_extends(first, type_diagnostics(state.scopes, e));
    lemma_extends_transitive(state, first, check_expression(state, e));
}

/// Checking a condition only adds diagnostics and leaves the scopes alone.
pub proof fn lemma_check_condition_extends(
    state: AnalyzerView,
    condition: ExprView,
    construct: Construct,
)
    ensures
        extends(state, check_condition(state, condition, construct)),
        check_condition(state, condition, construct).scopes == state.scopes,
{
    let found = expr_type(state.scopes, condition);
    let checked = check_expression(state, condition);
    lemma_check_expression_extends(state, condition);
    lemma_report_if_extends(
        checked,
        found != Type::Bool && found != Type::Unknown,
        DiagnosticView::ConditionNotBoolean { construct, found },
    );
    lemma_extends_transitive(state, checked, check_condition(state, condition, construct));
}

/// A variable declaration only adds diagnostics.
pub proof fn lemma_declaration_extends(
    state: AnalyzerView,
    declaration: VariableDeclarationView,
    in_for: bool,
)
    ensures
        extends(state, analyze_declaration_spec(state, declaration, in_for)),
{
    let found = expr_type(state.scopes, declaration.expression);
    let checked = check_expression(state, declaration.expression);
    let compared = checked.report_if(
        mismatched(declaration.declared, found),
        initializer_mismatch(declaration, found, in_for),
    );
    lemma_check_expression_extends(state, declaration.expression);
    lemma_report_if_extends(
        checked,
        mismatched(declaration.declared, found),
        initializer_mismatch(declaration, found, in_for),
    );
    lemma_extends_transitive(state, checked, compared);
    lemma_declare_extends(
        compared,
        declaration.identifier,
        SymbolView {
            name: declaration.identifier,
            symbol_type: SymbolTypeView::Variable(declaration.declared),
        },
    );
    lemma_extends_transitive(
        state,
        compared,
        analyze_declaration_spec(state, declaration, in_for),
    );
}

/// Analysis of a statement only ever adds diagnostics, touches no scope but
/// the current one, and leaves the loop counter, the expected return type and
/// the height of the scope stack as they were.
pub proof fn lemma_statement_extends(state: AnalyzerView, s: StatementView)
    ensures
        extends(state, analyze_statement_spec(state, s)),
    decreases s, 0nat,
{
    match s {
        StatementView::Var(declaration) => {
            lemma_declaration_extends(state, declaration, false);
        },
        StatementView::Expr(e) => {
            lemma_check_expression_extends(state, e);
        },
        StatementView::Return(e) => {
            lemma_check_expression_extends(state, e);
            let found = expr_type(state.scopes, e);
            match state.current_function_return_type {
                Some(expected) => {
                    lemma_report_if_extends(
                        check_expression(state, e),
                        mismatched(expected, found),
                        DiagnosticView::ReturnMismatch { expected, found },
                    );
                    lemma_extends_transitive(
                        state,
                        check_expression(state, e),
                        analyze_return_spec(state, e),
                    );
                },
                None => {},
            }
        },
        StatementView::Break => {
            lemma_report_if_extends(state, state.loop_depth == 0, DiagnosticView::BreakOutsideLoop);
        },
        StatementView::Continue => {
            lemma_report_if_extends(
                state,
                state.loop_depth == 0,
                DiagnosticView::ContinueOutsideLoop,
            );
        },
        StatementView::If(i) => {
            lemma_if_extends(state, i);
        },
        StatementView::While(w) => {
            let checked = check_condition(state, w.condition, Construct::While);
            lemma_check_condition_extends(state, w.condition, Construct::While);
            let inside = checked.enter_scope().enter_loop();
            lemma_block_extends(inside, w.block);
            let done = analyze_block_spec(inside, w.block);
            let after = done.exit_loop().exit_scope();
            assert(after == analyze_while_statement_spec(state, w));
            assert(extends(checked, after)) by {
                assert(checked.errors =~= inside.errors);
                assert(after.errors == done.errors);
            }
            lemma_extends_transitive(state, checked, after);
        },
        StatementView::For(f) => {
            let entered = state.enter_scope();
            lemma_for_clauses_extend(entered, f);
            let clauses = analyze_for_clauses_spec(entered, f);
            let inside = clauses.enter_loop();
            lemma_block_extends(inside, f.block);
            let done = analyze_block_spec(inside, f.block);
            let after = done.exit_loop().exit_scope();
            assert(after == analyze_for_statement_spec(state, f));
            assert(extends(state, after)) by {
                assert(state.errors == entered.errors);
                assert(inside.errors == clauses.errors);
                assert(after.errors == done.errors);
                assert(state.errors =~= after.errors.subrange(0, state.errors.len() as int)) by {
                    assert(clauses.errors =~= done.errors.subrange(0, clauses.errors.len() as int));
                    assert(entered.errors =~= clauses.errors.subrange(
                        0,
                        entered.errors.len() as int,
                    ));
                }
            }
        },
    }
}

/// The clauses of a `for` only add diagnostics.
pub proof fn lemma_for_clauses_extend(state: AnalyzerView, f: ForView)
    ensures
        extends(state, analyze_for_clauses_spec(state, f)),
{
    let after_init = match f.init {
        Some(declaration) => analyze_declaration_spec(state, declaration, true),
        None => state,
    };
    match f.init {
        Some(declaration) => {
            lemma_declaration_extends(state, declaration, true);
        },
        None => {
            lemma_report_all_extends(state, Seq::empty());
        },
    }
    let after_condition = match f.condition {
        Some(condition) => check_condition(after_init, condition, Construct::For),
        None => after_init,
    };
    match f.condition {
        Some(condition) => {
            lemma_check_condition_extends(after_init, condition, Construct::For);
        },
        None => {
            lemma_report_all_extends(after_init, Seq::empty());
        },
    }
    lemma_extends_transitive(state, after_init, after_condition);
    match f.update {
        Some(update) => {
            lemma_check_expression_extends(after_condition, update);
        },
        None => {
            lemma_report_all_extends(after_condition, Seq::empty());
        },
    }
    lemma_extends_transitive(state, after_condition, analyze_for_clauses_spec(state, f));
}

/// Analysis of a block only adds diagnostics.
pub proof fn lemma_block_extends(state: AnalyzerView, block: Seq<StatementView>)
    ensures
        extends(state, analyze_block_spec(state, block)),
    decreases block, 0nat,
{
    if block.len() == 0 {
        lemma_report_all_extends(state, Seq::empty());
    } else {
        let before = analyze_block_spec(state, block.drop_last());
        lemma_block_extends(state, block.drop_last());
        lemma_statement_extends(before, block.last());
        lemma_extends_transitive(state, before, analyze_block_spec(state, block));
    }
}

/// Analysis of a block in its own scope only adds diagnostics, and the scope
/// is gone afterwards.
pub proof fn lemma_scoped_block_extends(state: AnalyzerView, block: Seq<StatementView>)
    ensures
        extends(state, analyze_scoped_block_spec(state, block)),
        analyze_scoped_block_spec(state, block).scopes == state.scopes,
    decreases block, 1nat,
{
    let inside = state.enter_scope();
    lemma_block_extends(inside, block);
    let done = analyze_block_spec(inside, block);
    assert(state.errors == inside.errors);
    assert(done.exit_scope().scopes =~= state.scopes);
}

/// Analysis of an `if` only adds diagnostics.
pub proof fn lemma_if_extends(state: AnalyzerView, i: IfView)
    ensures
        extends(state, analyze_if_statement_spec(state, i)),
    decreases i, 0nat,
{
    let checked = check_condition(state, i.first.condition, Construct::If);
    lemma_check_condition_extends(state, i.first.condition, Construct::If);
    let after_first = analyze_scoped_block_spec(checked, i.first.block);
    lemma_scoped_block_extends(checked, i.first.block);
    lemma_extends_transitive(state, checked, after_first);
    let after_elifs = analyze_elifs_spec(after_first, i.elifs);
    lemma_elifs_extend(after_first, i.elifs);
    lemma_extends_transitive(state, after_first, after_elifs);
    match i.otherwise {
        Some(block) => {
            lemma_scoped_block_extends(after_elifs, block);
            lemma_extends_transitive(
                state,
                after_elifs,
                analyze_scoped_block_spec(after_elifs, block),
            );
        },
        None => {},
    }
}

/// Analysis of `elif` branches only adds diagnostics.
pub proof fn lemma_elifs_extend(state: AnalyzerView, elifs: Seq<BranchView>)
    ensures
        extends(state, analyze_elifs_spec(state, elifs)),
    decreases elifs, 0nat,
{
    if elifs.len() == 0 {
        lemma_report_all_extends(state, Seq::empty());
    } else {
        let before = analyze_elifs_spec(state, elifs.drop_last());
        lemma_elifs_extend(state, elifs.drop_last());
        let checked = check_condition(before, elifs.last().condition, Construct::Elif);
        lemma_check_condition_extends(before, elifs.last().condition, Construct::Elif);
        lemma_scoped_block_extends(checked, elifs.last().block);
        lemma_extends_transitive(
            before,
            checked,
            analyze_scoped_block_spec(checked, elifs.last().block),
        );
        lemma_extends_transitive(state, before, analyze_elifs_spec(state, elifs));
    }
}

/// Declaring parameters only adds diagnostics.
pub proof fn lemma_parameters_extend(state: AnalyzerView, params: Seq<ParamView>)
    ensures
        extends(state, declare_parameters(state, params)),
    decreases params.len(),
{
    if params.len() == 0 {
        lemma_report_all_extends(state, Seq::empty());
    } else {
        let before = declare_parameters(state, params.drop_last());
        lemma_parameters_extend(state, params.drop_last());
        lemma_declare_extends(
            before,
            params.last().identifier,
            SymbolView {
                name: params.last().identifier,
                symbol_type: SymbolTypeView::Variable(params.last().declared),
            },
        );
        lemma_extends_transitive(state, before, declare_parameters(state, params));
    }
}

/// Analysis of a top-level declaration only ever adds diagnostics.
pub proof fn lemma_root_only_adds(state: AnalyzerView, root: RootView)
    ensures
        state.errors.is_prefix_of(analyze_root_spec(state, root).errors),
{
    let after = analyze_root_spec(state, root);
    if within_depth(state, root) {
        match root {
            RootView::Var(declaration) => {
                lemma_declaration_extends(state, declaration, false);
            },
            RootView::Func(f) => {
                let declared = state.declare(
                    f.identifier,
                    function_symbol(f),
                );
                lemma_declare_extends(
                    state,
                    f.identifier,
                    function_symbol(f),
                );
                let entered = declared.with_return_type(Some(f.return_type)).enter_scope();
                let with_params = declare_parameters(entered, f.params);
                lemma_parameters_extend(entered, f.params);
                let body = analyze_block_spec(with_params, f.block);
                lemma_block_extends(with_params, f.block);
                let checked = body.report_if(
                    f.return_type != Type::Void && !block_returns(f.block),
                    DiagnosticView::MissingReturn {
                        name: f.identifier,
                        return_type: f.return_type,
                    },
                );
                lemma_report_if_extends(
                    body,
                    f.return_type != Type::Void && !block_returns(f.block),
                    DiagnosticView::MissingReturn {
                        name: f.identifier,
                        return_type: f.return_type,
                    },
                );
                assert(after.errors == checked.errors);
                assert(entered.errors == declared.errors);
                lemma_prefix_chain(state.errors, declared.errors, with_params.errors);
                lemma_prefix_chain(state.errors, with_params.errors, body.errors);
                lemma_prefix_chain(state.errors, body.errors, checked.errors);
            },
        }
    } else {
        let d = DiagnosticView::NestingTooDeep { name: root_name(root) };
        let reported = state.report(d);
        assert(reported.errors =~= state.errors + seq![d]);
        lemma_report_all_extends(state, seq![d]);
        match root {
            RootView::Var(declaration) => {
                lemma_declare_extends(
                    reported,
                    declaration.identifier,
                    SymbolView {
                        name: declaration.identifier,
                        symbol_type: SymbolTypeView::Variable(declaration.declared),
                    },
                );
            },
            RootView::Func(f) => {
                lemma_declare_extends(
                    reported,
                    f.identifier,
                    function_symbol(f),
                );
            },
        }
        lemma_prefix_chain(state.errors, reported.errors, after.errors);
    }
}

/// A prefix of a prefix is a prefix.
pub proof fn lemma_prefix_chain<A>(a: Seq<A>, b: Seq<A>, c: Seq<A>)
    requires
        a.is_prefix_of(b),
        b.is_prefix_of(c),
    ensures
        a.is_prefix_of(c),
{
    assert(a =~= c.subrange(0, a.len() as int)) by {
        assert(b =~= c.subrange(0, b.len() as int));
        assert(a =~= b.subrange(0, a.len() as int));
    }
}

/// The analyzer is fail-soft: what it has reported stays reported, in the
/// same order, whatever program it goes on to analyze.
pub proof fn lemma_program_only_adds(state: AnalyzerView, program: Seq<RootView>)
    ensures
        state.errors.is_prefix_of(analyze_program_spec(state, program).errors),
    decreases program.len(),
{
    if program.len() == 0 {
        assert(state.errors =~= state.errors.subrange(0, state.errors.len() as int));
    } else {
        let before = analyze_program_spec(state, program.drop_last());
        lemma_program_only_adds(state, program.drop_last());
        lemma_root_only_adds(before, program.last());
        lemma_prefix_chain(
            state.errors,
            before.errors,
            analyze_program_spec(state, program).errors,
        );
    }
}

/// What a declaration does to the scopes depends on the scopes alone, not on
/// what has been reported.
pub proof fn lemma_declare_scopes(
    a: AnalyzerView,
    b: AnalyzerView,
    name: Seq<char>,
    symbol: SymbolView,
)
    requires
        a.scopes == b.scopes,
    ensures
        a.declare(name, symbol).scopes == b.declare(name, symbol).scopes,
        a.scopes.len() > 0 ==> a.declare(name, symbol).scopes.len() == a.scopes.len()
            && forall|other: Seq<char>| #[trigger]
            a.declare(name, symbol).scopes.last().contains_key(other)
                ==> a.scopes.last().contains_key(other) || other == name,
{
}

/// Analysis of a function touches only the current scope, and there only the
/// function's own name: the scope of its parameters and body is gone when the
/// function has been analyzed, with all that was declared in it.
pub proof fn lemma_function_touches_current_frame(state: AnalyzerView, f: FunctionView)
    ensures
        analyze_function_spec(state, f).scopes == state.declare(
            f.identifier,
            function_symbol(f),
        ).scopes,
{
    let declared = state.declare(f.identifier, function_symbol(f));
    let entered = declared.with_return_type(Some(f.return_type)).enter_scope();
    let with_params = declare_parameters(entered, f.params);
    lemma_parameters_extend(entered, f.params);
    let body = analyze_block_spec(with_params, f.block);
    lemma_block_extends(with_params, f.block);
    lemma_extends_transitive(entered, with_params, body);
    let checked = body.report_if(
        f.return_type != Type::Void && !block_returns(f.block),
        DiagnosticView::MissingReturn { name: f.identifier, return_type: f.return_type },
    );
    assert(checked.scopes == body.scopes);
    assert(checked.exit_scope().scopes =~= declared.scopes);
}

/// A top-level declaration leaves in the scopes its own name and nothing
/// else, whatever it holds and whatever it was reported for.
pub proof fn lemma_root_declares_its_name(state: AnalyzerView, root: RootView)
    ensures
        analyze_root_spec(state, root).scopes == declare_root(state, root).scopes,
{
    if within_depth(state, root) {
        match root {
            RootView::Var(declaration) => {
                let found = expr_type(state.scopes, declaration.expression);
                let checked = check_expression(state, declaration.expression).report_if(
                    mismatched(declaration.declared, found),
                    initializer_mismatch(declaration, found, false),
                );
                lemma_declare_scopes(
                    checked,
                    state,
                    declaration.identifier,
                    SymbolView {
                        name: declaration.identifier,
                        symbol_type: SymbolTypeView::Variable(declaration.declared),
                    },
                );
            },
            RootView::Func(f) => {
                lemma_function_touches_current_frame(state, f);
            },
        }
    } else {
        let reported = state.report(
            DiagnosticView::NestingTooDeep { name: root_name(root) },
        );
        match root {
            RootView::Var(declaration) => {
                lemma_declare_scopes(
                    reported,
                    state,
                    declaration.identifier,
                    SymbolView {
                        name: declaration.identifier,
                        symbol_type: SymbolTypeView::Variable(declaration.declared),
                    },
                );
            },
            RootView::Func(f) => {
                lemma_declare_scopes(reported, state, f.identifier, function_symbol(f));
            },
        }
    }
}

/// Whether one of the declarations of a program declares the name.
pub open spec fn declares(program: Seq<RootView>, name: Seq<char>) -> bool {
    exists|i: int| 0 <= i < program.len() && #[trigger] root_name(program[i]) == name
}

/// Analysis of a program leaves the scope stack as high as it was, leaves the
/// scopes around the current one as they were, and adds to the current scope
/// no name but those of the program's top-level declarations. From a fresh
/// analyzer, one scope is left, and in it top-level names only.
pub proof fn lemma_program_leaves_top_level_names(state: AnalyzerView, program: Seq<RootView>)
    requires
        state.scopes.len() > 0,
    ensures
        ({
            let after = analyze_program_spec(state, program);
            &&& after.scopes.len() == state.scopes.len()
            &&& forall|i: int| 0 <= i < state.scopes.len() - 1 ==> after.scopes[i] == state.scopes[i]
            &&& forall|name: Seq<char>| #[trigger]
                after.scopes.last().contains_key(name) ==> state.scopes.last().contains_key(name)
                    || declares(program, name)
        }),
    decreases program.len(),
{
    if program.len() > 0 {
        let before = analyze_program_spec(state, program.drop_last());
        let after = analyze_program_spec(state, program);
        lemma_program_leaves_top_level_names(state, program.drop_last());
        lemma_root_declares_its_name(before, program.last());
        let root = program.last();
        let name_of_root = root_name(root);
        match root {
            RootView::Var(declaration) => {
                lemma_declare_scopes(
                    before,
                    before,
                    declaration.identifier,
                    SymbolView {
                        name: declaration.identifier,
                        symbol_type: SymbolTypeView::Variable(declaration.declared),
                    },
                );
            },
            RootView::Func(f) => {
                lemma_declare_scopes(before, before, f.identifier, function_symbol(f));
            },
        }
        assert(root_name(program[program.len() - 1]) == name_of_root);
        assert forall|name: Seq<char>| #[trigger]
            after.scopes.last().contains_key(name) implies state.scopes.last().contains_key(name)
            || declares(program, name) by {
            if name == name_of_root {
                assert(declares(program, name));
            } else {
                assert(before.scopes.last().contains_key(name));
                if !state.scopes.last().contains_key(name) {
                    assert(declares(program.drop_last(), name));
                    let i = choose|i: int|
                        0 <= i < program.drop_last().len() && #[trigger] root_name(
                            program.drop_last()[i],
                        ) == name;
                    assert(root_name(program[i]) == name);
                }
            }
        }
    }
}

/// From a fresh analyzer, analysis of any program leaves the global scope
/// alone on the stack, and in it top-level names only.
pub proof fn lemma_fresh_analysis_leaves_the_global_scope(program: Seq<RootView>)
    ensures
        analyze_program_spec(AnalyzerView::initial(), program).scopes.len() == 1,
        forall|name: Seq<char>| #[trigger]
            analyze_program_spec(AnalyzerView::initial(), program).scopes[0].contains_key(name)
                ==> declares(program, name),
{
    let fresh = AnalyzerView::initial();
    let after = analyze_program_spec(fresh, program);
    lemma_program_leaves_top_level_names(fresh, program);
    assert(fresh.scopes.len() == 1);
    assert(after.scopes.last() == after.scopes[0]);
    assert forall|name: Seq<char>| #[trigger] after.scopes[0].contains_key(name) implies declares(
        program,
        name,
    ) by {
        assert(after.scopes.last().contains_key(name));
        assert(!fresh.scopes.last().contains_key(name));
    }
}

} // verus!
