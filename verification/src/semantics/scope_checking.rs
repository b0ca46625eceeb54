//! Scope checking alone: every name must be declared before it is used, as
//! the kind of thing it is used as, and at most once in its scope. Types are
//! not looked at.

use crate::parser::enums::{
    elif_statement, elifs_view, expression_statement, exprs_view, for_statement, function_call,
    function_statement, if_statement, params_view, program_view, root, root_list, statement,
    statements_view, variable_declaration, while_statement, Block, BranchView, Expr, ExprView,
    ForView, FunctionCallView, FunctionView, IfView, RootView, StatementView,
    VariableDeclarationView,
};
use crate::semantics::depth::root_within;
use crate::semantics::diagnostics::{message_text, Diagnostic, DiagnosticView};
use crate::semantics::rules::{
    callee_diagnostics, declare_parameters, declare_root, function_symbol, lookup_in, root_depth,
    root_name, AnalyzerView, SymbolTypeView, SymbolView, MAX_ANALYSIS_DEPTH,
};
use crate::semantics::semantic_analysis::{Symbol, SymbolType};
use vstd::prelude::*;

verus! {

/// What the names in an expression are reported for: a variable that is
/// undefined or is a function, a callee that is undefined or is a variable.
pub open spec fn name_diagnostics(scopes: Seq<Map<Seq<char>, SymbolView>>, e: ExprView) -> Seq<
    DiagnosticView,
>
    decreases e,
{
    match e {
        ExprView::Literal(_) => Seq::empty(),
        ExprView::Identifier(name) => match lookup_in(scopes, name) {
            None => seq![DiagnosticView::UndefinedVariable { name }],
            Some(SymbolView { symbol_type: SymbolTypeView::Function { .. }, .. }) => seq![
                DiagnosticView::FunctionUsedAsVariable { name },
            ],
            Some(_) => Seq::empty(),
        },
        ExprView::BinaryOperation { left, operator, right } => name_diagnostics(scopes, *left)
            + name_diagnostics(scopes, *right),
        ExprView::UnaryOperation { prefix, operand } => name_diagnostics(scopes, *operand),
        ExprView::Assignment { left, right } => name_diagnostics(scopes, *left) + name_diagnostics(
            scopes,
            *right,
        ),
        ExprView::FuncCall(call) => call_name_diagnostics(scopes, call),
    }
}

/// What a call is reported for: first its callee, then the names in each
/// argument, in order.
pub open spec fn call_name_diagnostics(
    scopes: Seq<Map<Seq<char>, SymbolView>>,
    call: FunctionCallView,
) -> Seq<DiagnosticView>
    decreases call,
{
    callee_diagnostics(scopes, call.identifier) + arguments_name_diagnostics(scopes, call.args)
}

/// What the names in each argument are reported for, in order.
pub open spec fn arguments_name_diagnostics(
    scopes: Seq<Map<Seq<char>, SymbolView>>,
    args: Seq<ExprView>,
) -> Seq<DiagnosticView>
    decreases args,
{
    if args.len() == 0 {
        Seq::empty()
    } else {
        arguments_name_diagnostics(scopes, args.drop_last()) + name_diagnostics(
            scopes,
            args.last(),
        )
    }
}

/// The names in an expression checked against the scopes of the state.
pub open spec fn resolve_expression_spec(state: AnalyzerView, e: ExprView) -> AnalyzerView {
    state.report_all(name_diagnostics(state.scopes, e))
}

/// A variable declaration: the names in the initializer are checked, then
/// the variable is declared.
pub open spec fn resolve_declaration_spec(
    state: AnalyzerView,
    declaration: VariableDeclarationView,
) -> AnalyzerView {
    resolve_expression_spec(state, declaration.expression).declare_variable(
        declaration.identifier,
        declaration.declared,
    )
}

/// A block in a scope of its own.
pub open spec fn resolve_scoped_block_spec(
    state: AnalyzerView,
    block: Seq<StatementView>,
) -> AnalyzerView
    decreases block, 1nat,
{
    resolve_block_spec(state.enter_scope(), block).exit_scope()
}

/// The statements of a block one after the other.
pub open spec fn resolve_block_spec(state: AnalyzerView, block: Seq<StatementView>) -> AnalyzerView
    decreases block, 0nat,
{
    if block.len() == 0 {
        state
    } else {
        resolve_statement_spec(resolve_block_spec(state, block.drop_last()), block.last())
    }
}

/// A statement. `break` and `continue` hold no names.
pub open spec fn resolve_statement_spec(state: AnalyzerView, s: StatementView) -> AnalyzerView
    decreases s, 0nat,
{
    match s {
        StatementView::Var(declaration) => resolve_declaration_spec(state, declaration),
        StatementView::Expr(e) => resolve_expression_spec(state, e),
        StatementView::Return(e) => resolve_expression_spec(state, e),
        StatementView::Break => state,
        StatementView::Continue => state,
        StatementView::If(i) => resolve_if_spec(state, i),
        StatementView::While(w) => resolve_scoped_block_spec(
            resolve_expression_spec(state, w.condition),
            w.block,
        ),
        StatementView::For(f) => resolve_for_spec(state, f),
    }
}

/// An `if` statement: each condition is checked where it stands, each block
/// in a scope of its own.
pub open spec fn resolve_if_spec(state: AnalyzerView, i: IfView) -> AnalyzerView
    decreases i, 0nat,
{
    let after_first = resolve_scoped_block_spec(
        resolve_expression_spec(state, i.first.condition),
        i.first.block,
    );
    let after_elifs = resolve_elifs_spec(after_first, i.elifs);
    match i.otherwise {
        Some(block) => resolve_scoped_block_spec(after_elifs, block),
        None => after_elifs,
    }
}

/// The `elif` branches of an `if`, one after the other.
pub open spec fn resolve_elifs_spec(state: AnalyzerView, elifs: Seq<BranchView>) -> AnalyzerView
    decreases elifs, 0nat,
{
    if elifs.len() == 0 {
        state
    } else {
        let before = resolve_elifs_spec(state, elifs.drop_last());
        resolve_scoped_block_spec(
            resolve_expression_spec(before, elifs.last().condition),
            elifs.last().block,
        )
    }
}

/// The clauses of a `for`, in the loop's scope.
pub open spec fn resolve_for_clauses_spec(state: AnalyzerView, f: ForView) -> AnalyzerView {
    let after_init = match f.init {
        Some(declaration) => resolve_declaration_spec(state, declaration),
        None => state,
    };
    let after_condition = match f.condition {
        Some(condition) => resolve_expression_spec(after_init, condition),
        None => after_init,
    };
    match f.update {
        Some(update) => resolve_expression_spec(after_condition, update),
        None => after_condition,
    }
}

/// A `for` statement: one scope spans the clauses and the block.
pub open spec fn resolve_for_spec(state: AnalyzerView, f: ForView) -> AnalyzerView
    decreases f, 0nat,
{
    resolve_block_spec(resolve_for_clauses_spec(state.enter_scope(), f), f.block).exit_scope()
}

/// A function: its name is declared in the scope around it, its parameters
/// and its block in a scope of its own.
pub open spec fn resolve_function_spec(state: AnalyzerView, f: FunctionView) -> AnalyzerView {
    resolve_block_spec(
        declare_parameters(state.declare(f.identifier, function_symbol(f)).enter_scope(), f.params),
        f.block,
    ).exit_scope()
}

/// A top-level declaration. One that nests deeper than the analysis follows
/// is reported and declared by its name alone.
pub open spec fn resolve_root_spec(state: AnalyzerView, root: RootView) -> AnalyzerView {
    if root_depth(root) <= MAX_ANALYSIS_DEPTH {
        match root {
            RootView::Var(declaration) => resolve_declaration_spec(state, declaration),
            RootView::Func(f) => resolve_function_spec(state, f),
        }
    } else {
        declare_root(state.report(DiagnosticView::NestingTooDeep { name: root_name(root) }), root)
    }
}

/// The declarations of a program in source order.
pub open spec fn resolve_program_spec(state: AnalyzerView, program: Seq<RootView>) -> AnalyzerView
    decreases program.len(),
{
    if program.len() == 0 {
        state
    } else {
        resolve_root_spec(resolve_program_spec(state, program.drop_last()), program.last())
    }
}

/// The scope analyzer: a stack of scopes and the diagnostics found so far.
pub struct ScopeAnalyzer {
    state: crate::semantics::semantic_analysis::ScopeAnalyzer,
}

impl View for ScopeAnalyzer {
    type V = AnalyzerView;

    closed spec fn view(&self) -> AnalyzerView {
        self.state@
    }
}

impl ScopeAnalyzer {
    /// An analyzer with the global scope alone and nothing reported.
    pub fn new() -> (analyzer: ScopeAnalyzer)
        ensures
            analyzer@ == AnalyzerView::initial(),
    {
        ScopeAnalyzer { state: crate::semantics::semantic_analysis::ScopeAnalyzer::new() }
    }

    fn analyze_expression(&mut self, e: &Expr)
        ensures
            final(self)@ == resolve_expression_spec(old(self)@, e@),
        decreases e,
    {
        let ghost scopes = self@.scopes;
        match e {
            Expr::Literal(_) => {
                assert(self@.errors + Seq::<DiagnosticView>::empty() =~= self@.errors);
            },
            Expr::Identifier(name) => {
                let problem = match self.state.lookup_symbol(name.as_str()) {
                    None => Some(Diagnostic::UndefinedVariable { name: name.clone() }),
                    Some(symbol) => if symbol.symbol_type.is_function() {
                        Some(Diagnostic::FunctionUsedAsVariable { name: name.clone() })
                    } else {
                        None
                    },
                };
                match problem {
                    Some(diagnostic) => {
                        self.state.report(diagnostic);
                    },
                    None => {},
                }
                assert(final(self)@.errors =~= old(self)@.errors + name_diagnostics(scopes, e@));
            },
            Expr::BinaryOperation { left, right, .. } => {
                self.analyze_expression(left);
                self.analyze_expression(right);
                assert(final(self)@.errors =~= old(self)@.errors + name_diagnostics(scopes, e@));
            },
            Expr::UnaryOperation { operand, .. } => {
                self.analyze_expression(operand);
            },
            Expr::Assignment { left, right } => {
                self.analyze_expression(left);
                self.analyze_expression(right);
                assert(final(self)@.errors =~= old(self)@.errors + name_diagnostics(scopes, e@));
            },
            Expr::FuncCall(call) => {
                self.analyze_function_call(call);
            },
        }
    }

    fn analyze_function_call(&mut self, call: &function_call)
        ensures
            final(self)@ == old(self)@.report_all(call_name_diagnostics(old(self)@.scopes, call@)),
        decreases call,
    {
        let ghost scopes = self@.scopes;
        let ghost before = self@;
        let problem = match self.state.lookup_symbol(call.identifier.as_str()) {
            None => Some(Diagnostic::UndefinedFunction { name: call.identifier.clone() }),
            Some(symbol) => if symbol.symbol_type.is_function() {
                None
            } else {
                Some(Diagnostic::VariableUsedAsFunction { name: call.identifier.clone() })
            },
        };
        match problem {
            Some(diagnostic) => {
                self.state.report(diagnostic);
            },
            None => {},
        }
        assert(self@.errors =~= before.errors + callee_diagnostics(scopes, call@.identifier));
        let mut i: usize = 0;
        assert(call@.args.take(0) =~= Seq::<ExprView>::empty());
        while i < call.args.len()
            invariant
                0 <= i <= call.args@.len(),
                call@.args == exprs_view(call.args@),
                self@.scopes == scopes,
                self@ == before.report_all(
                    callee_diagnostics(scopes, call@.identifier) + arguments_name_diagnostics(
                        scopes,
                        call@.args.take(i as int),
                    ),
                ),
            decreases call.args@.len() - i,
        {
            self.analyze_expression(&call.args[i]);
            assert(call@.args.take(i + 1).drop_last() =~= call@.args.take(i as int));
            assert(call@.args.take(i + 1).last() == call.args@[i as int]@);
            assert(self@.errors =~= before.errors + (callee_diagnostics(scopes, call@.identifier)
                + arguments_name_diagnostics(scopes, call@.args.take(i + 1))));
            i = i + 1;
        }
        assert(call@.args.take(call@.args.len() as int) =~= call@.args);
    }

    fn analyze_declaration(&mut self, declaration: &variable_declaration)
        ensures
            final(self)@ == resolve_declaration_spec(old(self)@, declaration@),
    {
        self.analyze_expression(&declaration.expression);
        self.state.declare_symbol(
            declaration.identifier.clone(),
            Symbol {
                name: declaration.identifier.clone(),
                symbol_type: SymbolType::Variable(declaration.type_token),
            },
        );
    }

    fn analyze_block(&mut self, block: &Block)
        ensures
            final(self)@ == resolve_block_spec(old(self)@, block@),
        decreases block, 1nat,
    {
        let ghost all = block@;
        let mut i: usize = 0;
        assert(all.take(0) =~= Seq::empty());
        while i < block.statements.len()
            invariant
                0 <= i <= block.statements@.len(),
                all == statements_view(block.statements@),
                self@ == resolve_block_spec(old(self)@, all.take(i as int)),
            decreases block.statements@.len() - i,
        {
            assert(all.take(i + 1).drop_last() =~= all.take(i as int));
            assert(all.take(i + 1).last() == block.statements@[i as int].view());
            self.analyze_statement(&block.statements[i]);
            i = i + 1;
        }
        assert(all.take(block.statements@.len() as int) =~= all);
    }

    fn analyze_scoped_block(&mut self, block: &Block)
        ensures
            final(self)@ == resolve_scoped_block_spec(old(self)@, block@),
        decreases block, 2nat,
    {
        self.state.enter_scope();
        self.analyze_block(block);
        self.state.exit_scope();
    }

    fn analyze_statement(&mut self, s: &statement)
        ensures
            final(self)@ == resolve_statement_spec(old(self)@, s.view()),
        decreases s, 0nat,
    {
        match s {
            statement::Var(declaration) => {
                self.analyze_declaration(declaration);
            },
            statement::Expr(e) => {
                self.analyze_expression(e);
            },
            statement::Return(r) => {
                self.analyze_expression(&r.expr);
            },
            statement::Break => {},
            statement::Continue => {},
            statement::If(i) => {
                self.analyze_if_statement(i);
            },
            statement::While(w) => {
                self.analyze_while_statement(w);
            },
            statement::For(f) => {
                self.analyze_for_statement(f);
            },
        }
    }

    fn analyze_if_statement(&mut self, i: &if_statement)
        ensures
            final(self)@ == resolve_if_spec(old(self)@, i.view()),
        decreases i, 0nat,
    {
        self.analyze_expression(&i.if_statement.condition);
        self.analyze_scoped_block(&i.if_statement.block);
        let ghost after_first = self@;
        let ghost all = elifs_view(i.elif_statement@);
        let mut k: usize = 0;
        assert(all.take(0) =~= Seq::empty());
        while k < i.elif_statement.len()
            invariant
                0 <= k <= i.elif_statement@.len(),
                all == elifs_view(i.elif_statement@),
                self@ == resolve_elifs_spec(after_first, all.take(k as int)),
            decreases i.elif_statement@.len() - k,
        {
            assert(all.take(k + 1).drop_last() =~= all.take(k as int));
            assert(all.take(k + 1).last() == i.elif_statement@[k as int].view());
            match &i.elif_statement[k] {
                elif_statement::Elif { if_statement } => {
                    self.analyze_expression(&if_statement.condition);
                    self.analyze_scoped_block(&if_statement.block);
                },
            }
            k = k + 1;
        }
        assert(all.take(i.elif_statement@.len() as int) =~= all);
        match &i.else_statement {
            Some(block) => {
                self.analyze_scoped_block(block);
            },
            None => {},
        }
    }

    fn analyze_while_statement(&mut self, w: &while_statement)
        ensures
            final(self)@ == resolve_statement_spec(old(self)@, StatementView::While(w.view())),
        decreases w, 3nat,
    {
        self.analyze_expression(&w.condition);
        self.analyze_scoped_block(&w.block);
    }

    fn analyze_for_clauses(&mut self, f: &for_statement)
        ensures
            final(self)@ == resolve_for_clauses_spec(old(self)@, f.view()),
    {
        match &f.init_loop_var {
            Some(declaration) => {
                self.analyze_declaration(declaration);
            },
            None => {},
        }
        match &f.loop_condition {
            expression_statement::Expr(condition) => {
                self.analyze_expression(condition);
            },
            expression_statement::SemiColon => {},
        }
        match &f.update_loop_var {
            Some(update) => {
                self.analyze_expression(update);
            },
            None => {},
        }
    }

    fn analyze_for_statement(&mut self, f: &for_statement)
        ensures
            final(self)@ == resolve_for_spec(old(self)@, f.view()),
        decreases f, 0nat,
    {
        self.state.enter_scope();
        self.analyze_for_clauses(f);
        self.analyze_block(&f.block);
        self.state.exit_scope();
    }

    fn analyze_function(&mut self, function: &function_statement)
        ensures
            final(self)@ == resolve_function_spec(old(self)@, function@),
    {
        self.state.declare_symbol(
            function.identifier.clone(),
            crate::semantics::semantic_analysis::ScopeAnalyzer::symbol_of(function),
        );
        self.state.enter_scope();
        let ghost entered = self@;
        let ghost all = function@.params;
        let mut i: usize = 0;
        assert(all.take(0) =~= Seq::empty());
        while i < function.params.len()
            invariant
                0 <= i <= function.params@.len(),
                all == params_view(function.params@),
                self@ == declare_parameters(entered, all.take(i as int)),
            decreases function.params@.len() - i,
        {
            assert(all.take(i + 1).drop_last() =~= all.take(i as int));
            let parameter = &function.params[i];
            self.state.declare_symbol(
                parameter.identifier.clone(),
                Symbol {
                    name: parameter.identifier.clone(),
                    symbol_type: SymbolType::Variable(parameter.type_token),
                },
            );
            i = i + 1;
        }
        assert(all.take(function.params@.len() as int) =~= all);
        self.analyze_block(&function.block);
        self.state.exit_scope();
    }

    fn analyze_root(&mut self, declaration: &root)
        ensures
            final(self)@ == resolve_root_spec(old(self)@, declaration@),
    {
        if root_within(declaration, MAX_ANALYSIS_DEPTH) {
            match declaration {
                root::Var(v) => {
                    self.analyze_declaration(v);
                },
                root::Func(f) => {
                    self.analyze_function(f);
                },
            }
        } else {
            match declaration {
                root::Var(v) => {
                    self.state.report(Diagnostic::NestingTooDeep { name: v.identifier.clone() });
                    self.state.declare_symbol(
                        v.identifier.clone(),
                        Symbol {
                            name: v.identifier.clone(),
                            symbol_type: SymbolType::Variable(v.type_token),
                        },
                    );
                },
                root::Func(f) => {
                    self.state.report(Diagnostic::NestingTooDeep { name: f.identifier.clone() });
                    self.state.declare_symbol(
                        f.identifier.clone(),
                        crate::semantics::semantic_analysis::ScopeAnalyzer::symbol_of(f),
                    );
                },
            }
        }
    }

    /// Checks the declarations of a program in source order and adds what it
    /// finds to the diagnostics.
    pub fn analyze(&mut self, root_list: &root_list)
        ensures
            final(self)@ == resolve_program_spec(old(self)@, program_view(root_list@)),
    {
        let ghost all = program_view(root_list@);
        let mut i: usize = 0;
        assert(all.take(0) =~= Seq::empty());
        while i < root_list.len()
            invariant
                0 <= i <= root_list@.len(),
                all == program_view(root_list@),
                self@ == resolve_program_spec(old(self)@, all.take(i as int)),
            decreases root_list@.len() - i,
        {
            assert(all.take(i + 1).drop_last() =~= all.take(i as int));
            self.analyze_root(&root_list[i]);
            i = i + 1;
        }
        assert(all.take(root_list@.len() as int) =~= all);
    }

    /// The texts of the diagnostics found so far, in the order they were found.
    pub fn get_errors(&self) -> (texts: Vec<String>)
        ensures
            texts@.len() == self@.errors.len(),
            forall|i: int|
                0 <= i < texts@.len() ==> #[trigger] texts@[i]@ == message_text(self@.errors[i]),
    {
        self.state.get_errors()
    }

    /// Whether nothing has been reported.
    pub fn is_valid(&self) -> (valid: bool)
        ensures
            valid == (self@.errors.len() == 0),
    {
        self.state.is_valid()
    }
}

/// Checks the scopes of a program from scratch: `Ok` if nothing was found,
/// else the texts of the diagnostics in the order they were found.
pub fn scope_checking(ast: root_list) -> (outcome: Result<(), Vec<String>>)
    ensures
        ({
            let found = resolve_program_spec(AnalyzerView::initial(), program_view(ast@)).errors;
            match outcome {
                Ok(_) => found.len() == 0,
                Err(texts) => found.len() > 0 && texts@.len() == found.len() && forall|i: int|
                    0 <= i < texts@.len() ==> #[trigger] texts@[i]@ == message_text(found[i]),
            }
        }),
{
    let mut analyzer = ScopeAnalyzer::new();
    analyzer.analyze(&ast);
    if analyzer.is_valid() {
        Ok(())
    } else {
        Err(analyzer.get_errors())
    }
}

} // verus!
