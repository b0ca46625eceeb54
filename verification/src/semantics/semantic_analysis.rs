//! Scopes, types and the analyzer that walks a program with them.

use crate::parser::enums::{
    binary_operator, elif_statement, expression_statement, for_statement, function_call,
    function_statement, if_statement, program_view, root, root_list, statement, unary_operator,
    variable_declaration, while_statement, Block, Expr, Literal,
};
use crate::semantics::diagnostics::{
    diagnostics_view, message_text, messages, Construct, Diagnostic, DiagnosticView, Side,
};
use crate::parser::enums::{
    elifs_view, exprs_view, params_view, statements_view, BranchView, ExprView, StatementView,
};
use crate::semantics::depth::root_within;
use crate::semantics::rules::{
    analyze_block_spec, analyze_declaration_spec, analyze_elifs_spec, analyze_for_clauses_spec,
    analyze_for_statement_spec, analyze_function_spec, analyze_if_statement_spec,
    analyze_return_spec, analyze_root_spec, analyze_scoped_block_spec, analyze_statement_spec,
    analyze_while_statement_spec, block_depth, block_returns, branches_depth, branches_return,
    check_condition, check_expression, declare_parameters, function_symbol,
    lemma_block_depth_covers, lemma_branches_depth_covers, parameter_types, statement_depth,
    statement_returns,
};
use crate::semantics::rules::{
    analyze_program_spec, arguments_scope_diagnostics, arguments_type_diagnostics,
    binary_diagnostics, call_diagnostics, callee_diagnostics, callee_parameters, expr_type,
    literal_type, lookup_in, operator_class, redeclaration, scope_diagnostics, type_diagnostics,
    unary_diagnostics, AnalyzerView, OperatorClass, SymbolTypeView, SymbolView, MAX_ANALYSIS_DEPTH,
};
use vstd::hash_map::StringHashMap;
use vstd::prelude::*;
use vstd::string::StringExecFns;

verus! {

/// The types of the language, with `Unknown` for an expression whose type
/// could not be found.
#[derive(Debug, Clone, Copy, PartialEq, Eq, Structural)]
pub enum Type {
    Int,
    Float,
    Bool,
    String,
    Void,
    Unknown,
}

/// The name under which a type is written and reported.
pub open spec fn name_of_type(t: Type) -> Seq<char> {
    match t {
        Type::Int => "int"@,
        Type::Float => "float"@,
        Type::Bool => "bool"@,
        Type::String => "string"@,
        Type::Void => "void"@,
        Type::Unknown => "unknown"@,
    }
}

/// The type that a name stands for; `Unknown` for any other text.
pub open spec fn type_named(name: Seq<char>) -> Type {
    if name == "int"@ {
        Type::Int
    } else if name == "float"@ {
        Type::Float
    } else if name == "bool"@ {
        Type::Bool
    } else if name == "string"@ {
        Type::String
    } else if name == "void"@ {
        Type::Void
    } else {
        Type::Unknown
    }
}

/// A type is compatible with itself, and `Int` and `Float` with each other.
pub open spec fn compatible(a: Type, b: Type) -> bool {
    a == b || (a == Type::Int && b == Type::Float) || (a == Type::Float && b == Type::Int)
}

/// `Int` or `Float`.
pub open spec fn numeric(t: Type) -> bool {
    t == Type::Int || t == Type::Float
}

/// Any type but `Unknown`. An expression of unknown type has been reported
/// where its type was lost, and is reported for nothing that follows from it.
pub open spec fn known(t: Type) -> bool {
    t != Type::Unknown
}

/// Whether a value of type `found` is reported where a value of type
/// `expected` is wanted: when both types are known and not compatible.
pub open spec fn mismatched(expected: Type, found: Type) -> bool {
    known(expected) && known(found) && !compatible(expected, found)
}

/// Whether an operand of type `found` is reported where only `wanted` will
/// do: when its type is known and is another.
pub open spec fn misses(found: Type, wanted: Type) -> bool {
    known(found) && found != wanted
}

/// The type of an arithmetic operation: `Int` for two `Int`s, `Float` for two
/// numeric operands of which one is `Float`, `Unknown` for everything else.
pub open spec fn arithmetic_result(a: Type, b: Type) -> Type {
    if a == Type::Int && b == Type::Int {
        Type::Int
    } else if numeric(a) && numeric(b) {
        Type::Float
    } else {
        Type::Unknown
    }
}

/// Whether two pieces of text hold the same characters.
fn same_text(a: &str, b: &str) -> (same: bool)
    ensures
        same == (a@ == b@),
{
    let left = String::from_str(a);
    let right = String::from_str(b);
    left == right
}

impl Type {
    /// The type that a name stands for; `Unknown` for any other text.
    pub fn from_string(s: &str) -> (t: Type)
        ensures
            t == type_named(s@),
    {
        if same_text(s, "int") {
            Type::Int
        } else if same_text(s, "float") {
            Type::Float
        } else if same_text(s, "bool") {
            Type::Bool
        } else if same_text(s, "string") {
            Type::String
        } else if same_text(s, "void") {
            Type::Void
        } else {
            Type::Unknown
        }
    }

    /// The name of the type.
    pub fn to_string(&self) -> (name: String)
        ensures
            name@ == name_of_type(*self),
    {
        match self {
            Type::Int => String::from_str("int"),
            Type::Float => String::from_str("float"),
            Type::Bool => String::from_str("bool"),
            Type::String => String::from_str("string"),
            Type::Void => String::from_str("void"),
            Type::Unknown => String::from_str("unknown"),
        }
    }

    /// Whether a value of one of the two types may stand where the other is
    /// expected.
    pub fn is_compatible(&self, other: &Type) -> (b: bool)
        ensures
            b == compatible(*self, *other),
    {
        *self == *other || (*self == Type::Int && *other == Type::Float) || (*self == Type::Float
            && *other == Type::Int)
    }

    /// Whether a value of type `found` is reported where this type is
    /// wanted: both types are known and not compatible.
    pub fn is_mismatched(&self, found: &Type) -> (b: bool)
        ensures
            b == mismatched(*self, *found),
    {
        *self != Type::Unknown && *found != Type::Unknown && !self.is_compatible(found)
    }

    /// Whether an operand of this type is reported where only `wanted` will
    /// do: the type is known and is another.
    pub fn misses(&self, wanted: &Type) -> (b: bool)
        ensures
            b == misses(*self, *wanted),
    {
        *self != Type::Unknown && *self != *wanted
    }

    /// The type of an arithmetic operation on operands of the two types.
    pub fn result_type(&self, other: &Type) -> (t: Type)
        ensures
            t == arithmetic_result(*self, *other),
    {
        match (*self, *other) {
            (Type::Int, Type::Int) => Type::Int,
            (Type::Float, Type::Int) | (Type::Int, Type::Float) | (Type::Float, Type::Float) => {
                Type::Float
            },
            _ => Type::Unknown,
        }
    }
}

/// Every type is found again from its own name.
pub proof fn lemma_type_named_inverts_name(t: Type)
    ensures
        type_named(name_of_type(t)) == t,
{
    reveal_strlit("int");
    reveal_strlit("float");
    reveal_strlit("bool");
    reveal_strlit("string");
    reveal_strlit("void");
    reveal_strlit("unknown");
    match t {
        Type::Int => {},
        Type::Float => {
            assert("float"@.len() != "int"@.len());
        },
        Type::Bool => {
            assert("bool"@.len() != "int"@.len());
            assert("bool"@.len() != "float"@.len());
        },
        Type::String => {
            assert("string"@.len() != "int"@.len());
            assert("string"@.len() != "float"@.len());
            assert("string"@.len() != "bool"@.len());
        },
        Type::Void => {
            assert("void"@.len() != "int"@.len());
            assert("void"@.len() != "float"@.len());
            assert("void"@[0] != "bool"@[0]);
            assert("void"@.len() != "string"@.len());
        },
        Type::Unknown => {
            assert("unknown"@.len() != "int"@.len());
            assert("unknown"@.len() != "float"@.len());
            assert("unknown"@.len() != "bool"@.len());
            assert("unknown"@.len() != "string"@.len());
            assert("unknown"@.len() != "void"@.len());
        },
    }
}

/// Compatibility is symmetric.
pub proof fn lemma_compatible_symmetric(a: Type, b: Type)
    ensures
        compatible(a, b) == compatible(b, a),
{
}

/// What a declared name stands for.
#[derive(Debug)]
pub enum SymbolType {
    Variable(Type),
    Function { return_type: Type, params: Vec<Type> },
}

/// A declared name and what it stands for.
#[derive(Debug)]
pub struct Symbol {
    pub name: String,
    pub symbol_type: SymbolType,
}

impl View for SymbolType {
    type V = SymbolTypeView;

    open spec fn view(&self) -> SymbolTypeView {
        match self {
            SymbolType::Variable(declared) => SymbolTypeView::Variable(*declared),
            SymbolType::Function { return_type, params } => SymbolTypeView::Function {
                return_type: *return_type,
                params: params@,
            },
        }
    }
}

impl SymbolType {
    /// Whether the name stands for a function.
    pub fn is_function(&self) -> (b: bool)
        ensures
            b == (self@ is Function),
    {
        match self {
            SymbolType::Function { .. } => true,
            SymbolType::Variable(_) => false,
        }
    }
}

impl View for Symbol {
    type V = SymbolView;

    open spec fn view(&self) -> SymbolView {
        SymbolView { name: self.name@, symbol_type: self.symbol_type@ }
    }
}

/// One lexical scope: the names declared in it.
pub struct Scope {
    symbols: StringHashMap<Symbol>,
}

impl View for Scope {
    type V = Map<Seq<char>, SymbolView>;

    closed spec fn view(&self) -> Map<Seq<char>, SymbolView> {
        self.symbols@.map_values(|symbol: Symbol| symbol@)
    }
}

impl Scope {
    /// A scope without names.
    pub fn new() -> (scope: Scope)
        ensures
            scope@ == Map::<Seq<char>, SymbolView>::empty(),
    {
        let scope = Scope { symbols: StringHashMap::new() };
        assert(scope@ =~= Map::<Seq<char>, SymbolView>::empty());
        scope
    }

    /// Declares `name` as `symbol`, unless the scope holds the name already:
    /// then the scope stays as it is and the conflict is the result.
    pub fn declare(&mut self, name: String, symbol: Symbol) -> (outcome: Result<(), Diagnostic>)
        ensures
            old(self)@.contains_key(name@) ==> final(self)@ == old(self)@ && outcome is Err
                && outcome->Err_0@ == redeclaration(
                old(self)@[name@].symbol_type,
                symbol@.symbol_type,
                name@,
            ),
            !old(self)@.contains_key(name@) ==> final(self)@ == old(self)@.insert(name@, symbol@)
                && outcome is Ok,
    {
        let existing_is_function = match self.symbols.get(name.as_str()) {
            None => None,
            Some(existing) => Some(existing.symbol_type.is_function()),
        };
        match existing_is_function {
            Some(true) => if symbol.symbol_type.is_function() {
                Err(Diagnostic::FunctionRedefined { name })
            } else {
                Err(Diagnostic::FunctionRedeclaredAsVariable { name })
            },
            Some(false) => if symbol.symbol_type.is_function() {
                Err(Diagnostic::VariableRedefinedAsFunction { name })
            } else {
                Err(Diagnostic::VariableRedeclared { name })
            },
            None => {
                let ghost key = name@;
                self.symbols.insert(name, symbol);
                assert(final(self)@ =~= old(self)@.insert(key, symbol@));
                Ok(())
            },
        }
    }

    /// The symbol that the scope holds for `name`.
    pub fn lookup(&self, name: &str) -> (found: Option<&Symbol>)
        ensures
            match found {
                Some(symbol) => self@.contains_key(name@) && symbol@ == self@[name@],
                None => !self@.contains_key(name@),
            },
    {
        self.symbols.get(name)
    }
}

/// The models of a stack of scopes, outermost first.
pub open spec fn scopes_view(scopes: Seq<Scope>) -> Seq<Map<Seq<char>, SymbolView>> {
    Seq::new(scopes.len(), |i: int| scopes[i]@)
}

/// The analyzer: a stack of scopes, the diagnostics found so far, the return
/// type of the function being analyzed, and the number of loops around the
/// statement being analyzed.
pub struct ScopeAnalyzer {
    scopes: Vec<Scope>,
    errors: Vec<Diagnostic>,
    current_function_return_type: Option<Type>,
    loop_depth: usize,
}

impl View for ScopeAnalyzer {
    type V = AnalyzerView;

    closed spec fn view(&self) -> AnalyzerView {
        AnalyzerView {
            scopes: scopes_view(self.scopes@),
            errors: diagnostics_view(self.errors@),
            current_function_return_type: self.current_function_return_type,
            loop_depth: self.loop_depth as nat,
        }
    }
}

impl ScopeAnalyzer {
    /// An analyzer with the global scope alone and nothing reported.
    pub fn new() -> (analyzer: ScopeAnalyzer)
        ensures
            analyzer@ == AnalyzerView::initial(),
    {
        let mut scopes: Vec<Scope> = Vec::new();
        scopes.push(Scope::new());
        let analyzer = ScopeAnalyzer {
            scopes,
            errors: Vec::new(),
            current_function_return_type: None,
            loop_depth: 0,
        };
        assert(analyzer@.scopes =~= seq![Map::<Seq<char>, SymbolView>::empty()]);
        assert(analyzer@.errors =~= Seq::<DiagnosticView>::empty());
        analyzer
    }

    pub(crate) fn report(&mut self, diagnostic: Diagnostic)
        ensures
            final(self)@ == old(self)@.report(diagnostic@),
    {
        self.errors.push(diagnostic);
        assert(final(self)@.errors =~= old(self)@.errors.push(diagnostic@));
    }

    pub(crate) fn enter_scope(&mut self)
        ensures
            final(self)@ == old(self)@.enter_scope(),
    {
        self.scopes.push(Scope::new());
        assert(final(self)@.scopes =~= old(self)@.scopes.push(Map::empty()));
    }

    pub(crate) fn exit_scope(&mut self)
        ensures
            final(self)@ == old(self)@.exit_scope(),
    {
        let _ = self.scopes.pop();
        assert(final(self)@.scopes =~= old(self)@.exit_scope().scopes);
    }

    fn enter_loop(&mut self)
        requires
            old(self)@.loop_depth < MAX_ANALYSIS_DEPTH,
        ensures
            final(self)@ == old(self)@.enter_loop(),
    {
        self.loop_depth = self.loop_depth + 1;
    }

    fn exit_loop(&mut self)
        requires
            old(self)@.loop_depth > 0,
        ensures
            final(self)@ == old(self)@.exit_loop(),
    {
        self.loop_depth = self.loop_depth - 1;
    }

    /// Declares a name in the current scope, or reports the conflict.
    pub(crate) fn declare_symbol(&mut self, name: String, symbol: Symbol)
        ensures
            final(self)@ == old(self)@.declare(name@, symbol@),
    {
        match self.scopes.pop() {
            None => {},
            Some(mut current) => {
                let outcome = current.declare(name, symbol);
                self.scopes.push(current);
                match outcome {
                    Ok(_) => {
                        assert(final(self)@.scopes =~= old(self)@.declare(name@, symbol@).scopes);
                    },
                    Err(conflict) => {
                        assert(self@.scopes =~= old(self)@.scopes);
                        self.report(conflict);
                    },
                }
            },
        }
    }

    /// The symbol that a name stands for, looked for from the current scope
    /// outwards.
    pub(crate) fn lookup_symbol(&self, name: &str) -> (found: Option<&Symbol>)
        ensures
            match found {
                Some(symbol) => self@.lookup(name@) == Some(symbol@),
                None => self@.lookup(name@) is None,
            },
    {
        let mut i = self.scopes.len();
        assert(self@.scopes.take(i as int) =~= self@.scopes);
        while i > 0
            invariant
                0 <= i <= self.scopes@.len(),
                lookup_in(self@.scopes, name@) == lookup_in(self@.scopes.take(i as int), name@),
            decreases i,
        {
            i = i - 1;
            assert(self@.scopes.take(i + 1).drop_last() =~= self@.scopes.take(i as int));
            match self.scopes[i].lookup(name) {
                Some(symbol) => {
                    return Some(symbol);
                },
                None => {},
            }
        }
        None
    }

    /// The diagnostics found so far, in the order they were found.
    pub fn diagnostics(&self) -> (found: &Vec<Diagnostic>)
        ensures
            diagnostics_view(found@) == self@.errors,
    {
        &self.errors
    }

    /// The texts of the diagnostics found so far, in the order they were found.
    pub fn get_errors(&self) -> (texts: Vec<String>)
        ensures
            texts@.len() == self@.errors.len(),
            forall|i: int|
                0 <= i < texts@.len() ==> #[trigger] texts@[i]@ == message_text(
                    self@.errors[i],
                ),
    {
        messages(&self.errors)
    }

    /// Whether nothing has been reported.
    pub fn is_valid(&self) -> (valid: bool)
        ensures
            valid == (self@.errors.len() == 0),
    {
        self.errors.len() == 0
    }
}

/// What the callee of a call resolves to.
enum Callee {
    Undefined,
    Variable,
    Function(Vec<Type>),
}

/// A copy of a list of types.
fn copy_types(types: &Vec<Type>) -> (copy: Vec<Type>)
    ensures
        copy@ == types@,
{
    let mut copy: Vec<Type> = Vec::new();
    let mut i: usize = 0;
    while i < types.len()
        invariant
            0 <= i <= types@.len(),
            copy@ == types@.take(i as int),
        decreases types@.len() - i,
    {
        copy.push(types[i]);
        assert(copy@ =~= types@.take(i + 1));
        i = i + 1;
    }
    assert(types@.take(types@.len() as int) =~= types@);
    copy
}

/// The type of a literal.
fn type_of_literal(literal: &Literal) -> (t: Type)
    ensures
        t == literal_type(literal@),
{
    match literal {
        Literal::Int(_) => Type::Int,
        Literal::Float(_) => Type::Float,
        Literal::Str(_) => Type::String,
        Literal::Bool(_) => Type::Bool,
    }
}

/// The class of a binary operator.
fn class_of(operator: binary_operator) -> (class: OperatorClass)
    ensures
        class == operator_class(operator),
{
    match operator {
        binary_operator::Plus | binary_operator::Minus | binary_operator::Multiply
        | binary_operator::Divide | binary_operator::Exponent => OperatorClass::Arithmetic,
        binary_operator::Equals | binary_operator::NotEquals | binary_operator::LessThan
        | binary_operator::GreaterThan | binary_operator::LessThanEqual
        | binary_operator::GreaterThanEqual => OperatorClass::Comparison,
        binary_operator::And | binary_operator::Or => OperatorClass::Logical,
        binary_operator::LeftShift | binary_operator::RightShift => OperatorClass::Shift,
    }
}

impl ScopeAnalyzer {
    /// The type of a name used as a variable.
    fn variable_type(&self, name: &str) -> (t: Type)
        ensures
            t == expr_type(self@.scopes, ExprView::Identifier(name@)),
    {
        match self.lookup_symbol(name) {
            Some(symbol) => match &symbol.symbol_type {
                SymbolType::Variable(declared) => *declared,
                SymbolType::Function { .. } => Type::Unknown,
            },
            None => Type::Unknown,
        }
    }

    /// The type of a call of a name.
    fn call_type(&self, call: &function_call) -> (t: Type)
        ensures
            t == expr_type(self@.scopes, ExprView::FuncCall(call@)),
    {
        match self.lookup_symbol(call.identifier.as_str()) {
            Some(symbol) => match &symbol.symbol_type {
                SymbolType::Function { return_type, .. } => *return_type,
                SymbolType::Variable(_) => Type::Unknown,
            },
            None => Type::Unknown,
        }
    }

    fn callee(&self, name: &str) -> (callee: Callee)
        ensures
            match callee {
                Callee::Undefined => self@.lookup(name@) is None,
                Callee::Variable => self@.lookup(name@) is Some && self@.lookup(
                    name@,
                )->0.symbol_type is Variable,
                Callee::Function(params) => callee_parameters(self@.scopes, name@) == Some(
                    params@,
                ),
            },
    {
        match self.lookup_symbol(name) {
            None => Callee::Undefined,
            Some(symbol) => match &symbol.symbol_type {
                SymbolType::Variable(_) => Callee::Variable,
                SymbolType::Function { params, .. } => Callee::Function(copy_types(params)),
            },
        }
    }

    /// Reports what a binary operator is reported for on operands of the
    /// given types.
    fn report_binary(&mut self, operator: binary_operator, left: Type, right: Type)
        ensures
            final(self)@ == old(self)@.report_all(binary_diagnostics(operator, left, right)),
    {
        match class_of(operator) {
            OperatorClass::Arithmetic => {
                if left != Type::Unknown && right != Type::Unknown && left.result_type(&right)
                    == Type::Unknown {
                    self.report(Diagnostic::ArithmeticMismatch { left, right });
                }
            },
            OperatorClass::Comparison => {
                if left.is_mismatched(&right) {
                    self.report(Diagnostic::ComparisonMismatch { left, right });
                }
            },
            OperatorClass::Logical => {
                if left.misses(&Type::Bool) {
                    self.report(Diagnostic::LogicalOperand { found: left, side: Side::Left });
                }
                if right.misses(&Type::Bool) {
                    self.report(Diagnostic::LogicalOperand { found: right, side: Side::Right });
                }
            },
            OperatorClass::Shift => {
                if left.misses(&Type::Int) {
                    self.report(Diagnostic::ShiftOperand { found: left });
                }
                if right.misses(&Type::Int) {
                    self.report(Diagnostic::ShiftOperand { found: right });
                }
            },
        }
        assert(final(self)@.errors =~= old(self)@.errors + binary_diagnostics(
            operator,
            left,
            right,
        ));
    }

    fn report_unary(&mut self, prefix: unary_operator, operand: Type)
        ensures
            final(self)@ == old(self)@.report_all(unary_diagnostics(prefix, operand)),
    {
        match prefix {
            unary_operator::Minus => {
                if operand.misses(&Type::Int) && operand.misses(&Type::Float) {
                    self.report(Diagnostic::UnaryMinusOperand { found: operand });
                }
            },
            unary_operator::Not => {
                if operand.misses(&Type::Bool) {
                    self.report(Diagnostic::LogicalNotOperand { found: operand });
                }
            },
        }
        assert(final(self)@.errors =~= old(self)@.errors + unary_diagnostics(prefix, operand));
    }

    /// The type pass: infers the type of an expression and reports the
    /// operands that its operators do not take.
    fn infer_expression_type(&mut self, e: &Expr) -> (found: Type)
        ensures
            final(self)@ == old(self)@.report_all(type_diagnostics(old(self)@.scopes, e@)),
            found == expr_type(old(self)@.scopes, e@),
        decreases e,
    {
        let ghost scopes = self@.scopes;
        match e {
            Expr::Literal(literal) => {
                assert(self@.errors + Seq::<DiagnosticView>::empty() =~= self@.errors);
                type_of_literal(literal)
            },
            Expr::Identifier(name) => {
                assert(self@.errors + Seq::<DiagnosticView>::empty() =~= self@.errors);
                self.variable_type(name.as_str())
            },
            Expr::BinaryOperation { left, operator, right } => {
                let left_type = self.infer_expression_type(left);
                let right_type = self.infer_expression_type(right);
                self.report_binary(*operator, left_type, right_type);
                assert(final(self)@.errors =~= old(self)@.errors + type_diagnostics(scopes, e@));
                match class_of(*operator) {
                    OperatorClass::Arithmetic => left_type.result_type(&right_type),
                    OperatorClass::Comparison => Type::Bool,
                    OperatorClass::Logical => Type::Bool,
                    OperatorClass::Shift => Type::Int,
                }
            },
            Expr::UnaryOperation { prefix, operand } => {
                let operand_type = self.infer_expression_type(operand);
                self.report_unary(*prefix, operand_type);
                assert(final(self)@.errors =~= old(self)@.errors + type_diagnostics(scopes, e@));
                match prefix {
                    unary_operator::Minus => if operand_type == Type::Int || operand_type
                        == Type::Float {
                        operand_type
                    } else {
                        Type::Unknown
                    },
                    unary_operator::Not => Type::Bool,
                }
            },
            Expr::Assignment { left, right } => {
                let target = self.infer_expression_type(left);
                let value = self.infer_expression_type(right);
                if target.is_mismatched(&value) {
                    self.report(Diagnostic::AssignmentMismatch { value, target });
                }
                assert(final(self)@.errors =~= old(self)@.errors + type_diagnostics(scopes, e@));
                target
            },
            Expr::FuncCall(call) => {
                assert(self@.errors + Seq::<DiagnosticView>::empty() =~= self@.errors);
                self.call_type(call)
            },
        }
    }

    /// The scope pass: reports the names in an expression that are undefined
    /// or of the wrong kind, and checks every call in it.
    fn analyze_expression(&mut self, e: &Expr)
        ensures
            final(self)@ == old(self)@.report_all(scope_diagnostics(old(self)@.scopes, e@)),
        decreases e,
    {
        let ghost scopes = self@.scopes;
        match e {
            Expr::Literal(_) => {
                assert(self@.errors + Seq::<DiagnosticView>::empty() =~= self@.errors);
            },
            Expr::Identifier(name) => {
                let problem = match self.lookup_symbol(name.as_str()) {
                    None => Some(Diagnostic::UndefinedVariable { name: name.clone() }),
                    Some(symbol) => if symbol.symbol_type.is_function() {
                        Some(Diagnostic::FunctionUsedAsVariable { name: name.clone() })
                    } else {
                        None
                    },
                };
                match problem {
                    Some(diagnostic) => {
                        self.report(diagnostic);
                    },
                    None => {},
                }
                assert(final(self)@.errors =~= old(self)@.errors + scope_diagnostics(scopes, e@));
            },
            Expr::BinaryOperation { left, right, .. } => {
                self.analyze_expression(left);
                self.analyze_expression(right);
                assert(final(self)@.errors =~= old(self)@.errors + scope_diagnostics(scopes, e@));
            },
            Expr::UnaryOperation { operand, .. } => {
                self.analyze_expression(operand);
            },
            Expr::Assignment { left, right } => {
                self.analyze_expression(left);
                self.analyze_expression(right);
                assert(final(self)@.errors =~= old(self)@.errors + scope_diagnostics(scopes, e@));
            },
            Expr::FuncCall(call) => {
                self.analyze_function_call(call);
            },
        }
    }

    /// Checks a call: the callee must be a function, and the arguments must
    /// agree with its parameters in number and, place by place, in type.
    fn analyze_function_call(&mut self, call: &function_call)
        ensures
            final(self)@ == old(self)@.report_all(call_diagnostics(old(self)@.scopes, call@)),
        decreases call,
    {
        let ghost scopes = self@.scopes;
        let ghost before = self@;
        let callee = self.callee(call.identifier.as_str());
        match callee {
            Callee::Undefined => {
                self.report(Diagnostic::UndefinedFunction { name: call.identifier.clone() });
            },
            Callee::Variable => {
                self.report(Diagnostic::VariableUsedAsFunction { name: call.identifier.clone() });
            },
            Callee::Function(_) => {},
        }
        assert(self@.errors =~= before.errors + callee_diagnostics(scopes, call@.identifier));
        let mut i: usize = 0;
        assert(call@.args.take(0) =~= Seq::<ExprView>::empty());
        while i < call.args.len()
            invariant
                0 <= i <= call.args@.len(),
                call@.args == exprs_view(call.args@),
                self@.scopes == scopes,
                self@ == before.report_all(
                    callee_diagnostics(scopes, call@.identifier) + arguments_scope_diagnostics(
                        scopes,
                        call@.args.take(i as int),
                    ),
                ),
            decreases call.args@.len() - i,
        {
            let ghost so_far = self@.errors;
            self.analyze_expression(&call.args[i]);
            assert(call@.args.take(i + 1).drop_last() =~= call@.args.take(i as int));
            assert(call@.args.take(i + 1).last() == call.args@[i as int]@);
            assert(self@.errors =~= before.errors + (callee_diagnostics(scopes, call@.identifier)
                + arguments_scope_diagnostics(scopes, call@.args.take(i + 1))));
            i = i + 1;
        }
        assert(call@.args.take(call@.args.len() as int) =~= call@.args);
        let ghost checked = callee_diagnostics(scopes, call@.identifier)
            + arguments_scope_diagnostics(scopes, call@.args);
        match callee {
            Callee::Function(params) => {
                if call.args.len() != params.len() {
                    self.report(
                        Diagnostic::ArgumentCountMismatch {
                            name: call.identifier.clone(),
                            parameters: params.len(),
                            arguments: call.args.len(),
                        },
                    );
                    assert(self@.errors =~= before.errors + call_diagnostics(scopes, call@));
                } else {
                    let mut j: usize = 0;
                    assert(self@.errors =~= before.errors + (checked + arguments_type_diagnostics(
                        scopes,
                        call@.identifier,
                        call@.args.take(0),
                        params@,
                    )));
                    while j < call.args.len()
                        invariant
                            0 <= j <= call.args@.len(),
                            call.args@.len() == params@.len(),
                            call@.args == exprs_view(call.args@),
                            call@.identifier == call.identifier@,
                            self@.scopes == scopes,
                            self@ == before.report_all(
                                checked + arguments_type_diagnostics(
                                    scopes,
                                    call@.identifier,
                                    call@.args.take(j as int),
                                    params@,
                                ),
                            ),
                        decreases call.args@.len() - j,
                    {
                        let found = self.infer_expression_type(&call.args[j]);
                        let expected = params[j];
                        if expected.is_mismatched(&found) {
                            self.report(
                                Diagnostic::ArgumentTypeMismatch {
                                    name: call.identifier.clone(),
                                    position: j + 1,
                                    expected,
                                    found,
                                },
                            );
                        }
                        assert(call@.args.take(j + 1).drop_last() =~= call@.args.take(j as int));
                        assert(call@.args.take(j + 1).last() == call.args@[j as int]@);
                        assert(self@.errors =~= before.errors + (checked
                            + arguments_type_diagnostics(
                            scopes,
                            call@.identifier,
                            call@.args.take(j + 1),
                            params@,
                        )));
                        j = j + 1;
                    }
                    assert(self@.errors =~= before.errors + call_diagnostics(scopes, call@));
                }
            },
            _ => {
                assert(self@.errors =~= before.errors + call_diagnostics(scopes, call@));
            },
        }
    }
}

impl ScopeAnalyzer {
    /// Both passes over an expression; the result is its type.
    fn check_expression(&mut self, e: &Expr) -> (found: Type)
        ensures
            final(self)@ == check_expression(old(self)@, e@),
            found == expr_type(old(self)@.scopes, e@),
    {
        self.analyze_expression(e);
        self.infer_expression_type(e)
    }

    fn check_condition(&mut self, condition: &Expr, construct: Construct)
        ensures
            final(self)@ == check_condition(old(self)@, condition@, construct),
    {
        let found = self.check_expression(condition);
        if found.misses(&Type::Bool) {
            self.report(Diagnostic::ConditionNotBoolean { construct, found });
        }
    }

    /// A variable declaration, in a block, at the top level, or as the first
    /// clause of a `for`.
    fn analyze_declaration(&mut self, declaration: &variable_declaration, in_for: bool)
        ensures
            final(self)@ == analyze_declaration_spec(old(self)@, declaration@, in_for),
    {
        let found = self.check_expression(&declaration.expression);
        let expected = declaration.type_token;
        if expected.is_mismatched(&found) {
            if in_for {
                self.report(
                    Diagnostic::ForInitializerMismatch {
                        name: declaration.identifier.clone(),
                        expected,
                        found,
                    },
                );
            } else {
                self.report(
                    Diagnostic::VariableInitializerMismatch {
                        name: declaration.identifier.clone(),
                        expected,
                        found,
                    },
                );
            }
        }
        self.declare_symbol(
            declaration.identifier.clone(),
            Symbol {
                name: declaration.identifier.clone(),
                symbol_type: SymbolType::Variable(expected),
            },
        );
    }

    fn analyze_return(&mut self, e: &Expr)
        ensures
            final(self)@ == analyze_return_spec(old(self)@, e@),
    {
        let found = self.check_expression(e);
        match self.current_function_return_type {
            Some(expected) => {
                if expected.is_mismatched(&found) {
                    self.report(Diagnostic::ReturnMismatch { expected, found });
                }
            },
            None => {},
        }
    }

    /// The statements of a block, in the scope that is current.
    fn analyze_block(&mut self, block: &Block)
        requires
            old(self)@.loop_depth + block_depth(block@) <= MAX_ANALYSIS_DEPTH,
        ensures
            final(self)@ == analyze_block_spec(old(self)@, block@),
            final(self)@.loop_depth == old(self)@.loop_depth,
        decreases block, 1nat,
    {
        let ghost all = block@;
        let mut i: usize = 0;
        assert(all.take(0) =~= Seq::empty());
        while i < block.statements.len()
            invariant
                0 <= i <= block.statements@.len(),
                all == statements_view(block.statements@),
                self@ == analyze_block_spec(old(self)@, all.take(i as int)),
                self@.loop_depth == old(self)@.loop_depth,
                old(self)@.loop_depth + block_depth(all) <= MAX_ANALYSIS_DEPTH,
            decreases block.statements@.len() - i,
        {
            assert(all.take(i + 1).drop_last() =~= all.take(i as int));
            assert(all.take(i + 1).last() == block.statements@[i as int].view());
            proof {
                lemma_block_depth_covers(all, i as int);
            }
            self.analyze_statement(&block.statements[i]);
            i = i + 1;
        }
        assert(all.take(block.statements@.len() as int) =~= all);
    }

    /// A block in a scope of its own.
    fn analyze_scoped_block(&mut self, block: &Block)
        requires
            old(self)@.loop_depth + block_depth(block@) <= MAX_ANALYSIS_DEPTH,
        ensures
            final(self)@ == analyze_scoped_block_spec(old(self)@, block@),
            final(self)@.loop_depth == old(self)@.loop_depth,
        decreases block, 2nat,
    {
        self.enter_scope();
        self.analyze_block(block);
        self.exit_scope();
    }

    /// Analyzes a block and says whether it returns on every path.
    fn block_has_return(&mut self, block: &Block) -> (has_return: bool)
        requires
            old(self)@.loop_depth + block_depth(block@) <= MAX_ANALYSIS_DEPTH,
        ensures
            final(self)@ == analyze_block_spec(old(self)@, block@),
            final(self)@.loop_depth == old(self)@.loop_depth,
            has_return == block_returns(block@),
    {
        self.analyze_block(block);
        block_surely_returns(block)
    }

    fn analyze_statement(&mut self, s: &statement)
        requires
            old(self)@.loop_depth + statement_depth(s.view()) <= MAX_ANALYSIS_DEPTH,
        ensures
            final(self)@ == analyze_statement_spec(old(self)@, s.view()),
            final(self)@.loop_depth == old(self)@.loop_depth,
        decreases s, 0nat,
    {
        match s {
            statement::Var(declaration) => {
                self.analyze_declaration(declaration, false);
            },
            statement::Expr(e) => {
                let _ = self.check_expression(e);
            },
            statement::Return(r) => {
                self.analyze_return(&r.expr);
            },
            statement::Break => {
                if self.loop_depth == 0 {
                    self.report(Diagnostic::BreakOutsideLoop);
                }
            },
            statement::Continue => {
                if self.loop_depth == 0 {
                    self.report(Diagnostic::ContinueOutsideLoop);
                }
            },
            statement::If(i) => {
                self.analyze_if_statement(i);
            },
            statement::While(w) => {
                self.analyze_while_statement(w);
            },
            statement::For(f) => {
                self.analyze_for_statement(f);
            },
        }
    }

    fn analyze_if_statement(&mut self, i: &if_statement)
        requires
            old(self)@.loop_depth + statement_depth(StatementView::If(i.view()))
                <= MAX_ANALYSIS_DEPTH,
        ensures
            final(self)@ == analyze_if_statement_spec(old(self)@, i.view()),
            final(self)@.loop_depth == old(self)@.loop_depth,
        decreases i, 0nat,
    {
        self.check_condition(&i.if_statement.condition, Construct::If);
        self.analyze_scoped_block(&i.if_statement.block);
        let ghost after_first = self@;
        let ghost all = elifs_view(i.elif_statement@);
        let mut k: usize = 0;
        assert(all.take(0) =~= Seq::empty());
        while k < i.elif_statement.len()
            invariant
                0 <= k <= i.elif_statement@.len(),
                all == elifs_view(i.elif_statement@),
                self@ == analyze_elifs_spec(after_first, all.take(k as int)),
                self@.loop_depth == old(self)@.loop_depth,
                old(self)@.loop_depth + branches_depth(all) < MAX_ANALYSIS_DEPTH,
            decreases i.elif_statement@.len() - k,
        {
            assert(all.take(k + 1).drop_last() =~= all.take(k as int));
            assert(all.take(k + 1).last() == i.elif_statement@[k as int].view());
            proof {
                lemma_branches_depth_covers(all, k as int);
            }
            match &i.elif_statement[k] {
                elif_statement::Elif { if_statement } => {
                    self.check_condition(&if_statement.condition, Construct::Elif);
                    self.analyze_scoped_block(&if_statement.block);
                },
            }
            k = k + 1;
        }
        assert(all.take(i.elif_statement@.len() as int) =~= all);
        match &i.else_statement {
            Some(block) => {
                self.analyze_scoped_block(block);
            },
            None => {},
        }
    }

    fn analyze_while_statement(&mut self, w: &while_statement)
        requires
            old(self)@.loop_depth + statement_depth(StatementView::While(w.view()))
                <= MAX_ANALYSIS_DEPTH,
        ensures
            final(self)@ == analyze_while_statement_spec(old(self)@, w.view()),
            final(self)@.loop_depth == old(self)@.loop_depth,
        decreases w, 0nat,
    {
        self.check_condition(&w.condition, Construct::While);
        self.enter_scope();
        self.enter_loop();
        self.analyze_block(&w.block);
        self.exit_loop();
        self.exit_scope();
    }

    /// The clauses of a `for`, in the loop's scope.
    fn analyze_for_clauses(&mut self, f: &for_statement)
        ensures
            final(self)@ == analyze_for_clauses_spec(old(self)@, f.view()),
    {
        match &f.init_loop_var {
            Some(declaration) => {
                self.analyze_declaration(declaration, true);
            },
            None => {},
        }
        match &f.loop_condition {
            expression_statement::Expr(condition) => {
                self.check_condition(condition, Construct::For);
            },
            expression_statement::SemiColon => {},
        }
        match &f.update_loop_var {
            Some(update) => {
                let _ = self.check_expression(update);
            },
            None => {},
        }
    }

    fn analyze_for_statement(&mut self, f: &for_statement)
        requires
            old(self)@.loop_depth + statement_depth(StatementView::For(f.view()))
                <= MAX_ANALYSIS_DEPTH,
        ensures
            final(self)@ == analyze_for_statement_spec(old(self)@, f.view()),
            final(self)@.loop_depth == old(self)@.loop_depth,
        decreases f, 0nat,
    {
        self.enter_scope();
        self.analyze_for_clauses(f);
        self.enter_loop();
        self.analyze_block(&f.block);
        self.exit_loop();
        self.exit_scope();
    }

    /// The symbol that a function is declared as.
    pub(crate) fn symbol_of(function: &function_statement) -> (symbol: Symbol)
        ensures
            symbol@ == function_symbol(function@),
    {
        let mut params: Vec<Type> = Vec::new();
        let mut i: usize = 0;
        while i < function.params.len()
            invariant
                0 <= i <= function.params@.len(),
                params@ == parameter_types(function@.params).take(i as int),
            decreases function.params@.len() - i,
        {
            params.push(function.params[i].type_token);
            assert(params@ =~= parameter_types(function@.params).take(i + 1));
            i = i + 1;
        }
        assert(params@ =~= parameter_types(function@.params));
        Symbol {
            name: function.identifier.clone(),
            symbol_type: SymbolType::Function { return_type: function.type_token, params },
        }
    }

    fn analyze_function(&mut self, function: &function_statement)
        requires
            old(self)@.loop_depth + block_depth(function@.block) <= MAX_ANALYSIS_DEPTH,
        ensures
            final(self)@ == analyze_function_spec(old(self)@, function@),
    {
        self.declare_symbol(function.identifier.clone(), Self::symbol_of(function));
        self.current_function_return_type = Some(function.type_token);
        self.enter_scope();
        let ghost entered = self@;
        let ghost all = function@.params;
        let mut i: usize = 0;
        assert(all.take(0) =~= Seq::empty());
        while i < function.params.len()
            invariant
                0 <= i <= function.params@.len(),
                all == params_view(function.params@),
                self@ == declare_parameters(entered, all.take(i as int)),
                self@.loop_depth == old(self)@.loop_depth,
                old(self)@.loop_depth + block_depth(function@.block) <= MAX_ANALYSIS_DEPTH,
            decreases function.params@.len() - i,
        {
            assert(all.take(i + 1).drop_last() =~= all.take(i as int));
            let parameter = &function.params[i];
            self.declare_symbol(
                parameter.identifier.clone(),
                Symbol {
                    name: parameter.identifier.clone(),
                    symbol_type: SymbolType::Variable(parameter.type_token),
                },
            );
            i = i + 1;
        }
        assert(all.take(function.params@.len() as int) =~= all);
        let has_return = self.block_has_return(&function.block);
        if function.type_token != Type::Void && !has_return {
            self.report(
                Diagnostic::MissingReturn {
                    name: function.identifier.clone(),
                    return_type: function.type_token,
                },
            );
        }
        self.exit_scope();
        self.current_function_return_type = None;
    }

    fn analyze_root(&mut self, declaration: &root)
        ensures
            final(self)@ == analyze_root_spec(old(self)@, declaration@),
    {
        let fits = self.loop_depth <= MAX_ANALYSIS_DEPTH && root_within(
            declaration,
            MAX_ANALYSIS_DEPTH - self.loop_depth,
        );
        if fits {
            match declaration {
                root::Var(v) => {
                    self.analyze_declaration(v, false);
                },
                root::Func(f) => {
                    self.analyze_function(f);
                },
            }
        } else {
            match declaration {
                root::Var(v) => {
                    self.report(Diagnostic::NestingTooDeep { name: v.identifier.clone() });
                    self.declare_symbol(
                        v.identifier.clone(),
                        Symbol {
                            name: v.identifier.clone(),
                            symbol_type: SymbolType::Variable(v.type_token),
                        },
                    );
                },
                root::Func(f) => {
                    self.report(Diagnostic::NestingTooDeep { name: f.identifier.clone() });
                    self.declare_symbol(f.identifier.clone(), Self::symbol_of(f));
                },
            }
        }
    }

    /// Analyzes the declarations of a program in source order and adds what
    /// it finds to the diagnostics. Analysis never stops early.
    pub fn analyze(&mut self, root_list: &root_list)
        ensures
            final(self)@ == analyze_program_spec(old(self)@, program_view(root_list@)),
    {
        let ghost all = program_view(root_list@);
        let mut i: usize = 0;
        assert(all.take(0) =~= Seq::empty());
        while i < root_list.len()
            invariant
                0 <= i <= root_list@.len(),
                all == program_view(root_list@),
                self@ == analyze_program_spec(old(self)@, all.take(i as int)),
            decreases root_list@.len() - i,
        {
            assert(all.take(i + 1).drop_last() =~= all.take(i as int));
            self.analyze_root(&root_list[i]);
            i = i + 1;
        }
        assert(all.take(root_list@.len() as int) =~= all);
    }
}

/// Whether a statement returns on every path through it.
fn statement_has_return(s: &statement) -> (has_return: bool)
    ensures
        has_return == statement_returns(s.view()),
    decreases s, 1nat,
{
    match s {
        statement::Return(_) => true,
        statement::If(i) => if_has_return(i),
        _ => false,
    }
}

/// Whether every block of an `if` returns on every path, the `else` block
/// being one of them.
fn if_has_return(i: &if_statement) -> (has_return: bool)
    ensures
        has_return == statement_returns(StatementView::If(i.view())),
    decreases i, 0nat,
{
    if !block_surely_returns(&i.if_statement.block) {
        return false;
    }
    let ghost all = elifs_view(i.elif_statement@);
    let mut k: usize = 0;
    assert(all.take(0) =~= Seq::empty());
    while k < i.elif_statement.len()
        invariant
            0 <= k <= i.elif_statement@.len(),
            all == elifs_view(i.elif_statement@),
            branches_return(all.take(k as int)),
        decreases i.elif_statement@.len() - k,
    {
        assert(all.take(k + 1).drop_last() =~= all.take(k as int));
        assert(all.take(k + 1).last() == i.elif_statement@[k as int].view());
        let has_return = match &i.elif_statement[k] {
            elif_statement::Elif { if_statement } => block_surely_returns(&if_statement.block),
        };
        if !has_return {
            proof {
                lemma_branches_return_all(all, k as int);
            }
            return false;
        }
        k = k + 1;
    }
    assert(all.take(i.elif_statement@.len() as int) =~= all);
    match &i.else_statement {
        Some(block) => block_surely_returns(block),
        None => false,
    }
}

/// Whether one of the statements of a block returns on every path.
fn block_surely_returns(block: &Block) -> (has_return: bool)
    ensures
        has_return == block_returns(block@),
    decreases block, 0nat,
{
    let ghost all = block@;
    let mut i: usize = 0;
    assert(all.take(0) =~= Seq::empty());
    while i < block.statements.len()
        invariant
            0 <= i <= block.statements@.len(),
            all == statements_view(block.statements@),
            !block_returns(all.take(i as int)),
        decreases block.statements@.len() - i,
    {
        assert(all.take(i + 1).drop_last() =~= all.take(i as int));
        assert(all.take(i + 1).last() == block.statements@[i as int].view());
        if statement_has_return(&block.statements[i]) {
            proof {
                lemma_block_returns_from(all, i as int);
            }
            return true;
        }
        i = i + 1;
    }
    assert(all.take(block.statements@.len() as int) =~= all);
    false
}

/// A block returns on every path if one of its statements does.
pub proof fn lemma_block_returns_from(block: Seq<StatementView>, i: int)
    requires
        0 <= i < block.len(),
        statement_returns(block[i]),
    ensures
        block_returns(block),
    decreases block.len(),
{
    if i < block.len() - 1 {
        lemma_block_returns_from(block.drop_last(), i);
    }
}

/// Branches return on every path only if each of them does.
pub proof fn lemma_branches_return_all(branches: Seq<BranchView>, i: int)
    requires
        0 <= i < branches.len(),
        !block_returns(branches[i].block),
    ensures
        !branches_return(branches),
    decreases branches.len(),
{
    if i < branches.len() - 1 {
        lemma_branches_return_all(branches.drop_last(), i);
    }
}

/// Analyzes a program from scratch: `Ok` if nothing was found, else the texts
/// of the diagnostics in the order they were found.
pub fn semantic_analysis(ast: root_list) -> (outcome: Result<(), Vec<String>>)
    ensures
        ({
            let found = analyze_program_spec(AnalyzerView::initial(), program_view(ast@)).errors;
            match outcome {
                Ok(_) => found.len() == 0,
                Err(texts) => found.len() > 0 && texts@.len() == found.len() && forall|i: int|
                    0 <= i < texts@.len() ==> #[trigger] texts@[i]@
                        == message_text(found[i]),
            }
        }),
{
    let mut analyzer = ScopeAnalyzer::new();
    analyzer.analyze(&ast);
    if analyzer.is_valid() {
        Ok(())
    } else {
        Err(analyzer.get_errors())
    }
}

} // verus!
