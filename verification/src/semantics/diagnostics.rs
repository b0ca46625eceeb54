//! What the analyzer reports: a closed set of diagnostics with their data, and
//! the text of each.

use crate::semantics::semantic_analysis::{name_of_type, Type};
use crate::text::{decimal_text, push_decimal};
use vstd::prelude::*;
use vstd::string::StringExecFns;

verus! {

/// The side of a binary operator on which an operand stands.
#[derive(Debug, Clone, Copy, PartialEq, Eq, Structural)]
pub enum Side {
    Left,
    Right,
}

/// The construct that a condition belongs to.
#[derive(Debug, Clone, Copy, PartialEq, Eq, Structural)]
pub enum Construct {
    If,
    Elif,
    While,
    For,
}

/// One thing that the analyzer reports.
#[derive(Debug, PartialEq)]
pub enum Diagnostic {
    /// A function is declared where a function of that name stands in the same scope.
    FunctionRedefined { name: String },
    /// A variable is declared where a variable of that name stands in the same scope.
    VariableRedeclared { name: String },
    /// A variable is declared where a function of that name stands in the same scope.
    FunctionRedeclaredAsVariable { name: String },
    /// A function is declared where a variable of that name stands in the same scope.
    VariableRedefinedAsFunction { name: String },
    UndefinedVariable { name: String },
    FunctionUsedAsVariable { name: String },
    VariableUsedAsFunction { name: String },
    UndefinedFunction { name: String },
    ArithmeticMismatch { left: Type, right: Type },
    ComparisonMismatch { left: Type, right: Type },
    LogicalOperand { found: Type, side: Side },
    ShiftOperand { found: Type },
    UnaryMinusOperand { found: Type },
    LogicalNotOperand { found: Type },
    AssignmentMismatch { value: Type, target: Type },
    VariableInitializerMismatch { name: String, expected: Type, found: Type },
    ForInitializerMismatch { name: String, expected: Type, found: Type },
    ReturnMismatch { expected: Type, found: Type },
    ArgumentCountMismatch { name: String, parameters: usize, arguments: usize },
    /// `position` counts the arguments from 1.
    ArgumentTypeMismatch { name: String, position: usize, expected: Type, found: Type },
    MissingReturn { name: String, return_type: Type },
    BreakOutsideLoop,
    ContinueOutsideLoop,
    ConditionNotBoolean { construct: Construct, found: Type },
    /// The declaration nests expressions or statements deeper than the
    /// analyzer follows; its inside was not analyzed.
    NestingTooDeep { name: String },
}

/// The model of a [`Diagnostic`].
pub enum DiagnosticView {
    FunctionRedefined { name: Seq<char> },
    VariableRedeclared { name: Seq<char> },
    FunctionRedeclaredAsVariable { name: Seq<char> },
    VariableRedefinedAsFunction { name: Seq<char> },
    UndefinedVariable { name: Seq<char> },
    FunctionUsedAsVariable { name: Seq<char> },
    VariableUsedAsFunction { name: Seq<char> },
    UndefinedFunction { name: Seq<char> },
    ArithmeticMismatch { left: Type, right: Type },
    ComparisonMismatch { left: Type, right: Type },
    LogicalOperand { found: Type, side: Side },
    ShiftOperand { found: Type },
    UnaryMinusOperand { found: Type },
    LogicalNotOperand { found: Type },
    AssignmentMismatch { value: Type, target: Type },
    VariableInitializerMismatch { name: Seq<char>, expected: Type, found: Type },
    ForInitializerMismatch { name: Seq<char>, expected: Type, found: Type },
    ReturnMismatch { expected: Type, found: Type },
    ArgumentCountMismatch { name: Seq<char>, parameters: nat, arguments: nat },
    ArgumentTypeMismatch { name: Seq<char>, position: nat, expected: Type, found: Type },
    MissingReturn { name: Seq<char>, return_type: Type },
    BreakOutsideLoop,
    ContinueOutsideLoop,
    ConditionNotBoolean { construct: Construct, found: Type },
    NestingTooDeep { name: Seq<char> },
}

impl View for Diagnostic {
    type V = DiagnosticView;

    open spec fn view(&self) -> DiagnosticView {
        match self {
            Diagnostic::FunctionRedefined { name } => DiagnosticView::FunctionRedefined {
                name: name@,
            },
            Diagnostic::VariableRedeclared { name } => DiagnosticView::VariableRedeclared {
                name: name@,
            },
            Diagnostic::FunctionRedeclaredAsVariable {
                name,
            } => DiagnosticView::FunctionRedeclaredAsVariable { name: name@ },
            Diagnostic::VariableRedefinedAsFunction {
                name,
            } => DiagnosticView::VariableRedefinedAsFunction { name: name@ },
            Diagnostic::UndefinedVariable { name } => DiagnosticView::UndefinedVariable {
                name: name@,
            },
            Diagnostic::FunctionUsedAsVariable { name } => DiagnosticView::FunctionUsedAsVariable {
                name: name@,
            },
            Diagnostic::VariableUsedAsFunction { name } => DiagnosticView::VariableUsedAsFunction {
                name: name@,
            },
            Diagnostic::UndefinedFunction { name } => DiagnosticView::UndefinedFunction {
                name: name@,
            },
            Diagnostic::ArithmeticMismatch { left, right } => DiagnosticView::ArithmeticMismatch {
                left: *left,
                right: *right,
            },
            Diagnostic::ComparisonMismatch { left, right } => DiagnosticView::ComparisonMismatch {
                left: *left,
                right: *right,
            },
            Diagnostic::LogicalOperand { found, side } => DiagnosticView::LogicalOperand {
                found: *found,
                side: *side,
            },
            Diagnostic::ShiftOperand { found } => DiagnosticView::ShiftOperand { found: *found },
            Diagnostic::UnaryMinusOperand { found } => DiagnosticView::UnaryMinusOperand {
                found: *found,
            },
            Diagnostic::LogicalNotOperand { found } => DiagnosticView::LogicalNotOperand {
                found: *found,
            },
            Diagnostic::AssignmentMismatch { value, target } => DiagnosticView::AssignmentMismatch {
                value: *value,
                target: *target,
            },
            Diagnostic::VariableInitializerMismatch {
                name,
                expected,
                found,
            } => DiagnosticView::VariableInitializerMismatch {
                name: name@,
                expected: *expected,
                found: *found,
            },
            Diagnostic::ForInitializerMismatch {
                name,
                expected,
                found,
            } => DiagnosticView::ForInitializerMismatch {
                name: name@,
                expected: *expected,
                found: *found,
            },
            Diagnostic::ReturnMismatch { expected, found } => DiagnosticView::ReturnMismatch {
                expected: *expected,
                found: *found,
            },
            Diagnostic::ArgumentCountMismatch {
                name,
                parameters,
                arguments,
            } => DiagnosticView::ArgumentCountMismatch {
                name: name@,
                parameters: *parameters as nat,
                arguments: *arguments as nat,
            },
            Diagnostic::ArgumentTypeMismatch {
                name,
                position,
                expected,
                found,
            } => DiagnosticView::ArgumentTypeMismatch {
                name: name@,
                position: *position as nat,
                expected: *expected,
                found: *found,
            },
            Diagnostic::MissingReturn { name, return_type } => DiagnosticView::MissingReturn {
                name: name@,
                return_type: *return_type,
            },
            Diagnostic::BreakOutsideLoop => DiagnosticView::BreakOutsideLoop,
            Diagnostic::ContinueOutsideLoop => DiagnosticView::ContinueOutsideLoop,
            Diagnostic::ConditionNotBoolean {
                construct,
                found,
            } => DiagnosticView::ConditionNotBoolean { construct: *construct, found: *found },
            Diagnostic::NestingTooDeep { name } => DiagnosticView::NestingTooDeep { name: name@ },
        }
    }
}

/// The types that a diagnostic speaks of, in the order of its text.
pub open spec fn diagnostic_types(diagnostic: DiagnosticView) -> Seq<Type> {
    match diagnostic {
        DiagnosticView::ArithmeticMismatch { left, right } => seq![left, right],
        DiagnosticView::ComparisonMismatch { left, right } => seq![left, right],
        DiagnosticView::LogicalOperand { found, .. } => seq![found],
        DiagnosticView::ShiftOperand { found } => seq![found],
        DiagnosticView::UnaryMinusOperand { found } => seq![found],
        DiagnosticView::LogicalNotOperand { found } => seq![found],
        DiagnosticView::AssignmentMismatch { value, target } => seq![value, target],
        DiagnosticView::VariableInitializerMismatch { expected, found, .. } => seq![
            expected,
            found,
        ],
        DiagnosticView::ForInitializerMismatch { expected, found, .. } => seq![expected, found],
        DiagnosticView::ReturnMismatch { expected, found } => seq![expected, found],
        DiagnosticView::ArgumentTypeMismatch { expected, found, .. } => seq![expected, found],
        DiagnosticView::MissingReturn { return_type, .. } => seq![return_type],
        DiagnosticView::ConditionNotBoolean { found, .. } => seq![found],
        _ => Seq::empty(),
    }
}

/// The models of a run of diagnostics, in order.
pub open spec fn diagnostics_view(diagnostics: Seq<Diagnostic>) -> Seq<DiagnosticView> {
    Seq::new(diagnostics.len(), |i: int| diagnostics[i]@)
}

/// A type's name between single quotes.
pub open spec fn quoted_type(t: Type) -> Seq<char> {
    "'"@ + name_of_type(t) + "'"@
}

/// A name between single quotes.
pub open spec fn quoted(name: Seq<char>) -> Seq<char> {
    "'"@ + name + "'"@
}

/// The name of a construct as a message begins with it.
pub open spec fn construct_text(construct: Construct) -> Seq<char> {
    match construct {
        Construct::If => "If statement"@,
        Construct::Elif => "Elif statement"@,
        Construct::While => "While statement"@,
        Construct::For => "For loop"@,
    }
}

/// The text of a diagnostic.
pub open spec fn message_text(diagnostic: DiagnosticView) -> Seq<char> {
    match diagnostic {
        DiagnosticView::FunctionRedefined { name } => "Function "@ + quoted(name)
            + " is already defined in this scope"@,
        DiagnosticView::VariableRedeclared { name } => "Variable "@ + quoted(name)
            + " is already declared in this scope"@,
        DiagnosticView::FunctionRedeclaredAsVariable { name } => quoted(name)
            + " is already defined as a function, cannot redeclare as variable"@,
        DiagnosticView::VariableRedefinedAsFunction { name } => quoted(name)
            + " is already declared as a variable, cannot redefine as function"@,
        DiagnosticView::UndefinedVariable { name } => "Variable "@ + quoted(name)
            + " is not defined"@,
        DiagnosticView::FunctionUsedAsVariable { name } => quoted(name)
            + " is a function, not a variable"@,
        DiagnosticView::VariableUsedAsFunction { name } => quoted(name)
            + " is a variable, not a function"@,
        DiagnosticView::UndefinedFunction { name } => "Function "@ + quoted(name)
            + " is not defined"@,
        DiagnosticView::ArithmeticMismatch {
            left,
            right,
        } => "Type mismatch in arithmetic operation: cannot apply operator to "@ + quoted_type(
            left,
        ) + " and "@ + quoted_type(right),
        DiagnosticView::ComparisonMismatch {
            left,
            right,
        } => "Type mismatch in comparison: cannot compare "@ + quoted_type(left) + " and "@
            + quoted_type(right),
        DiagnosticView::LogicalOperand {
            found,
            side,
        } => "Logical operator requires boolean operands, got "@ + quoted_type(found) + (match side {
            Side::Left => " on left side"@,
            Side::Right => " on right side"@,
        }),
        DiagnosticView::ShiftOperand {
            found,
        } => "Bitwise shift operator requires integer operands, got "@ + quoted_type(found),
        DiagnosticView::UnaryMinusOperand { found } => "Unary minus requires numeric type, got "@
            + quoted_type(found),
        DiagnosticView::LogicalNotOperand { found } => "Logical NOT requires boolean type, got "@
            + quoted_type(found),
        DiagnosticView::AssignmentMismatch {
            value,
            target,
        } => "Type mismatch in assignment: cannot assign "@ + quoted_type(value) + " to "@
            + quoted_type(target),
        DiagnosticView::VariableInitializerMismatch {
            name,
            expected,
            found,
        } => "Type mismatch in variable declaration "@ + quoted(name) + ": expected "@
            + quoted_type(expected) + ", got "@ + quoted_type(found),
        DiagnosticView::ForInitializerMismatch {
            name,
            expected,
            found,
        } => "Type mismatch in for loop initialization "@ + quoted(name) + ": expected "@
            + quoted_type(expected) + ", got "@ + quoted_type(found),
        DiagnosticView::ReturnMismatch {
            expected,
            found,
        } => "Type mismatch in return statement: expected "@ + quoted_type(expected) + ", got "@
            + quoted_type(found),
        DiagnosticView::ArgumentCountMismatch { name, parameters, arguments } => "Function "@
            + quoted(name) + " expects "@ + decimal_text(parameters) + " argument(s), got "@
            + decimal_text(arguments),
        DiagnosticView::ArgumentTypeMismatch {
            name,
            position,
            expected,
            found,
        } => "Type mismatch in argument "@ + decimal_text(position) + " of function "@ + quoted(
            name,
        ) + ": expected "@ + quoted_type(expected) + ", got "@ + quoted_type(found),
        DiagnosticView::MissingReturn { name, return_type } => "Function "@ + quoted(name)
            + " with return type "@ + quoted_type(return_type) + " must have a return statement"@,
        DiagnosticView::BreakOutsideLoop => "'break' statement must be inside a loop"@,
        DiagnosticView::ContinueOutsideLoop => "'continue' statement must be inside a loop"@,
        DiagnosticView::ConditionNotBoolean { construct, found } => construct_text(construct)
            + " condition must be boolean, got "@ + quoted_type(found),
        DiagnosticView::NestingTooDeep { name } => "Declaration "@ + quoted(name)
            + " is nested too deeply to be analyzed"@,
    }
}

/// Writes a name between single quotes at the end of `text`.
fn push_quoted(text: &mut String, name: &str)
    ensures
        final(text)@ == old(text)@ + quoted(name@),
{
    text.append("'");
    text.append(name);
    text.append("'");
    assert(final(text)@ =~= old(text)@ + quoted(name@));
}

/// Writes a type's name between single quotes at the end of `text`.
fn push_quoted_type(text: &mut String, t: Type)
    ensures
        final(text)@ == old(text)@ + quoted_type(t),
{
    let name = t.to_string();
    text.append("'");
    text.append(name.as_str());
    text.append("'");
    assert(final(text)@ =~= old(text)@ + quoted_type(t));
}

/// The name of a construct as a message begins with it.
fn construct_name(construct: Construct) -> (text: &'static str)
    ensures
        text@ == construct_text(construct),
{
    match construct {
        Construct::If => "If statement",
        Construct::Elif => "Elif statement",
        Construct::While => "While statement",
        Construct::For => "For loop",
    }
}

impl Diagnostic {
    /// The text of the diagnostic, as it is shown to a user.
    pub fn message(&self) -> (text: String)
        ensures
            text@ == message_text(self@),
    {
        match self {
            Diagnostic::FunctionRedefined { name } => {
                let mut text = String::from_str("Function ");
                push_quoted(&mut text, name.as_str());
                text.append(" is already defined in this scope");
                assert(text@ =~= message_text(self@));
                text
            },
            Diagnostic::VariableRedeclared { name } => {
                let mut text = String::from_str("Variable ");
                push_quoted(&mut text, name.as_str());
                text.append(" is already declared in this scope");
                assert(text@ =~= message_text(self@));
                text
            },
            Diagnostic::FunctionRedeclaredAsVariable { name } => {
                let mut text = String::new();
                push_quoted(&mut text, name.as_str());
                text.append(" is already defined as a function, cannot redeclare as variable");
                assert(text@ =~= message_text(self@));
                text
            },
            Diagnostic::VariableRedefinedAsFunction { name } => {
                let mut text = String::new();
                push_quoted(&mut text, name.as_str());
                text.append(" is already declared as a variable, cannot redefine as function");
                assert(text@ =~= message_text(self@));
                text
            },
            Diagnostic::UndefinedVariable { name } => {
                let mut text = String::from_str("Variable ");
                push_quoted(&mut text, name.as_str());
                text.append(" is not defined");
                assert(text@ =~= message_text(self@));
                text
            },
            Diagnostic::FunctionUsedAsVariable { name } => {
                let mut text = String::new();
                push_quoted(&mut text, name.as_str());
                text.append(" is a function, not a variable");
                assert(text@ =~= message_text(self@));
                text
            },
            Diagnostic::VariableUsedAsFunction { name } => {
                let mut text = String::new();
                push_quoted(&mut text, name.as_str());
                text.append(" is a variable, not a function");
                assert(text@ =~= message_text(self@));
                text
            },
            Diagnostic::UndefinedFunction { name } => {
                let mut text = String::from_str("Function ");
                push_quoted(&mut text, name.as_str());
                text.append(" is not defined");
                assert(text@ =~= message_text(self@));
                text
            },
            Diagnostic::ArithmeticMismatch { left, right } => {
                let mut text = String::from_str("Type mismatch in arithmetic operation: cannot apply operator to ");
                push_quoted_type(&mut text, *left);
                text.append(" and ");
                push_quoted_type(&mut text, *right);
                assert(text@ =~= message_text(self@));
                text
            },
            Diagnostic::ComparisonMismatch { left, right } => {
                let mut text = String::from_str("Type mismatch in comparison: cannot compare ");
                push_quoted_type(&mut text, *left);
                text.append(" and ");
                push_quoted_type(&mut text, *right);
                assert(text@ =~= message_text(self@));
                text
            },
            Diagnostic::LogicalOperand { found, side } => {
                let mut text = String::from_str("Logical operator requires boolean operands, got ");
                push_quoted_type(&mut text, *found);
                text.append(match side {
                    Side::Left => " on left side",
                    Side::Right => " on right side",
                });
                assert(text@ =~= message_text(self@));
                text
            },
            Diagnostic::ShiftOperand { found } => {
                let mut text = String::from_str("Bitwise shift operator requires integer operands, got ");
                push_quoted_type(&mut text, *found);
                assert(text@ =~= message_text(self@));
                text
            },
            Diagnostic::UnaryMinusOperand { found } => {
                let mut text = String::from_str("Unary minus requires numeric type, got ");
                push_quoted_type(&mut text, *found);
                assert(text@ =~= message_text(self@));
                text
            },
            Diagnostic::LogicalNotOperand { found } => {
                let mut text = String::from_str("Logical NOT requires boolean type, got ");
                push_quoted_type(&mut text, *found);
                assert(text@ =~= message_text(self@));
                text
            },
            Diagnostic::AssignmentMismatch { value, target } => {
                let mut text = String::from_str("Type mismatch in assignment: cannot assign ");
                push_quoted_type(&mut text, *value);
                text.append(" to ");
                push_quoted_type(&mut text, *target);
                assert(text@ =~= message_text(self@));
                text
            },
            Diagnostic::VariableInitializerMismatch { name, expected, found } => {
                let mut text = String::from_str("Type mismatch in variable declaration ");
                push_quoted(&mut text, name.as_str());
                text.append(": expected ");
                push_quoted_type(&mut text, *expected);
                text.append(", got ");
                push_quoted_type(&mut text, *found);
                assert(text@ =~= message_text(self@));
                text
            },
            Diagnostic::ForInitializerMismatch { name, expected, found } => {
                let mut text = String::from_str("Type mismatch in for loop initialization ");
                push_quoted(&mut text, name.as_str());
                text.append(": expected ");
                push_quoted_type(&mut text, *expected);
                text.append(", got ");
                push_quoted_type(&mut text, *found);
                assert(text@ =~= message_text(self@));
                text
            },
            Diagnostic::ReturnMismatch { expected, found } => {
                let mut text = String::from_str("Type mismatch in return statement: expected ");
                push_quoted_type(&mut text, *expected);
                text.append(", got ");
                push_quoted_type(&mut text, *found);
                assert(text@ =~= message_text(self@));
                text
            },
            Diagnostic::ArgumentCountMismatch { name, parameters, arguments } => {
                let mut text = String::from_str("Function ");
                push_quoted(&mut text, name.as_str());
                text.append(" expects ");
                push_decimal(&mut text, *parameters as u64);
                text.append(" argument(s), got ");
                push_decimal(&mut text, *arguments as u64);
                assert(text@ =~= message_text(self@));
                text
            },
            Diagnostic::ArgumentTypeMismatch { name, position, expected, found } => {
                let mut text = String::from_str("Type mismatch in argument ");
                push_decimal(&mut text, *position as u64);
                text.append(" of function ");
                push_quoted(&mut text, name.as_str());
                text.append(": expected ");
                push_quoted_type(&mut text, *expected);
                text.append(", got ");
                push_quoted_type(&mut text, *found);
                assert(text@ =~= message_text(self@));
                text
            },
            Diagnostic::MissingReturn { name, return_type } => {
                let mut text = String::from_str("Function ");
                push_quoted(&mut text, name.as_str());
                text.append(" with return type ");
                push_quoted_type(&mut text, *return_type);
                text.append(" must have a return statement");
                assert(text@ =~= message_text(self@));
                text
            },
            Diagnostic::BreakOutsideLoop => {
                let mut text = String::from_str("'break' statement must be inside a loop");
                assert(text@ =~= message_text(self@));
                text
            },
            Diagnostic::ContinueOutsideLoop => {
                let mut text = String::from_str("'continue' statement must be inside a loop");
                assert(text@ =~= message_text(self@));
                text
            },
            Diagnostic::ConditionNotBoolean { construct, found } => {
                let mut text = String::new();
                text.append(construct_name(*construct));
                text.append(" condition must be boolean, got ");
                push_quoted_type(&mut text, *found);
                assert(text@ =~= message_text(self@));
                text
            },
            Diagnostic::NestingTooDeep { name } => {
                let mut text = String::from_str("Declaration ");
                push_quoted(&mut text, name.as_str());
                text.append(" is nested too deeply to be analyzed");
                assert(text@ =~= message_text(self@));
                text
            },
        }
    }
}

/// The texts of a run of diagnostics, in order.
pub fn messages(diagnostics: &Vec<Diagnostic>) -> (texts: Vec<String>)
    ensures
        texts@.len() == diagnostics@.len(),
        forall|i: int| 0 <= i < texts@.len() ==> #[trigger] texts@[i]@ == message_text(diagnostics@[i]@),
{
    let mut texts: Vec<String> = Vec::new();
    let mut i: usize = 0;
    while i < diagnostics.len()
        invariant
            0 <= i <= diagnostics@.len(),
            texts@.len() == i,
            forall|j: int| 0 <= j < i ==> #[trigger] texts@[j]@ == message_text(diagnostics@[j]@),
        decreases diagnostics@.len() - i,
    {
        texts.push(diagnostics[i].message());
        i = i + 1;
    }
    texts
}

} // verus!
