use toy_compiler::parser::enums::{
    binary_operator, elif_statement, expression_statement, for_statement, function_call,
    function_statement, if_statement, if_statement_expression, param, return_statement, root,
    statement, unary_operator, variable_declaration, while_statement, Block, Expr, Literal,
};
use toy_compiler::semantics::diagnostics::{Construct, Diagnostic, Side};
use toy_compiler::semantics::semantic_analysis::{
    semantic_analysis, Scope, ScopeAnalyzer, Symbol, SymbolType, Type,
};

fn name(text: &str) -> Expr {
    Expr::Identifier(text.to_string())
}

fn integer(value: i64) -> Expr {
    Expr::Literal(Literal::Int(value))
}

fn float(value: f64) -> Expr {
    Expr::Literal(Literal::Float(value.to_string()))
}

fn text(value: &str) -> Expr {
    Expr::Literal(Literal::Str(value.to_string()))
}

fn truth(value: bool) -> Expr {
    Expr::Literal(Literal::Bool(value))
}

fn binary(left: Expr, operator: binary_operator, right: Expr) -> Expr {
    Expr::BinaryOperation { left: Box::new(left), operator, right: Box::new(right) }
}

fn unary(prefix: unary_operator, operand: Expr) -> Expr {
    Expr::UnaryOperation { prefix, operand: Box::new(operand) }
}

fn assign(target: Expr, value: Expr) -> Expr {
    Expr::Assignment { left: Box::new(target), right: Box::new(value) }
}

fn call(callee: &str, args: Vec<Expr>) -> Expr {
    Expr::FuncCall(function_call { identifier: callee.to_string(), args })
}

fn declaration(type_token: Type, identifier: &str, expression: Expr) -> variable_declaration {
    variable_declaration { type_token, identifier: identifier.to_string(), expression }
}

fn declare(type_token: Type, identifier: &str, expression: Expr) -> statement {
    statement::Var(declaration(type_token, identifier, expression))
}

fn give_back(expr: Expr) -> statement {
    statement::Return(return_statement { expr })
}

fn block(statements: Vec<statement>) -> Block {
    Block { statements }
}

fn branch(condition: Expr, statements: Vec<statement>) -> if_statement_expression {
    if_statement_expression { condition, block: block(statements) }
}

fn if_only(condition: Expr, statements: Vec<statement>) -> statement {
    statement::If(if_statement {
        if_statement: branch(condition, statements),
        elif_statement: vec![],
        else_statement: None,
    })
}

fn if_else(condition: Expr, then: Vec<statement>, otherwise: Vec<statement>) -> statement {
    statement::If(if_statement {
        if_statement: branch(condition, then),
        elif_statement: vec![],
        else_statement: Some(block(otherwise)),
    })
}

fn while_loop(condition: Expr, statements: Vec<statement>) -> statement {
    statement::While(while_statement { condition, block: block(statements) })
}

fn function(
    type_token: Type,
    identifier: &str,
    params: Vec<(Type, &str)>,
    statements: Vec<statement>,
) -> root {
    root::Func(function_statement {
        type_token,
        identifier: identifier.to_string(),
        params: params
            .into_iter()
            .map(|(type_token, identifier)| param { type_token, identifier: identifier.to_string() })
            .collect(),
        block: block(statements),
    })
}

/// A `Void` function `main` without parameters.
fn main_with(statements: Vec<statement>) -> root {
    function(Type::Void, "main", vec![], statements)
}

fn analyze(program: Vec<root>) -> Vec<String> {
    let mut analyzer = ScopeAnalyzer::new();
    analyzer.analyze(&program);
    assert_eq!(analyzer.is_valid(), analyzer.get_errors().is_empty());
    assert_eq!(analyzer.diagnostics().len(), analyzer.get_errors().len());
    analyzer.get_errors()
}

fn no_errors() -> Vec<String> {
    Vec::new()
}

#[test]
fn empty_program_is_valid() {
    let mut analyzer = ScopeAnalyzer::new();
    assert!(analyzer.is_valid());
    analyzer.analyze(&vec![]);
    assert!(analyzer.is_valid());
    assert_eq!(analyzer.get_errors(), no_errors());
}

#[test]
fn redeclaration_in_the_same_block_is_reported_once() {
    let program = vec![main_with(vec![
        declare(Type::Int, "x", integer(1)),
        declare(Type::Int, "x", integer(2)),
    ])];
    assert_eq!(analyze(program), vec!["Variable 'x' is already declared in this scope"]);
}

#[test]
fn redeclaration_in_a_nested_block_shadows_silently() {
    let program = vec![main_with(vec![
        declare(Type::Int, "x", integer(1)),
        if_only(truth(true), vec![declare(Type::Int, "x", integer(2))]),
    ])];
    assert_eq!(analyze(program), no_errors());
}

#[test]
fn shadowing_may_change_the_type() {
    let program = vec![main_with(vec![
        declare(Type::Int, "x", integer(1)),
        if_only(
            truth(true),
            vec![declare(Type::String, "x", text("s")), declare(Type::String, "y", name("x"))],
        ),
        declare(Type::Int, "z", name("x")),
    ])];
    assert_eq!(analyze(program), no_errors());
}

#[test]
fn int_takes_the_sum_of_int_and_float() {
    let program = vec![root::Var(declaration(
        Type::Int,
        "x",
        binary(integer(1), binary_operator::Plus, float(2.0)),
    ))];
    assert_eq!(analyze(program), no_errors());
}

#[test]
fn if_without_else_does_not_guarantee_a_return() {
    let program = vec![function(
        Type::Int,
        "f",
        vec![(Type::Bool, "c")],
        vec![if_only(name("c"), vec![give_back(integer(1))])],
    )];
    assert_eq!(
        analyze(program),
        vec!["Function 'f' with return type 'int' must have a return statement"]
    );
}

#[test]
fn if_with_else_guarantees_a_return() {
    let program = vec![function(
        Type::Int,
        "f",
        vec![(Type::Bool, "c")],
        vec![if_else(name("c"), vec![give_back(integer(1))], vec![give_back(integer(0))])],
    )];
    assert_eq!(analyze(program), no_errors());
}

#[test]
fn every_elif_must_return_too() {
    let with_elif = |elif_body: Vec<statement>| {
        vec![function(
            Type::Int,
            "f",
            vec![(Type::Bool, "c")],
            vec![statement::If(if_statement {
                if_statement: branch(name("c"), vec![give_back(integer(1))]),
                elif_statement: vec![elif_statement::Elif {
                    if_statement: branch(name("c"), elif_body),
                }],
                else_statement: Some(block(vec![give_back(integer(3))])),
            })],
        )]
    };
    assert_eq!(analyze(with_elif(vec![give_back(integer(2))])), no_errors());
    assert_eq!(
        analyze(with_elif(vec![])),
        vec!["Function 'f' with return type 'int' must have a return statement"]
    );
}

#[test]
fn loops_never_guarantee_a_return() {
    let program = vec![
        function(
            Type::Int,
            "f",
            vec![],
            vec![while_loop(truth(true), vec![give_back(integer(1))])],
        ),
        function(
            Type::Int,
            "g",
            vec![],
            vec![statement::For(for_statement {
                init_loop_var: None,
                loop_condition: expression_statement::SemiColon,
                update_loop_var: None,
                block: block(vec![give_back(integer(1))]),
            })],
        ),
    ];
    assert_eq!(
        analyze(program),
        vec![
            "Function 'f' with return type 'int' must have a return statement",
            "Function 'g' with return type 'int' must have a return statement",
        ]
    );
}

#[test]
fn void_function_needs_no_return() {
    assert_eq!(analyze(vec![main_with(vec![])]), no_errors());
}

#[test]
fn return_anywhere_in_the_block_counts() {
    let program = vec![function(
        Type::Int,
        "f",
        vec![],
        vec![give_back(integer(1)), declare(Type::Int, "x", integer(2))],
    )];
    assert_eq!(analyze(program), no_errors());
}

#[test]
fn wrong_number_of_arguments_is_reported_once() {
    let program = vec![
        function(Type::Void, "f", vec![(Type::Int, "a"), (Type::Int, "b")], vec![]),
        main_with(vec![statement::Expr(call("f", vec![integer(1)]))]),
    ];
    assert_eq!(analyze(program), vec!["Function 'f' expects 2 argument(s), got 1"]);
}

#[test]
fn wrong_argument_type_is_reported_once() {
    let program = vec![
        function(Type::Void, "f", vec![(Type::Int, "a")], vec![]),
        main_with(vec![statement::Expr(call("f", vec![text("x")]))]),
    ];
    assert_eq!(
        analyze(program),
        vec!["Type mismatch in argument 1 of function 'f': expected 'int', got 'string'"]
    );
}

#[test]
fn analysis_goes_on_after_a_diagnostic() {
    let program = vec![
        function(Type::Void, "f", vec![(Type::Int, "a"), (Type::Int, "b")], vec![]),
        function(Type::Void, "g", vec![(Type::Int, "a")], vec![]),
        main_with(vec![
            statement::Expr(call("f", vec![integer(1)])),
            statement::Expr(call("g", vec![text("x")])),
        ]),
    ];
    assert_eq!(
        analyze(program),
        vec![
            "Function 'f' expects 2 argument(s), got 1",
            "Type mismatch in argument 1 of function 'g': expected 'int', got 'string'",
        ]
    );
}

#[test]
fn each_mismatched_argument_is_reported_with_its_position() {
    let program = vec![
        function(
            Type::Void,
            "f",
            vec![(Type::Int, "a"), (Type::Bool, "b"), (Type::String, "c")],
            vec![],
        ),
        main_with(vec![statement::Expr(call("f", vec![text("x"), truth(true), integer(3)]))]),
    ];
    assert_eq!(
        analyze(program),
        vec![
            "Type mismatch in argument 1 of function 'f': expected 'int', got 'string'",
            "Type mismatch in argument 3 of function 'f': expected 'string', got 'int'",
        ]
    );
}

#[test]
fn argument_counts_are_written_in_decimal() {
    let params: Vec<(Type, &str)> = vec![
        (Type::Int, "a"),
        (Type::Int, "b"),
        (Type::Int, "c"),
        (Type::Int, "d"),
        (Type::Int, "e"),
        (Type::Int, "f"),
        (Type::Int, "g"),
        (Type::Int, "h"),
        (Type::Int, "i"),
        (Type::Int, "j"),
        (Type::Int, "k"),
        (Type::Int, "l"),
    ];
    let program = vec![
        function(Type::Void, "wide", params, vec![]),
        main_with(vec![statement::Expr(call("wide", vec![]))]),
    ];
    assert_eq!(analyze(program), vec!["Function 'wide' expects 12 argument(s), got 0"]);
    let many: Vec<Expr> = (0..105).map(integer).collect();
    let program = vec![
        function(Type::Void, "f", vec![], vec![]),
        main_with(vec![statement::Expr(call("f", many))]),
    ];
    assert_eq!(analyze(program), vec!["Function 'f' expects 0 argument(s), got 105"]);
}

#[test]
fn break_outside_a_loop_is_reported() {
    assert_eq!(
        analyze(vec![main_with(vec![statement::Break])]),
        vec!["'break' statement must be inside a loop"]
    );
    assert_eq!(
        analyze(vec![main_with(vec![statement::Continue])]),
        vec!["'continue' statement must be inside a loop"]
    );
}

#[test]
fn break_inside_a_loop_is_fine() {
    let program = vec![main_with(vec![
        while_loop(truth(true), vec![statement::Break, statement::Continue]),
        statement::For(for_statement {
            init_loop_var: None,
            loop_condition: expression_statement::SemiColon,
            update_loop_var: None,
            block: block(vec![if_only(truth(true), vec![statement::Break])]),
        }),
    ])];
    assert_eq!(analyze(program), no_errors());
}

#[test]
fn break_after_a_loop_is_reported() {
    let program = vec![main_with(vec![
        while_loop(truth(true), vec![statement::Break]),
        statement::Break,
    ])];
    assert_eq!(analyze(program), vec!["'break' statement must be inside a loop"]);
}

#[test]
fn undefined_names_are_reported() {
    let program = vec![main_with(vec![
        statement::Expr(name("x")),
        statement::Expr(call("f", vec![name("y")])),
    ])];
    assert_eq!(
        analyze(program),
        vec![
            "Variable 'x' is not defined",
            "Function 'f' is not defined",
            "Variable 'y' is not defined",
        ]
    );
}

#[test]
fn names_of_the_wrong_kind_are_reported() {
    let program = vec![
        root::Var(declaration(Type::Int, "v", integer(1))),
        function(Type::Void, "f", vec![], vec![]),
        main_with(vec![statement::Expr(name("f")), statement::Expr(call("v", vec![]))]),
    ];
    assert_eq!(
        analyze(program),
        vec!["'f' is a function, not a variable", "'v' is a variable, not a function"]
    );
}

#[test]
fn a_function_is_known_from_its_declaration_on() {
    let program = vec![
        main_with(vec![statement::Expr(call("later", vec![]))]),
        function(Type::Void, "later", vec![], vec![statement::Expr(call("main", vec![]))]),
    ];
    assert_eq!(analyze(program), vec!["Function 'later' is not defined"]);
}

#[test]
fn a_function_may_call_itself() {
    let program = vec![function(
        Type::Int,
        "f",
        vec![(Type::Int, "n")],
        vec![give_back(call("f", vec![name("n")]))],
    )];
    assert_eq!(analyze(program), no_errors());
}

#[test]
fn parameters_are_variables_of_the_function() {
    let program = vec![
        function(
            Type::Int,
            "f",
            vec![(Type::Int, "a"), (Type::Int, "a")],
            vec![declare(Type::Int, "a", integer(1)), give_back(name("a"))],
        ),
        main_with(vec![statement::Expr(name("a"))]),
    ];
    assert_eq!(
        analyze(program),
        vec![
            "Variable 'a' is already declared in this scope",
            "Variable 'a' is already declared in this scope",
            "Variable 'a' is not defined",
        ]
    );
}

#[test]
fn redeclarations_across_kinds() {
    let program = vec![
        root::Var(declaration(Type::Int, "v", integer(1))),
        function(Type::Void, "f", vec![], vec![]),
        function(Type::Void, "f", vec![], vec![]),
        function(Type::Void, "v", vec![], vec![]),
        root::Var(declaration(Type::Int, "f", integer(1))),
        root::Var(declaration(Type::Int, "v", integer(1))),
    ];
    assert_eq!(
        analyze(program),
        vec![
            "Function 'f' is already defined in this scope",
            "'v' is already declared as a variable, cannot redefine as function",
            "'f' is already defined as a function, cannot redeclare as variable",
            "Variable 'v' is already declared in this scope",
        ]
    );
}

#[test]
fn the_first_declaration_keeps_its_meaning() {
    let program = vec![
        root::Var(declaration(Type::Int, "x", integer(1))),
        root::Var(declaration(Type::String, "x", text("s"))),
        root::Var(declaration(Type::Int, "y", name("x"))),
    ];
    assert_eq!(analyze(program), vec!["Variable 'x' is already declared in this scope"]);
}

#[test]
fn a_variable_is_declared_even_if_its_initializer_fails() {
    let program = vec![
        root::Var(declaration(Type::Int, "x", text("s"))),
        root::Var(declaration(Type::Int, "y", name("x"))),
    ];
    assert_eq!(
        analyze(program),
        vec!["Type mismatch in variable declaration 'x': expected 'int', got 'string'"]
    );
}

#[test]
fn a_variable_is_not_in_scope_of_its_own_initializer() {
    let program = vec![root::Var(declaration(Type::Int, "x", name("x")))];
    assert_eq!(
        analyze(program),
        vec![
            "Variable 'x' is not defined",
        ]
    );
}

#[test]
fn an_undefined_initializer_is_reported_once_and_the_variable_declared() {
    let program = vec![
        root::Var(declaration(Type::Int, "x", name("y"))),
        root::Var(declaration(Type::Int, "z", name("x"))),
    ];
    assert_eq!(analyze(program), vec!["Variable 'y' is not defined"]);
}

#[test]
fn an_unknown_type_is_held_against_nothing() {
    // `missing` is reported once where it stands; no operator, assignment,
    // argument, return or declaration is then reported for its type.
    let uses = |result: Type, e: Expr| {
        analyze(vec![
            function(Type::Int, "f", vec![(Type::Int, "a")], vec![give_back(name("a"))]),
            root::Var(declaration(Type::Int, "v", integer(1))),
            function(result, "g", vec![], vec![give_back(e)]),
        ])
    };
    let once = vec!["Variable 'missing' is not defined"];
    let missing = || name("missing");
    assert_eq!(uses(Type::String, missing()), once);
    assert_eq!(uses(Type::Int, binary(missing(), binary_operator::Plus, integer(1))), once);
    assert_eq!(uses(Type::Int, binary(text("s"), binary_operator::Minus, missing())), once);
    assert_eq!(uses(Type::Bool, binary(missing(), binary_operator::LessThan, integer(1))), once);
    assert_eq!(uses(Type::Bool, binary(missing(), binary_operator::And, truth(true))), once);
    assert_eq!(uses(Type::Bool, binary(truth(true), binary_operator::Or, missing())), once);
    assert_eq!(uses(Type::Int, binary(missing(), binary_operator::LeftShift, integer(1))), once);
    assert_eq!(uses(Type::Int, binary(integer(1), binary_operator::RightShift, missing())), once);
    assert_eq!(uses(Type::Int, unary(unary_operator::Minus, missing())), once);
    assert_eq!(uses(Type::Bool, unary(unary_operator::Not, missing())), once);
    assert_eq!(uses(Type::Int, assign(name("v"), missing())), once);
    assert_eq!(uses(Type::Int, assign(missing(), text("s"))), once);
    assert_eq!(uses(Type::Int, call("f", vec![missing()])), once);
}

#[test]
fn the_type_of_an_operation_does_not_depend_on_what_was_reported() {
    // A shift is an `Int` and a comparison a `Bool`, whatever their operands.
    let program = vec![
        root::Var(declaration(
            Type::Bool,
            "a",
            binary(name("missing"), binary_operator::LeftShift, integer(1)),
        )),
        root::Var(declaration(
            Type::Int,
            "b",
            binary(name("missing"), binary_operator::Equals, integer(1)),
        )),
    ];
    assert_eq!(
        analyze(program),
        vec![
            "Variable 'missing' is not defined",
            "Type mismatch in variable declaration 'a': expected 'bool', got 'int'",
            "Variable 'missing' is not defined",
            "Type mismatch in variable declaration 'b': expected 'int', got 'bool'",
        ]
    );
}

#[test]
fn a_known_operand_beside_an_unknown_one_is_still_reported() {
    let program = vec![root::Var(declaration(
        Type::Bool,
        "x",
        binary(name("missing"), binary_operator::And, integer(1)),
    ))];
    assert_eq!(
        analyze(program),
        vec![
            "Variable 'missing' is not defined",
            "Logical operator requires boolean operands, got 'int' on right side",
        ]
    );
}

#[test]
fn arithmetic_needs_numbers() {
    let sum = |left: Expr, right: Expr| {
        analyze(vec![root::Var(declaration(
            Type::Float,
            "x",
            binary(left, binary_operator::Plus, right),
        ))])
    };
    assert_eq!(sum(integer(1), integer(2)), no_errors());
    assert_eq!(sum(float(1.5), integer(2)), no_errors());
    assert_eq!(
        sum(integer(1), text("a")),
        vec![
            "Type mismatch in arithmetic operation: cannot apply operator to 'int' and 'string'",
        ]
    );
    assert_eq!(
        sum(text("a"), text("b")),
        vec![
            "Type mismatch in arithmetic operation: cannot apply operator to 'string' and 'string'",
        ]
    );
    assert_eq!(
        sum(truth(true), truth(false)),
        vec![
            "Type mismatch in arithmetic operation: cannot apply operator to 'bool' and 'bool'",
        ]
    );
}

#[test]
fn operands_of_unknown_type_are_not_reported_again() {
    let program = vec![root::Var(declaration(
        Type::Int,
        "x",
        binary(name("a"), binary_operator::Multiply, name("b")),
    ))];
    assert_eq!(
        analyze(program),
        vec![
            "Variable 'a' is not defined",
            "Variable 'b' is not defined",
        ]
    );
}

#[test]
fn comparison_needs_compatible_operands_and_is_bool() {
    let program = vec![
        root::Var(declaration(
            Type::Bool,
            "a",
            binary(integer(1), binary_operator::LessThan, float(2.0)),
        )),
        root::Var(declaration(
            Type::Bool,
            "b",
            binary(integer(1), binary_operator::Equals, text("x")),
        )),
    ];
    assert_eq!(
        analyze(program),
        vec!["Type mismatch in comparison: cannot compare 'int' and 'string'"]
    );
}

#[test]
fn logical_operators_need_bool_on_both_sides() {
    let program = vec![root::Var(declaration(
        Type::Bool,
        "a",
        binary(integer(1), binary_operator::And, text("x")),
    ))];
    assert_eq!(
        analyze(program),
        vec![
            "Logical operator requires boolean operands, got 'int' on left side",
            "Logical operator requires boolean operands, got 'string' on right side",
        ]
    );
    let program = vec![root::Var(declaration(
        Type::Bool,
        "a",
        binary(truth(true), binary_operator::Or, truth(false)),
    ))];
    assert_eq!(analyze(program), no_errors());
}

#[test]
fn shift_operators_need_int_on_both_sides() {
    let program = vec![root::Var(declaration(
        Type::Int,
        "a",
        binary(float(1.0), binary_operator::LeftShift, truth(true)),
    ))];
    assert_eq!(
        analyze(program),
        vec![
            "Bitwise shift operator requires integer operands, got 'float'",
            "Bitwise shift operator requires integer operands, got 'bool'",
        ]
    );
    let program = vec![root::Var(declaration(
        Type::Int,
        "a",
        binary(integer(1), binary_operator::RightShift, integer(2)),
    ))];
    assert_eq!(analyze(program), no_errors());
}

#[test]
fn unary_operators_check_their_operand() {
    let program = vec![
        root::Var(declaration(Type::Float, "a", unary(unary_operator::Minus, float(1.0)))),
        root::Var(declaration(Type::Bool, "b", unary(unary_operator::Not, truth(true)))),
        root::Var(declaration(Type::Int, "c", unary(unary_operator::Minus, text("s")))),
        root::Var(declaration(Type::Bool, "d", unary(unary_operator::Not, integer(1)))),
    ];
    assert_eq!(
        analyze(program),
        vec![
            "Unary minus requires numeric type, got 'string'",
            "Logical NOT requires boolean type, got 'int'",
        ]
    );
}

#[test]
fn assignment_is_checked_where_types_are_inferred() {
    let program = vec![
        root::Var(declaration(Type::Int, "x", integer(1))),
        root::Var(declaration(Type::Int, "y", assign(name("x"), text("s")))),
        root::Var(declaration(Type::Float, "z", assign(name("x"), float(1.0)))),
    ];
    assert_eq!(
        analyze(program),
        vec!["Type mismatch in assignment: cannot assign 'string' to 'int'"]
    );
}

#[test]
fn expression_statements_are_checked_like_every_expression() {
    let program = vec![main_with(vec![
        declare(Type::Int, "x", integer(1)),
        statement::Expr(assign(name("x"), text("s"))),
        statement::Expr(binary(integer(1), binary_operator::Plus, text("s"))),
        statement::Expr(assign(name("nowhere"), integer(1))),
        statement::Expr(assign(name("x"), float(2.5))),
    ])];
    assert_eq!(
        analyze(program),
        vec![
            "Type mismatch in assignment: cannot assign 'string' to 'int'",
            "Type mismatch in arithmetic operation: cannot apply operator to 'int' and 'string'",
            "Variable 'nowhere' is not defined",
        ]
    );
}

#[test]
fn the_update_of_a_for_is_checked_like_every_expression() {
    let program = vec![main_with(vec![statement::For(for_statement {
        init_loop_var: Some(declaration(Type::Int, "i", integer(0))),
        loop_condition: expression_statement::SemiColon,
        update_loop_var: Some(assign(name("i"), truth(true))),
        block: block(vec![]),
    })])];
    assert_eq!(
        analyze(program),
        vec!["Type mismatch in assignment: cannot assign 'bool' to 'int'"]
    );
}

#[test]
fn return_type_must_be_compatible() {
    let program = vec![
        function(Type::Int, "f", vec![], vec![give_back(text("s"))]),
        function(Type::Int, "g", vec![], vec![give_back(float(1.5))]),
        function(Type::Void, "h", vec![], vec![give_back(integer(1))]),
    ];
    assert_eq!(
        analyze(program),
        vec![
            "Type mismatch in return statement: expected 'int', got 'string'",
            "Type mismatch in return statement: expected 'void', got 'int'",
        ]
    );
}

#[test]
fn conditions_must_be_bool() {
    let program = vec![main_with(vec![
        statement::If(if_statement {
            if_statement: branch(integer(1), vec![]),
            elif_statement: vec![elif_statement::Elif { if_statement: branch(text("s"), vec![]) }],
            else_statement: None,
        }),
        while_loop(float(1.0), vec![]),
        statement::For(for_statement {
            init_loop_var: None,
            loop_condition: expression_statement::Expr(integer(0)),
            update_loop_var: None,
            block: block(vec![]),
        }),
    ])];
    assert_eq!(
        analyze(program),
        vec![
            "If statement condition must be boolean, got 'int'",
            "Elif statement condition must be boolean, got 'string'",
            "While statement condition must be boolean, got 'float'",
            "For loop condition must be boolean, got 'int'",
        ]
    );
}

#[test]
fn a_condition_of_unknown_type_is_let_through() {
    let program = vec![main_with(vec![if_only(name("missing"), vec![])])];
    assert_eq!(analyze(program), vec!["Variable 'missing' is not defined"]);
}

#[test]
fn the_loop_variable_of_a_for_is_seen_in_all_of_it_and_not_after() {
    let program = vec![main_with(vec![
        statement::For(for_statement {
            init_loop_var: Some(declaration(Type::Int, "i", integer(0))),
            loop_condition: expression_statement::Expr(binary(
                name("i"),
                binary_operator::LessThan,
                integer(3),
            )),
            update_loop_var: Some(assign(
                name("i"),
                binary(name("i"), binary_operator::Plus, integer(1)),
            )),
            block: block(vec![declare(Type::Int, "twice", name("i"))]),
        }),
        statement::Expr(name("i")),
    ])];
    assert_eq!(analyze(program), vec!["Variable 'i' is not defined"]);
}

#[test]
fn the_block_of_a_for_shares_the_scope_of_its_variable() {
    let program = vec![main_with(vec![statement::For(for_statement {
        init_loop_var: Some(declaration(Type::Int, "i", integer(0))),
        loop_condition: expression_statement::SemiColon,
        update_loop_var: None,
        block: block(vec![declare(Type::Int, "i", integer(1))]),
    })])];
    assert_eq!(analyze(program), vec!["Variable 'i' is already declared in this scope"]);
}

#[test]
fn for_initializer_mismatch_has_its_own_text() {
    let program = vec![main_with(vec![statement::For(for_statement {
        init_loop_var: Some(declaration(Type::Int, "i", text("s"))),
        loop_condition: expression_statement::SemiColon,
        update_loop_var: None,
        block: block(vec![]),
    })])];
    assert_eq!(
        analyze(program),
        vec!["Type mismatch in for loop initialization 'i': expected 'int', got 'string'"]
    );
}

#[test]
fn arguments_are_checked_inside_out() {
    let program = vec![
        function(Type::Int, "f", vec![(Type::Int, "a")], vec![give_back(name("a"))]),
        root::Var(declaration(
            Type::Int,
            "x",
            call("f", vec![call("f", vec![binary(integer(1), binary_operator::Plus, text("s"))])]),
        )),
    ];
    assert_eq!(
        analyze(program),
        vec![
            "Type mismatch in arithmetic operation: cannot apply operator to 'int' and 'string'",
        ]
    );
}

fn nested_sum(levels: usize) -> Expr {
    let mut sum = integer(0);
    for _ in 0..levels {
        sum = binary(sum, binary_operator::Plus, integer(1));
    }
    sum
}

#[test]
fn a_declaration_at_the_depth_limit_is_analyzed() {
    // depth of the declaration: 1 + (1 + 254) = 256
    let program = vec![
        root::Var(declaration(Type::String, "x", nested_sum(254))),
    ];
    assert_eq!(
        analyze(program),
        vec!["Type mismatch in variable declaration 'x': expected 'string', got 'int'"]
    );
}

#[test]
fn a_declaration_beyond_the_depth_limit_is_reported_and_declared() {
    let program = vec![
        root::Var(declaration(Type::String, "x", nested_sum(255))),
        root::Var(declaration(Type::String, "y", name("x"))),
    ];
    assert_eq!(analyze(program), vec!["Declaration 'x' is nested too deeply to be analyzed"]);
}

#[test]
fn a_function_beyond_the_depth_limit_is_still_known() {
    let program = vec![
        function(Type::Int, "deep", vec![], vec![give_back(nested_sum(2000))]),
        root::Var(declaration(Type::Int, "x", call("deep", vec![]))),
    ];
    assert_eq!(analyze(program), vec!["Declaration 'deep' is nested too deeply to be analyzed"]);
}

#[test]
fn an_analyzer_keeps_its_scope_between_programs() {
    let mut analyzer = ScopeAnalyzer::new();
    analyzer.analyze(&vec![root::Var(declaration(Type::Int, "x", integer(1)))]);
    assert!(analyzer.is_valid());
    analyzer.analyze(&vec![root::Var(declaration(Type::Int, "y", name("x")))]);
    assert!(analyzer.is_valid());
    analyzer.analyze(&vec![root::Var(declaration(Type::Int, "x", integer(2)))]);
    assert!(!analyzer.is_valid());
    assert_eq!(analyzer.get_errors(), vec!["Variable 'x' is already declared in this scope"]);
    assert_eq!(
        analyzer.diagnostics(),
        &vec![Diagnostic::VariableRedeclared { name: "x".to_string() }]
    );
}

#[test]
fn semantic_analysis_returns_the_messages() {
    assert_eq!(semantic_analysis(vec![main_with(vec![])]), Ok(()));
    assert_eq!(
        semantic_analysis(vec![main_with(vec![statement::Break, statement::Expr(name("x"))])]),
        Err(vec![
            "'break' statement must be inside a loop".to_string(),
            "Variable 'x' is not defined".to_string(),
        ])
    );
}

#[test]
fn scope_declares_and_finds_symbols() {
    let variable = |name: &str| Symbol {
        name: name.to_string(),
        symbol_type: SymbolType::Variable(Type::Int),
    };
    let function = |name: &str| Symbol {
        name: name.to_string(),
        symbol_type: SymbolType::Function { return_type: Type::Void, params: vec![Type::Int] },
    };
    let mut scope = Scope::new();
    assert!(scope.lookup("v").is_none());
    assert_eq!(scope.declare("v".to_string(), variable("v")), Ok(()));
    assert_eq!(scope.declare("f".to_string(), function("f")), Ok(()));
    assert!(!scope.lookup("v").unwrap().symbol_type.is_function());
    assert!(scope.lookup("f").unwrap().symbol_type.is_function());
    assert_eq!(scope.lookup("f").unwrap().name, "f");
    assert_eq!(
        scope.declare("v".to_string(), variable("v")),
        Err(Diagnostic::VariableRedeclared { name: "v".to_string() })
    );
    assert_eq!(
        scope.declare("v".to_string(), function("v")),
        Err(Diagnostic::VariableRedefinedAsFunction { name: "v".to_string() })
    );
    assert_eq!(
        scope.declare("f".to_string(), function("f")),
        Err(Diagnostic::FunctionRedefined { name: "f".to_string() })
    );
    assert_eq!(
        scope.declare("f".to_string(), variable("f")),
        Err(Diagnostic::FunctionRedeclaredAsVariable { name: "f".to_string() })
    );
    assert!(scope.lookup("f").unwrap().symbol_type.is_function());
}

#[test]
fn type_names_go_both_ways() {
    let all = [Type::Int, Type::Float, Type::Bool, Type::String, Type::Void, Type::Unknown];
    let names = ["int", "float", "bool", "string", "void", "unknown"];
    for (t, name) in all.iter().zip(names.iter()) {
        assert_eq!(t.to_string(), *name);
        assert_eq!(Type::from_string(name), *t);
    }
    assert_eq!(Type::from_string("Int"), Type::Unknown);
    assert_eq!(Type::from_string(""), Type::Unknown);
    assert_eq!(Type::from_string("integer"), Type::Unknown);
}

#[test]
fn compatibility_table() {
    let all = [Type::Int, Type::Float, Type::Bool, Type::String, Type::Void, Type::Unknown];
    for a in all.iter() {
        for b in all.iter() {
            let numeric = |t: &Type| *t == Type::Int || *t == Type::Float;
            let expected = a == b || (numeric(a) && numeric(b));
            assert_eq!(a.is_compatible(b), expected);
            assert_eq!(a.is_compatible(b), b.is_compatible(a));
        }
    }
}

#[test]
fn arithmetic_result_table() {
    let all = [Type::Int, Type::Float, Type::Bool, Type::String, Type::Void, Type::Unknown];
    for a in all.iter() {
        for b in all.iter() {
            let expected = match (a, b) {
                (Type::Int, Type::Int) => Type::Int,
                (Type::Int, Type::Float) | (Type::Float, Type::Int) | (Type::Float, Type::Float) => {
                    Type::Float
                }
                _ => Type::Unknown,
            };
            assert_eq!(a.result_type(b), expected);
        }
    }
}

#[test]
fn every_diagnostic_has_its_text() {
    let n = || "n".to_string();
    let cases: Vec<(Diagnostic, &str)> = vec![
        (Diagnostic::FunctionRedefined { name: n() }, "Function 'n' is already defined in this scope"),
        (Diagnostic::VariableRedeclared { name: n() }, "Variable 'n' is already declared in this scope"),
        (
            Diagnostic::FunctionRedeclaredAsVariable { name: n() },
            "'n' is already defined as a function, cannot redeclare as variable",
        ),
        (
            Diagnostic::VariableRedefinedAsFunction { name: n() },
            "'n' is already declared as a variable, cannot redefine as function",
        ),
        (Diagnostic::UndefinedVariable { name: n() }, "Variable 'n' is not defined"),
        (Diagnostic::FunctionUsedAsVariable { name: n() }, "'n' is a function, not a variable"),
        (Diagnostic::VariableUsedAsFunction { name: n() }, "'n' is a variable, not a function"),
        (Diagnostic::UndefinedFunction { name: n() }, "Function 'n' is not defined"),
        (
            Diagnostic::ArithmeticMismatch { left: Type::Int, right: Type::Bool },
            "Type mismatch in arithmetic operation: cannot apply operator to 'int' and 'bool'",
        ),
        (
            Diagnostic::ComparisonMismatch { left: Type::Float, right: Type::Void },
            "Type mismatch in comparison: cannot compare 'float' and 'void'",
        ),
        (
            Diagnostic::LogicalOperand { found: Type::Int, side: Side::Left },
            "Logical operator requires boolean operands, got 'int' on left side",
        ),
        (
            Diagnostic::LogicalOperand { found: Type::Unknown, side: Side::Right },
            "Logical operator requires boolean operands, got 'unknown' on right side",
        ),
        (
            Diagnostic::ShiftOperand { found: Type::String },
            "Bitwise shift operator requires integer operands, got 'string'",
        ),
        (
            Diagnostic::UnaryMinusOperand { found: Type::Bool },
            "Unary minus requires numeric type, got 'bool'",
        ),
        (
            Diagnostic::LogicalNotOperand { found: Type::Int },
            "Logical NOT requires boolean type, got 'int'",
        ),
        (
            Diagnostic::AssignmentMismatch { value: Type::String, target: Type::Int },
            "Type mismatch in assignment: cannot assign 'string' to 'int'",
        ),
        (
            Diagnostic::VariableInitializerMismatch {
                name: n(),
                expected: Type::Int,
                found: Type::String,
            },
            "Type mismatch in variable declaration 'n': expected 'int', got 'string'",
        ),
        (
            Diagnostic::ForInitializerMismatch { name: n(), expected: Type::Int, found: Type::Bool },
            "Type mismatch in for loop initialization 'n': expected 'int', got 'bool'",
        ),
        (
            Diagnostic::ReturnMismatch { expected: Type::Void, found: Type::Int },
            "Type mismatch in return statement: expected 'void', got 'int'",
        ),
        (
            Diagnostic::ArgumentCountMismatch { name: n(), parameters: 0, arguments: 1234567890 },
            "Function 'n' expects 0 argument(s), got 1234567890",
        ),
        (
            Diagnostic::ArgumentTypeMismatch {
                name: n(),
                position: 10,
                expected: Type::Float,
                found: Type::String,
            },
            "Type mismatch in argument 10 of function 'n': expected 'float', got 'string'",
        ),
        (
            Diagnostic::MissingReturn { name: n(), return_type: Type::Bool },
            "Function 'n' with return type 'bool' must have a return statement",
        ),
        (Diagnostic::BreakOutsideLoop, "'break' statement must be inside a loop"),
        (Diagnostic::ContinueOutsideLoop, "'continue' statement must be inside a loop"),
        (
            Diagnostic::ConditionNotBoolean { construct: Construct::If, found: Type::Int },
            "If statement condition must be boolean, got 'int'",
        ),
        (
            Diagnostic::ConditionNotBoolean { construct: Construct::Elif, found: Type::Int },
            "Elif statement condition must be boolean, got 'int'",
        ),
        (
            Diagnostic::ConditionNotBoolean { construct: Construct::While, found: Type::Int },
            "While statement condition must be boolean, got 'int'",
        ),
        (
            Diagnostic::ConditionNotBoolean { construct: Construct::For, found: Type::Int },
            "For loop condition must be boolean, got 'int'",
        ),
        (Diagnostic::NestingTooDeep { name: n() }, "Declaration 'n' is nested too deeply to be analyzed"),
    ];
    for (diagnostic, expected) in cases {
        assert_eq!(diagnostic.message(), expected);
    }
}
