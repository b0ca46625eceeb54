use toy_compiler::ir::ir_generator::{ir_generator, IrGenerator};
use toy_compiler::parser::enums::{
    binary_operator, elif_statement, expression_statement, for_statement, function_call,
    function_statement, if_statement, if_statement_expression, param, return_statement, root,
    statement, unary_operator, variable_declaration, while_statement, Block, Expr, Literal,
};
use toy_compiler::semantics::semantic_analysis::Type;

fn name(text: &str) -> Expr {
    Expr::Identifier(text.to_string())
}

fn integer(value: i64) -> Expr {
    Expr::Literal(Literal::Int(value))
}

fn binary(left: Expr, operator: binary_operator, right: Expr) -> Expr {
    Expr::BinaryOperation { left: Box::new(left), operator, right: Box::new(right) }
}

fn assign(target: Expr, value: Expr) -> Expr {
    Expr::Assignment { left: Box::new(target), right: Box::new(value) }
}

fn global(identifier: &str, expression: Expr) -> root {
    root::Var(variable_declaration {
        type_token: Type::Int,
        identifier: identifier.to_string(),
        expression,
    })
}

fn block(statements: Vec<statement>) -> Block {
    Block { statements }
}

fn main_with(statements: Vec<statement>) -> root {
    root::Func(function_statement {
        type_token: Type::Void,
        identifier: "main".to_string(),
        params: vec![],
        block: block(statements),
    })
}

fn lines(code: &[&str]) -> Result<String, ()> {
    Ok(code.join("\n"))
}

/// The code of `main` with the given body, without the lines that frame it.
fn body_code(statements: Vec<statement>) -> Vec<String> {
    let code = ir_generator(&vec![main_with(statements)]).expect("generation succeeds");
    let all: Vec<String> = code.split('\n').map(|line| line.to_string()).collect();
    assert_eq!(all[0], "main:");
    assert_eq!(all[1], "BeginFunc");
    assert_eq!(all[all.len() - 1], "EndFunc");
    all[2..all.len() - 1].to_vec()
}

#[test]
fn empty_program_has_no_code() {
    assert_eq!(ir_generator(&vec![]), Ok(String::new()));
}

#[test]
fn global_variables_are_copies() {
    let program = vec![
        global("a", integer(5)),
        global("b", integer(-7)),
        global("c", integer(i64::MIN)),
        global("d", integer(i64::MAX)),
        global("e", integer(0)),
        global("f", Expr::Literal(Literal::Float(2.5f64.to_string()))),
        global("g", Expr::Literal(Literal::Str("hi".to_string()))),
        global("h", Expr::Literal(Literal::Bool(true))),
        global("i", Expr::Literal(Literal::Bool(false))),
        global("j", name("a")),
    ];
    assert_eq!(
        ir_generator(&program),
        lines(&[
            "a = 5",
            "b = -7",
            "c = -9223372036854775808",
            "d = 9223372036854775807",
            "e = 0",
            "f = 2.5",
            "g = \"hi\"",
            "h = true",
            "i = false",
            "j = a",
        ])
    );
}

#[test]
fn function_frames_its_body_and_pops_its_parameters() {
    let program = vec![root::Func(function_statement {
        type_token: Type::Int,
        identifier: "add".to_string(),
        params: vec![
            param { type_token: Type::Int, identifier: "a".to_string() },
            param { type_token: Type::Int, identifier: "b".to_string() },
        ],
        block: block(vec![statement::Return(return_statement {
            expr: binary(name("a"), binary_operator::Plus, name("b")),
        })]),
    })];
    assert_eq!(
        ir_generator(&program),
        lines(&["add:", "BeginFunc", "PopParam a", "PopParam b", "t0 = a + b", "Return t0", "EndFunc"])
    );
}

#[test]
fn operands_are_lowered_left_to_right_into_temporaries() {
    let e = binary(
        binary(name("a"), binary_operator::Multiply, name("b")),
        binary_operator::Minus,
        Expr::UnaryOperation {
            prefix: unary_operator::Minus,
            operand: Box::new(binary(name("c"), binary_operator::Exponent, integer(2))),
        },
    );
    assert_eq!(
        ir_generator(&vec![global("x", e)]),
        lines(&["t0 = a * b", "t1 = c ^ 2", "t2 = - t1", "t3 = t0 - t2", "x = t3"])
    );
}

#[test]
fn every_operator_has_its_sign() {
    let operators = [
        (binary_operator::Or, "||"),
        (binary_operator::And, "&&"),
        (binary_operator::Equals, "=="),
        (binary_operator::NotEquals, "!="),
        (binary_operator::LessThan, "<"),
        (binary_operator::GreaterThan, ">"),
        (binary_operator::LessThanEqual, "<="),
        (binary_operator::GreaterThanEqual, ">="),
        (binary_operator::LeftShift, "<<"),
        (binary_operator::RightShift, ">>"),
        (binary_operator::Plus, "+"),
        (binary_operator::Minus, "-"),
        (binary_operator::Multiply, "*"),
        (binary_operator::Divide, "/"),
        (binary_operator::Exponent, "^"),
    ];
    for (operator, sign) in operators {
        let code = ir_generator(&vec![global("x", binary(name("a"), operator, name("b")))]);
        assert_eq!(code, Ok(format!("t0 = a {} b\nx = t0", sign)));
    }
    let not = Expr::UnaryOperation { prefix: unary_operator::Not, operand: Box::new(name("a")) };
    assert_eq!(ir_generator(&vec![global("x", not)]), lines(&["t0 = ! a", "x = t0"]));
}

#[test]
fn assignment_copies_and_yields_its_target() {
    let e = assign(name("a"), assign(name("b"), integer(3)));
    assert_eq!(ir_generator(&vec![global("x", e)]), lines(&["b = 3", "a = b", "x = a"]));
}

#[test]
fn assignment_to_anything_but_a_name_fails() {
    let e = assign(integer(1), integer(2));
    assert_eq!(ir_generator(&vec![global("x", e)]), Err(()));
    let nested = vec![main_with(vec![statement::While(while_statement {
        condition: name("c"),
        block: block(vec![statement::Expr(assign(
            binary(name("a"), binary_operator::Plus, name("b")),
            integer(2),
        ))]),
    })])];
    assert_eq!(ir_generator(&nested), Err(()));
}

#[test]
fn call_passes_its_arguments_in_order() {
    let call = Expr::FuncCall(function_call {
        identifier: "f".to_string(),
        args: vec![integer(1), binary(name("a"), binary_operator::Plus, name("b")), name("c")],
    });
    assert_eq!(
        body_code(vec![statement::Expr(call)]),
        vec!["Param 1", "t0 = a + b", "Param t0", "Param c", "t1 = Call f, 3"]
    );
    let none = Expr::FuncCall(function_call { identifier: "g".to_string(), args: vec![] });
    assert_eq!(body_code(vec![statement::Expr(none)]), vec!["t0 = Call g, 0"]);
}

#[test]
fn call_with_many_arguments_counts_in_decimal() {
    let args: Vec<Expr> = (0..12).map(integer).collect();
    let call = Expr::FuncCall(function_call { identifier: "f".to_string(), args });
    let code = body_code(vec![statement::Expr(call)]);
    assert_eq!(code.len(), 13);
    assert_eq!(code[11], "Param 11");
    assert_eq!(code[12], "t0 = Call f, 12");
}

#[test]
fn temporaries_are_numbered_through() {
    let sum = |n: i64| binary(integer(n), binary_operator::Plus, integer(n));
    let statements: Vec<statement> = (0..11).map(|n| statement::Expr(sum(n))).collect();
    let code = body_code(statements);
    assert_eq!(code[9], "t9 = 9 + 9");
    assert_eq!(code[10], "t10 = 10 + 10");
}

#[test]
fn if_with_elif_and_else() {
    let set = |value: i64| vec![statement::Expr(assign(name("x"), integer(value)))];
    let s = statement::If(if_statement {
        if_statement: if_statement_expression { condition: name("a"), block: block(set(1)) },
        elif_statement: vec![elif_statement::Elif {
            if_statement: if_statement_expression {
                condition: binary(name("b"), binary_operator::LessThan, integer(0)),
                block: block(set(2)),
            },
        }],
        else_statement: Some(block(set(3))),
    });
    assert_eq!(
        body_code(vec![s]),
        vec![
            "IfZ a Goto L1",
            "x = 1",
            "Goto L0",
            "L1:",
            "t0 = b < 0",
            "IfZ t0 Goto L2",
            "x = 2",
            "Goto L0",
            "L2:",
            "x = 3",
            "L0:",
        ]
    );
}

#[test]
fn if_alone() {
    let s = statement::If(if_statement {
        if_statement: if_statement_expression { condition: name("a"), block: block(vec![]) },
        elif_statement: vec![],
        else_statement: None,
    });
    assert_eq!(body_code(vec![s]), vec!["IfZ a Goto L1", "Goto L0", "L1:", "L0:"]);
}

#[test]
fn while_with_break_and_continue() {
    let s = statement::While(while_statement {
        condition: binary(name("i"), binary_operator::LessThan, integer(3)),
        block: block(vec![statement::Continue, statement::Break]),
    });
    assert_eq!(
        body_code(vec![s]),
        vec!["L0:", "t0 = i < 3", "IfZ t0 Goto L1", "Goto L0", "Goto L1", "Goto L0", "L1:"]
    );
}

#[test]
fn for_with_all_clauses() {
    let s = statement::For(for_statement {
        init_loop_var: Some(variable_declaration {
            type_token: Type::Int,
            identifier: "i".to_string(),
            expression: integer(0),
        }),
        loop_condition: expression_statement::Expr(binary(
            name("i"),
            binary_operator::LessThan,
            integer(3),
        )),
        update_loop_var: Some(assign(
            name("i"),
            binary(name("i"), binary_operator::Plus, integer(1)),
        )),
        block: block(vec![statement::Continue, statement::Break]),
    });
    assert_eq!(
        body_code(vec![s]),
        vec![
            "i = 0",
            "L0:",
            "t0 = i < 3",
            "IfZ t0 Goto L2",
            "Goto L1",
            "Goto L2",
            "L1:",
            "t1 = i + 1",
            "i = t1",
            "Goto L0",
            "L2:",
        ]
    );
}

#[test]
fn for_with_empty_clauses() {
    let s = statement::For(for_statement {
        init_loop_var: None,
        loop_condition: expression_statement::SemiColon,
        update_loop_var: None,
        block: block(vec![]),
    });
    assert_eq!(body_code(vec![s]), vec!["L0:", "L1:", "Goto L0", "L2:"]);
}

#[test]
fn break_jumps_out_of_the_innermost_loop() {
    let inner = statement::While(while_statement {
        condition: name("b"),
        block: block(vec![statement::Break]),
    });
    let outer = statement::While(while_statement {
        condition: name("a"),
        block: block(vec![inner, statement::Break]),
    });
    assert_eq!(
        body_code(vec![outer]),
        vec![
            "L0:",
            "IfZ a Goto L1",
            "L2:",
            "IfZ b Goto L3",
            "Goto L3",
            "Goto L2",
            "L3:",
            "Goto L1",
            "Goto L0",
            "L1:",
        ]
    );
}

#[test]
fn break_outside_a_loop_leaves_no_line() {
    assert_eq!(body_code(vec![statement::Break, statement::Continue]), Vec::<String>::new());
}

#[test]
fn a_generator_keeps_its_code_and_its_numbers() {
    let mut generator = IrGenerator::new();
    let first = vec![global("x", binary(name("a"), binary_operator::Plus, name("b")))];
    assert_eq!(generator.generate_ir(&first), lines(&["t0 = a + b", "x = t0"]));
    let second = vec![global("y", binary(name("c"), binary_operator::Plus, name("d")))];
    assert_eq!(
        generator.generate_ir(&second),
        lines(&["t0 = a + b", "x = t0", "t1 = c + d", "y = t1"])
    );
}

#[test]
fn a_failed_generator_stays_failed() {
    let mut generator = IrGenerator::new();
    assert_eq!(generator.generate_ir(&vec![global("x", assign(integer(1), integer(2)))]), Err(()));
    assert_eq!(generator.generate_ir(&vec![global("y", integer(1))]), Err(()));
}

#[test]
fn a_declaration_nested_too_deeply_fails() {
    let mut deep = integer(0);
    for _ in 0..300 {
        deep = binary(deep, binary_operator::Plus, integer(1));
    }
    assert_eq!(ir_generator(&vec![global("x", deep)]), Err(()));
}
