use toy_compiler::parser::enums::{
    binary_operator, expression_statement, for_statement, function_call, function_statement,
    if_statement, if_statement_expression, param, root, statement, variable_declaration,
    while_statement, Block, Expr, Literal,
};
use toy_compiler::semantics::scope_checking::{scope_checking, ScopeAnalyzer};
use toy_compiler::semantics::semantic_analysis::Type;

fn name(text: &str) -> Expr {
    Expr::Identifier(text.to_string())
}

fn integer(value: i64) -> Expr {
    Expr::Literal(Literal::Int(value))
}

fn text(value: &str) -> Expr {
    Expr::Literal(Literal::Str(value.to_string()))
}

fn call(callee: &str, args: Vec<Expr>) -> Expr {
    Expr::FuncCall(function_call { identifier: callee.to_string(), args })
}

fn declaration(identifier: &str, expression: Expr) -> variable_declaration {
    variable_declaration { type_token: Type::Int, identifier: identifier.to_string(), expression }
}

fn declare(identifier: &str, expression: Expr) -> statement {
    statement::Var(declaration(identifier, expression))
}

fn function(identifier: &str, params: Vec<&str>, statements: Vec<statement>) -> root {
    root::Func(function_statement {
        type_token: Type::Int,
        identifier: identifier.to_string(),
        params: params
            .into_iter()
            .map(|identifier| param { type_token: Type::Int, identifier: identifier.to_string() })
            .collect(),
        block: Block { statements },
    })
}

fn check(program: Vec<root>) -> Vec<String> {
    let mut analyzer = ScopeAnalyzer::new();
    analyzer.analyze(&program);
    assert_eq!(analyzer.is_valid(), analyzer.get_errors().is_empty());
    analyzer.get_errors()
}

#[test]
fn scope_checking_passes_a_clean_program() {
    let program = vec![
        root::Var(declaration("g", integer(1))),
        function("f", vec!["a"], vec![declare("b", name("a")), declare("c", name("g"))]),
    ];
    assert_eq!(check(program), Vec::<String>::new());
}

#[test]
fn scope_checking_ignores_types_returns_and_loops() {
    let program = vec![
        root::Var(declaration("x", text("not a number"))),
        function(
            "f",
            vec!["a"],
            vec![
                statement::Break,
                statement::Continue,
                statement::Expr(Expr::BinaryOperation {
                    left: Box::new(name("a")),
                    operator: binary_operator::Plus,
                    right: Box::new(text("s")),
                }),
                statement::Expr(call("f", vec![])),
                statement::Expr(call("f", vec![text("s"), integer(2)])),
                statement::If(if_statement {
                    if_statement: if_statement_expression {
                        condition: integer(1),
                        block: Block { statements: vec![] },
                    },
                    elif_statement: vec![],
                    else_statement: None,
                }),
            ],
        ),
    ];
    assert_eq!(check(program), Vec::<String>::new());
}

#[test]
fn scope_checking_reports_names() {
    let program = vec![
        root::Var(declaration("v", integer(1))),
        function(
            "f",
            vec![],
            vec![
                statement::Expr(name("missing")),
                statement::Expr(name("f")),
                statement::Expr(call("v", vec![name("gone")])),
                statement::Expr(call("nobody", vec![])),
                declare("v", integer(2)),
                declare("v", integer(3)),
            ],
        ),
        function("f", vec![], vec![]),
    ];
    assert_eq!(
        check(program),
        vec![
            "Variable 'missing' is not defined",
            "'f' is a function, not a variable",
            "'v' is a variable, not a function",
            "Variable 'gone' is not defined",
            "Function 'nobody' is not defined",
            "Variable 'v' is already declared in this scope",
            "Function 'f' is already defined in this scope",
        ]
    );
}

#[test]
fn scope_checking_scopes_loops_and_branches() {
    let program = vec![function(
        "f",
        vec![],
        vec![
            statement::While(while_statement {
                condition: name("f_is_no_variable"),
                block: Block { statements: vec![declare("inner", integer(1))] },
            }),
            statement::For(for_statement {
                init_loop_var: Some(declaration("i", integer(0))),
                loop_condition: expression_statement::Expr(name("i")),
                update_loop_var: Some(name("i")),
                block: Block { statements: vec![declare("j", name("i"))] },
            }),
            statement::Expr(name("inner")),
            statement::Expr(name("i")),
            statement::Expr(name("j")),
        ],
    )];
    assert_eq!(
        check(program),
        vec![
            "Variable 'f_is_no_variable' is not defined",
            "Variable 'inner' is not defined",
            "Variable 'i' is not defined",
            "Variable 'j' is not defined",
        ]
    );
}

#[test]
fn scope_checking_returns_the_messages() {
    assert_eq!(scope_checking(vec![]), Ok(()));
    assert_eq!(
        scope_checking(vec![root::Var(declaration("x", name("y")))]),
        Err(vec!["Variable 'y' is not defined".to_string()])
    );
}

#[test]
fn scope_checking_stops_at_the_depth_limit() {
    let mut deep = integer(0);
    for _ in 0..300 {
        deep = Expr::BinaryOperation {
            left: Box::new(deep),
            operator: binary_operator::Plus,
            right: Box::new(name("missing")),
        };
    }
    let program = vec![
        root::Var(declaration("x", deep)),
        root::Var(declaration("y", name("x"))),
    ];
    assert_eq!(check(program), vec!["Declaration 'x' is nested too deeply to be analyzed"]);
}
