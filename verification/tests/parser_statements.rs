use toy_compiler::parser::enums::{
    binary_operator, elif_statement, expression_statement, for_statement, function_call,
    function_statement, if_statement, if_statement_expression, param, return_statement, root,
    statement, unary_operator, variable_declaration, while_statement, Block, Expr, Literal,
};
use toy_compiler::parser::errors::Errors;
use toy_compiler::parser::parser::{parse_function_call, parse_function_call_arguments, parser};
use toy_compiler::parser::token_iterator::TokenIterator;
use toy_compiler::semantics::semantic_analysis::Type;
use toy_compiler::tokens::Token;

fn id(name: &str) -> Token {
    Token::T_IDENTIFIER(name.to_string())
}

fn name(text: &str) -> Expr {
    Expr::Identifier(text.to_string())
}

fn integer(value: i64) -> Expr {
    Expr::Literal(Literal::Int(value))
}

/// `fn main() { <body> }`
fn in_main(body: Vec<Token>) -> Vec<Token> {
    let mut tokens = vec![
        Token::T_FUNCTION,
        id("main"),
        Token::T_ROUND_BRACKET_OPEN,
        Token::T_ROUND_BRACKET_CLOSE,
        Token::T_CURLY_BRACKET_OPEN,
    ];
    tokens.extend(body);
    tokens.push(Token::T_CURLY_BRACKET_CLOSE);
    tokens
}

/// The statements of the one function that the tokens declare.
fn body_of(tokens: Vec<Token>) -> Vec<statement> {
    let mut program = parser(tokens).expect("the program parses");
    assert_eq!(program.len(), 1);
    match program.remove(0) {
        root::Func(function) => function.block.statements,
        root::Var(_) => panic!("a function was declared"),
    }
}

#[test]
fn empty_program_has_no_declarations() {
    assert_eq!(parser(vec![]), Ok(vec![]));
}

#[test]
fn variable_declaration_with_each_literal() {
    let tokens = vec![
        Token::T_INT,
        id("a"),
        Token::T_ASSIGNMENT_OPR,
        Token::T_CONST_INT(7),
        Token::T_SEMICOLON,
        Token::T_FLOAT,
        id("b"),
        Token::T_ASSIGNMENT_OPR,
        Token::T_CONST_FLOAT(2.5f64.to_string()),
        Token::T_SEMICOLON,
        Token::T_BOOL,
        id("c"),
        Token::T_ASSIGNMENT_OPR,
        Token::T_CONST_BOOL(true),
        Token::T_SEMICOLON,
        Token::T_STRING,
        id("d"),
        Token::T_ASSIGNMENT_OPR,
        Token::T_DOUBLE_QUOTE,
        Token::T_STRINGLIT("hi".to_string()),
        Token::T_DOUBLE_QUOTE,
        Token::T_SEMICOLON,
    ];
    let declare = |type_token: Type, identifier: &str, literal: Literal| {
        root::Var(variable_declaration {
            type_token,
            identifier: identifier.to_string(),
            expression: Expr::Literal(literal),
        })
    };
    assert_eq!(
        parser(tokens),
        Ok(vec![
            declare(Type::Int, "a", Literal::Int(7)),
            declare(Type::Float, "b", Literal::Float("2.5".to_string())),
            declare(Type::Bool, "c", Literal::Bool(true)),
            declare(Type::String, "d", Literal::Str("hi".to_string())),
        ])
    );
}

#[test]
fn function_without_type_is_void() {
    let program = parser(in_main(vec![])).unwrap();
    assert_eq!(
        program,
        vec![root::Func(function_statement {
            type_token: Type::Void,
            identifier: "main".to_string(),
            params: vec![],
            block: Block { statements: vec![] },
        })]
    );
}

#[test]
fn function_with_type_and_parameters() {
    let tokens = vec![
        Token::T_FUNCTION,
        Token::T_INT,
        id("add"),
        Token::T_ROUND_BRACKET_OPEN,
        Token::T_INT,
        id("a"),
        Token::T_COMMA,
        Token::T_FLOAT,
        id("b"),
        Token::T_ROUND_BRACKET_CLOSE,
        Token::T_CURLY_BRACKET_OPEN,
        Token::T_RETURN,
        id("a"),
        Token::T_PLUS_OPR,
        id("b"),
        Token::T_SEMICOLON,
        Token::T_CURLY_BRACKET_CLOSE,
    ];
    assert_eq!(
        parser(tokens),
        Ok(vec![root::Func(function_statement {
            type_token: Type::Int,
            identifier: "add".to_string(),
            params: vec![
                param { type_token: Type::Int, identifier: "a".to_string() },
                param { type_token: Type::Float, identifier: "b".to_string() },
            ],
            block: Block {
                statements: vec![statement::Return(return_statement {
                    expr: Expr::BinaryOperation {
                        left: Box::new(name("a")),
                        operator: binary_operator::Plus,
                        right: Box::new(name("b")),
                    },
                })],
            },
        })])
    );
}

#[test]
fn if_elif_else_chain() {
    let branch = |condition: &str, result: i64| {
        vec![
            Token::T_ROUND_BRACKET_OPEN,
            id(condition),
            Token::T_ROUND_BRACKET_CLOSE,
            Token::T_CURLY_BRACKET_OPEN,
            Token::T_RETURN,
            Token::T_CONST_INT(result),
            Token::T_SEMICOLON,
            Token::T_CURLY_BRACKET_CLOSE,
        ]
    };
    let mut body = vec![Token::T_IF];
    body.extend(branch("a", 1));
    body.push(Token::T_ELSE_IF);
    body.extend(branch("b", 2));
    body.push(Token::T_ELSE_IF);
    body.extend(branch("c", 3));
    body.extend(vec![
        Token::T_ELSE,
        Token::T_CURLY_BRACKET_OPEN,
        Token::T_RETURN,
        Token::T_CONST_INT(4),
        Token::T_SEMICOLON,
        Token::T_CURLY_BRACKET_CLOSE,
    ]);
    let gives = |value: i64| Block {
        statements: vec![statement::Return(return_statement { expr: integer(value) })],
    };
    let guarded = |condition: &str, value: i64| if_statement_expression {
        condition: name(condition),
        block: gives(value),
    };
    assert_eq!(
        body_of(in_main(body)),
        vec![statement::If(if_statement {
            if_statement: guarded("a", 1),
            elif_statement: vec![
                elif_statement::Elif { if_statement: guarded("b", 2) },
                elif_statement::Elif { if_statement: guarded("c", 3) },
            ],
            else_statement: Some(gives(4)),
        })]
    );
}

#[test]
fn while_loop_with_nested_if() {
    let body = vec![
        Token::T_WHILE,
        Token::T_ROUND_BRACKET_OPEN,
        id("i"),
        Token::T_LESS_THAN_OPR,
        Token::T_CONST_INT(10),
        Token::T_ROUND_BRACKET_CLOSE,
        Token::T_CURLY_BRACKET_OPEN,
        Token::T_IF,
        Token::T_ROUND_BRACKET_OPEN,
        Token::T_NOT,
        id("go"),
        Token::T_ROUND_BRACKET_CLOSE,
        Token::T_CURLY_BRACKET_OPEN,
        Token::T_CURLY_BRACKET_CLOSE,
        Token::T_CURLY_BRACKET_CLOSE,
    ];
    assert_eq!(
        body_of(in_main(body)),
        vec![statement::While(while_statement {
            condition: Expr::BinaryOperation {
                left: Box::new(name("i")),
                operator: binary_operator::LessThan,
                right: Box::new(integer(10)),
            },
            block: Block {
                statements: vec![statement::If(if_statement {
                    if_statement: if_statement_expression {
                        condition: Expr::UnaryOperation {
                            prefix: unary_operator::Not,
                            operand: Box::new(name("go")),
                        },
                        block: Block { statements: vec![] },
                    },
                    elif_statement: vec![],
                    else_statement: None,
                })],
            },
        })]
    );
}

#[test]
fn for_loop_with_all_clauses() {
    let body = vec![
        Token::T_FOR,
        Token::T_ROUND_BRACKET_OPEN,
        Token::T_INT,
        id("i"),
        Token::T_ASSIGNMENT_OPR,
        Token::T_CONST_INT(0),
        Token::T_SEMICOLON,
        id("i"),
        Token::T_LESS_THAN_OPR,
        Token::T_CONST_INT(3),
        Token::T_SEMICOLON,
        id("i"),
        Token::T_ASSIGNMENT_OPR,
        id("i"),
        Token::T_PLUS_OPR,
        Token::T_CONST_INT(1),
        Token::T_ROUND_BRACKET_CLOSE,
        Token::T_CURLY_BRACKET_OPEN,
        Token::T_CURLY_BRACKET_CLOSE,
    ];
    assert_eq!(
        body_of(in_main(body)),
        vec![statement::For(for_statement {
            init_loop_var: Some(variable_declaration {
                type_token: Type::Int,
                identifier: "i".to_string(),
                expression: integer(0),
            }),
            loop_condition: expression_statement::Expr(Expr::BinaryOperation {
                left: Box::new(name("i")),
                operator: binary_operator::LessThan,
                right: Box::new(integer(3)),
            }),
            update_loop_var: Some(Expr::Assignment {
                left: Box::new(name("i")),
                right: Box::new(Expr::BinaryOperation {
                    left: Box::new(name("i")),
                    operator: binary_operator::Plus,
                    right: Box::new(integer(1)),
                }),
            }),
            block: Block { statements: vec![] },
        })]
    );
}

#[test]
fn for_loop_with_empty_clauses() {
    let body = vec![
        Token::T_FOR,
        Token::T_ROUND_BRACKET_OPEN,
        Token::T_SEMICOLON,
        Token::T_SEMICOLON,
        Token::T_ROUND_BRACKET_CLOSE,
        Token::T_CURLY_BRACKET_OPEN,
        Token::T_CURLY_BRACKET_CLOSE,
    ];
    assert_eq!(
        body_of(in_main(body)),
        vec![statement::For(for_statement {
            init_loop_var: None,
            loop_condition: expression_statement::SemiColon,
            update_loop_var: None,
            block: Block { statements: vec![] },
        })]
    );
}

#[test]
fn statements_after_a_bare_call_go_on() {
    let body = vec![
        id("f"),
        Token::T_ROUND_BRACKET_OPEN,
        Token::T_ROUND_BRACKET_CLOSE,
        Token::T_SEMICOLON,
        Token::T_RETURN,
        Token::T_CONST_INT(1),
        Token::T_SEMICOLON,
    ];
    assert_eq!(
        body_of(in_main(body)),
        vec![
            statement::Expr(Expr::FuncCall(function_call {
                identifier: "f".to_string(),
                args: vec![],
            })),
            statement::Return(return_statement { expr: integer(1) }),
        ]
    );
}

#[test]
fn for_loop_rejects_other_first_clause() {
    let body = vec![Token::T_FOR, Token::T_ROUND_BRACKET_OPEN, id("i")];
    assert_eq!(parser(in_main(body)), Err(Errors::UnexpectedToken(id("i"))));
}

#[test]
fn for_loop_cut_off_reports_end_of_input() {
    let tokens = vec![
        Token::T_FUNCTION,
        id("main"),
        Token::T_ROUND_BRACKET_OPEN,
        Token::T_ROUND_BRACKET_CLOSE,
        Token::T_CURLY_BRACKET_OPEN,
        Token::T_FOR,
        Token::T_ROUND_BRACKET_OPEN,
    ];
    assert_eq!(parser(tokens), Err(Errors::UnexpectedEOF));
}

#[test]
fn bare_call_is_an_expression_statement() {
    let body = vec![
        id("f"),
        Token::T_ROUND_BRACKET_OPEN,
        Token::T_CONST_INT(1),
        Token::T_COMMA,
        id("x"),
        Token::T_ROUND_BRACKET_CLOSE,
        Token::T_SEMICOLON,
    ];
    assert_eq!(
        body_of(in_main(body)),
        vec![statement::Expr(Expr::FuncCall(function_call {
            identifier: "f".to_string(),
            args: vec![integer(1), name("x")],
        }))]
    );
}

#[test]
fn call_ends_with_its_closing_bracket() {
    // `int y = f();` is a declaration: the `;` is the declaration's.
    let once = vec![
        Token::T_INT,
        id("y"),
        Token::T_ASSIGNMENT_OPR,
        id("f"),
        Token::T_ROUND_BRACKET_OPEN,
        Token::T_ROUND_BRACKET_CLOSE,
        Token::T_SEMICOLON,
    ];
    assert_eq!(
        parser(once.clone()),
        Ok(vec![root::Var(variable_declaration {
            type_token: Type::Int,
            identifier: "y".to_string(),
            expression: Expr::FuncCall(function_call {
                identifier: "f".to_string(),
                args: vec![],
            }),
        })])
    );
    let mut twice = once;
    twice.push(Token::T_SEMICOLON);
    assert_eq!(parser(twice), Err(Errors::UnexpectedToken(Token::T_SEMICOLON)));
}

#[test]
fn call_is_an_operand_of_an_expression() {
    // int x = f(1) + 2;
    let tokens = vec![
        Token::T_INT,
        id("x"),
        Token::T_ASSIGNMENT_OPR,
        id("f"),
        Token::T_ROUND_BRACKET_OPEN,
        Token::T_CONST_INT(1),
        Token::T_ROUND_BRACKET_CLOSE,
        Token::T_PLUS_OPR,
        Token::T_CONST_INT(2),
        Token::T_SEMICOLON,
    ];
    assert_eq!(
        parser(tokens),
        Ok(vec![root::Var(variable_declaration {
            type_token: Type::Int,
            identifier: "x".to_string(),
            expression: Expr::BinaryOperation {
                left: Box::new(Expr::FuncCall(function_call {
                    identifier: "f".to_string(),
                    args: vec![integer(1)],
                })),
                operator: binary_operator::Plus,
                right: Box::new(integer(2)),
            },
        })])
    );
}

#[test]
fn call_stands_in_a_condition_in_a_return_and_in_an_argument() {
    // if (f(g(x))) { return f(x); }
    let call = |callee: &str, argument: Expr| {
        Expr::FuncCall(function_call { identifier: callee.to_string(), args: vec![argument] })
    };
    let body = vec![
        Token::T_IF,
        Token::T_ROUND_BRACKET_OPEN,
        id("f"),
        Token::T_ROUND_BRACKET_OPEN,
        id("g"),
        Token::T_ROUND_BRACKET_OPEN,
        id("x"),
        Token::T_ROUND_BRACKET_CLOSE,
        Token::T_ROUND_BRACKET_CLOSE,
        Token::T_ROUND_BRACKET_CLOSE,
        Token::T_CURLY_BRACKET_OPEN,
        Token::T_RETURN,
        id("f"),
        Token::T_ROUND_BRACKET_OPEN,
        id("x"),
        Token::T_ROUND_BRACKET_CLOSE,
        Token::T_SEMICOLON,
        Token::T_CURLY_BRACKET_CLOSE,
    ];
    assert_eq!(
        body_of(in_main(body)),
        vec![statement::If(if_statement {
            if_statement: if_statement_expression {
                condition: call("f", call("g", name("x"))),
                block: Block {
                    statements: vec![statement::Return(return_statement {
                        expr: call("f", name("x")),
                    })],
                },
            },
            elif_statement: vec![],
            else_statement: None,
        })]
    );
}

#[test]
fn expression_statement_ends_with_a_semicolon() {
    // `x = 5;` is a statement; without the `;` it is not.
    let body = vec![id("x"), Token::T_ASSIGNMENT_OPR, Token::T_CONST_INT(5), Token::T_SEMICOLON];
    assert_eq!(
        body_of(in_main(body)),
        vec![statement::Expr(Expr::Assignment {
            left: Box::new(name("x")),
            right: Box::new(integer(5)),
        })]
    );
    let body = vec![id("x"), Token::T_ASSIGNMENT_OPR, Token::T_CONST_INT(5)];
    assert_eq!(
        parser(in_main(body)),
        Err(Errors::UnexpectedToken(Token::T_CURLY_BRACKET_CLOSE))
    );
    let body = vec![
        id("f"),
        Token::T_ROUND_BRACKET_OPEN,
        Token::T_ROUND_BRACKET_CLOSE,
        id("g"),
        Token::T_ROUND_BRACKET_OPEN,
        Token::T_ROUND_BRACKET_CLOSE,
        Token::T_SEMICOLON,
    ];
    assert_eq!(parser(in_main(body)), Err(Errors::UnexpectedToken(id("g"))));
}

#[test]
fn a_semicolon_alone_is_no_statement() {
    assert_eq!(
        parser(in_main(vec![Token::T_SEMICOLON])),
        Err(Errors::UnexpectedToken(Token::T_SEMICOLON))
    );
}

#[test]
fn parenthesized_expression_overrides_precedence() {
    let tokens = vec![
        Token::T_INT,
        id("x"),
        Token::T_ASSIGNMENT_OPR,
        Token::T_ROUND_BRACKET_OPEN,
        id("a"),
        Token::T_PLUS_OPR,
        id("b"),
        Token::T_ROUND_BRACKET_CLOSE,
        Token::T_MULTIPLY_OPR,
        id("c"),
        Token::T_SEMICOLON,
    ];
    assert_eq!(
        parser(tokens),
        Ok(vec![root::Var(variable_declaration {
            type_token: Type::Int,
            identifier: "x".to_string(),
            expression: Expr::BinaryOperation {
                left: Box::new(Expr::BinaryOperation {
                    left: Box::new(name("a")),
                    operator: binary_operator::Plus,
                    right: Box::new(name("b")),
                }),
                operator: binary_operator::Multiply,
                right: Box::new(name("c")),
            },
        })])
    );
}

#[test]
fn every_level_of_the_ladder() {
    // a || b && c == d < e << f + g * h ^ i
    let tokens = vec![
        Token::T_BOOL,
        id("x"),
        Token::T_ASSIGNMENT_OPR,
        id("a"),
        Token::T_OR_OPR,
        id("b"),
        Token::T_AND_OPR,
        id("c"),
        Token::T_EQUALS_OPR,
        id("d"),
        Token::T_LESS_THAN_OPR,
        id("e"),
        Token::T_LEFT_SHIFT_OPR,
        id("f"),
        Token::T_PLUS_OPR,
        id("g"),
        Token::T_MULTIPLY_OPR,
        id("h"),
        Token::T_EXPONENT_OPR,
        id("i"),
        Token::T_SEMICOLON,
    ];
    let join = |left: Expr, operator: binary_operator, right: Expr| Expr::BinaryOperation {
        left: Box::new(left),
        operator,
        right: Box::new(right),
    };
    let expected = join(
        name("a"),
        binary_operator::Or,
        join(
            name("b"),
            binary_operator::And,
            join(
                name("c"),
                binary_operator::Equals,
                join(
                    name("d"),
                    binary_operator::LessThan,
                    join(
                        name("e"),
                        binary_operator::LeftShift,
                        join(
                            name("f"),
                            binary_operator::Plus,
                            join(
                                name("g"),
                                binary_operator::Multiply,
                                join(name("h"), binary_operator::Exponent, name("i")),
                            ),
                        ),
                    ),
                ),
            ),
        ),
    );
    assert_eq!(
        parser(tokens),
        Ok(vec![root::Var(variable_declaration {
            type_token: Type::Bool,
            identifier: "x".to_string(),
            expression: expected,
        })])
    );
}

#[test]
fn unary_operators_nest_to_the_right() {
    let tokens = vec![
        Token::T_INT,
        id("x"),
        Token::T_ASSIGNMENT_OPR,
        Token::T_MINUS_OPR,
        Token::T_NOT,
        id("a"),
        Token::T_SEMICOLON,
    ];
    assert_eq!(
        parser(tokens),
        Ok(vec![root::Var(variable_declaration {
            type_token: Type::Int,
            identifier: "x".to_string(),
            expression: Expr::UnaryOperation {
                prefix: unary_operator::Minus,
                operand: Box::new(Expr::UnaryOperation {
                    prefix: unary_operator::Not,
                    operand: Box::new(name("a")),
                }),
            },
        })])
    );
}

#[test]
fn error_unexpected_end_of_input() {
    assert_eq!(parser(vec![Token::T_INT]), Err(Errors::UnexpectedEOF));
    assert_eq!(
        parser(vec![Token::T_INT, id("x"), Token::T_ASSIGNMENT_OPR]),
        Err(Errors::UnexpectedEOF)
    );
    assert_eq!(parser(vec![Token::T_FUNCTION]), Err(Errors::UnexpectedEOF));
}

#[test]
fn error_unexpected_token_at_top_level() {
    assert_eq!(parser(vec![id("x")]), Err(Errors::UnexpectedToken(id("x"))));
    assert_eq!(
        parser(vec![Token::T_SEMICOLON]),
        Err(Errors::UnexpectedToken(Token::T_SEMICOLON))
    );
}

#[test]
fn error_expected_identifier() {
    assert_eq!(
        parser(vec![Token::T_INT, Token::T_CONST_INT(1)]),
        Err(Errors::ExpectedIdentifier(Token::T_CONST_INT(1)))
    );
    assert_eq!(
        parser(vec![Token::T_FUNCTION, Token::T_ROUND_BRACKET_OPEN]),
        Err(Errors::ExpectedIdentifier(Token::T_ROUND_BRACKET_OPEN))
    );
    assert_eq!(
        parser(vec![Token::T_FUNCTION, Token::T_INT, Token::T_INT]),
        Err(Errors::ExpectedIdentifier(Token::T_INT))
    );
}

#[test]
fn error_expected_type_token() {
    let tokens = vec![
        Token::T_FUNCTION,
        id("f"),
        Token::T_ROUND_BRACKET_OPEN,
        id("a"),
        Token::T_ROUND_BRACKET_CLOSE,
    ];
    assert_eq!(parser(tokens), Err(Errors::ExpectedTypeToken(id("a"))));
}

#[test]
fn error_mismatched_token_names_the_token_found() {
    let tokens = vec![Token::T_INT, id("x"), Token::T_SEMICOLON];
    assert_eq!(parser(tokens), Err(Errors::UnexpectedToken(Token::T_SEMICOLON)));
    let tokens = vec![Token::T_INT, id("x"), Token::T_ASSIGNMENT_OPR, Token::T_CONST_INT(1), id("y")];
    assert_eq!(parser(tokens), Err(Errors::UnexpectedToken(id("y"))));
}

#[test]
fn error_expected_string_literal() {
    let tokens = vec![
        Token::T_STRING,
        id("s"),
        Token::T_ASSIGNMENT_OPR,
        Token::T_DOUBLE_QUOTE,
        Token::T_CONST_INT(1),
    ];
    assert_eq!(parser(tokens), Err(Errors::ExpectedStringLit));
}

#[test]
fn string_literal_token_stands_alone_or_between_quotes() {
    let declare = |initializer: Vec<Token>| {
        let mut tokens = vec![Token::T_STRING, id("s"), Token::T_ASSIGNMENT_OPR];
        tokens.extend(initializer);
        tokens.push(Token::T_SEMICOLON);
        parser(tokens)
    };
    let expected = Ok(vec![root::Var(variable_declaration {
        type_token: Type::String,
        identifier: "s".to_string(),
        expression: Expr::Literal(Literal::Str("hi".to_string())),
    })]);
    assert_eq!(declare(vec![Token::T_STRINGLIT("hi".to_string())]), expected);
    assert_eq!(
        declare(vec![
            Token::T_DOUBLE_QUOTE,
            Token::T_STRINGLIT("hi".to_string()),
            Token::T_DOUBLE_QUOTE,
        ]),
        expected
    );
}

#[test]
fn error_unclosed_string_literal() {
    let tokens = vec![
        Token::T_STRING,
        id("s"),
        Token::T_ASSIGNMENT_OPR,
        Token::T_DOUBLE_QUOTE,
        Token::T_STRINGLIT("a".to_string()),
        Token::T_SEMICOLON,
    ];
    assert_eq!(parser(tokens), Err(Errors::UnexpectedToken(Token::T_SEMICOLON)));
}

#[test]
fn error_invalid_assignment_target() {
    let tokens = vec![
        Token::T_INT,
        id("x"),
        Token::T_ASSIGNMENT_OPR,
        Token::T_CONST_INT(1),
        Token::T_ASSIGNMENT_OPR,
        Token::T_CONST_INT(2),
        Token::T_SEMICOLON,
    ];
    assert_eq!(parser(tokens), Err(Errors::InvalidAssignmentTarget));
}

#[test]
fn error_on_right_side_comes_before_invalid_target() {
    let tokens = vec![
        Token::T_INT,
        id("x"),
        Token::T_ASSIGNMENT_OPR,
        Token::T_CONST_INT(1),
        Token::T_ASSIGNMENT_OPR,
        Token::T_SEMICOLON,
    ];
    assert_eq!(parser(tokens), Err(Errors::UnexpectedToken(Token::T_SEMICOLON)));
}

#[test]
fn first_error_ends_the_parse() {
    // The second declaration is broken too, but only the first error shows.
    let tokens = vec![
        Token::T_INT,
        Token::T_COMMA,
        Token::T_FLOAT,
        Token::T_SEMICOLON,
    ];
    assert_eq!(parser(tokens), Err(Errors::ExpectedIdentifier(Token::T_COMMA)));
}

fn nested_parentheses(levels: usize) -> Vec<Token> {
    let mut tokens = vec![Token::T_INT, id("x"), Token::T_ASSIGNMENT_OPR];
    for _ in 0..levels {
        tokens.push(Token::T_ROUND_BRACKET_OPEN);
    }
    tokens.push(Token::T_CONST_INT(1));
    for _ in 0..levels {
        tokens.push(Token::T_ROUND_BRACKET_CLOSE);
    }
    tokens.push(Token::T_SEMICOLON);
    tokens
}

#[test]
fn nesting_up_to_the_limit_parses() {
    assert_eq!(
        parser(nested_parentheses(100)),
        Ok(vec![root::Var(variable_declaration {
            type_token: Type::Int,
            identifier: "x".to_string(),
            expression: integer(1),
        })])
    );
}

#[test]
fn nesting_beyond_the_limit_is_an_error() {
    assert_eq!(parser(nested_parentheses(101)), Err(Errors::NestingTooDeep));
    assert_eq!(parser(nested_parentheses(5000)), Err(Errors::NestingTooDeep));
}

#[test]
fn long_chain_of_prefix_operators_is_an_error() {
    let mut tokens = vec![Token::T_INT, id("x"), Token::T_ASSIGNMENT_OPR];
    for _ in 0..101 {
        tokens.push(Token::T_MINUS_OPR);
    }
    tokens.push(Token::T_CONST_INT(1));
    tokens.push(Token::T_SEMICOLON);
    assert_eq!(parser(tokens), Err(Errors::NestingTooDeep));
}

#[test]
fn parse_function_call_reads_one_call() {
    // f(1) + 2: the call ends at `)`, and `+` is the next token.
    let mut tokens = TokenIterator::new(vec![
        id("f"),
        Token::T_ROUND_BRACKET_OPEN,
        Token::T_CONST_INT(1),
        Token::T_ROUND_BRACKET_CLOSE,
        Token::T_PLUS_OPR,
        Token::T_CONST_INT(2),
    ]);
    assert_eq!(
        parse_function_call(&mut tokens),
        Ok(function_call { identifier: "f".to_string(), args: vec![integer(1)] })
    );
    assert_eq!(tokens.peek_curr(), Some(&Token::T_PLUS_OPR));
}

#[test]
fn parse_function_call_reads_many_arguments() {
    let mut tokens = TokenIterator::new(vec![
        id("f"),
        Token::T_ROUND_BRACKET_OPEN,
        id("a"),
        Token::T_COMMA,
        Token::T_CONST_INT(2),
        Token::T_ROUND_BRACKET_CLOSE,
        Token::T_SEMICOLON,
    ]);
    assert_eq!(
        parse_function_call(&mut tokens),
        Ok(function_call { identifier: "f".to_string(), args: vec![name("a"), integer(2)] })
    );
    assert_eq!(tokens.peek_curr(), Some(&Token::T_SEMICOLON));
}

#[test]
fn parse_function_call_needs_its_closing_bracket() {
    let mut tokens = TokenIterator::new(vec![
        id("f"),
        Token::T_ROUND_BRACKET_OPEN,
        id("a"),
        Token::T_SEMICOLON,
    ]);
    assert_eq!(
        parse_function_call(&mut tokens),
        Err(Errors::UnexpectedToken(Token::T_SEMICOLON))
    );
}

#[test]
fn parse_function_call_needs_a_name() {
    let mut tokens = TokenIterator::new(vec![Token::T_CONST_INT(1)]);
    assert_eq!(
        parse_function_call(&mut tokens),
        Err(Errors::ExpectedIdentifier(Token::T_CONST_INT(1)))
    );
    assert!(tokens.is_at_end());
}

#[test]
fn parse_function_call_arguments_stops_before_the_bracket() {
    let mut tokens = TokenIterator::new(vec![Token::T_ROUND_BRACKET_CLOSE]);
    assert_eq!(parse_function_call_arguments(&mut tokens), Ok(vec![]));
    assert_eq!(tokens.peek_curr(), Some(&Token::T_ROUND_BRACKET_CLOSE));

    let mut tokens = TokenIterator::new(vec![
        id("a"),
        Token::T_COMMA,
        id("b"),
        Token::T_ROUND_BRACKET_CLOSE,
    ]);
    assert_eq!(parse_function_call_arguments(&mut tokens), Ok(vec![name("a"), name("b")]));
    assert_eq!(tokens.peek_curr(), Some(&Token::T_ROUND_BRACKET_CLOSE));
}

#[test]
fn trailing_comma_in_arguments_is_an_error() {
    let mut tokens = TokenIterator::new(vec![
        id("a"),
        Token::T_COMMA,
        Token::T_ROUND_BRACKET_CLOSE,
    ]);
    assert_eq!(
        parse_function_call_arguments(&mut tokens),
        Err(Errors::UnexpectedToken(Token::T_ROUND_BRACKET_CLOSE))
    );
}

#[test]
fn token_iterator_peeks_and_consumes() {
    let mut tokens = TokenIterator::new(vec![Token::T_IF, id("x")]);
    assert!(!tokens.is_at_end());
    assert_eq!(tokens.peek_curr(), Some(&Token::T_IF));
    assert_eq!(tokens.peek_next(), Some(&id("x")));
    assert_eq!(tokens.consume(), Ok(&Token::T_IF));
    assert_eq!(tokens.peek_curr(), Some(&id("x")));
    assert_eq!(tokens.peek_next(), None);
    assert_eq!(tokens.consume(), Ok(&id("x")));
    assert!(tokens.is_at_end());
    assert_eq!(tokens.peek_curr(), None);
    assert_eq!(tokens.consume(), Err(Errors::UnexpectedEOF));
}

#[test]
fn token_iterator_seek_if_moves_only_on_a_match() {
    let mut tokens = TokenIterator::new(vec![id("x"), Token::T_SEMICOLON]);
    assert_eq!(tokens.seek_if(Token::T_SEMICOLON), Err(Errors::UnexpectedToken(id("x"))));
    assert_eq!(tokens.peek_curr(), Some(&id("x")));
    assert_eq!(tokens.seek_if(id("y")), Err(Errors::UnexpectedToken(id("x"))));
    assert_eq!(tokens.seek_if(id("x")), Ok(()));
    assert_eq!(tokens.seek_if(Token::T_SEMICOLON), Ok(()));
    assert_eq!(tokens.seek_if(Token::T_SEMICOLON), Err(Errors::UnexpectedEOF));
}

#[test]
fn tokens_compare_by_kind_and_payload() {
    assert_eq!(id("a"), id("a"));
    assert_ne!(id("a"), id("b"));
    assert_ne!(id("a"), Token::T_STRINGLIT("a".to_string()));
    assert_eq!(Token::T_CONST_INT(3), Token::T_CONST_INT(3));
    assert_ne!(Token::T_CONST_INT(3), Token::T_CONST_INT(4));
    assert_eq!(Token::T_CONST_FLOAT("1.5".to_string()), Token::T_CONST_FLOAT(1.5f64.to_string()));
    assert_ne!(Token::T_PLUS_OPR, Token::T_MINUS_OPR);
    assert_eq!(id("a").clone(), id("a"));
    assert!(Token::T_STRING.is_type_keyword());
    assert!(!Token::T_IF.is_type_keyword());
}
