use toy_compiler::parser::enums::{binary_operator, Expr, Literal, root};
use toy_compiler::parser::errors::Errors;
use toy_compiler::parser::parser::parser;
use toy_compiler::tokens::Token;

fn ident(name: &str) -> Token {
    Token::T_IDENTIFIER(name.to_string())
}

fn name(text: &str) -> Box<Expr> {
    Box::new(Expr::Identifier(text.to_string()))
}

/// `int x = <tokens>;` parsed, and the initializer handed back.
fn initializer(tokens: Vec<Token>) -> Result<Expr, Errors> {
    let mut all = vec![Token::T_INT, ident("x"), Token::T_ASSIGNMENT_OPR];
    all.extend(tokens);
    all.push(Token::T_SEMICOLON);
    let mut program = parser(all)?;
    assert_eq!(program.len(), 1);
    match program.remove(0) {
        root::Var(declaration) => Ok(declaration.expression),
        root::Func(_) => panic!("a variable was declared"),
    }
}

#[test]
fn multiplication_binds_tighter_than_addition() {
    let parsed = initializer(vec![
        ident("a"),
        Token::T_PLUS_OPR,
        ident("b"),
        Token::T_MULTIPLY_OPR,
        ident("c"),
    ]);
    let expected = Expr::BinaryOperation {
        left: name("a"),
        operator: binary_operator::Plus,
        right: Box::new(Expr::BinaryOperation {
            left: name("b"),
            operator: binary_operator::Multiply,
            right: name("c"),
        }),
    };
    assert_eq!(parsed, Ok(expected));
}

#[test]
fn assignment_groups_to_the_right() {
    let parsed = initializer(vec![
        ident("a"),
        Token::T_ASSIGNMENT_OPR,
        ident("b"),
        Token::T_ASSIGNMENT_OPR,
        Token::T_CONST_INT(3),
    ]);
    let expected = Expr::Assignment {
        left: name("a"),
        right: Box::new(Expr::Assignment {
            left: name("b"),
            right: Box::new(Expr::Literal(Literal::Int(3))),
        }),
    };
    assert_eq!(parsed, Ok(expected));
}

#[test]
fn exponentiation_groups_to_the_left() {
    let parsed = initializer(vec![
        ident("a"),
        Token::T_EXPONENT_OPR,
        ident("b"),
        Token::T_EXPONENT_OPR,
        ident("c"),
    ]);
    let expected = Expr::BinaryOperation {
        left: Box::new(Expr::BinaryOperation {
            left: name("a"),
            operator: binary_operator::Exponent,
            right: name("b"),
        }),
        operator: binary_operator::Exponent,
        right: name("c"),
    };
    assert_eq!(parsed, Ok(expected));
}
