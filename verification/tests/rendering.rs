use monkey_ast::ast::{Arguments, Ast, Block, Expression, Indentifier, Operator, Parameters, Statement};
use monkey_ast::decimal::{i64_to_decimal, u64_to_decimal};

fn ident(name: &str) -> Indentifier {
    Indentifier::from(name.to_string())
}

fn ident_expr(name: &str) -> Expression {
    Expression::Ident(ident(name))
}

#[test]
fn let_statement_renders_canonically() {
    let s = Statement::Let { name: ident("x"), value: Expression::IntLiteral(5) };
    assert_eq!(s.render(), "let x = 5;");
}

#[test]
fn infix_renders_with_parentheses() {
    let e = Expression::Infix {
        left: Box::new(Expression::IntLiteral(1)),
        operator: Operator::Plus,
        right: Box::new(Expression::IntLiteral(2)),
    };
    assert_eq!(e.render(), "(1 + 2)");
}

#[test]
fn prefix_renders_with_parentheses() {
    let e = Expression::Prefix {
        operator: Operator::Bang,
        right: Box::new(Expression::BooleanLiteral(true)),
    };
    assert_eq!(e.render(), "(!true)");
}

#[test]
fn if_else_renders_both_branches() {
    let e = Expression::If {
        condition: Box::new(ident_expr("x")),
        consequence: Block(vec![Statement::Return(Expression::IntLiteral(1))]),
        alternative: Some(Block(vec![Statement::Return(Expression::IntLiteral(2))])),
    };
    assert_eq!(e.render(), "if x return 1; else return 2;");
}

#[test]
fn if_without_alternative_renders_no_else() {
    let e = Expression::If {
        condition: Box::new(ident_expr("x")),
        consequence: Block(vec![Statement::Return(Expression::IntLiteral(1))]),
        alternative: None,
    };
    assert_eq!(e.render(), "if x return 1;");
}

#[test]
fn call_renders_function_and_arguments() {
    let e = Expression::Call {
        function: Box::new(ident_expr("add")),
        arguments: Arguments(vec![Expression::IntLiteral(1), Expression::IntLiteral(2)]),
    };
    assert_eq!(e.render(), "add(1, 2)");
}

#[test]
fn func_literal_renders_parameters_and_body() {
    let e = Expression::FuncLiteral {
        parameters: Parameters(vec![ident_expr("x"), ident_expr("y")]),
        body: Block(vec![Statement::Expression(Expression::Infix {
            left: Box::new(ident_expr("x")),
            operator: Operator::Plus,
            right: Box::new(ident_expr("y")),
        })]),
    };
    assert_eq!(e.render(), "fn(x, y) { (x + y) }");
}

#[test]
fn operators_render_as_their_glyphs() {
    assert_eq!(Operator::Bang.render(), "!");
    assert_eq!(Operator::Plus.render(), "+");
    assert_eq!(Operator::Minus.render(), "-");
    assert_eq!(Operator::Multiplication.render(), "*");
    assert_eq!(Operator::Division.render(), "/");
    assert_eq!(Operator::GreaterThan.render(), ">");
    assert_eq!(Operator::LessThan.render(), "<");
    assert_eq!(Operator::Equals.render(), "==");
    assert_eq!(Operator::NotEquals.render(), "!=");
}

#[test]
fn identifier_renders_its_raw_text() {
    assert_eq!(ident("foobar").render(), "foobar");
    assert_eq!(ident("").render(), "");
}

#[test]
fn integer_literals_render_in_decimal() {
    assert_eq!(Expression::IntLiteral(0).render(), "0");
    assert_eq!(Expression::IntLiteral(42).render(), "42");
    assert_eq!(Expression::IntLiteral(-7).render(), "-7");
    assert_eq!(Expression::IntLiteral(i64::MAX).render(), "9223372036854775807");
    assert_eq!(Expression::IntLiteral(i64::MIN).render(), "-9223372036854775808");
}

#[test]
fn boolean_literals_render_as_keywords() {
    assert_eq!(Expression::BooleanLiteral(true).render(), "true");
    assert_eq!(Expression::BooleanLiteral(false).render(), "false");
}

#[test]
fn block_joins_statements_with_separator() {
    let b = Block(vec![
        Statement::Let { name: ident("x"), value: Expression::IntLiteral(5) },
        Statement::Return(Expression::IntLiteral(1)),
    ]);
    assert_eq!(b.render(), "let x = 5;; return 1;");
}

#[test]
fn empty_sequences_render_empty() {
    assert_eq!(Block(vec![]).render(), "");
    assert_eq!(Parameters(vec![]).render(), "");
    assert_eq!(Arguments(vec![]).render(), "");
}

#[test]
fn func_literal_with_no_parameters_or_body() {
    let e = Expression::FuncLiteral {
        parameters: Parameters(vec![]),
        body: Block(vec![]),
    };
    assert_eq!(e.render(), "fn() {  }");
}

#[test]
fn nested_expressions_parenthesize_each_level() {
    // (1 + (2 * 3)) and ((!true) == false)
    let sum = Expression::Infix {
        left: Box::new(Expression::IntLiteral(1)),
        operator: Operator::Plus,
        right: Box::new(Expression::Infix {
            left: Box::new(Expression::IntLiteral(2)),
            operator: Operator::Multiplication,
            right: Box::new(Expression::IntLiteral(3)),
        }),
    };
    assert_eq!(sum.render(), "(1 + (2 * 3))");
    let cmp = Expression::Infix {
        left: Box::new(Expression::Prefix {
            operator: Operator::Bang,
            right: Box::new(Expression::BooleanLiteral(true)),
        }),
        operator: Operator::Equals,
        right: Box::new(Expression::BooleanLiteral(false)),
    };
    assert_eq!(cmp.render(), "((!true) == false)");
}

#[test]
fn call_of_call_renders_inside_out() {
    let e = Expression::Call {
        function: Box::new(Expression::Call {
            function: Box::new(ident_expr("make")),
            arguments: Arguments(vec![]),
        }),
        arguments: Arguments(vec![ident_expr("x")]),
    };
    assert_eq!(e.render(), "make()(x)");
}

#[test]
fn decimal_rendering_of_plain_integers() {
    assert_eq!(u64_to_decimal(0), "0");
    assert_eq!(u64_to_decimal(10), "10");
    assert_eq!(u64_to_decimal(90210), "90210");
    assert_eq!(u64_to_decimal(u64::MAX), "18446744073709551615");
    assert_eq!(i64_to_decimal(-1), "-1");
    assert_eq!(i64_to_decimal(100), "100");
}

#[test]
fn rendering_is_deterministic() {
    let e = Expression::Infix {
        left: Box::new(ident_expr("a")),
        operator: Operator::NotEquals,
        right: Box::new(Expression::IntLiteral(-3)),
    };
    assert_eq!(e.render(), e.render());
    let s = Statement::Return(Expression::BooleanLiteral(false));
    assert_eq!(s.render(), s.render());
}

#[test]
fn ast_from_preserves_statements_order_and_length() {
    let stmts = || {
        vec![
            Statement::Let { name: ident("x"), value: Expression::IntLiteral(5) },
            Statement::Expression(ident_expr("x")),
            Statement::Return(Expression::IntLiteral(2)),
        ]
    };
    let ast = Ast::from(stmts());
    let held = ast.statements();
    let expected = stmts();
    assert_eq!(held.len(), expected.len());
    for (got, want) in held.iter().zip(expected.iter()) {
        assert!(got == want);
    }
}
