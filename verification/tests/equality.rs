use monkey_ast::ast::{Arguments, Block, Expression, Indentifier, Operator, Parameters, Statement};

fn ident_expr(name: &str) -> Expression {
    Expression::Ident(Indentifier::from(name.to_string()))
}

fn sum(l: Expression, r: Expression) -> Expression {
    Expression::Infix { left: Box::new(l), operator: Operator::Plus, right: Box::new(r) }
}

#[test]
fn independently_built_equal_trees_compare_equal() {
    let a = Statement::Let { name: Indentifier::from("x".to_string()), value: sum(Expression::IntLiteral(1), ident_expr("y")) };
    let b = Statement::Let { name: Indentifier::from("x".to_string()), value: sum(Expression::IntLiteral(1), ident_expr("y")) };
    assert_eq!(a, b);
    assert_eq!(b, a);
}

#[test]
fn equality_is_reflexive_on_a_deep_tree() {
    let e = Expression::If {
        condition: Box::new(sum(ident_expr("a"), Expression::IntLiteral(2))),
        consequence: Block(vec![Statement::Return(Expression::BooleanLiteral(true))]),
        alternative: Some(Block(vec![Statement::Expression(Expression::Call {
            function: Box::new(ident_expr("f")),
            arguments: Arguments(vec![ident_expr("a")]),
        })])),
    };
    assert!(e == e);
}

#[test]
fn differing_operator_compares_unequal() {
    let a = sum(Expression::IntLiteral(1), Expression::IntLiteral(2));
    let b = Expression::Infix {
        left: Box::new(Expression::IntLiteral(1)),
        operator: Operator::Minus,
        right: Box::new(Expression::IntLiteral(2)),
    };
    assert_ne!(a, b);
}

#[test]
fn differing_operand_order_compares_unequal() {
    let a = sum(Expression::IntLiteral(1), Expression::IntLiteral(2));
    let b = sum(Expression::IntLiteral(2), Expression::IntLiteral(1));
    assert_ne!(a, b);
}

#[test]
fn differing_variant_compares_unequal() {
    let a = Statement::Return(Expression::IntLiteral(1));
    let b = Statement::Expression(Expression::IntLiteral(1));
    assert_ne!(a, b);
    assert_ne!(ident_expr("x"), Expression::IntLiteral(1));
}

#[test]
fn differing_name_compares_unequal() {
    assert_ne!(ident_expr("x"), ident_expr("y"));
    assert_ne!(
        Indentifier::from("x".to_string()),
        Indentifier::from("xx".to_string())
    );
}

#[test]
fn missing_else_branch_compares_unequal() {
    let with_else = Expression::If {
        condition: Box::new(ident_expr("c")),
        consequence: Block(vec![]),
        alternative: Some(Block(vec![])),
    };
    let without_else = Expression::If {
        condition: Box::new(ident_expr("c")),
        consequence: Block(vec![]),
        alternative: None,
    };
    assert_ne!(with_else, without_else);
}

#[test]
fn sequences_compare_by_length_and_order() {
    let a = Block(vec![Statement::Return(Expression::IntLiteral(1))]);
    let b = Block(vec![
        Statement::Return(Expression::IntLiteral(1)),
        Statement::Return(Expression::IntLiteral(1)),
    ]);
    assert_ne!(a, b);
    let p = Parameters(vec![ident_expr("x"), ident_expr("y")]);
    let q = Parameters(vec![ident_expr("y"), ident_expr("x")]);
    assert_ne!(p, q);
    let r = Arguments(vec![ident_expr("x")]);
    let s = Arguments(vec![ident_expr("x")]);
    assert_eq!(r, s);
}
