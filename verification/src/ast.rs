//! The abstract syntax tree: a program is an ordered sequence of statements,
//! statements and expressions are closed sum types, and every node can be
//! rendered back to a canonical, precedence-unambiguous string.

use vstd::prelude::*;
use crate::decimal::int_dec_str;
use crate::decimal::i64_to_decimal;

verus! {

/// A whole program: an ordered sequence of statements.
///
/// The view of an `Ast` is the sequence of statements it holds.
pub struct Ast(Vec<Statement>);

/// A single statement.
#[derive(Debug)]
pub enum Statement {
    Let { name: Indentifier, value: Expression },
    Return(Expression),
    Expression(Expression),
}

/// An ordered sequence of statements forming the body of an `if` branch or
/// of a function literal.
#[derive(Debug)]
pub struct Block(pub Vec<Statement>);

/// A single expression; recursive children are exclusively owned.
#[derive(Debug)]
pub enum Expression {
    Ident(Indentifier),
    IntLiteral(i64),
    BooleanLiteral(bool),
    Prefix { operator: Operator, right: Box<Expression> },
    Infix { left: Box<Expression>, operator: Operator, right: Box<Expression> },
    If { condition: Box<Expression>, consequence: Block, alternative: Option<Block> },
    FuncLiteral { parameters: Parameters, body: Block },
    Call { function: Box<Expression>, arguments: Arguments },
}

/// A name; its view is the name's text.
#[derive(Debug)]
pub struct Indentifier(String);

/// The parameter list of a function literal.
#[derive(Debug)]
pub struct Parameters(pub Vec<Expression>);

/// The argument list of a call.
#[derive(Debug)]
pub struct Arguments(pub Vec<Expression>);

/// A purely symbolic unary or binary operator.
#[derive(Debug, PartialEq, Eq, Structural)]
pub enum Operator {
    Bang,
    Plus,
    Minus,
    Multiplication,
    Division,
    GreaterThan,
    LessThan,
    Equals,
    NotEquals,
}

impl View for Indentifier {
    type V = Seq<char>;

    closed spec fn view(&self) -> Seq<char> {
        self.0@
    }
}

impl View for Ast {
    type V = Seq<Statement>;

    closed spec fn view(&self) -> Seq<Statement> {
        self.0@
    }
}

impl From<String> for Indentifier {
    /// Wraps a name; the identifier's view is exactly the given text.
    fn from(value: String) -> (r: Indentifier)
        ensures
            r@ == value@,
    {
        Indentifier(value)
    }
}

impl vstd::std_specs::convert::FromSpecImpl<String> for Indentifier {
    open spec fn obeys_from_spec() -> bool {
        true
    }

    closed spec fn from_spec(v: String) -> Indentifier {
        Indentifier(v)
    }
}

impl From<Vec<Statement>> for Ast {
    /// Wraps a statement sequence; the tree's view is exactly the given
    /// sequence, order and length preserved.
    fn from(value: Vec<Statement>) -> (r: Ast)
        ensures
            r@ == value@,
    {
        Ast(value)
    }
}

impl vstd::std_specs::convert::FromSpecImpl<Vec<Statement>> for Ast {
    open spec fn obeys_from_spec() -> bool {
        true
    }

    closed spec fn from_spec(v: Vec<Statement>) -> Ast {
        Ast(v)
    }
}

impl Ast {
    /// Read-only access to the underlying statement sequence.
    pub fn statements(&self) -> (r: &Vec<Statement>)
        ensures
            r@ == self@,
    {
        &self.0
    }
}

/// The source glyph of an operator.
pub open spec fn operator_str(op: Operator) -> Seq<char> {
    match op {
        Operator::Bang => "!"@,
        Operator::Plus => "+"@,
        Operator::Minus => "-"@,
        Operator::Multiplication => "*"@,
        Operator::Division => "/"@,
        Operator::GreaterThan => ">"@,
        Operator::LessThan => "<"@,
        Operator::Equals => "=="@,
        Operator::NotEquals => "!="@,
    }
}

/// Canonical rendering of an expression.  Every prefix and infix node wraps
/// itself in its own parenthesis pair, unconditionally, so the rendered form
/// reflects the tree shape regardless of operator precedence.
pub open spec fn expr_str(e: Expression) -> Seq<char>
    decreases e,
{
    match e {
        Expression::Ident(i) => i@,
        Expression::IntLiteral(n) => int_dec_str(n as int),
        Expression::BooleanLiteral(b) => if b {
            "true"@
        } else {
            "false"@
        },
        Expression::Prefix { operator, right } => "("@ + operator_str(operator) + expr_str(*right)
            + ")"@,
        Expression::Infix { left, operator, right } => "("@ + expr_str(*left) + " "@
            + operator_str(operator) + " "@ + expr_str(*right) + ")"@,
        Expression::If { condition, consequence, alternative } => match alternative {
            Some(alt) => "if "@ + expr_str(*condition) + " "@ + stmt_seq_str(consequence.0@)
                + " else "@ + stmt_seq_str(alt.0@),
            None => "if "@ + expr_str(*condition) + " "@ + stmt_seq_str(consequence.0@),
        },
        Expression::FuncLiteral { parameters, body } => "fn("@ + expr_seq_str(parameters.0@)
            + ") { "@ + stmt_seq_str(body.0@) + " }"@,
        Expression::Call { function, arguments } => expr_str(*function) + "("@ + expr_seq_str(
            arguments.0@,
        ) + ")"@,
    }
}

/// Canonical rendering of a statement: `let` and `return` end with a
/// semicolon, a bare expression statement is the expression itself.
pub open spec fn stmt_str(s: Statement) -> Seq<char>
    decreases s,
{
    match s {
        Statement::Let { name, value } => "let "@ + name@ + " = "@ + expr_str(value) + ";"@,
        Statement::Return(e) => "return "@ + expr_str(e) + ";"@,
        Statement::Expression(e) => expr_str(e),
    }
}

/// Statements rendered individually and joined with `"; "`, with no
/// separator after the last.
pub open spec fn stmt_seq_str(ss: Seq<Statement>) -> Seq<char>
    decreases ss,
{
    if ss.len() == 0 {
        Seq::empty()
    } else if ss.len() == 1 {
        stmt_str(ss[0])
    } else {
        stmt_str(ss[0]) + "; "@ + stmt_seq_str(ss.subrange(1, ss.len() as int))
    }
}

/// Expressions rendered individually and joined with `", "`, with no
/// separator after the last.
pub open spec fn expr_seq_str(es: Seq<Expression>) -> Seq<char>
    decreases es,
{
    if es.len() == 0 {
        Seq::empty()
    } else if es.len() == 1 {
        expr_str(es[0])
    } else {
        expr_str(es[0]) + ", "@ + expr_seq_str(es.subrange(1, es.len() as int))
    }
}

/// Canonical rendering of a block.
pub open spec fn block_str(b: Block) -> Seq<char> {
    stmt_seq_str(b.0@)
}

/// Canonical rendering of a parameter list.
pub open spec fn params_str(p: Parameters) -> Seq<char> {
    expr_seq_str(p.0@)
}

/// Canonical rendering of an argument list.
pub open spec fn args_str(a: Arguments) -> Seq<char> {
    expr_seq_str(a.0@)
}

/// Structural equality of identifiers: same name text.
pub open spec fn ident_eq(a: Indentifier, b: Indentifier) -> bool {
    a@ == b@
}

/// Structural, deep, order-sensitive equality of expressions: same variant,
/// equal literals and operators, and structurally equal children.
pub open spec fn expr_eq(a: Expression, b: Expression) -> bool
    decreases a,
{
    match (a, b) {
        (Expression::Ident(x), Expression::Ident(y)) => ident_eq(x, y),
        (Expression::IntLiteral(x), Expression::IntLiteral(y)) => x == y,
        (Expression::BooleanLiteral(x), Expression::BooleanLiteral(y)) => x == y,
        (
            Expression::Prefix { operator: o1, right: r1 },
            Expression::Prefix { operator: o2, right: r2 },
        ) => o1 == o2 && expr_eq(*r1, *r2),
        (
            Expression::Infix { left: l1, operator: o1, right: r1 },
            Expression::Infix { left: l2, operator: o2, right: r2 },
        ) => o1 == o2 && expr_eq(*l1, *l2) && expr_eq(*r1, *r2),
        (
            Expression::If { condition: c1, consequence: k1, alternative: a1 },
            Expression::If { condition: c2, consequence: k2, alternative: a2 },
        ) => expr_eq(*c1, *c2) && stmt_seq_eq(k1.0@, k2.0@) && match (a1, a2) {
            (Some(x), Some(y)) => stmt_seq_eq(x.0@, y.0@),
            (None, None) => true,
            _ => false,
        },
        (
            Expression::FuncLiteral { parameters: p1, body: b1 },
            Expression::FuncLiteral { parameters: p2, body: b2 },
        ) => expr_seq_eq(p1.0@, p2.0@) && stmt_seq_eq(b1.0@, b2.0@),
        (
            Expression::Call { function: f1, arguments: a1 },
            Expression::Call { function: f2, arguments: a2 },
        ) => expr_eq(*f1, *f2) && expr_seq_eq(a1.0@, a2.0@),
        _ => false,
    }
}

/// Structural equality of statements.
pub open spec fn stmt_eq(a: Statement, b: Statement) -> bool
    decreases a,
{
    match (a, b) {
        (
            Statement::Let { name: n1, value: v1 },
            Statement::Let { name: n2, value: v2 },
        ) => ident_eq(n1, n2) && expr_eq(v1, v2),
        (Statement::Return(x), Statement::Return(y)) => expr_eq(x, y),
        (Statement::Expression(x), Statement::Expression(y)) => expr_eq(x, y),
        _ => false,
    }
}

/// Elementwise structural equality of statement sequences: same length and
/// equal statements in the same order.
pub open spec fn stmt_seq_eq(x: Seq<Statement>, y: Seq<Statement>) -> bool
    decreases x,
{
    if x.len() != y.len() {
        false
    } else if x.len() == 0 {
        true
    } else {
        stmt_eq(x[0], y[0]) && stmt_seq_eq(
            x.subrange(1, x.len() as int),
            y.subrange(1, y.len() as int),
        )
    }
}

/// Elementwise structural equality of expression sequences.
pub open spec fn expr_seq_eq(x: Seq<Expression>, y: Seq<Expression>) -> bool
    decreases x,
{
    if x.len() != y.len() {
        false
    } else if x.len() == 0 {
        true
    } else {
        expr_eq(x[0], y[0]) && expr_seq_eq(
            x.subrange(1, x.len() as int),
            y.subrange(1, y.len() as int),
        )
    }
}

/// Structural equality of blocks.
pub open spec fn block_eq(a: Block, b: Block) -> bool {
    stmt_seq_eq(a.0@, b.0@)
}

fn stmt_vec_eq_from(x: &Vec<Statement>, y: &Vec<Statement>, i: usize) -> (r: bool)
    requires
        i <= x.len(),
        x.len() == y.len(),
    ensures
        r == stmt_seq_eq(
            x@.subrange(i as int, x@.len() as int),
            y@.subrange(i as int, y@.len() as int),
        ),
    decreases x@, x.len() - i,
{
    let ghost xs = x@.subrange(i as int, x@.len() as int);
    let ghost ys = y@.subrange(i as int, y@.len() as int);
    if i == x.len() {
        true
    } else {
        let hd = stmt_eq_exec(&x[i], &y[i]);
        if !hd {
            false
        } else {
            proof {
                assert(xs.subrange(1, xs.len() as int) =~= x@.subrange(
                    i + 1 as int,
                    x@.len() as int,
                ));
                assert(ys.subrange(1, ys.len() as int) =~= y@.subrange(
                    i + 1 as int,
                    y@.len() as int,
                ));
            }
            stmt_vec_eq_from(x, y, i + 1)
        }
    }
}

fn expr_vec_eq_from(x: &Vec<Expression>, y: &Vec<Expression>, i: usize) -> (r: bool)
    requires
        i <= x.len(),
        x.len() == y.len(),
    ensures
        r == expr_seq_eq(
            x@.subrange(i as int, x@.len() as int),
            y@.subrange(i as int, y@.len() as int),
        ),
    decreases x@, x.len() - i,
{
    let ghost xs = x@.subrange(i as int, x@.len() as int);
    let ghost ys = y@.subrange(i as int, y@.len() as int);
    if i == x.len() {
        true
    } else {
        let hd = expr_eq_exec(&x[i], &y[i]);
        if !hd {
            false
        } else {
            proof {
                assert(xs.subrange(1, xs.len() as int) =~= x@.subrange(
                    i + 1 as int,
                    x@.len() as int,
                ));
                assert(ys.subrange(1, ys.len() as int) =~= y@.subrange(
                    i + 1 as int,
                    y@.len() as int,
                ));
            }
            expr_vec_eq_from(x, y, i + 1)
        }
    }
}

fn stmt_vec_eq(x: &Vec<Statement>, y: &Vec<Statement>) -> (r: bool)
    ensures
        r == stmt_seq_eq(x@, y@),
    decreases x@, x.len() + 1,
{
    if x.len() != y.len() {
        false
    } else {
        let r = stmt_vec_eq_from(x, y, 0);
        proof {
            assert(x@.subrange(0, x@.len() as int) =~= x@);
            assert(y@.subrange(0, y@.len() as int) =~= y@);
        }
        r
    }
}

fn expr_vec_eq(x: &Vec<Expression>, y: &Vec<Expression>) -> (r: bool)
    ensures
        r == expr_seq_eq(x@, y@),
    decreases x@, x.len() + 1,
{
    if x.len() != y.len() {
        false
    } else {
        let r = expr_vec_eq_from(x, y, 0);
        proof {
            assert(x@.subrange(0, x@.len() as int) =~= x@);
            assert(y@.subrange(0, y@.len() as int) =~= y@);
        }
        r
    }
}

fn stmt_eq_exec(a: &Statement, b: &Statement) -> (r: bool)
    ensures
        r == stmt_eq(*a, *b),
    decreases *a, 0int,
{
    match (a, b) {
        (
            Statement::Let { name: n1, value: v1 },
            Statement::Let { name: n2, value: v2 },
        ) => n1.eq(n2) && expr_eq_exec(v1, v2),
        (Statement::Return(x), Statement::Return(y)) => expr_eq_exec(x, y),
        (Statement::Expression(x), Statement::Expression(y)) => expr_eq_exec(x, y),
        _ => false,
    }
}

fn expr_eq_exec(a: &Expression, b: &Expression) -> (r: bool)
    ensures
        r == expr_eq(*a, *b),
    decreases *a, 0int,
{
    match (a, b) {
        (Expression::Ident(x), Expression::Ident(y)) => x.eq(y),
        (Expression::IntLiteral(x), Expression::IntLiteral(y)) => *x == *y,
        (Expression::BooleanLiteral(x), Expression::BooleanLiteral(y)) => *x == *y,
        (
            Expression::Prefix { operator: o1, right: r1 },
            Expression::Prefix { operator: o2, right: r2 },
        ) => *o1 == *o2 && expr_eq_exec(r1, r2),
        (
            Expression::Infix { left: l1, operator: o1, right: r1 },
            Expression::Infix { left: l2, operator: o2, right: r2 },
        ) => *o1 == *o2 && expr_eq_exec(l1, l2) && expr_eq_exec(r1, r2),
        (
            Expression::If { condition: c1, consequence: k1, alternative: a1 },
            Expression::If { condition: c2, consequence: k2, alternative: a2 },
        ) => expr_eq_exec(c1, c2) && stmt_vec_eq(&k1.0, &k2.0) && match (a1, a2) {
            (Some(x), Some(y)) => stmt_vec_eq(&x.0, &y.0),
            (None, None) => true,
            _ => false,
        },
        (
            Expression::FuncLiteral { parameters: p1, body: b1 },
            Expression::FuncLiteral { parameters: p2, body: b2 },
        ) => expr_vec_eq(&p1.0, &p2.0) && stmt_vec_eq(&b1.0, &b2.0),
        (
            Expression::Call { function: f1, arguments: a1 },
            Expression::Call { function: f2, arguments: a2 },
        ) => expr_eq_exec(f1, f2) && expr_vec_eq(&a1.0, &a2.0),
        _ => false,
    }
}

impl PartialEq for Indentifier {
    fn eq(&self, other: &Indentifier) -> (r: bool) {
        self.0.eq(&other.0)
    }
}

impl vstd::std_specs::cmp::PartialEqSpecImpl for Indentifier {
    open spec fn obeys_eq_spec() -> bool {
        true
    }

    open spec fn eq_spec(&self, other: &Indentifier) -> bool {
        ident_eq(*self, *other)
    }
}

impl PartialEq for Statement {
    fn eq(&self, other: &Statement) -> (r: bool) {
        stmt_eq_exec(self, other)
    }
}

impl vstd::std_specs::cmp::PartialEqSpecImpl for Statement {
    open spec fn obeys_eq_spec() -> bool {
        true
    }

    open spec fn eq_spec(&self, other: &Statement) -> bool {
        stmt_eq(*self, *other)
    }
}

impl PartialEq for Expression {
    fn eq(&self, other: &Expression) -> (r: bool) {
        expr_eq_exec(self, other)
    }
}

impl vstd::std_specs::cmp::PartialEqSpecImpl for Expression {
    open spec fn obeys_eq_spec() -> bool {
        true
    }

    open spec fn eq_spec(&self, other: &Expression) -> bool {
        expr_eq(*self, *other)
    }
}

impl PartialEq for Block {
    fn eq(&self, other: &Block) -> (r: bool) {
        stmt_vec_eq(&self.0, &other.0)
    }
}

impl vstd::std_specs::cmp::PartialEqSpecImpl for Block {
    open spec fn obeys_eq_spec() -> bool {
        true
    }

    open spec fn eq_spec(&self, other: &Block) -> bool {
        block_eq(*self, *other)
    }
}

impl PartialEq for Parameters {
    fn eq(&self, other: &Parameters) -> (r: bool) {
        expr_vec_eq(&self.0, &other.0)
    }
}

impl vstd::std_specs::cmp::PartialEqSpecImpl for Parameters {
    open spec fn obeys_eq_spec() -> bool {
        true
    }

    open spec fn eq_spec(&self, other: &Parameters) -> bool {
        expr_seq_eq(self.0@, other.0@)
    }
}

impl PartialEq for Arguments {
    fn eq(&self, other: &Arguments) -> (r: bool) {
        expr_vec_eq(&self.0, &other.0)
    }
}

impl vstd::std_specs::cmp::PartialEqSpecImpl for Arguments {
    open spec fn obeys_eq_spec() -> bool {
        true
    }

    open spec fn eq_spec(&self, other: &Arguments) -> bool {
        expr_seq_eq(self.0@, other.0@)
    }
}

proof fn lemma_stmt_seq_str_push(ss: Seq<Statement>, s: Statement)
    ensures
        ss.len() == 0 ==> stmt_seq_str(ss.push(s)) == stmt_str(s),
        ss.len() > 0 ==> stmt_seq_str(ss.push(s)) == stmt_seq_str(ss) + "; "@ + stmt_str(s),
    decreases ss.len(),
{
    let t = ss.push(s);
    if ss.len() == 0 {
        assert(t[0] == s);
        assert(stmt_seq_str(t) == stmt_str(s));
    } else if ss.len() == 1 {
        assert(t[0] == ss[0]);
        assert(t.subrange(1, 2).len() == 1);
        assert(t.subrange(1, 2)[0] == s);
        assert(stmt_seq_str(t.subrange(1, 2)) == stmt_str(s));
        assert(stmt_seq_str(ss) == stmt_str(ss[0]));
        assert(stmt_seq_str(t) == stmt_seq_str(ss) + "; "@ + stmt_str(s));
    } else {
        assert(t.subrange(1, t.len() as int) =~= ss.subrange(1, ss.len() as int).push(s));
        lemma_stmt_seq_str_push(ss.subrange(1, ss.len() as int), s);
        assert(t[0] == ss[0]);
        assert(stmt_seq_str(t) =~= stmt_seq_str(ss) + "; "@ + stmt_str(s));
    }
}

proof fn lemma_expr_seq_str_push(es: Seq<Expression>, e: Expression)
    ensures
        es.len() == 0 ==> expr_seq_str(es.push(e)) == expr_str(e),
        es.len() > 0 ==> expr_seq_str(es.push(e)) == expr_seq_str(es) + ", "@ + expr_str(e),
    decreases es.len(),
{
    let t = es.push(e);
    if es.len() == 0 {
        assert(t[0] == e);
        assert(expr_seq_str(t) == expr_str(e));
    } else if es.len() == 1 {
        assert(t[0] == es[0]);
        assert(t.subrange(1, 2).len() == 1);
        assert(t.subrange(1, 2)[0] == e);
        assert(expr_seq_str(t.subrange(1, 2)) == expr_str(e));
        assert(expr_seq_str(es) == expr_str(es[0]));
        assert(expr_seq_str(t) == expr_seq_str(es) + ", "@ + expr_str(e));
    } else {
        assert(t.subrange(1, t.len() as int) =~= es.subrange(1, es.len() as int).push(e));
        lemma_expr_seq_str_push(es.subrange(1, es.len() as int), e);
        assert(t[0] == es[0]);
        assert(expr_seq_str(t) =~= expr_seq_str(es) + ", "@ + expr_str(e));
    }
}

impl Operator {
    /// The operator's source glyph.
    pub fn render(&self) -> (r: String)
        ensures
            r@ == operator_str(*self),
    {
        match self {
            Operator::Bang => String::from_str("!"),
            Operator::Plus => String::from_str("+"),
            Operator::Minus => String::from_str("-"),
            Operator::Multiplication => String::from_str("*"),
            Operator::Division => String::from_str("/"),
            Operator::GreaterThan => String::from_str(">"),
            Operator::LessThan => String::from_str("<"),
            Operator::Equals => String::from_str("=="),
            Operator::NotEquals => String::from_str("!="),
        }
    }
}

impl Indentifier {
    /// The identifier's raw text, unmodified.
    pub fn render(&self) -> (r: String)
        ensures
            r@ == self@,
    {
        String::from_str(self.0.as_str())
    }
}

impl Statement {
    /// Canonical rendering; equal to [`stmt_str`] of this statement.
    pub fn render(&self) -> (r: String)
        ensures
            r@ == stmt_str(*self),
        decreases *self,
    {
        match self {
            Statement::Let { name, value } => {
                let mut r = String::from_str("let ");
                let n = name.render();
                r.append(n.as_str());
                r.append(" = ");
                let v = value.render();
                r.append(v.as_str());
                r.append(";");
                r
            },
            Statement::Return(e) => {
                let mut r = String::from_str("return ");
                let v = e.render();
                r.append(v.as_str());
                r.append(";");
                r
            },
            Statement::Expression(e) => e.render(),
        }
    }
}

impl Block {
    /// Canonical rendering; equal to [`block_str`] of this block.
    pub fn render(&self) -> (r: String)
        ensures
            r@ == block_str(*self),
        decreases *self,
    {
        let mut r = String::new();
        let n = self.0.len();
        let mut i: usize = 0;
        while i < n
            invariant
                n == self.0.len(),
                i <= n,
                r@ == stmt_seq_str(self.0@.subrange(0, i as int)),
            decreases n - i,
        {
            if i > 0 {
                r.append("; ");
            }
            let piece = self.0[i].render();
            r.append(piece.as_str());
            proof {
                lemma_stmt_seq_str_push(self.0@.subrange(0, i as int), self.0@[i as int]);
                assert(self.0@.subrange(0, i + 1 as int) =~= self.0@.subrange(0, i as int).push(
                    self.0@[i as int],
                ));
            }
            i += 1;
        }
        proof {
            assert(self.0@.subrange(0, n as int) =~= self.0@);
        }
        r
    }
}

impl Parameters {
    /// Canonical rendering; equal to [`params_str`] of this list.
    pub fn render(&self) -> (r: String)
        ensures
            r@ == params_str(*self),
        decreases *self,
    {
        let mut r = String::new();
        let n = self.0.len();
        let mut i: usize = 0;
        while i < n
            invariant
                n == self.0.len(),
                i <= n,
                r@ == expr_seq_str(self.0@.subrange(0, i as int)),
            decreases n - i,
        {
            if i > 0 {
                r.append(", ");
            }
            let piece = self.0[i].render();
            r.append(piece.as_str());
            proof {
                lemma_expr_seq_str_push(self.0@.subrange(0, i as int), self.0@[i as int]);
                assert(self.0@.subrange(0, i + 1 as int) =~= self.0@.subrange(0, i as int).push(
                    self.0@[i as int],
                ));
            }
            i += 1;
        }
        proof {
            assert(self.0@.subrange(0, n as int) =~= self.0@);
        }
        r
    }
}

impl Arguments {
    /// Canonical rendering; equal to [`args_str`] of this list.
    pub fn render(&self) -> (r: String)
        ensures
            r@ == args_str(*self),
        decreases *self,
    {
        let mut r = String::new();
        let n = self.0.len();
        let mut i: usize = 0;
        while i < n
            invariant
                n == self.0.len(),
                i <= n,
                r@ == expr_seq_str(self.0@.subrange(0, i as int)),
            decreases n - i,
        {
            if i > 0 {
                r.append(", ");
            }
            let piece = self.0[i].render();
            r.append(piece.as_str());
            proof {
                lemma_expr_seq_str_push(self.0@.subrange(0, i as int), self.0@[i as int]);
                assert(self.0@.subrange(0, i + 1 as int) =~= self.0@.subrange(0, i as int).push(
                    self.0@[i as int],
                ));
            }
            i += 1;
        }
        proof {
            assert(self.0@.subrange(0, n as int) =~= self.0@);
        }
        r
    }
}

impl Expression {
    /// Canonical rendering; equal to [`expr_str`] of this expression.
    pub fn render(&self) -> (r: String)
        ensures
            r@ == expr_str(*self),
        decreases *self,
    {
        match self {
            Expression::Ident(i) => i.render(),
            Expression::IntLiteral(n) => i64_to_decimal(*n),
            Expression::BooleanLiteral(b) => {
                if *b {
                    String::from_str("true")
                } else {
                    String::from_str("false")
                }
            },
            Expression::Prefix { operator, right } => {
                let mut r = String::from_str("(");
                let op = operator.render();
                r.append(op.as_str());
                let rhs = right.render();
                r.append(rhs.as_str());
                r.append(")");
                r
            },
            Expression::Infix { left, operator, right } => {
                let mut r = String::from_str("(");
                let lhs = left.render();
                r.append(lhs.as_str());
                r.append(" ");
                let op = operator.render();
                r.append(op.as_str());
                r.append(" ");
                let rhs = right.render();
                r.append(rhs.as_str());
                r.append(")");
                r
            },
            Expression::If { condition, consequence, alternative } => {
                let mut r = String::from_str("if ");
                let c = condition.render();
                r.append(c.as_str());
                r.append(" ");
                let cons = consequence.render();
                r.append(cons.as_str());
                if let Some(alt) = alternative {
                    r.append(" else ");
                    let a = alt.render();
                    r.append(a.as_str());
                }
                r
            },
            Expression::FuncLiteral { parameters, body } => {
                let mut r = String::from_str("fn(");
                let p = parameters.render();
                r.append(p.as_str());
                r.append(") { ");
                let b = body.render();
                r.append(b.as_str());
                r.append(" }");
                r
            },
            Expression::Call { function, arguments } => {
                let mut r = function.render();
                r.append("(");
                let a = arguments.render();
                r.append(a.as_str());
                r.append(")");
                r
            },
        }
    }
}

/// Structural equality is reflexive: every expression equals itself.
pub proof fn lemma_expr_eq_reflexive(e: Expression)
    ensures
        expr_eq(e, e),
    decreases e,
{
    match e {
        Expression::Prefix { operator, right } => {
            lemma_expr_eq_reflexive(*right);
        },
        Expression::Infix { left, operator, right } => {
            lemma_expr_eq_reflexive(*left);
            lemma_expr_eq_reflexive(*right);
        },
        Expression::If { condition, consequence, alternative } => {
            lemma_expr_eq_reflexive(*condition);
            lemma_stmt_seq_eq_reflexive(consequence.0@);
            match alternative {
                Some(alt) => lemma_stmt_seq_eq_reflexive(alt.0@),
                None => {},
            }
        },
        Expression::FuncLiteral { parameters, body } => {
            lemma_expr_seq_eq_reflexive(parameters.0@);
            lemma_stmt_seq_eq_reflexive(body.0@);
        },
        Expression::Call { function, arguments } => {
            lemma_expr_eq_reflexive(*function);
            lemma_expr_seq_eq_reflexive(arguments.0@);
        },
        _ => {},
    }
}

/// Structural equality is reflexive: every statement equals itself.
pub proof fn lemma_stmt_eq_reflexive(s: Statement)
    ensures
        stmt_eq(s, s),
    decreases s,
{
    match s {
        Statement::Let { name, value } => lemma_expr_eq_reflexive(value),
        Statement::Return(e) => lemma_expr_eq_reflexive(e),
        Statement::Expression(e) => lemma_expr_eq_reflexive(e),
    }
}

/// Structural equality is reflexive: every statement sequence equals itself.
pub proof fn lemma_stmt_seq_eq_reflexive(ss: Seq<Statement>)
    ensures
        stmt_seq_eq(ss, ss),
    decreases ss,
{
    if ss.len() > 0 {
        lemma_stmt_eq_reflexive(ss[0]);
        lemma_stmt_seq_eq_reflexive(ss.subrange(1, ss.len() as int));
    }
}

/// Structural equality is reflexive: every expression sequence equals itself.
pub proof fn lemma_expr_seq_eq_reflexive(es: Seq<Expression>)
    ensures
        expr_seq_eq(es, es),
    decreases es,
{
    if es.len() > 0 {
        lemma_expr_eq_reflexive(es[0]);
        lemma_expr_seq_eq_reflexive(es.subrange(1, es.len() as int));
    }
}

/// Structural equality of expressions is symmetric.
pub proof fn lemma_expr_eq_symmetric(a: Expression, b: Expression)
    ensures
        expr_eq(a, b) == expr_eq(b, a),
    decreases a,
{
    match (a, b) {
        (
            Expression::Prefix { operator: o1, right: r1 },
            Expression::Prefix { operator: o2, right: r2 },
        ) => {
            lemma_expr_eq_symmetric(*r1, *r2);
        },
        (
            Expression::Infix { left: l1, operator: o1, right: r1 },
            Expression::Infix { left: l2, operator: o2, right: r2 },
        ) => {
            lemma_expr_eq_symmetric(*l1, *l2);
            lemma_expr_eq_symmetric(*r1, *r2);
        },
        (
            Expression::If { condition: c1, consequence: k1, alternative: a1 },
            Expression::If { condition: c2, consequence: k2, alternative: a2 },
        ) => {
            lemma_expr_eq_symmetric(*c1, *c2);
            lemma_stmt_seq_eq_symmetric(k1.0@, k2.0@);
            match (a1, a2) {
                (Some(x), Some(y)) => lemma_stmt_seq_eq_symmetric(x.0@, y.0@),
                _ => {},
            }
        },
        (
            Expression::FuncLiteral { parameters: p1, body: b1 },
            Expression::FuncLiteral { parameters: p2, body: b2 },
        ) => {
            lemma_expr_seq_eq_symmetric(p1.0@, p2.0@);
            lemma_stmt_seq_eq_symmetric(b1.0@, b2.0@);
        },
        (
            Expression::Call { function: f1, arguments: a1 },
            Expression::Call { function: f2, arguments: a2 },
        ) => {
            lemma_expr_eq_symmetric(*f1, *f2);
            lemma_expr_seq_eq_symmetric(a1.0@, a2.0@);
        },
        _ => {},
    }
}

/// Structural equality of statements is symmetric.
pub proof fn lemma_stmt_eq_symmetric(a: Statement, b: Statement)
    ensures
        stmt_eq(a, b) == stmt_eq(b, a),
    decreases a,
{
    match (a, b) {
        (
            Statement::Let { name: n1, value: v1 },
            Statement::Let { name: n2, value: v2 },
        ) => {
            lemma_expr_eq_symmetric(v1, v2);
        },
        (Statement::Return(x), Statement::Return(y)) => {
            lemma_expr_eq_symmetric(x, y);
        },
        (Statement::Expression(x), Statement::Expression(y)) => {
            lemma_expr_eq_symmetric(x, y);
        },
        _ => {},
    }
}

/// Structural equality of statement sequences is symmetric.
pub proof fn lemma_stmt_seq_eq_symmetric(x: Seq<Statement>, y: Seq<Statement>)
    ensures
        stmt_seq_eq(x, y) == stmt_seq_eq(y, x),
    decreases x,
{
    if x.len() == y.len() && x.len() > 0 {
        lemma_stmt_eq_symmetric(x[0], y[0]);
        lemma_stmt_seq_eq_symmetric(
            x.subrange(1, x.len() as int),
            y.subrange(1, y.len() as int),
        );
    }
}

/// Structural equality of expression sequences is symmetric.
pub proof fn lemma_expr_seq_eq_symmetric(x: Seq<Expression>, y: Seq<Expression>)
    ensures
        expr_seq_eq(x, y) == expr_seq_eq(y, x),
    decreases x,
{
    if x.len() == y.len() && x.len() > 0 {
        lemma_expr_eq_symmetric(x[0], y[0]);
        lemma_expr_seq_eq_symmetric(
            x.subrange(1, x.len() as int),
            y.subrange(1, y.len() as int),
        );
    }
}

/// Structurally equal expressions have identical canonical renderings:
/// rendering depends on the tree's shape, literals, operators and names
/// alone.
pub proof fn lemma_expr_eq_render(a: Expression, b: Expression)
    requires
        expr_eq(a, b),
    ensures
        expr_str(a) == expr_str(b),
    decreases a,
{
    match (a, b) {
        (
            Expression::Prefix { operator: o1, right: r1 },
            Expression::Prefix { operator: o2, right: r2 },
        ) => {
            lemma_expr_eq_render(*r1, *r2);
        },
        (
            Expression::Infix { left: l1, operator: o1, right: r1 },
            Expression::Infix { left: l2, operator: o2, right: r2 },
        ) => {
            lemma_expr_eq_render(*l1, *l2);
            lemma_expr_eq_render(*r1, *r2);
        },
        (
            Expression::If { condition: c1, consequence: k1, alternative: a1 },
            Expression::If { condition: c2, consequence: k2, alternative: a2 },
        ) => {
            lemma_expr_eq_render(*c1, *c2);
            lemma_stmt_seq_eq_render(k1.0@, k2.0@);
            match (a1, a2) {
                (Some(x), Some(y)) => lemma_stmt_seq_eq_render(x.0@, y.0@),
                _ => {},
            }
        },
        (
            Expression::FuncLiteral { parameters: p1, body: b1 },
            Expression::FuncLiteral { parameters: p2, body: b2 },
        ) => {
            lemma_expr_seq_eq_render(p1.0@, p2.0@);
            lemma_stmt_seq_eq_render(b1.0@, b2.0@);
        },
        (
            Expression::Call { function: f1, arguments: a1 },
            Expression::Call { function: f2, arguments: a2 },
        ) => {
            lemma_expr_eq_render(*f1, *f2);
            lemma_expr_seq_eq_render(a1.0@, a2.0@);
        },
        _ => {},
    }
}

/// Structurally equal statements have identical canonical renderings.
pub proof fn lemma_stmt_eq_render(a: Statement, b: Statement)
    requires
        stmt_eq(a, b),
    ensures
        stmt_str(a) == stmt_str(b),
    decreases a,
{
    match (a, b) {
        (
            Statement::Let { name: n1, value: v1 },
            Statement::Let { name: n2, value: v2 },
        ) => {
            lemma_expr_eq_render(v1, v2);
        },
        (Statement::Return(x), Statement::Return(y)) => {
            lemma_expr_eq_render(x, y);
        },
        (Statement::Expression(x), Statement::Expression(y)) => {
            lemma_expr_eq_render(x, y);
        },
        _ => {},
    }
}

/// Structurally equal statement sequences have identical canonical renderings.
pub proof fn lemma_stmt_seq_eq_render(x: Seq<Statement>, y: Seq<Statement>)
    requires
        stmt_seq_eq(x, y),
    ensures
        stmt_seq_str(x) == stmt_seq_str(y),
    decreases x,
{
    if x.len() > 0 {
        lemma_stmt_eq_render(x[0], y[0]);
        if x.len() > 1 {
            lemma_stmt_seq_eq_render(
                x.subrange(1, x.len() as int),
                y.subrange(1, y.len() as int),
            );
        }
    }
}

/// Structurally equal expression sequences have identical canonical renderings.
pub proof fn lemma_expr_seq_eq_render(x: Seq<Expression>, y: Seq<Expression>)
    requires
        expr_seq_eq(x, y),
    ensures
        expr_seq_str(x) == expr_seq_str(y),
    decreases x,
{
    if x.len() > 0 {
        lemma_expr_eq_render(x[0], y[0]);
        if x.len() > 1 {
            lemma_expr_seq_eq_render(
                x.subrange(1, x.len() as int),
                y.subrange(1, y.len() as int),
            );
        }
    }
}

/// A tree built from a statement sequence holds that very sequence: its
/// view preserves the statements, their order and their number.
pub proof fn lemma_ast_from_roundtrip(v: Vec<Statement>)
    ensures
        (<Ast as vstd::std_specs::convert::FromSpec<Vec<Statement>>>::from_spec(v))@ == v@,
{
}

} // verus!
