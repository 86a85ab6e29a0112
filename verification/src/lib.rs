//! Abstract syntax tree and token vocabulary for a small expression-oriented
//! language with C-like surface syntax (let-bindings, return statements,
//! arithmetic and boolean expressions, conditionals, function literals and
//! calls).
//!
//! The crate is a pure data model: a lexer produces a sequence of [`token::Token`]s,
//! a parser builds an [`ast::Ast`], and an evaluator consumes it.  The crate
//! itself only constructs, compares and canonically renders trees; rendering
//! parenthesizes every prefix and infix node unconditionally, so the printed
//! form is precedence-unambiguous.

pub mod ast;
pub mod decimal;
pub mod token;
