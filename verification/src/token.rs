//! The lexical token vocabulary: the closed set of units a lexer may produce.

use vstd::prelude::*;

verus! {

/// One lexical unit of the source language.
///
/// `Ident` and `Int` carry the exact source text; in particular an `Int`
/// token is not converted to a number at this layer.  `Illegal` marks an
/// unrecognized lexical unit and `Eof` terminates every token stream.
#[derive(Debug)]
pub enum Token {
    Illegal,
    Eof,
    // Identifiers and literals
    Ident(String),
    Int(String),
    // Operators
    Assign,
    Plus,
    // Delimiters
    Comma,
    Semicolon,
    OpenParen,
    CloseParen,
    OpenCurly,
    CloseCurly,
    // Keywords
    Let,
    Function,
}

/// Structural equality of tokens: same variant, and for `Ident`/`Int` the
/// same carried text.
pub open spec fn token_eq(a: Token, b: Token) -> bool {
    match (a, b) {
        (Token::Illegal, Token::Illegal) => true,
        (Token::Eof, Token::Eof) => true,
        (Token::Ident(x), Token::Ident(y)) => x@ == y@,
        (Token::Int(x), Token::Int(y)) => x@ == y@,
        (Token::Assign, Token::Assign) => true,
        (Token::Plus, Token::Plus) => true,
        (Token::Comma, Token::Comma) => true,
        (Token::Semicolon, Token::Semicolon) => true,
        (Token::OpenParen, Token::OpenParen) => true,
        (Token::CloseParen, Token::CloseParen) => true,
        (Token::OpenCurly, Token::OpenCurly) => true,
        (Token::CloseCurly, Token::CloseCurly) => true,
        (Token::Let, Token::Let) => true,
        (Token::Function, Token::Function) => true,
        _ => false,
    }
}

impl PartialEq for Token {
    fn eq(&self, other: &Token) -> (r: bool) {
        match (self, other) {
            (Token::Illegal, Token::Illegal) => true,
            (Token::Eof, Token::Eof) => true,
            (Token::Ident(x), Token::Ident(y)) => x.eq(y),
            (Token::Int(x), Token::Int(y)) => x.eq(y),
            (Token::Assign, Token::Assign) => true,
            (Token::Plus, Token::Plus) => true,
            (Token::Comma, Token::Comma) => true,
            (Token::Semicolon, Token::Semicolon) => true,
            (Token::OpenParen, Token::OpenParen) => true,
            (Token::CloseParen, Token::CloseParen) => true,
            (Token::OpenCurly, Token::OpenCurly) => true,
            (Token::CloseCurly, Token::CloseCurly) => true,
            (Token::Let, Token::Let) => true,
            (Token::Function, Token::Function) => true,
            _ => false,
        }
    }
}

impl vstd::std_specs::cmp::PartialEqSpecImpl for Token {
    open spec fn obeys_eq_spec() -> bool {
        true
    }

    open spec fn eq_spec(&self, other: &Token) -> bool {
        token_eq(*self, *other)
    }
}

} // verus!
