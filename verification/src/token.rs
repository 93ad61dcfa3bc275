//! Tokens as the lexer hands them to the parser.
//!
//! Each token records whether a line terminator stood immediately before
//! it in the source; the restricted production of the arrow grammar is
//! checked against that flag.

use vstd::prelude::*;

verus! {

/// A punctuator token.
#[derive(Debug, Clone, Copy, PartialEq, Eq, Structural)]
pub enum Punctuator {
    /// `(`
    OpenParen,
    /// `)`
    CloseParen,
    /// `{`
    OpenBlock,
    /// `}`
    CloseBlock,
    /// `[`
    OpenBracket,
    /// `]`
    CloseBracket,
    /// `.`
    Dot,
    /// `=>`
    Arrow,
    /// `,`
    Comma,
    /// `;`
    Semicolon,
}

/// A keyword token.
#[derive(Debug, Clone, Copy, PartialEq, Eq, Structural)]
pub enum Keyword {
    /// `new`
    New,
    /// `return`
    Return,
    /// `yield`
    Yield,
    /// `await`
    Await,
    /// `in`
    In,
}

/// The kind of a token.
#[derive(Debug, PartialEq)]
pub enum TokenKind {
    /// A punctuator.
    Punctuator(Punctuator),
    /// A keyword.
    Keyword(Keyword),
    /// An identifier, with its name.
    Identifier(String),
    /// A string literal, with its value.
    StringLiteral(String),
}

/// A single token of the input stream.
#[derive(Debug, PartialEq)]
pub struct Token {
    /// What the token is.
    pub kind: TokenKind,
    /// Whether a line terminator stood immediately before this token.
    pub lt_before: bool,
}

/// The characters a keyword is written with.
pub open spec fn keyword_chars(k: Keyword) -> Seq<char> {
    match k {
        Keyword::New => "new"@,
        Keyword::Return => "return"@,
        Keyword::Yield => "yield"@,
        Keyword::Await => "await"@,
        Keyword::In => "in"@,
    }
}

/// The name of a keyword, for use as a property name.
pub fn keyword_name(k: Keyword) -> (s: String)
    ensures
        s@ == keyword_chars(k),
{
    match k {
        Keyword::New => "new".to_owned(),
        Keyword::Return => "return".to_owned(),
        Keyword::Yield => "yield".to_owned(),
        Keyword::Await => "await".to_owned(),
        Keyword::In => "in".to_owned(),
    }
}

impl TokenKind {
    /// An exact copy of this kind.
    pub fn dup(&self) -> (k: TokenKind)
        ensures
            k == *self,
    {
        match self {
            TokenKind::Punctuator(p) => TokenKind::Punctuator(*p),
            TokenKind::Keyword(k) => TokenKind::Keyword(*k),
            TokenKind::Identifier(s) => TokenKind::Identifier(s.clone()),
            TokenKind::StringLiteral(s) => TokenKind::StringLiteral(s.clone()),
        }
    }
}

impl Token {
    /// An exact copy of this token.
    pub fn dup(&self) -> (t: Token)
        ensures
            t == *self,
    {
        Token { kind: self.kind.dup(), lt_before: self.lt_before }
    }
}

} // verus!
