//! Structured parse failures.
//!
//! Every parser returns either a constructed node or one of these
//! conditions; a single grammar violation aborts the enclosing parse
//! immediately, with no local recovery.

use vstd::prelude::*;
use crate::token::Punctuator;
use crate::token::Token;

verus! {

/// What the grammar would have accepted at the point of failure.
#[derive(Debug, Clone, Copy, PartialEq, Eq, Structural)]
pub enum Expected {
    /// A specific punctuator.
    Punctuator(Punctuator),
    /// An identifier or a keyword used as a property name.
    IdentifierName,
    /// An identifier binding a name.
    BindingIdentifier,
    /// The start of a primary expression.
    PrimaryExpression,
    /// A `,` continuing an argument list, or the `)` closing it.
    CommaOrCloseParen,
}

/// A structured parse failure.
#[derive(Debug, PartialEq)]
pub enum ParseError {
    /// The token stream ended where a token was structurally required.
    AbruptEnd,
    /// The next token matches no grammar alternative at this point.
    UnexpectedToken {
        /// What would have been accepted instead.
        expected: Expected,
        /// The offending token.
        found: Token,
    },
    /// A line terminator stands where the grammar forbids one.
    RestrictedProduction,
    /// The input nests deeper than the configured recursion bound.
    RecursionLimitExceeded,
}

} // verus!
