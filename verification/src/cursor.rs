//! The token cursor the parsers consume.
//!
//! A cursor owns the token stream and a position in it; parsing only
//! ever advances the position. Contracts speak of `rest()`, the
//! sequence of tokens not yet consumed.

use vstd::prelude::*;
use crate::error::Expected;
use crate::error::ParseError;
use crate::token::Punctuator;
use crate::token::Token;
use crate::token::TokenKind;

verus! {

/// The token at offset `k` of `ts`, if any.
pub open spec fn spec_peek(ts: Seq<Token>, k: int) -> Option<Token> {
    if 0 <= k < ts.len() {
        Some(ts[k])
    } else {
        None
    }
}

/// What consuming one required punctuator yields: the remaining tokens
/// on a match, the precise failure otherwise.
pub open spec fn spec_expect(ts: Seq<Token>, p: Punctuator) -> Result<Seq<Token>, ParseError> {
    if ts.len() == 0 {
        Err(ParseError::AbruptEnd)
    } else if ts[0].kind == TokenKind::Punctuator(p) {
        Ok(ts.skip(1))
    } else {
        Err(ParseError::UnexpectedToken { expected: Expected::Punctuator(p), found: ts[0] })
    }
}

/// A stream of tokens and a position in it.
pub struct Cursor {
    tokens: Vec<Token>,
    pos: usize,
}

impl Cursor {
    /// The whole token stream.
    pub closed spec fn toks(&self) -> Seq<Token> {
        self.tokens@
    }

    /// How many tokens have been consumed.
    pub closed spec fn pos(&self) -> int {
        self.pos as int
    }

    /// The position never runs past the end of the stream.
    pub open spec fn wf(&self) -> bool {
        0 <= self.pos() <= self.toks().len()
    }

    /// The tokens not yet consumed.
    pub open spec fn rest(&self) -> Seq<Token> {
        self.toks().skip(self.pos())
    }

    /// A cursor at the start of `tokens`.
    pub fn new(tokens: Vec<Token>) -> (c: Cursor)
        ensures
            c.wf(),
            c.toks() == tokens@,
            c.pos() == 0,
            c.rest() == tokens@,
    {
        let c = Cursor { tokens, pos: 0 };
        proof {
            assert(c.rest() =~= c.toks());
        }
        c
    }

    /// How many tokens have been consumed so far.
    pub fn position(&self) -> (n: usize)
        ensures
            n as int == self.pos(),
    {
        self.pos
    }

    /// How many tokens are left.
    pub fn remaining(&self) -> (n: usize)
        requires
            self.wf(),
        ensures
            n as int == self.rest().len(),
    {
        self.tokens.len() - self.pos
    }

    /// The token `offset` places ahead, without consuming anything.
    pub fn peek(&self, offset: usize) -> (r: Option<&Token>)
        requires
            self.wf(),
        ensures
            match r {
                Some(t) => spec_peek(self.rest(), offset as int) == Some(*t),
                None => spec_peek(self.rest(), offset as int) is None,
            },
    {
        if offset < self.tokens.len() - self.pos {
            Some(&self.tokens[self.pos + offset])
        } else {
            None
        }
    }

    /// Consume one token.
    pub fn bump(&mut self)
        requires
            old(self).wf(),
            old(self).rest().len() > 0,
        ensures
            final(self).wf(),
            final(self).toks() == old(self).toks(),
            final(self).pos() == old(self).pos() + 1,
            final(self).rest() == old(self).rest().skip(1),
    {
        // Binds the length so that the new position is known to fit.
        let n = self.tokens.len();
        self.pos = self.pos + 1;
        proof {
            assert(self.rest() =~= old(self).rest().skip(1));
        }
    }

    /// Require the next token to be the punctuator `p` and consume it.
    pub fn expect_punct(&mut self, p: Punctuator) -> (r: Result<(), ParseError>)
        requires
            old(self).wf(),
        ensures
            final(self).wf(),
            final(self).toks() == old(self).toks(),
            match r {
                Ok(_) => spec_expect(old(self).rest(), p) == Ok::<Seq<Token>, ParseError>(
                    final(self).rest(),
                ),
                Err(e) => spec_expect(old(self).rest(), p) == Err::<Seq<Token>, ParseError>(e)
                    && final(self).rest() == old(self).rest(),
            },
    {
        match self.peek(0) {
            None => Err(ParseError::AbruptEnd),
            Some(t) => {
                let matched = match &t.kind {
                    TokenKind::Punctuator(q) => *q == p,
                    _ => false,
                };
                let found = t.dup();
                if matched {
                    self.bump();
                    Ok(())
                } else {
                    Err(ParseError::UnexpectedToken { expected: Expected::Punctuator(p), found })
                }
            },
        }
    }
}

} // verus!
