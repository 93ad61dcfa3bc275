//! Member expression parsing: `new` chains and left-associative
//! dot/bracket access chains.

use vstd::prelude::*;
use crate::ast::Node;
use crate::ast::SpecNode;
use crate::ast::node_list_model;
use crate::ast::node_model;
use crate::cursor::Cursor;
use crate::cursor::spec_expect;
use crate::error::Expected;
use crate::error::ParseError;
use crate::expression::arguments;
use crate::expression::assignment_expression;
use crate::expression::primary_expression;
use crate::expression::spec_arguments;
use crate::expression::spec_assignment_expression;
use crate::expression::spec_primary_expression;
use crate::token::Keyword;
use crate::token::Punctuator;
use crate::token::Token;
use crate::token::TokenKind;
use crate::token::keyword_chars;
use crate::token::keyword_name;

verus! {

/// What the chain of trailing accessors after `lhs` yields. Each `.`
/// and `[` extends the left-hand side; the first token that fits
/// neither ends the chain, left-associatively.
pub open spec fn spec_member_tail(
    lhs: SpecNode,
    ts: Seq<Token>,
    allow_yield: bool,
    allow_await: bool,
    fuel: nat,
) -> Result<(SpecNode, Seq<Token>), ParseError>
    decreases fuel,
{
    if fuel == 0 {
        Err(ParseError::RecursionLimitExceeded)
    } else if ts.len() == 0 {
        Ok((lhs, ts))
    } else {
        match ts[0].kind {
            TokenKind::Punctuator(Punctuator::Dot) => if ts.len() < 2 {
                Err(ParseError::AbruptEnd)
            } else {
                match ts[1].kind {
                    TokenKind::Identifier(name) => spec_member_tail(
                        SpecNode::GetConstField { obj: Box::new(lhs), field: name@ },
                        ts.skip(2),
                        allow_yield,
                        allow_await,
                        (fuel - 1) as nat,
                    ),
                    TokenKind::Keyword(kw) => spec_member_tail(
                        SpecNode::GetConstField { obj: Box::new(lhs), field: keyword_chars(kw) },
                        ts.skip(2),
                        allow_yield,
                        allow_await,
                        (fuel - 1) as nat,
                    ),
                    _ => Err(
                        ParseError::UnexpectedToken {
                            expected: Expected::IdentifierName,
                            found: ts[1],
                        },
                    ),
                }
            },
            TokenKind::Punctuator(Punctuator::OpenBracket) => match spec_assignment_expression(
                ts.skip(1),
                true,
                allow_yield,
                allow_await,
                (fuel - 1) as nat,
            ) {
                Err(e) => Err(e),
                Ok((idx, ts2)) => match spec_expect(ts2, Punctuator::CloseBracket) {
                    Err(e2) => Err(e2),
                    Ok(ts3) => spec_member_tail(
                        SpecNode::GetField { obj: Box::new(lhs), index: Box::new(idx) },
                        ts3,
                        allow_yield,
                        allow_await,
                        (fuel - 1) as nat,
                    ),
                },
            },
            _ => Ok((lhs, ts)),
        }
    }
}

/// What parsing a member expression yields: a `new` chain whose
/// argument list is required, or a primary expression, in both cases
/// followed by the accessor chain.
pub open spec fn spec_member_expression(
    ts: Seq<Token>,
    allow_yield: bool,
    allow_await: bool,
    fuel: nat,
) -> Result<(SpecNode, Seq<Token>), ParseError>
    decreases fuel,
{
    if fuel == 0 {
        Err(ParseError::RecursionLimitExceeded)
    } else if ts.len() == 0 {
        Err(ParseError::AbruptEnd)
    } else if ts[0].kind == TokenKind::Keyword(Keyword::New) {
        match spec_member_expression(ts.skip(1), allow_yield, allow_await, (fuel - 1) as nat) {
            Err(e) => Err(e),
            Ok((target, ts2)) => match spec_arguments(
                ts2,
                allow_yield,
                allow_await,
                (fuel - 1) as nat,
            ) {
                Err(e2) => Err(e2),
                Ok((args, ts3)) => spec_member_tail(
                    SpecNode::New {
                        call: Box::new(SpecNode::Call { callee: Box::new(target), args }),
                    },
                    ts3,
                    allow_yield,
                    allow_await,
                    (fuel - 1) as nat,
                ),
            },
        }
    } else {
        match spec_primary_expression(ts, allow_yield, allow_await, (fuel - 1) as nat) {
            Err(e) => Err(e),
            Ok((lhs, ts2)) => spec_member_tail(
                lhs,
                ts2,
                allow_yield,
                allow_await,
                (fuel - 1) as nat,
            ),
        }
    }
}

/// Parse the accessor chain that follows an already parsed left-hand
/// side.
fn member_tail(lhs: Node, c: &mut Cursor, allow_yield: bool, allow_await: bool, fuel: u32) -> (r:
    Result<Node, ParseError>)
    requires
        old(c).wf(),
    ensures
        final(c).wf(),
        final(c).toks() == old(c).toks(),
        match r {
            Ok(n) => spec_member_tail(
                node_model(lhs),
                old(c).rest(),
                allow_yield,
                allow_await,
                fuel as nat,
            ) == Ok::<(SpecNode, Seq<Token>), ParseError>((node_model(n), final(c).rest())),
            Err(e) => spec_member_tail(
                node_model(lhs),
                old(c).rest(),
                allow_yield,
                allow_await,
                fuel as nat,
            ) == Err::<(SpecNode, Seq<Token>), ParseError>(e),
        },
    decreases fuel,
{
    if fuel == 0 {
        return Err(ParseError::RecursionLimitExceeded);
    }
    let step: u8 = match c.peek(0) {
        None => 0,
        Some(t) => match &t.kind {
            TokenKind::Punctuator(Punctuator::Dot) => 1,
            TokenKind::Punctuator(Punctuator::OpenBracket) => 2,
            _ => 0,
        },
    };
    if step == 1 {
        c.bump();
        let field: String = match c.peek(0) {
            None => {
                return Err(ParseError::AbruptEnd);
            },
            Some(t) => match &t.kind {
                TokenKind::Identifier(name) => name.clone(),
                TokenKind::Keyword(kw) => keyword_name(*kw),
                _ => {
                    return Err(
                        ParseError::UnexpectedToken {
                            expected: Expected::IdentifierName,
                            found: t.dup(),
                        },
                    );
                },
            },
        };
        c.bump();
        let ghost g_lhs = lhs;
        let ghost g_field = field@;
        let new_lhs = Node::GetConstField(Box::new(lhs), field);
        proof {
            assert(node_model(new_lhs) == SpecNode::GetConstField {
                obj: Box::new(node_model(g_lhs)),
                field: g_field,
            });
            assert(c.rest() =~= old(c).rest().skip(2));
        }
        member_tail(new_lhs, c, allow_yield, allow_await, fuel - 1)
    } else if step == 2 {
        c.bump();
        let idx = match assignment_expression(c, true, allow_yield, allow_await, fuel - 1) {
            Ok(n) => n,
            Err(e) => {
                return Err(e);
            },
        };
        match c.expect_punct(Punctuator::CloseBracket) {
            Err(e) => {
                return Err(e);
            },
            Ok(_) => {},
        }
        let ghost g_lhs = lhs;
        let ghost g_idx = idx;
        let new_lhs = Node::GetField(Box::new(lhs), Box::new(idx));
        proof {
            assert(node_model(new_lhs) == SpecNode::GetField {
                obj: Box::new(node_model(g_lhs)),
                index: Box::new(node_model(g_idx)),
            });
        }
        member_tail(new_lhs, c, allow_yield, allow_await, fuel - 1)
    } else {
        Ok(lhs)
    }
}

/// Parses a member expression.
#[derive(Debug, Clone, Copy)]
pub struct MemberExpression {
    /// Whether `yield` is reserved in the enclosing context.
    pub allow_yield: bool,
    /// Whether `await` is reserved in the enclosing context.
    pub allow_await: bool,
}

impl MemberExpression {
    /// Creates a new `MemberExpression` parser.
    pub fn new(allow_yield: bool, allow_await: bool) -> (p: MemberExpression)
        ensures
            p.allow_yield == allow_yield,
            p.allow_await == allow_await,
    {
        MemberExpression { allow_yield, allow_await }
    }

    /// Parse a member expression.
    pub fn parse(self, c: &mut Cursor, fuel: u32) -> (r: Result<Node, ParseError>)
        requires
            old(c).wf(),
        ensures
            final(c).wf(),
            final(c).toks() == old(c).toks(),
            match r {
                Ok(n) => spec_member_expression(
                    old(c).rest(),
                    self.allow_yield,
                    self.allow_await,
                    fuel as nat,
                ) == Ok::<(SpecNode, Seq<Token>), ParseError>((node_model(n), final(c).rest())),
                Err(e) => spec_member_expression(
                    old(c).rest(),
                    self.allow_yield,
                    self.allow_await,
                    fuel as nat,
                ) == Err::<(SpecNode, Seq<Token>), ParseError>(e),
            },
        decreases fuel,
    {
        if fuel == 0 {
            return Err(ParseError::RecursionLimitExceeded);
        }
        let is_new = match c.peek(0) {
            None => {
                return Err(ParseError::AbruptEnd);
            },
            Some(t) => matches!(t.kind, TokenKind::Keyword(Keyword::New)),
        };
        let lhs: Node;
        if is_new {
            c.bump();
            let target = match self.parse(c, fuel - 1) {
                Ok(n) => n,
                Err(e) => {
                    return Err(e);
                },
            };
            let args = match arguments(c, self.allow_yield, self.allow_await, fuel - 1) {
                Ok(a) => a,
                Err(e) => {
                    return Err(e);
                },
            };
            let ghost g_target = target;
            let ghost g_args = args@;
            let call_node = Node::Call(Box::new(target), args);
            let ghost g_call = call_node;
            lhs = Node::New(Box::new(call_node));
            proof {
                assert(node_model(g_call) == SpecNode::Call {
                    callee: Box::new(node_model(g_target)),
                    args: node_list_model(g_args),
                });
                assert(node_model(lhs) == SpecNode::New { call: Box::new(node_model(g_call)) });
            }
        } else {
            lhs = match primary_expression(c, self.allow_yield, self.allow_await, fuel - 1) {
                Ok(n) => n,
                Err(e) => {
                    return Err(e);
                },
            };
        }
        member_tail(lhs, c, self.allow_yield, self.allow_await, fuel - 1)
    }
}

} // verus!
