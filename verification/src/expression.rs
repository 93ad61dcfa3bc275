//! Primary expressions, argument lists and the assignment-expression
//! dispatcher.
//!
//! The dispatcher decides between an arrow function and a member
//! expression with a bounded lookahead: a leading identifier followed
//! by `=>`, or a parenthesis whose matching close is followed by `=>`,
//! commits to the arrow interpretation before that parser runs.

use vstd::prelude::*;
use crate::arrow_function::ArrowFunction;
use crate::arrow_function::spec_arrow_function;
use crate::ast::Node;
use crate::ast::SpecNode;
use crate::ast::decl_model;
use crate::ast::lemma_node_list_model_cons;
use crate::ast::lemma_node_list_model_one;
use crate::ast::node_list_model;
use crate::ast::node_model;
use crate::cursor::Cursor;
use crate::cursor::spec_expect;
use crate::error::Expected;
use crate::error::ParseError;
use crate::member::MemberExpression;
use crate::member::spec_member_expression;
use crate::token::Punctuator;
use crate::token::Token;
use crate::token::TokenKind;

verus! {

/// What parsing a primary expression yields: an identifier, a string
/// literal, or a parenthesized expression.
pub open spec fn spec_primary_expression(
    ts: Seq<Token>,
    allow_yield: bool,
    allow_await: bool,
    fuel: nat,
) -> Result<(SpecNode, Seq<Token>), ParseError>
    decreases fuel,
{
    if fuel == 0 {
        Err(ParseError::RecursionLimitExceeded)
    } else if ts.len() == 0 {
        Err(ParseError::AbruptEnd)
    } else {
        match ts[0].kind {
            TokenKind::Identifier(name) => Ok(
                (SpecNode::Identifier { name: name@ }, ts.skip(1)),
            ),
            TokenKind::StringLiteral(value) => Ok(
                (SpecNode::StringLiteral { value: value@ }, ts.skip(1)),
            ),
            TokenKind::Punctuator(Punctuator::OpenParen) => match spec_assignment_expression(
                ts.skip(1),
                true,
                allow_yield,
                allow_await,
                (fuel - 1) as nat,
            ) {
                Err(e) => Err(e),
                Ok((e, ts2)) => match spec_expect(ts2, Punctuator::CloseParen) {
                    Err(e2) => Err(e2),
                    Ok(ts3) => Ok((e, ts3)),
                },
            },
            _ => Err(
                ParseError::UnexpectedToken {
                    expected: Expected::PrimaryExpression,
                    found: ts[0],
                },
            ),
        }
    }
}

/// What parsing a non-empty argument list yields, up to and including
/// the closing parenthesis.
pub open spec fn spec_argument_list(
    ts: Seq<Token>,
    allow_yield: bool,
    allow_await: bool,
    fuel: nat,
) -> Result<(Seq<SpecNode>, Seq<Token>), ParseError>
    decreases fuel,
{
    if fuel == 0 {
        Err(ParseError::RecursionLimitExceeded)
    } else {
        match spec_assignment_expression(ts, true, allow_yield, allow_await, (fuel - 1) as nat) {
            Err(e) => Err(e),
            Ok((e, ts2)) => if ts2.len() == 0 {
                Err(ParseError::AbruptEnd)
            } else if ts2[0].kind == TokenKind::Punctuator(Punctuator::Comma) {
                match spec_argument_list(ts2.skip(1), allow_yield, allow_await, (fuel - 1) as nat) {
                    Err(e2) => Err(e2),
                    Ok((rest, ts3)) => Ok((seq![e] + rest, ts3)),
                }
            } else if ts2[0].kind == TokenKind::Punctuator(Punctuator::CloseParen) {
                Ok((seq![e], ts2.skip(1)))
            } else {
                Err(
                    ParseError::UnexpectedToken {
                        expected: Expected::CommaOrCloseParen,
                        found: ts2[0],
                    },
                )
            },
        }
    }
}

/// What parsing a parenthesized argument list yields.
pub open spec fn spec_arguments(
    ts: Seq<Token>,
    allow_yield: bool,
    allow_await: bool,
    fuel: nat,
) -> Result<(Seq<SpecNode>, Seq<Token>), ParseError>
    decreases fuel,
{
    if fuel == 0 {
        Err(ParseError::RecursionLimitExceeded)
    } else {
        match spec_expect(ts, Punctuator::OpenParen) {
            Err(e) => Err(e),
            Ok(ts1) => if ts1.len() == 0 {
                Err(ParseError::AbruptEnd)
            } else if ts1[0].kind == TokenKind::Punctuator(Punctuator::CloseParen) {
                Ok((Seq::empty(), ts1.skip(1)))
            } else {
                spec_argument_list(ts1, allow_yield, allow_await, (fuel - 1) as nat)
            },
        }
    }
}

/// The position of the parenthesis that closes the group open just
/// before `k`, scanning forward with `depth` opens outstanding.
pub open spec fn spec_scan_close(ts: Seq<Token>, k: int, depth: nat) -> Option<int>
    decreases ts.len() - k,
{
    if !(0 <= k < ts.len()) {
        None
    } else {
        match ts[k].kind {
            TokenKind::Punctuator(Punctuator::OpenParen) => spec_scan_close(
                ts,
                k + 1,
                (depth + 1) as nat,
            ),
            TokenKind::Punctuator(Punctuator::CloseParen) => if depth == 0 {
                Some(k)
            } else {
                spec_scan_close(ts, k + 1, (depth - 1) as nat)
            },
            _ => spec_scan_close(ts, k + 1, depth),
        }
    }
}

/// Whether the stream starts an arrow function: an identifier directly
/// followed by `=>`, or a parenthesis whose matching close is directly
/// followed by `=>`.
pub open spec fn spec_starts_arrow(ts: Seq<Token>) -> bool
    recommends
        ts.len() > 0,
{
    (ts[0].kind matches TokenKind::Identifier(_) && 1 < ts.len() && ts[1].kind
        == TokenKind::Punctuator(Punctuator::Arrow)) || (ts[0].kind == TokenKind::Punctuator(
        Punctuator::OpenParen,
    ) && match spec_scan_close(ts, 1, 0) {
        Some(cp) => cp + 1 < ts.len() && ts[cp + 1].kind == TokenKind::Punctuator(
            Punctuator::Arrow,
        ),
        None => false,
    })
}

/// What parsing an assignment expression yields: an arrow function
/// where the lookahead commits to one, a member expression otherwise.
pub open spec fn spec_assignment_expression(
    ts: Seq<Token>,
    allow_in: bool,
    allow_yield: bool,
    allow_await: bool,
    fuel: nat,
) -> Result<(SpecNode, Seq<Token>), ParseError>
    decreases fuel,
{
    if fuel == 0 {
        Err(ParseError::RecursionLimitExceeded)
    } else if ts.len() == 0 {
        Err(ParseError::AbruptEnd)
    } else if spec_starts_arrow(ts) {
        spec_arrow_function(ts, allow_in, allow_yield, allow_await, (fuel - 1) as nat)
    } else {
        spec_member_expression(ts, allow_yield, allow_await, (fuel - 1) as nat)
    }
}

/// Scan for the parenthesis closing the group open just before `k`.
fn scan_close(c: &Cursor, k: usize, depth: usize) -> (r: Option<usize>)
    requires
        c.wf(),
        depth <= k,
    ensures
        match r {
            Some(cp) => spec_scan_close(c.rest(), k as int, depth as nat) == Some(cp as int) && k
                <= cp && (cp as int) < c.rest().len(),
            None => spec_scan_close(c.rest(), k as int, depth as nat) is None,
        },
    decreases c.rest().len() - k,
{
    // Binds the remaining length so that `k + 1` is known to fit.
    let rem = c.remaining();
    let step: u8 = match c.peek(k) {
        None => {
            return None;
        },
        Some(t) => match &t.kind {
            TokenKind::Punctuator(Punctuator::OpenParen) => 1,
            TokenKind::Punctuator(Punctuator::CloseParen) => 2,
            _ => 0,
        },
    };
    if step == 1 {
        scan_close(c, k + 1, depth + 1)
    } else if step == 2 {
        if depth == 0 {
            Some(k)
        } else {
            scan_close(c, k + 1, depth - 1)
        }
    } else {
        scan_close(c, k + 1, depth)
    }
}

/// Parse a primary expression.
pub fn primary_expression(
    c: &mut Cursor,
    allow_yield: bool,
    allow_await: bool,
    fuel: u32,
) -> (r: Result<Node, ParseError>)
    requires
        old(c).wf(),
    ensures
        final(c).wf(),
        final(c).toks() == old(c).toks(),
        match r {
            Ok(n) => spec_primary_expression(old(c).rest(), allow_yield, allow_await, fuel as nat)
                == Ok::<(SpecNode, Seq<Token>), ParseError>((node_model(n), final(c).rest())),
            Err(e) => spec_primary_expression(old(c).rest(), allow_yield, allow_await, fuel as nat)
                == Err::<(SpecNode, Seq<Token>), ParseError>(e),
        },
    decreases fuel,
{
    if fuel == 0 {
        return Err(ParseError::RecursionLimitExceeded);
    }
    let step: u8 = match c.peek(0) {
        None => {
            return Err(ParseError::AbruptEnd);
        },
        Some(t) => match &t.kind {
            TokenKind::Identifier(_) => 1,
            TokenKind::StringLiteral(_) => 2,
            TokenKind::Punctuator(Punctuator::OpenParen) => 3,
            _ => 0,
        },
    };
    if step == 1 || step == 2 {
        let node: Option<Node> = match c.peek(0) {
            Some(t) => match &t.kind {
                TokenKind::Identifier(name) => Some(Node::Identifier(name.clone())),
                TokenKind::StringLiteral(value) => Some(Node::StringLiteral(value.clone())),
                _ => None,
            },
            None => None,
        };
        match node {
            Some(n) => {
                c.bump();
                Ok(n)
            },
            None => Err(ParseError::AbruptEnd),  // the dispatch above saw an identifier or literal here
        }
    } else if step == 3 {
        c.bump();
        let e = match assignment_expression(c, true, allow_yield, allow_await, fuel - 1) {
            Ok(e) => e,
            Err(e) => {
                return Err(e);
            },
        };
        match c.expect_punct(Punctuator::CloseParen) {
            Err(e2) => Err(e2),
            Ok(_) => Ok(e),
        }
    } else {
        let found = match c.peek(0) {
            Some(t) => t.dup(),
            None => {
                return Err(ParseError::AbruptEnd);
            },
        };
        Err(ParseError::UnexpectedToken { expected: Expected::PrimaryExpression, found })
    }
}

/// Parse a non-empty argument list, consuming the closing parenthesis.
fn argument_list(c: &mut Cursor, allow_yield: bool, allow_await: bool, fuel: u32) -> (r: Result<
    Vec<Node>,
    ParseError,
>)
    requires
        old(c).wf(),
    ensures
        final(c).wf(),
        final(c).toks() == old(c).toks(),
        match r {
            Ok(args) => spec_argument_list(old(c).rest(), allow_yield, allow_await, fuel as nat)
                == Ok::<(Seq<SpecNode>, Seq<Token>), ParseError>(
                (node_list_model(args@), final(c).rest()),
            ),
            Err(e) => spec_argument_list(old(c).rest(), allow_yield, allow_await, fuel as nat)
                == Err::<(Seq<SpecNode>, Seq<Token>), ParseError>(e),
        },
    decreases fuel,
{
    if fuel == 0 {
        return Err(ParseError::RecursionLimitExceeded);
    }
    let e = match assignment_expression(c, true, allow_yield, allow_await, fuel - 1) {
        Ok(e) => e,
        Err(e) => {
            return Err(e);
        },
    };
    let step: u8 = match c.peek(0) {
        None => {
            return Err(ParseError::AbruptEnd);
        },
        Some(t) => match &t.kind {
            TokenKind::Punctuator(Punctuator::Comma) => 1,
            TokenKind::Punctuator(Punctuator::CloseParen) => 2,
            _ => 0,
        },
    };
    if step == 1 {
        c.bump();
        let ghost g_e = e;
        match argument_list(c, allow_yield, allow_await, fuel - 1) {
            Err(e2) => Err(e2),
            Ok(mut rest) => {
                let ghost pre = rest@;
                rest.insert(0, e);
                proof {
                    assert(rest@ =~= seq![g_e] + pre);
                    lemma_node_list_model_cons(g_e, pre);
                }
                Ok(rest)
            },
        }
    } else if step == 2 {
        c.bump();
        let ghost g_e = e;
        let mut args: Vec<Node> = Vec::new();
        args.push(e);
        proof {
            assert(args@ =~= seq![g_e]);
            lemma_node_list_model_one(g_e);
        }
        Ok(args)
    } else {
        let found = match c.peek(0) {
            Some(t) => t.dup(),
            None => {
                return Err(ParseError::AbruptEnd);
            },
        };
        Err(ParseError::UnexpectedToken { expected: Expected::CommaOrCloseParen, found })
    }
}

/// Parse a parenthesized argument list.
pub fn arguments(c: &mut Cursor, allow_yield: bool, allow_await: bool, fuel: u32) -> (r: Result<
    Vec<Node>,
    ParseError,
>)
    requires
        old(c).wf(),
    ensures
        final(c).wf(),
        final(c).toks() == old(c).toks(),
        match r {
            Ok(args) => spec_arguments(old(c).rest(), allow_yield, allow_await, fuel as nat)
                == Ok::<(Seq<SpecNode>, Seq<Token>), ParseError>(
                (node_list_model(args@), final(c).rest()),
            ),
            Err(e) => spec_arguments(old(c).rest(), allow_yield, allow_await, fuel as nat)
                == Err::<(Seq<SpecNode>, Seq<Token>), ParseError>(e),
        },
    decreases fuel,
{
    if fuel == 0 {
        return Err(ParseError::RecursionLimitExceeded);
    }
    match c.expect_punct(Punctuator::OpenParen) {
        Err(e) => {
            return Err(e);
        },
        Ok(_) => {},
    }
    let close = match c.peek(0) {
        None => {
            return Err(ParseError::AbruptEnd);
        },
        Some(t) => matches!(t.kind, TokenKind::Punctuator(Punctuator::CloseParen)),
    };
    if close {
        c.bump();
        let args: Vec<Node> = Vec::new();
        proof {
            assert(node_list_model(args@) =~= Seq::<SpecNode>::empty());
        }
        Ok(args)
    } else {
        argument_list(c, allow_yield, allow_await, fuel - 1)
    }
}

/// Parse an assignment expression.
pub fn assignment_expression(
    c: &mut Cursor,
    allow_in: bool,
    allow_yield: bool,
    allow_await: bool,
    fuel: u32,
) -> (r: Result<Node, ParseError>)
    requires
        old(c).wf(),
    ensures
        final(c).wf(),
        final(c).toks() == old(c).toks(),
        match r {
            Ok(n) => spec_assignment_expression(
                old(c).rest(),
                allow_in,
                allow_yield,
                allow_await,
                fuel as nat,
            ) == Ok::<(SpecNode, Seq<Token>), ParseError>((node_model(n), final(c).rest())),
            Err(e) => spec_assignment_expression(
                old(c).rest(),
                allow_in,
                allow_yield,
                allow_await,
                fuel as nat,
            ) == Err::<(SpecNode, Seq<Token>), ParseError>(e),
        },
    decreases fuel,
{
    if fuel == 0 {
        return Err(ParseError::RecursionLimitExceeded);
    }
    let (t0_ident, t0_open) = match c.peek(0) {
        None => {
            return Err(ParseError::AbruptEnd);
        },
        Some(t) => (
            matches!(t.kind, TokenKind::Identifier(_)),
            matches!(t.kind, TokenKind::Punctuator(Punctuator::OpenParen)),
        ),
    };
    let mut arrow_form = false;
    if t0_ident {
        arrow_form = match c.peek(1) {
            Some(t) => matches!(t.kind, TokenKind::Punctuator(Punctuator::Arrow)),
            None => false,
        };
    } else if t0_open {
        // Binds the remaining length so that `cp + 1` is known to fit.
        let rem = c.remaining();
        match scan_close(c, 1, 0) {
            Some(cp) => {
                arrow_form = match c.peek(cp + 1) {
                    Some(t) => matches!(t.kind, TokenKind::Punctuator(Punctuator::Arrow)),
                    None => false,
                };
            },
            None => {},
        }
    }
    proof {
        assert(arrow_form == spec_starts_arrow(old(c).rest()));
    }
    if arrow_form {
        match ArrowFunction::new(allow_in, allow_yield, allow_await).parse(c, fuel - 1) {
            Err(e) => Err(e),
            Ok(decl) => {
                let ghost g_decl = decl;
                let n = Node::ArrowFunctionDecl(decl);
                proof {
                    assert(node_model(n) == decl_model(g_decl));
                }
                Ok(n)
            },
        }
    } else {
        MemberExpression::new(allow_yield, allow_await).parse(c, fuel - 1)
    }
}

} // verus!
