//! Binding identifiers, formal parameter lists and function bodies:
//! the productions the arrow-function grammar delegates to.

use vstd::prelude::*;
use crate::ast::FormalParameter;
use crate::ast::Node;
use crate::ast::SpecFormalParameter;
use crate::ast::SpecNode;
use crate::ast::lemma_node_list_model_cons;
use crate::ast::lemma_param_list_model_cons;
use crate::ast::lemma_param_list_model_one;
use crate::ast::node_list_model;
use crate::ast::node_model;
use crate::ast::param_list_model;
use crate::cursor::Cursor;
use crate::cursor::spec_expect;
use crate::error::Expected;
use crate::error::ParseError;
use crate::expression::assignment_expression;
use crate::expression::spec_assignment_expression;
use crate::token::Keyword;
use crate::token::Punctuator;
use crate::token::Token;
use crate::token::TokenKind;
use crate::token::keyword_chars;
use crate::token::keyword_name;

verus! {

/// What parsing a binding identifier yields: the bound name and the
/// remaining tokens. `yield` and `await` may serve as names exactly
/// where the context flags say the keywords are not reserved.
pub open spec fn spec_binding_identifier(
    ts: Seq<Token>,
    allow_yield: bool,
    allow_await: bool,
) -> Result<(Seq<char>, Seq<Token>), ParseError> {
    if ts.len() == 0 {
        Err(ParseError::AbruptEnd)
    } else {
        match ts[0].kind {
            TokenKind::Identifier(name) => Ok((name@, ts.skip(1))),
            TokenKind::Keyword(kw) => if kw == Keyword::Yield && !allow_yield {
                Ok((keyword_chars(kw), ts.skip(1)))
            } else if kw == Keyword::Await && !allow_await {
                Ok((keyword_chars(kw), ts.skip(1)))
            } else {
                Err(
                    ParseError::UnexpectedToken {
                        expected: Expected::BindingIdentifier,
                        found: ts[0],
                    },
                )
            },
            _ => Err(
                ParseError::UnexpectedToken { expected: Expected::BindingIdentifier, found: ts[0] },
            ),
        }
    }
}

/// What parsing a non-empty formal parameter list yields.
pub open spec fn spec_formal_params_list(
    ts: Seq<Token>,
    allow_yield: bool,
    allow_await: bool,
    fuel: nat,
) -> Result<(Seq<SpecFormalParameter>, Seq<Token>), ParseError>
    decreases fuel,
{
    if fuel == 0 {
        Err(ParseError::RecursionLimitExceeded)
    } else {
        match spec_binding_identifier(ts, allow_yield, allow_await) {
            Err(e) => Err(e),
            Ok((name, ts2)) => {
                let param = SpecFormalParameter { name, init: None, rest: false };
                if ts2.len() > 0 && ts2[0].kind == TokenKind::Punctuator(Punctuator::Comma) {
                    match spec_formal_params_list(
                        ts2.skip(1),
                        allow_yield,
                        allow_await,
                        (fuel - 1) as nat,
                    ) {
                        Err(e) => Err(e),
                        Ok((rest, ts3)) => Ok((seq![param] + rest, ts3)),
                    }
                } else {
                    Ok((seq![param], ts2))
                }
            },
        }
    }
}

/// What parsing a formal parameter list yields. The list stops before
/// the closing parenthesis, which belongs to the caller.
pub open spec fn spec_formal_parameters(
    ts: Seq<Token>,
    allow_yield: bool,
    allow_await: bool,
    fuel: nat,
) -> Result<(Seq<SpecFormalParameter>, Seq<Token>), ParseError>
    decreases fuel,
{
    if fuel == 0 {
        Err(ParseError::RecursionLimitExceeded)
    } else if ts.len() == 0 {
        Err(ParseError::AbruptEnd)
    } else if ts[0].kind == TokenKind::Punctuator(Punctuator::CloseParen) {
        Ok((Seq::empty(), ts))
    } else {
        spec_formal_params_list(ts, allow_yield, allow_await, (fuel - 1) as nat)
    }
}

/// What parsing a function body yields: the statements up to, but not
/// including, the closing brace (or the end of the stream).
pub open spec fn spec_function_body(
    ts: Seq<Token>,
    allow_yield: bool,
    allow_await: bool,
    fuel: nat,
) -> Result<(Seq<SpecNode>, Seq<Token>), ParseError>
    decreases fuel,
{
    if fuel == 0 {
        Err(ParseError::RecursionLimitExceeded)
    } else if ts.len() == 0 || ts[0].kind == TokenKind::Punctuator(Punctuator::CloseBlock) {
        Ok((Seq::empty(), ts))
    } else {
        let stmt_result = if ts[0].kind == TokenKind::Keyword(Keyword::Return) {
            match spec_assignment_expression(
                ts.skip(1),
                true,
                allow_yield,
                allow_await,
                (fuel - 1) as nat,
            ) {
                Err(e) => Err(e),
                Ok((e, ts2)) => Ok((SpecNode::Return { expr: Box::new(e) }, ts2)),
            }
        } else {
            spec_assignment_expression(ts, true, allow_yield, allow_await, (fuel - 1) as nat)
        };
        match stmt_result {
            Err(e) => Err(e),
            Ok((stmt, ts2)) => match spec_expect(ts2, Punctuator::Semicolon) {
                Err(e) => Err(e),
                Ok(ts3) => match spec_function_body(
                    ts3,
                    allow_yield,
                    allow_await,
                    (fuel - 1) as nat,
                ) {
                    Err(e) => Err(e),
                    Ok((rest, ts4)) => Ok((seq![stmt] + rest, ts4)),
                },
            },
        }
    }
}

/// Parse a binding identifier.
pub fn binding_identifier(c: &mut Cursor, allow_yield: bool, allow_await: bool) -> (r: Result<
    String,
    ParseError,
>)
    requires
        old(c).wf(),
    ensures
        final(c).wf(),
        final(c).toks() == old(c).toks(),
        match r {
            Ok(name) => spec_binding_identifier(old(c).rest(), allow_yield, allow_await)
                == Ok::<(Seq<char>, Seq<Token>), ParseError>((name@, final(c).rest())),
            Err(e) => spec_binding_identifier(old(c).rest(), allow_yield, allow_await)
                == Err::<(Seq<char>, Seq<Token>), ParseError>(e),
        },
{
    let name: Option<String> = match c.peek(0) {
        None => None,
        Some(t) => match &t.kind {
            TokenKind::Identifier(name) => Some(name.clone()),
            TokenKind::Keyword(kw) => {
                if (*kw == Keyword::Yield && !allow_yield) || (*kw == Keyword::Await
                    && !allow_await) {
                    Some(keyword_name(*kw))
                } else {
                    None
                }
            },
            _ => None,
        },
    };
    match name {
        Some(name) => {
            c.bump();
            Ok(name)
        },
        None => match c.peek(0) {
            None => Err(ParseError::AbruptEnd),
            Some(t) => Err(
                ParseError::UnexpectedToken { expected: Expected::BindingIdentifier, found: t.dup() },
            ),
        },
    }
}

/// Parse a non-empty, comma-separated formal parameter list.
fn formal_params_list(
    c: &mut Cursor,
    allow_yield: bool,
    allow_await: bool,
    fuel: u32,
) -> (r: Result<Vec<FormalParameter>, ParseError>)
    requires
        old(c).wf(),
    ensures
        final(c).wf(),
        final(c).toks() == old(c).toks(),
        match r {
            Ok(params) => spec_formal_params_list(
                old(c).rest(),
                allow_yield,
                allow_await,
                fuel as nat,
            ) == Ok::<(Seq<SpecFormalParameter>, Seq<Token>), ParseError>(
                (param_list_model(params@), final(c).rest()),
            ),
            Err(e) => spec_formal_params_list(old(c).rest(), allow_yield, allow_await, fuel as nat)
                == Err::<(Seq<SpecFormalParameter>, Seq<Token>), ParseError>(e),
        },
    decreases fuel,
{
    if fuel == 0 {
        return Err(ParseError::RecursionLimitExceeded);
    }
    let name = match binding_identifier(c, allow_yield, allow_await) {
        Ok(name) => name,
        Err(e) => {
            return Err(e);
        },
    };
    let param = FormalParameter { name, init: None, rest: false };
    let comma = match c.peek(0) {
        Some(t) => matches!(t.kind, TokenKind::Punctuator(Punctuator::Comma)),
        None => false,
    };
    if comma {
        c.bump();
        let ghost g_param = param;
        match formal_params_list(c, allow_yield, allow_await, fuel - 1) {
            Err(e) => Err(e),
            Ok(mut rest) => {
                let ghost pre = rest@;
                rest.insert(0, param);
                proof {
                    assert(rest@ =~= seq![g_param] + pre);
                    lemma_param_list_model_cons(g_param, pre);
                }
                Ok(rest)
            },
        }
    } else {
        let ghost g_param = param;
        let mut params: Vec<FormalParameter> = Vec::new();
        params.push(param);
        proof {
            assert(params@ =~= seq![g_param]);
            lemma_param_list_model_one(g_param);
        }
        Ok(params)
    }
}

/// Parse a formal parameter list, stopping before the closing
/// parenthesis.
pub fn formal_parameters(
    c: &mut Cursor,
    allow_yield: bool,
    allow_await: bool,
    fuel: u32,
) -> (r: Result<Vec<FormalParameter>, ParseError>)
    requires
        old(c).wf(),
    ensures
        final(c).wf(),
        final(c).toks() == old(c).toks(),
        match r {
            Ok(params) => spec_formal_parameters(
                old(c).rest(),
                allow_yield,
                allow_await,
                fuel as nat,
            ) == Ok::<(Seq<SpecFormalParameter>, Seq<Token>), ParseError>(
                (param_list_model(params@), final(c).rest()),
            ),
            Err(e) => spec_formal_parameters(old(c).rest(), allow_yield, allow_await, fuel as nat)
                == Err::<(Seq<SpecFormalParameter>, Seq<Token>), ParseError>(e),
        },
    decreases fuel,
{
    if fuel == 0 {
        return Err(ParseError::RecursionLimitExceeded);
    }
    let close = match c.peek(0) {
        None => {
            return Err(ParseError::AbruptEnd);
        },
        Some(t) => matches!(t.kind, TokenKind::Punctuator(Punctuator::CloseParen)),
    };
    if close {
        let params: Vec<FormalParameter> = Vec::new();
        proof {
            assert(param_list_model(params@) =~= Seq::<SpecFormalParameter>::empty());
        }
        Ok(params)
    } else {
        formal_params_list(c, allow_yield, allow_await, fuel - 1)
    }
}

/// Parse the statements of a function body, stopping before the
/// closing brace.
pub fn function_body(c: &mut Cursor, allow_yield: bool, allow_await: bool, fuel: u32) -> (r: Result<
    Vec<Node>,
    ParseError,
>)
    requires
        old(c).wf(),
    ensures
        final(c).wf(),
        final(c).toks() == old(c).toks(),
        match r {
            Ok(stmts) => spec_function_body(old(c).rest(), allow_yield, allow_await, fuel as nat)
                == Ok::<(Seq<SpecNode>, Seq<Token>), ParseError>(
                (node_list_model(stmts@), final(c).rest()),
            ),
            Err(e) => spec_function_body(old(c).rest(), allow_yield, allow_await, fuel as nat)
                == Err::<(Seq<SpecNode>, Seq<Token>), ParseError>(e),
        },
    decreases fuel,
{
    if fuel == 0 {
        return Err(ParseError::RecursionLimitExceeded);
    }
    let (at_end, is_return) = match c.peek(0) {
        None => (true, false),
        Some(t) => match &t.kind {
            TokenKind::Punctuator(Punctuator::CloseBlock) => (true, false),
            TokenKind::Keyword(Keyword::Return) => (false, true),
            _ => (false, false),
        },
    };
    if at_end {
        let stmts: Vec<Node> = Vec::new();
        proof {
            assert(node_list_model(stmts@) =~= Seq::<SpecNode>::empty());
        }
        return Ok(stmts);
    }
    let stmt: Node;
    if is_return {
        c.bump();
        match assignment_expression(c, true, allow_yield, allow_await, fuel - 1) {
            Err(e) => {
                return Err(e);
            },
            Ok(e) => {
                let ghost m_e = node_model(e);
                stmt = Node::Return(Box::new(e));
                proof {
                    assert(node_model(stmt) == SpecNode::Return { expr: Box::new(m_e) });
                }
            },
        }
    } else {
        match assignment_expression(c, true, allow_yield, allow_await, fuel - 1) {
            Err(e) => {
                return Err(e);
            },
            Ok(e) => {
                stmt = e;
            },
        }
    }
    match c.expect_punct(Punctuator::Semicolon) {
        Err(e) => {
            return Err(e);
        },
        Ok(_) => {},
    }
    let ghost g_stmt = stmt;
    match function_body(c, allow_yield, allow_await, fuel - 1) {
        Err(e) => Err(e),
        Ok(mut rest) => {
            let ghost pre = rest@;
            rest.insert(0, stmt);
            proof {
                assert(rest@ =~= seq![g_stmt] + pre);
                lemma_node_list_model_cons(g_stmt, pre);
            }
            Ok(rest)
        },
    }
}

} // verus!
