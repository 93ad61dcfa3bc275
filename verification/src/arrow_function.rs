//! Arrow function parsing: parameter-list disambiguation, the
//! no-line-terminator restriction before `=>`, and the concise body.

use vstd::prelude::*;
use crate::ast::ArrowFunctionDecl;
use crate::ast::FormalParameter;
use crate::ast::Node;
use crate::ast::SpecFormalParameter;
use crate::ast::SpecNode;
use crate::ast::decl_model;
use crate::ast::lemma_node_list_model_one;
use crate::ast::lemma_param_list_model_one;
use crate::ast::node_list_model;
use crate::ast::node_model;
use crate::ast::param_list_model;
use crate::cursor::Cursor;
use crate::cursor::spec_expect;
use crate::error::ParseError;
use crate::expression::assignment_expression;
use crate::expression::spec_assignment_expression;
use crate::function::binding_identifier;
use crate::function::formal_parameters;
use crate::function::function_body;
use crate::function::spec_binding_identifier;
use crate::function::spec_formal_parameters;
use crate::function::spec_function_body;
use crate::token::Punctuator;
use crate::token::Token;
use crate::token::TokenKind;

verus! {

/// What parsing an expression body yields: one assignment expression,
/// with `await` treated as it is in the surrounding concise-body
/// production and `yield` reserved.
pub open spec fn spec_expression_body(
    ts: Seq<Token>,
    allow_in: bool,
    allow_await: bool,
    fuel: nat,
) -> Result<(SpecNode, Seq<Token>), ParseError>
    decreases fuel,
{
    if fuel == 0 {
        Err(ParseError::RecursionLimitExceeded)
    } else {
        spec_assignment_expression(ts, allow_in, false, allow_await, (fuel - 1) as nat)
    }
}

/// What parsing a concise body yields: the function-body statements of
/// a braced block, or a synthesized one-statement list returning the
/// expression body.
pub open spec fn spec_concise_body(ts: Seq<Token>, allow_in: bool, fuel: nat) -> Result<
    (Seq<SpecNode>, Seq<Token>),
    ParseError,
>
    decreases fuel,
{
    if fuel == 0 {
        Err(ParseError::RecursionLimitExceeded)
    } else if ts.len() == 0 {
        Err(ParseError::AbruptEnd)
    } else if ts[0].kind == TokenKind::Punctuator(Punctuator::OpenBlock) {
        match spec_function_body(ts.skip(1), false, false, (fuel - 1) as nat) {
            Err(e) => Err(e),
            Ok((stmts, ts2)) => match spec_expect(ts2, Punctuator::CloseBlock) {
                Err(e2) => Err(e2),
                Ok(ts3) => Ok((stmts, ts3)),
            },
        }
    } else {
        match spec_expression_body(ts, allow_in, false, (fuel - 1) as nat) {
            Err(e) => Err(e),
            Ok((e, ts2)) => Ok((seq![SpecNode::Return { expr: Box::new(e) }], ts2)),
        }
    }
}

/// What parsing an arrow function yields: its parameters, drawn from a
/// parenthesized list or a single binding identifier, and its body,
/// with the `=>` required on the same line as the parameter list.
pub open spec fn spec_arrow_function(
    ts: Seq<Token>,
    allow_in: bool,
    allow_yield: bool,
    allow_await: bool,
    fuel: nat,
) -> Result<(SpecNode, Seq<Token>), ParseError>
    decreases fuel,
{
    if fuel == 0 {
        Err(ParseError::RecursionLimitExceeded)
    } else if ts.len() == 0 {
        Err(ParseError::AbruptEnd)
    } else {
        let params_result: Result<(Seq<SpecFormalParameter>, Seq<Token>), ParseError> = if ts[0].kind
            == TokenKind::Punctuator(Punctuator::OpenParen) {
            match spec_formal_parameters(ts.skip(1), allow_yield, allow_await, (fuel - 1) as nat) {
                Err(e) => Err(e),
                Ok((params, ts2)) => match spec_expect(ts2, Punctuator::CloseParen) {
                    Err(e2) => Err(e2),
                    Ok(ts3) => Ok((params, ts3)),
                },
            }
        } else {
            match spec_binding_identifier(ts, allow_yield, allow_await) {
                Err(e) => Err(e),
                Ok((name, ts2)) => Ok(
                    (seq![SpecFormalParameter { name, init: None, rest: false }], ts2),
                ),
            }
        };
        match params_result {
            Err(e) => Err(e),
            Ok((params, ts3)) => if ts3.len() == 0 {
                Err(ParseError::AbruptEnd)
            } else if ts3[0].lt_before {
                Err(ParseError::RestrictedProduction)
            } else {
                match spec_expect(ts3, Punctuator::Arrow) {
                    Err(e) => Err(e),
                    Ok(ts4) => match spec_concise_body(ts4, allow_in, (fuel - 1) as nat) {
                        Err(e2) => Err(e2),
                        Ok((body, ts5)) => Ok(
                            (SpecNode::ArrowFunctionDecl { params, body }, ts5),
                        ),
                    },
                }
            },
        }
    }
}

/// Parses an arrow function.
#[derive(Debug, Clone, Copy)]
pub struct ArrowFunction {
    /// Whether the `in` operator is legal in the enclosing context.
    pub allow_in: bool,
    /// Whether `yield` is reserved in the enclosing context.
    pub allow_yield: bool,
    /// Whether `await` is reserved in the enclosing context.
    pub allow_await: bool,
}

impl ArrowFunction {
    /// Creates a new `ArrowFunction` parser.
    pub fn new(allow_in: bool, allow_yield: bool, allow_await: bool) -> (p: ArrowFunction)
        ensures
            p.allow_in == allow_in,
            p.allow_yield == allow_yield,
            p.allow_await == allow_await,
    {
        ArrowFunction { allow_in, allow_yield, allow_await }
    }

    /// Parse an arrow function.
    pub fn parse(self, c: &mut Cursor, fuel: u32) -> (r: Result<ArrowFunctionDecl, ParseError>)
        requires
            old(c).wf(),
        ensures
            final(c).wf(),
            final(c).toks() == old(c).toks(),
            match r {
                Ok(decl) => spec_arrow_function(
                    old(c).rest(),
                    self.allow_in,
                    self.allow_yield,
                    self.allow_await,
                    fuel as nat,
                ) == Ok::<(SpecNode, Seq<Token>), ParseError>((decl_model(decl), final(c).rest())),
                Err(e) => spec_arrow_function(
                    old(c).rest(),
                    self.allow_in,
                    self.allow_yield,
                    self.allow_await,
                    fuel as nat,
                ) == Err::<(SpecNode, Seq<Token>), ParseError>(e),
            },
        decreases fuel,
    {
        if fuel == 0 {
            return Err(ParseError::RecursionLimitExceeded);
        }
        let open = match c.peek(0) {
            None => {
                return Err(ParseError::AbruptEnd);
            },
            Some(t) => matches!(t.kind, TokenKind::Punctuator(Punctuator::OpenParen)),
        };
        let params: Vec<FormalParameter>;
        if open {
            c.bump();
            params = match formal_parameters(c, self.allow_yield, self.allow_await, fuel - 1) {
                Ok(ps) => ps,
                Err(e) => {
                    return Err(e);
                },
            };
            match c.expect_punct(Punctuator::CloseParen) {
                Err(e) => {
                    return Err(e);
                },
                Ok(_) => {},
            }
        } else {
            let name = match binding_identifier(c, self.allow_yield, self.allow_await) {
                Ok(name) => name,
                Err(e) => {
                    return Err(e);
                },
            };
            let param = FormalParameter { name, init: None, rest: false };
            let ghost g_param = param;
            let mut ps: Vec<FormalParameter> = Vec::new();
            ps.push(param);
            proof {
                assert(ps@ =~= seq![g_param]);
                lemma_param_list_model_one(g_param);
            }
            params = ps;
        }
        let lt = match c.peek(0) {
            None => {
                return Err(ParseError::AbruptEnd);
            },
            Some(t) => t.lt_before,
        };
        if lt {
            return Err(ParseError::RestrictedProduction);
        }
        match c.expect_punct(Punctuator::Arrow) {
            Err(e) => {
                return Err(e);
            },
            Ok(_) => {},
        }
        let body = match ConciseBody::new(self.allow_in).parse(c, fuel - 1) {
            Ok(b) => b,
            Err(e) => {
                return Err(e);
            },
        };
        Ok(ArrowFunctionDecl { params, body })
    }
}

/// Parses the body of an arrow function.
#[derive(Debug, Clone, Copy)]
pub struct ConciseBody {
    /// Whether the `in` operator is legal in the enclosing context.
    pub allow_in: bool,
}

impl ConciseBody {
    /// Creates a new `ConciseBody` parser.
    pub fn new(allow_in: bool) -> (p: ConciseBody)
        ensures
            p.allow_in == allow_in,
    {
        ConciseBody { allow_in }
    }

    /// Parse a concise body into a statement list.
    pub fn parse(self, c: &mut Cursor, fuel: u32) -> (r: Result<Vec<Node>, ParseError>)
        requires
            old(c).wf(),
        ensures
            final(c).wf(),
            final(c).toks() == old(c).toks(),
            match r {
                Ok(stmts) => spec_concise_body(old(c).rest(), self.allow_in, fuel as nat)
                    == Ok::<(Seq<SpecNode>, Seq<Token>), ParseError>(
                    (node_list_model(stmts@), final(c).rest()),
                ),
                Err(e) => spec_concise_body(old(c).rest(), self.allow_in, fuel as nat)
                    == Err::<(Seq<SpecNode>, Seq<Token>), ParseError>(e),
            },
        decreases fuel,
    {
        if fuel == 0 {
            return Err(ParseError::RecursionLimitExceeded);
        }
        let open = match c.peek(0) {
            None => {
                return Err(ParseError::AbruptEnd);
            },
            Some(t) => matches!(t.kind, TokenKind::Punctuator(Punctuator::OpenBlock)),
        };
        if open {
            c.bump();
            let body = match function_body(c, false, false, fuel - 1) {
                Ok(b) => b,
                Err(e) => {
                    return Err(e);
                },
            };
            match c.expect_punct(Punctuator::CloseBlock) {
                Err(e) => Err(e),
                Ok(_) => Ok(body),
            }
        } else {
            let e = match ExpressionBody::new(self.allow_in, false).parse(c, fuel - 1) {
                Ok(e) => e,
                Err(e) => {
                    return Err(e);
                },
            };
            let ghost g_e = e;
            let ret = Node::Return(Box::new(e));
            let ghost g_ret = ret;
            let mut stmts: Vec<Node> = Vec::new();
            stmts.push(ret);
            proof {
                assert(node_model(g_ret) == SpecNode::Return { expr: Box::new(node_model(g_e)) });
                assert(stmts@ =~= seq![g_ret]);
                lemma_node_list_model_one(g_ret);
            }
            Ok(stmts)
        }
    }
}

/// Parses the expression form of an arrow function body.
#[derive(Debug, Clone, Copy)]
pub struct ExpressionBody {
    /// Whether the `in` operator is legal in the enclosing context.
    pub allow_in: bool,
    /// Whether `await` is reserved in the enclosing context.
    pub allow_await: bool,
}

impl ExpressionBody {
    /// Creates a new `ExpressionBody` parser.
    pub fn new(allow_in: bool, allow_await: bool) -> (p: ExpressionBody)
        ensures
            p.allow_in == allow_in,
            p.allow_await == allow_await,
    {
        ExpressionBody { allow_in, allow_await }
    }

    /// Parse one assignment expression as the body.
    pub fn parse(self, c: &mut Cursor, fuel: u32) -> (r: Result<Node, ParseError>)
        requires
            old(c).wf(),
        ensures
            final(c).wf(),
            final(c).toks() == old(c).toks(),
            match r {
                Ok(n) => spec_expression_body(
                    old(c).rest(),
                    self.allow_in,
                    self.allow_await,
                    fuel as nat,
                ) == Ok::<(SpecNode, Seq<Token>), ParseError>((node_model(n), final(c).rest())),
                Err(e) => spec_expression_body(
                    old(c).rest(),
                    self.allow_in,
                    self.allow_await,
                    fuel as nat,
                ) == Err::<(SpecNode, Seq<Token>), ParseError>(e),
            },
        decreases fuel,
    {
        if fuel == 0 {
            return Err(ParseError::RecursionLimitExceeded);
        }
        assignment_expression(c, self.allow_in, false, self.allow_await, fuel - 1)
    }
}

} // verus!
