//! Laws of the grammar, proved against the specification functions
//! that the parsers' contracts are stated over.

use vstd::prelude::*;
use crate::arrow_function::spec_arrow_function;
use crate::arrow_function::spec_concise_body;
use crate::arrow_function::spec_expression_body;
use crate::ast::SpecFormalParameter;
use crate::ast::SpecNode;
use crate::cursor::spec_expect;
use crate::error::ParseError;
use crate::member::spec_member_expression;
use crate::member::spec_member_tail;
use crate::expression::spec_argument_list;
use crate::expression::spec_arguments;
use crate::expression::spec_assignment_expression;
use crate::expression::spec_primary_expression;
use crate::expression::spec_scan_close;
use crate::expression::spec_starts_arrow;
use crate::function::spec_binding_identifier;
use crate::function::spec_formal_params_list;
use crate::function::spec_formal_parameters;
use crate::function::spec_function_body;
use crate::token::Keyword;
use crate::token::Punctuator;
use crate::token::Token;
use crate::token::keyword_chars;
use crate::token::TokenKind;

verus! {

/// The second stream is the first with one `;` and one `}` appended.
pub open spec fn ext_pair(t1: Seq<Token>, t2: Seq<Token>) -> bool {
    &&& t2.len() == t1.len() + 2
    &&& (forall|i: int| 0 <= i < t1.len() ==> t2[i] == t1[i])
    &&& t2[t1.len() as int].kind == TokenKind::Punctuator(Punctuator::Semicolon)
    &&& t2[t1.len() as int + 1].kind == TokenKind::Punctuator(Punctuator::CloseBlock)
}

/// How many tokens a parse that left `r` of `t` consumed.
pub open spec fn consumed(t: Seq<Token>, r: Seq<Token>) -> int {
    t.len() - r.len()
}

/// Dropping the same prefix from both streams keeps them an
/// extension pair.
proof fn lemma_ext_pair_skip(t1: Seq<Token>, t2: Seq<Token>, k: int)
    requires
        ext_pair(t1, t2),
        0 <= k <= t1.len(),
    ensures
        ext_pair(t1.skip(k), t2.skip(k)),
{
    let s1 = t1.skip(k);
    let s2 = t2.skip(k);
    assert forall|i: int| 0 <= i < s1.len() implies s2[i] == s1[i] by {
        assert(s1[i] == t1[k + i]);
        assert(s2[i] == t2[k + i]);
    }
    assert(s2[s1.len() as int] == t2[t1.len() as int]);
    assert(s2[s1.len() as int + 1] == t2[t1.len() as int + 1]);
}

/// Skipping twice is skipping the sum.
proof fn lemma_skip_of_skip(s: Seq<Token>, a: int, b: int)
    requires
        0 <= a,
        0 <= b,
        a + b <= s.len(),
    ensures
        s.skip(a).skip(b) == s.skip(a + b),
{
    assert(s.skip(a).skip(b) =~= s.skip(a + b));
}

/// A found closing parenthesis lies within the scanned stream.
proof fn lemma_scan_some_range(ts: Seq<Token>, k: int, depth: nat, cp: int)
    requires
        0 <= k,
        spec_scan_close(ts, k, depth) == Some(cp),
    ensures
        k <= cp < ts.len(),
        ts[cp].kind == TokenKind::Punctuator(Punctuator::CloseParen),
    decreases ts.len() - k,
{
    if 0 <= k < ts.len() {
        match ts[k].kind {
            TokenKind::Punctuator(Punctuator::OpenParen) => {
                lemma_scan_some_range(ts, k + 1, (depth + 1) as nat, cp);
            },
            TokenKind::Punctuator(Punctuator::CloseParen) => {
                if depth != 0 {
                    lemma_scan_some_range(ts, k + 1, (depth - 1) as nat, cp);
                }
            },
            _ => {
                lemma_scan_some_range(ts, k + 1, depth, cp);
            },
        }
    }
}

/// Appending `; }` to the stream does not change where a group closes.
proof fn lemma_ext_scan(t1: Seq<Token>, t2: Seq<Token>, k: int, depth: nat)
    requires
        ext_pair(t1, t2),
        0 <= k,
    ensures
        spec_scan_close(t2, k, depth) == spec_scan_close(t1, k, depth),
    decreases t2.len() - k,
{
    if k < t1.len() {
        assert(t2[k] == t1[k]);
        match t1[k].kind {
            TokenKind::Punctuator(Punctuator::OpenParen) => {
                lemma_ext_scan(t1, t2, k + 1, (depth + 1) as nat);
            },
            TokenKind::Punctuator(Punctuator::CloseParen) => {
                if depth != 0 {
                    lemma_ext_scan(t1, t2, k + 1, (depth - 1) as nat);
                }
            },
            _ => {
                lemma_ext_scan(t1, t2, k + 1, depth);
            },
        }
    } else {
        assert(spec_scan_close(t1, k, depth) is None);
        if k == t1.len() {
            assert(t2[k].kind == TokenKind::Punctuator(Punctuator::Semicolon));
            assert(t2[k + 1].kind == TokenKind::Punctuator(Punctuator::CloseBlock));
            assert(spec_scan_close(t2, k + 2, depth) is None);
        } else if k == t1.len() + 1 {
            assert(t2[k].kind == TokenKind::Punctuator(Punctuator::CloseBlock));
            assert(spec_scan_close(t2, k + 1, depth) is None);
        } else {
            assert(spec_scan_close(t2, k, depth) is None);
        }
    }
}

/// Appending `; }` does not change whether the stream starts an arrow
/// function.
proof fn lemma_ext_starts_arrow(t1: Seq<Token>, t2: Seq<Token>)
    requires
        ext_pair(t1, t2),
        t1.len() > 0,
    ensures
        spec_starts_arrow(t2) == spec_starts_arrow(t1),
{
    assert(t2[0] == t1[0]);
    if t1.len() > 1 {
        assert(t2[1] == t1[1]);
    } else {
        assert(t2[1].kind == TokenKind::Punctuator(Punctuator::Semicolon));
    }
    lemma_ext_scan(t1, t2, 1, 0);
    match spec_scan_close(t1, 1, 0) {
        Some(cp) => {
            lemma_scan_some_range(t1, 1, 0, cp);
            if cp + 1 < t1.len() {
                assert(t2[cp + 1] == t1[cp + 1]);
            } else {
                assert(t2[cp + 1].kind == TokenKind::Punctuator(Punctuator::Semicolon));
            }
        },
        None => {},
    }
}

/// Appending `; }` does not change a successful binding-identifier
/// parse; it consumes one token.
proof fn lemma_ext_binding_identifier(
    t1: Seq<Token>,
    t2: Seq<Token>,
    ay: bool,
    aa: bool,
    name: Seq<char>,
    r: Seq<Token>,
)
    requires
        ext_pair(t1, t2),
        spec_binding_identifier(t1, ay, aa) == Ok::<(Seq<char>, Seq<Token>), ParseError>(
            (name, r),
        ),
    ensures
        t1.len() >= 1,
        r == t1.skip(1),
        spec_binding_identifier(t2, ay, aa) == Ok::<(Seq<char>, Seq<Token>), ParseError>(
            (name, t2.skip(1)),
        ),
{
    assert(t2[0] == t1[0]);
}

/// Appending `; }` does not change a successful primary-expression
/// parse, beyond carrying the two tokens in the leftover.
proof fn lemma_ext_primary(
    t1: Seq<Token>,
    t2: Seq<Token>,
    ay: bool,
    aa: bool,
    fuel: nat,
    v: SpecNode,
    r: Seq<Token>,
)
    requires
        ext_pair(t1, t2),
        spec_primary_expression(t1, ay, aa, fuel) == Ok::<(SpecNode, Seq<Token>), ParseError>(
            (v, r),
        ),
    ensures
        0 <= consumed(t1, r) <= t1.len(),
        r == t1.skip(consumed(t1, r)),
        spec_primary_expression(t2, ay, aa, fuel) == Ok::<(SpecNode, Seq<Token>), ParseError>(
            (v, t2.skip(consumed(t1, r))),
        ),
    decreases fuel,
{
    assert(t2[0] == t1[0]);
    match t1[0].kind {
        TokenKind::Identifier(_) => {
            assert(r == t1.skip(1));
        },
        TokenKind::StringLiteral(_) => {
            assert(r == t1.skip(1));
        },
        TokenKind::Punctuator(Punctuator::OpenParen) => {
            let a = spec_assignment_expression(t1.skip(1), true, ay, aa, (fuel - 1) as nat);
            let (e0, s2) = a->Ok_0;
            lemma_ext_pair_skip(t1, t2, 1);
            lemma_ext_assignment(t1.skip(1), t2.skip(1), true, ay, aa, (fuel - 1) as nat, e0, s2);
            let j = consumed(t1.skip(1), s2);
            lemma_skip_of_skip(t1, 1, j);
            lemma_skip_of_skip(t2, 1, j);
            assert(s2 == t1.skip(1 + j));
            assert(s2.len() > 0);
            assert(s2[0] == t1[1 + j]);
            assert(t2.skip(1 + j)[0] == t2[1 + j]);
            assert(t2[1 + j] == t1[1 + j]);
            lemma_skip_of_skip(t1, 1 + j, 1);
            lemma_skip_of_skip(t2, 1 + j, 1);
            assert(r == t1.skip(2 + j));
            assert(consumed(t1, r) == 2 + j);
        },
        _ => {},
    }
}

/// Appending `; }` does not change a successful member-chain parse: the
/// semicolon ends the chain exactly as the end of the stream did.
proof fn lemma_ext_member_tail(
    lhs: SpecNode,
    t1: Seq<Token>,
    t2: Seq<Token>,
    ay: bool,
    aa: bool,
    fuel: nat,
    v: SpecNode,
    r: Seq<Token>,
)
    requires
        ext_pair(t1, t2),
        spec_member_tail(lhs, t1, ay, aa, fuel) == Ok::<(SpecNode, Seq<Token>), ParseError>(
            (v, r),
        ),
    ensures
        0 <= consumed(t1, r) <= t1.len(),
        r == t1.skip(consumed(t1, r)),
        spec_member_tail(lhs, t2, ay, aa, fuel) == Ok::<(SpecNode, Seq<Token>), ParseError>(
            (v, t2.skip(consumed(t1, r))),
        ),
    decreases fuel,
{
    if t1.len() == 0 {
        assert(r == t1);
        assert(r == t1.skip(0));
        assert(t2[0].kind == TokenKind::Punctuator(Punctuator::Semicolon));
        assert(t2.skip(0) =~= t2);
    } else {
        assert(t2[0] == t1[0]);
        match t1[0].kind {
            TokenKind::Punctuator(Punctuator::Dot) => {
                assert(t1.len() >= 2);
                assert(t2[1] == t1[1]);
                let lhs2 = match t1[1].kind {
                    TokenKind::Identifier(name) => SpecNode::GetConstField {
                        obj: Box::new(lhs),
                        field: name@,
                    },
                    TokenKind::Keyword(kw) => SpecNode::GetConstField {
                        obj: Box::new(lhs),
                        field: keyword_chars(kw),
                    },
                    _ => lhs,
                };
                lemma_ext_pair_skip(t1, t2, 2);
                lemma_ext_member_tail(
                    lhs2,
                    t1.skip(2),
                    t2.skip(2),
                    ay,
                    aa,
                    (fuel - 1) as nat,
                    v,
                    r,
                );
                let j = consumed(t1.skip(2), r);
                lemma_skip_of_skip(t1, 2, j);
                lemma_skip_of_skip(t2, 2, j);
                assert(r == t1.skip(2 + j));
            },
            TokenKind::Punctuator(Punctuator::OpenBracket) => {
                let a = spec_assignment_expression(t1.skip(1), true, ay, aa, (fuel - 1) as nat);
                let (idx, s2) = a->Ok_0;
                lemma_ext_pair_skip(t1, t2, 1);
                lemma_ext_assignment(
                    t1.skip(1),
                    t2.skip(1),
                    true,
                    ay,
                    aa,
                    (fuel - 1) as nat,
                    idx,
                    s2,
                );
                let j = consumed(t1.skip(1), s2);
                lemma_skip_of_skip(t1, 1, j);
                lemma_skip_of_skip(t2, 1, j);
                assert(s2 == t1.skip(1 + j));
                assert(s2.len() > 0);
                assert(s2[0] == t1[1 + j]);
                assert(t2.skip(1 + j)[0] == t2[1 + j]);
                assert(t2[1 + j] == t1[1 + j]);
                let s3 = s2.skip(1);
                lemma_skip_of_skip(t1, 1 + j, 1);
                lemma_skip_of_skip(t2, 1 + j, 1);
                assert(s3 == t1.skip(2 + j));
                let lhs2 = SpecNode::GetField { obj: Box::new(lhs), index: Box::new(idx) };
                lemma_ext_pair_skip(t1, t2, 2 + j);
                lemma_ext_member_tail(
                    lhs2,
                    t1.skip(2 + j),
                    t2.skip(2 + j),
                    ay,
                    aa,
                    (fuel - 1) as nat,
                    v,
                    r,
                );
                let m = consumed(t1.skip(2 + j), r);
                lemma_skip_of_skip(t1, 2 + j, m);
                lemma_skip_of_skip(t2, 2 + j, m);
                assert(r == t1.skip(2 + j + m));
            },
            _ => {
                assert(r == t1);
                assert(r == t1.skip(0));
                assert(t2.skip(0) =~= t2);
            },
        }
    }
}

/// Appending `; }` does not change a successful member-expression
/// parse.
proof fn lemma_ext_member(
    t1: Seq<Token>,
    t2: Seq<Token>,
    ay: bool,
    aa: bool,
    fuel: nat,
    v: SpecNode,
    r: Seq<Token>,
)
    requires
        ext_pair(t1, t2),
        spec_member_expression(t1, ay, aa, fuel) == Ok::<(SpecNode, Seq<Token>), ParseError>(
            (v, r),
        ),
    ensures
        0 <= consumed(t1, r) <= t1.len(),
        r == t1.skip(consumed(t1, r)),
        spec_member_expression(t2, ay, aa, fuel) == Ok::<(SpecNode, Seq<Token>), ParseError>(
            (v, t2.skip(consumed(t1, r))),
        ),
    decreases fuel,
{
    assert(t2[0] == t1[0]);
    if t1[0].kind == TokenKind::Keyword(Keyword::New) {
        let a = spec_member_expression(t1.skip(1), ay, aa, (fuel - 1) as nat);
        let (target, s2) = a->Ok_0;
        lemma_ext_pair_skip(t1, t2, 1);
        lemma_ext_member(t1.skip(1), t2.skip(1), ay, aa, (fuel - 1) as nat, target, s2);
        let j = consumed(t1.skip(1), s2);
        lemma_skip_of_skip(t1, 1, j);
        lemma_skip_of_skip(t2, 1, j);
        assert(s2 == t1.skip(1 + j));
        let b = spec_arguments(s2, ay, aa, (fuel - 1) as nat);
        let (args, s3) = b->Ok_0;
        lemma_ext_pair_skip(t1, t2, 1 + j);
        lemma_ext_arguments(
            t1.skip(1 + j),
            t2.skip(1 + j),
            ay,
            aa,
            (fuel - 1) as nat,
            args,
            s3,
        );
        let m = consumed(t1.skip(1 + j), s3);
        lemma_skip_of_skip(t1, 1 + j, m);
        lemma_skip_of_skip(t2, 1 + j, m);
        assert(s3 == t1.skip(1 + j + m));
        let lhs = SpecNode::New {
            call: Box::new(SpecNode::Call { callee: Box::new(target), args }),
        };
        lemma_ext_pair_skip(t1, t2, 1 + j + m);
        lemma_ext_member_tail(
            lhs,
            t1.skip(1 + j + m),
            t2.skip(1 + j + m),
            ay,
            aa,
            (fuel - 1) as nat,
            v,
            r,
        );
        let p = consumed(t1.skip(1 + j + m), r);
        lemma_skip_of_skip(t1, 1 + j + m, p);
        lemma_skip_of_skip(t2, 1 + j + m, p);
        assert(r == t1.skip(1 + j + m + p));
    } else {
        let a = spec_primary_expression(t1, ay, aa, (fuel - 1) as nat);
        let (lhs, s2) = a->Ok_0;
        lemma_ext_primary(t1, t2, ay, aa, (fuel - 1) as nat, lhs, s2);
        let j = consumed(t1, s2);
        assert(s2 == t1.skip(j));
        lemma_ext_pair_skip(t1, t2, j);
        lemma_ext_member_tail(lhs, t1.skip(j), t2.skip(j), ay, aa, (fuel - 1) as nat, v, r);
        let m = consumed(t1.skip(j), r);
        lemma_skip_of_skip(t1, j, m);
        lemma_skip_of_skip(t2, j, m);
        assert(r == t1.skip(j + m));
    }
}

/// Appending `; }` does not change a successful argument-list parse.
proof fn lemma_ext_argument_list(
    t1: Seq<Token>,
    t2: Seq<Token>,
    ay: bool,
    aa: bool,
    fuel: nat,
    v: Seq<SpecNode>,
    r: Seq<Token>,
)
    requires
        ext_pair(t1, t2),
        spec_argument_list(t1, ay, aa, fuel) == Ok::<(Seq<SpecNode>, Seq<Token>), ParseError>(
            (v, r),
        ),
    ensures
        0 <= consumed(t1, r) <= t1.len(),
        r == t1.skip(consumed(t1, r)),
        spec_argument_list(t2, ay, aa, fuel) == Ok::<(Seq<SpecNode>, Seq<Token>), ParseError>(
            (v, t2.skip(consumed(t1, r))),
        ),
    decreases fuel,
{
    let a = spec_assignment_expression(t1, true, ay, aa, (fuel - 1) as nat);
    let (e0, s2) = a->Ok_0;
    lemma_ext_assignment(t1, t2, true, ay, aa, (fuel - 1) as nat, e0, s2);
    let j = consumed(t1, s2);
    assert(s2 == t1.skip(j));
    assert(s2.len() > 0);
    assert(s2[0] == t1[j]);
    assert(t2.skip(j)[0] == t2[j]);
    assert(t2[j] == t1[j]);
    if s2[0].kind == TokenKind::Punctuator(Punctuator::Comma) {
        lemma_skip_of_skip(t1, j, 1);
        lemma_skip_of_skip(t2, j, 1);
        let b = spec_argument_list(s2.skip(1), ay, aa, (fuel - 1) as nat);
        let (rest, s3) = b->Ok_0;
        lemma_ext_pair_skip(t1, t2, j + 1);
        lemma_ext_argument_list(
            t1.skip(j + 1),
            t2.skip(j + 1),
            ay,
            aa,
            (fuel - 1) as nat,
            rest,
            s3,
        );
        let m = consumed(t1.skip(j + 1), s3);
        lemma_skip_of_skip(t1, j + 1, m);
        lemma_skip_of_skip(t2, j + 1, m);
        assert(r == t1.skip(j + 1 + m));
    } else {
        assert(s2[0].kind == TokenKind::Punctuator(Punctuator::CloseParen));
        lemma_skip_of_skip(t1, j, 1);
        lemma_skip_of_skip(t2, j, 1);
        assert(r == t1.skip(j + 1));
    }
}

/// Appending `; }` does not change a successful arguments parse.
proof fn lemma_ext_arguments(
    t1: Seq<Token>,
    t2: Seq<Token>,
    ay: bool,
    aa: bool,
    fuel: nat,
    v: Seq<SpecNode>,
    r: Seq<Token>,
)
    requires
        ext_pair(t1, t2),
        spec_arguments(t1, ay, aa, fuel) == Ok::<(Seq<SpecNode>, Seq<Token>), ParseError>((v, r)),
    ensures
        0 <= consumed(t1, r) <= t1.len(),
        r == t1.skip(consumed(t1, r)),
        spec_arguments(t2, ay, aa, fuel) == Ok::<(Seq<SpecNode>, Seq<Token>), ParseError>(
            (v, t2.skip(consumed(t1, r))),
        ),
    decreases fuel,
{
    assert(t1.len() > 0);
    assert(t2[0] == t1[0]);
    assert(t1[0].kind == TokenKind::Punctuator(Punctuator::OpenParen));
    let s1 = t1.skip(1);
    assert(s1.len() > 0);
    assert(s1[0] == t1[1]);
    assert(t2.skip(1)[0] == t2[1]);
    assert(t2[1] == t1[1]);
    if s1[0].kind == TokenKind::Punctuator(Punctuator::CloseParen) {
        lemma_skip_of_skip(t1, 1, 1);
        lemma_skip_of_skip(t2, 1, 1);
        assert(r == t1.skip(2));
    } else {
        lemma_ext_pair_skip(t1, t2, 1);
        let b = spec_argument_list(s1, ay, aa, (fuel - 1) as nat);
        let (args, s3) = b->Ok_0;
        lemma_ext_argument_list(t1.skip(1), t2.skip(1), ay, aa, (fuel - 1) as nat, args, s3);
        let m = consumed(t1.skip(1), s3);
        lemma_skip_of_skip(t1, 1, m);
        lemma_skip_of_skip(t2, 1, m);
        assert(r == t1.skip(1 + m));
    }
}

/// Appending `; }` does not change a successful formal-parameter-list
/// parse: the semicolon continues no list.
proof fn lemma_ext_formal_params_list(
    t1: Seq<Token>,
    t2: Seq<Token>,
    ay: bool,
    aa: bool,
    fuel: nat,
    v: Seq<SpecFormalParameter>,
    r: Seq<Token>,
)
    requires
        ext_pair(t1, t2),
        spec_formal_params_list(t1, ay, aa, fuel) == Ok::<
            (Seq<SpecFormalParameter>, Seq<Token>),
            ParseError,
        >((v, r)),
    ensures
        0 <= consumed(t1, r) <= t1.len(),
        r == t1.skip(consumed(t1, r)),
        spec_formal_params_list(t2, ay, aa, fuel) == Ok::<
            (Seq<SpecFormalParameter>, Seq<Token>),
            ParseError,
        >((v, t2.skip(consumed(t1, r)))),
    decreases fuel,
{
    let a = spec_binding_identifier(t1, ay, aa);
    let (name, s2) = a->Ok_0;
    lemma_ext_binding_identifier(t1, t2, ay, aa, name, s2);
    assert(s2 == t1.skip(1));
    let comma1 = s2.len() > 0 && s2[0].kind == TokenKind::Punctuator(Punctuator::Comma);
    let s2b = t2.skip(1);
    if s2.len() > 0 {
        assert(s2[0] == t1[1]);
        assert(s2b[0] == t2[1]);
        assert(t2[1] == t1[1]);
    } else {
        assert(s2b[0] == t2[1]);
        assert(t2[1].kind == TokenKind::Punctuator(Punctuator::Semicolon));
    }
    if comma1 {
        lemma_skip_of_skip(t1, 1, 1);
        lemma_skip_of_skip(t2, 1, 1);
        let b = spec_formal_params_list(s2.skip(1), ay, aa, (fuel - 1) as nat);
        let (rest, s3) = b->Ok_0;
        lemma_ext_pair_skip(t1, t2, 2);
        lemma_ext_formal_params_list(
            t1.skip(2),
            t2.skip(2),
            ay,
            aa,
            (fuel - 1) as nat,
            rest,
            s3,
        );
        let m = consumed(t1.skip(2), s3);
        lemma_skip_of_skip(t1, 2, m);
        lemma_skip_of_skip(t2, 2, m);
        assert(r == t1.skip(2 + m));
    } else {
        assert(r == t1.skip(1));
    }
}

/// Appending `; }` does not change a successful formal-parameters
/// parse.
proof fn lemma_ext_formal_parameters(
    t1: Seq<Token>,
    t2: Seq<Token>,
    ay: bool,
    aa: bool,
    fuel: nat,
    v: Seq<SpecFormalParameter>,
    r: Seq<Token>,
)
    requires
        ext_pair(t1, t2),
        spec_formal_parameters(t1, ay, aa, fuel) == Ok::<
            (Seq<SpecFormalParameter>, Seq<Token>),
            ParseError,
        >((v, r)),
    ensures
        0 <= consumed(t1, r) <= t1.len(),
        r == t1.skip(consumed(t1, r)),
        spec_formal_parameters(t2, ay, aa, fuel) == Ok::<
            (Seq<SpecFormalParameter>, Seq<Token>),
            ParseError,
        >((v, t2.skip(consumed(t1, r)))),
    decreases fuel,
{
    assert(t1.len() > 0);
    assert(t2[0] == t1[0]);
    if t1[0].kind == TokenKind::Punctuator(Punctuator::CloseParen) {
        assert(r == t1);
        assert(r == t1.skip(0));
        assert(t2.skip(0) =~= t2);
    } else {
        let b = spec_formal_params_list(t1, ay, aa, (fuel - 1) as nat);
        let (params, s2) = b->Ok_0;
        lemma_ext_formal_params_list(t1, t2, ay, aa, (fuel - 1) as nat, params, s2);
    }
}

/// Appending `; }` does not change a successful function-body parse
/// whose leftover is non-empty — as it is whenever a closing brace
/// still follows.
proof fn lemma_ext_function_body(
    t1: Seq<Token>,
    t2: Seq<Token>,
    ay: bool,
    aa: bool,
    fuel: nat,
    v: Seq<SpecNode>,
    r: Seq<Token>,
)
    requires
        ext_pair(t1, t2),
        spec_function_body(t1, ay, aa, fuel) == Ok::<(Seq<SpecNode>, Seq<Token>), ParseError>(
            (v, r),
        ),
        r.len() > 0,
    ensures
        0 <= consumed(t1, r) <= t1.len(),
        r == t1.skip(consumed(t1, r)),
        spec_function_body(t2, ay, aa, fuel) == Ok::<(Seq<SpecNode>, Seq<Token>), ParseError>(
            (v, t2.skip(consumed(t1, r))),
        ),
    decreases fuel,
{
    if t1.len() == 0 || t1[0].kind == TokenKind::Punctuator(Punctuator::CloseBlock) {
        assert(t1.len() > 0);
        assert(t2[0] == t1[0]);
        assert(r == t1);
        assert(r == t1.skip(0));
        assert(t2.skip(0) =~= t2);
    } else {
        assert(t2[0] == t1[0]);
        let is_return = t1[0].kind == TokenKind::Keyword(Keyword::Return);
        let off: int = if is_return {
            1
        } else {
            0
        };
        if is_return {
            lemma_ext_pair_skip(t1, t2, 1);
        } else {
            assert(t1.skip(0) =~= t1);
            assert(t2.skip(0) =~= t2);
        }
        let a = spec_assignment_expression(t1.skip(off), true, ay, aa, (fuel - 1) as nat);
        assert(a is Ok);
        let (e0, s2) = a->Ok_0;
        lemma_ext_assignment(
            t1.skip(off),
            t2.skip(off),
            true,
            ay,
            aa,
            (fuel - 1) as nat,
            e0,
            s2,
        );
        let j = consumed(t1.skip(off), s2);
        lemma_skip_of_skip(t1, off, j);
        lemma_skip_of_skip(t2, off, j);
        assert(s2 == t1.skip(off + j));
        assert(s2.len() > 0);
        assert(s2[0] == t1[off + j]);
        assert(t2.skip(off + j)[0] == t2[off + j]);
        assert(t2[off + j] == t1[off + j]);
        assert(s2[0].kind == TokenKind::Punctuator(Punctuator::Semicolon));
        let s3 = s2.skip(1);
        lemma_skip_of_skip(t1, off + j, 1);
        lemma_skip_of_skip(t2, off + j, 1);
        assert(s3 == t1.skip(off + j + 1));
        let b = spec_function_body(s3, ay, aa, (fuel - 1) as nat);
        let (rest, s4) = b->Ok_0;
        assert(s4 == r);
        lemma_ext_pair_skip(t1, t2, off + j + 1);
        lemma_ext_function_body(
            t1.skip(off + j + 1),
            t2.skip(off + j + 1),
            ay,
            aa,
            (fuel - 1) as nat,
            rest,
            s4,
        );
        let m = consumed(t1.skip(off + j + 1), s4);
        lemma_skip_of_skip(t1, off + j + 1, m);
        lemma_skip_of_skip(t2, off + j + 1, m);
        assert(r == t1.skip(off + j + 1 + m));
    }
}

/// Appending `; }` does not change a successful expression-body parse.
proof fn lemma_ext_expression_body(
    t1: Seq<Token>,
    t2: Seq<Token>,
    ai: bool,
    aa: bool,
    fuel: nat,
    v: SpecNode,
    r: Seq<Token>,
)
    requires
        ext_pair(t1, t2),
        spec_expression_body(t1, ai, aa, fuel) == Ok::<(SpecNode, Seq<Token>), ParseError>((v, r)),
    ensures
        0 <= consumed(t1, r) <= t1.len(),
        r == t1.skip(consumed(t1, r)),
        spec_expression_body(t2, ai, aa, fuel) == Ok::<(SpecNode, Seq<Token>), ParseError>(
            (v, t2.skip(consumed(t1, r))),
        ),
    decreases fuel,
{
    lemma_ext_assignment(t1, t2, ai, false, aa, (fuel - 1) as nat, v, r);
}

/// Appending `; }` does not change a successful concise-body parse.
proof fn lemma_ext_concise_body(
    t1: Seq<Token>,
    t2: Seq<Token>,
    ai: bool,
    fuel: nat,
    v: Seq<SpecNode>,
    r: Seq<Token>,
)
    requires
        ext_pair(t1, t2),
        spec_concise_body(t1, ai, fuel) == Ok::<(Seq<SpecNode>, Seq<Token>), ParseError>((v, r)),
    ensures
        0 <= consumed(t1, r) <= t1.len(),
        r == t1.skip(consumed(t1, r)),
        spec_concise_body(t2, ai, fuel) == Ok::<(Seq<SpecNode>, Seq<Token>), ParseError>(
            (v, t2.skip(consumed(t1, r))),
        ),
    decreases fuel,
{
    assert(t1.len() > 0);
    assert(t2[0] == t1[0]);
    if t1[0].kind == TokenKind::Punctuator(Punctuator::OpenBlock) {
        let a = spec_function_body(t1.skip(1), false, false, (fuel - 1) as nat);
        assert(a is Ok);
        let (stmts, s2) = a->Ok_0;
        assert(spec_expect(s2, Punctuator::CloseBlock) is Ok);
        assert(s2.len() > 0);
        lemma_ext_pair_skip(t1, t2, 1);
        lemma_ext_function_body(
            t1.skip(1),
            t2.skip(1),
            false,
            false,
            (fuel - 1) as nat,
            stmts,
            s2,
        );
        let j = consumed(t1.skip(1), s2);
        lemma_skip_of_skip(t1, 1, j);
        lemma_skip_of_skip(t2, 1, j);
        assert(s2 == t1.skip(1 + j));
        assert(s2[0] == t1[1 + j]);
        assert(t2.skip(1 + j)[0] == t2[1 + j]);
        assert(t2[1 + j] == t1[1 + j]);
        assert(s2[0].kind == TokenKind::Punctuator(Punctuator::CloseBlock));
        lemma_skip_of_skip(t1, 1 + j, 1);
        lemma_skip_of_skip(t2, 1 + j, 1);
        assert(r == t1.skip(2 + j));
    } else {
        let a = spec_expression_body(t1, ai, false, (fuel - 1) as nat);
        let (e0, s2) = a->Ok_0;
        lemma_ext_expression_body(t1, t2, ai, false, (fuel - 1) as nat, e0, s2);
    }
}

/// Appending `; }` does not change a successful arrow-function parse.
#[verifier::rlimit(60)]
proof fn lemma_ext_arrow(
    t1: Seq<Token>,
    t2: Seq<Token>,
    ai: bool,
    ay: bool,
    aa: bool,
    fuel: nat,
    v: SpecNode,
    r: Seq<Token>,
)
    requires
        ext_pair(t1, t2),
        spec_arrow_function(t1, ai, ay, aa, fuel) == Ok::<(SpecNode, Seq<Token>), ParseError>(
            (v, r),
        ),
    ensures
        0 <= consumed(t1, r) <= t1.len(),
        r == t1.skip(consumed(t1, r)),
        spec_arrow_function(t2, ai, ay, aa, fuel) == Ok::<(SpecNode, Seq<Token>), ParseError>(
            (v, t2.skip(consumed(t1, r))),
        ),
    decreases fuel,
{
    assert(t1.len() > 0);
    assert(t2[0] == t1[0]);
    let pr: int;
    if t1[0].kind == TokenKind::Punctuator(Punctuator::OpenParen) {
        let a = spec_formal_parameters(t1.skip(1), ay, aa, (fuel - 1) as nat);
        let (params, s2) = a->Ok_0;
        lemma_ext_pair_skip(t1, t2, 1);
        lemma_ext_formal_parameters(
            t1.skip(1),
            t2.skip(1),
            ay,
            aa,
            (fuel - 1) as nat,
            params,
            s2,
        );
        let j = consumed(t1.skip(1), s2);
        lemma_skip_of_skip(t1, 1, j);
        lemma_skip_of_skip(t2, 1, j);
        assert(s2 == t1.skip(1 + j));
        assert(s2.len() > 0);
        assert(s2[0] == t1[1 + j]);
        assert(t2.skip(1 + j)[0] == t2[1 + j]);
        assert(t2[1 + j] == t1[1 + j]);
        assert(s2[0].kind == TokenKind::Punctuator(Punctuator::CloseParen));
        lemma_skip_of_skip(t1, 1 + j, 1);
        lemma_skip_of_skip(t2, 1 + j, 1);
        pr = 2 + j;
    } else {
        let a = spec_binding_identifier(t1, ay, aa);
        let (name, s2) = a->Ok_0;
        lemma_ext_binding_identifier(t1, t2, ay, aa, name, s2);
        pr = 1;
    }
    // After the parameter list: the restricted check, the arrow, the body.
    let s3 = t1.skip(pr);
    assert(s3.len() > 0);
    assert(s3[0] == t1[pr]);
    assert(t2.skip(pr)[0] == t2[pr]);
    assert(t2[pr] == t1[pr]);
    assert(!s3[0].lt_before);
    assert(s3[0].kind == TokenKind::Punctuator(Punctuator::Arrow));
    lemma_skip_of_skip(t1, pr, 1);
    lemma_skip_of_skip(t2, pr, 1);
    let s4 = t1.skip(pr + 1);
    let b = spec_concise_body(s4, ai, (fuel - 1) as nat);
    let (body, s5) = b->Ok_0;
    lemma_ext_pair_skip(t1, t2, pr + 1);
    lemma_ext_concise_body(
        t1.skip(pr + 1),
        t2.skip(pr + 1),
        ai,
        (fuel - 1) as nat,
        body,
        s5,
    );
    let m = consumed(t1.skip(pr + 1), s5);
    lemma_skip_of_skip(t1, pr + 1, m);
    lemma_skip_of_skip(t2, pr + 1, m);
    assert(r == t1.skip(pr + 1 + m));
}

/// Appending `; }` does not change a successful assignment-expression
/// parse.
proof fn lemma_ext_assignment(
    t1: Seq<Token>,
    t2: Seq<Token>,
    ai: bool,
    ay: bool,
    aa: bool,
    fuel: nat,
    v: SpecNode,
    r: Seq<Token>,
)
    requires
        ext_pair(t1, t2),
        spec_assignment_expression(t1, ai, ay, aa, fuel) == Ok::<
            (SpecNode, Seq<Token>),
            ParseError,
        >((v, r)),
    ensures
        0 <= consumed(t1, r) <= t1.len(),
        r == t1.skip(consumed(t1, r)),
        spec_assignment_expression(t2, ai, ay, aa, fuel) == Ok::<
            (SpecNode, Seq<Token>),
            ParseError,
        >((v, t2.skip(consumed(t1, r)))),
    decreases fuel,
{
    assert(t1.len() > 0);
    lemma_ext_starts_arrow(t1, t2);
    if spec_starts_arrow(t1) {
        lemma_ext_arrow(t1, t2, ai, ay, aa, (fuel - 1) as nat, v, r);
    } else {
        lemma_ext_member(t1, t2, ay, aa, (fuel - 1) as nat, v, r);
    }
}

/// Concise-body normalization: for any expression written with tokens
/// `ts`, an arrow body written `ts` and one written `{ return ts ; }`
/// parse to the same one-element statement list wrapping a return of
/// the expression.
pub proof fn lemma_concise_body_normalization(
    ts: Seq<Token>,
    e: SpecNode,
    ob: Token,
    rk: Token,
    sm: Token,
    cb: Token,
    fuel: nat,
)
    requires
        spec_assignment_expression(ts, true, false, false, fuel) == Ok::<
            (SpecNode, Seq<Token>),
            ParseError,
        >((e, Seq::<Token>::empty())),
        ts.len() > 0,
        ts[0].kind != TokenKind::Punctuator(Punctuator::OpenBlock),
        ob.kind == TokenKind::Punctuator(Punctuator::OpenBlock),
        rk.kind == TokenKind::Keyword(Keyword::Return),
        sm.kind == TokenKind::Punctuator(Punctuator::Semicolon),
        cb.kind == TokenKind::Punctuator(Punctuator::CloseBlock),
    ensures
        spec_concise_body(ts, true, (fuel + 2) as nat) == Ok::<
            (Seq<SpecNode>, Seq<Token>),
            ParseError,
        >((seq![SpecNode::Return { expr: Box::new(e) }], Seq::<Token>::empty())),
        spec_concise_body(seq![ob, rk] + ts + seq![sm, cb], true, (fuel + 2) as nat) == Ok::<
            (Seq<SpecNode>, Seq<Token>),
            ParseError,
        >((seq![SpecNode::Return { expr: Box::new(e) }], Seq::<Token>::empty())),
{
    assert(fuel >= 1);
    let body = seq![SpecNode::Return { expr: Box::new(e) }];

    // The expression form wraps the parsed expression in a return.
    assert(spec_expression_body(ts, true, false, (fuel + 1) as nat) == Ok::<
        (SpecNode, Seq<Token>),
        ParseError,
    >((e, Seq::<Token>::empty())));
    assert(spec_concise_body(ts, true, (fuel + 2) as nat) == Ok::<
        (Seq<SpecNode>, Seq<Token>),
        ParseError,
    >((body, Seq::<Token>::empty())));

    // The block form parses the same expression, with `; }` behind it.
    let t2full = seq![ob, rk] + ts + seq![sm, cb];
    let t2body = seq![rk] + ts + seq![sm, cb];
    let t2e = ts + seq![sm, cb];
    assert(t2full[0] == ob);
    assert(t2full.skip(1) =~= t2body);
    assert(t2body[0] == rk);
    assert(t2body.skip(1) =~= t2e);
    assert(ext_pair(ts, t2e)) by {
        assert forall|i: int| 0 <= i < ts.len() implies t2e[i] == ts[i] by {}
        assert(t2e[ts.len() as int] == sm);
        assert(t2e[ts.len() as int + 1] == cb);
    }
    lemma_ext_assignment(ts, t2e, true, false, false, fuel, e, Seq::<Token>::empty());
    let tail = t2e.skip(ts.len() as int);
    assert(tail =~= seq![sm, cb]);
    assert(spec_assignment_expression(t2e, true, false, false, fuel) == Ok::<
        (SpecNode, Seq<Token>),
        ParseError,
    >((e, seq![sm, cb])));

    // The semicolon ends the return statement; the brace ends the body.
    assert(seq![sm, cb][0] == sm);
    assert(seq![sm, cb].skip(1) =~= seq![cb]);
    assert(spec_expect(seq![sm, cb], Punctuator::Semicolon) == Ok::<Seq<Token>, ParseError>(
        seq![cb],
    ));
    assert(seq![cb][0] == cb);
    assert(spec_function_body(seq![cb], false, false, (fuel - 1) as nat) == Ok::<
        (Seq<SpecNode>, Seq<Token>),
        ParseError,
    >((Seq::<SpecNode>::empty(), seq![cb])));
    assert(body + Seq::<SpecNode>::empty() =~= body);
    assert(spec_function_body(t2body, false, false, (fuel + 1) as nat) == Ok::<
        (Seq<SpecNode>, Seq<Token>),
        ParseError,
    >((body, seq![cb])));
    assert(seq![cb].skip(1) =~= Seq::<Token>::empty());
    assert(spec_expect(seq![cb], Punctuator::CloseBlock) == Ok::<Seq<Token>, ParseError>(
        Seq::<Token>::empty(),
    ));
    assert(spec_concise_body(t2full, true, (fuel + 2) as nat) == Ok::<
        (Seq<SpecNode>, Seq<Token>),
        ParseError,
    >((body, Seq::<Token>::empty())));
}

/// Shorthand and parenthesized parameter lists are interchangeable:
/// for any identifier token `x`, parsing an arrow function from
/// `x … ` and from `( x ) … ` with the same continuation yields the
/// very same result — the same one-parameter list (no default, not
/// rest), the same body, the same leftover tokens, or the same error.
pub proof fn lemma_shorthand_parenthesized_equivalence(
    x: Token,
    op: Token,
    cl: Token,
    rest: Seq<Token>,
    allow_in: bool,
    allow_yield: bool,
    allow_await: bool,
    fuel: nat,
)
    requires
        x.kind matches TokenKind::Identifier(_),
        op.kind == TokenKind::Punctuator(Punctuator::OpenParen),
        cl.kind == TokenKind::Punctuator(Punctuator::CloseParen),
        fuel >= 3,
    ensures
        spec_arrow_function(seq![x] + rest, allow_in, allow_yield, allow_await, fuel)
            == spec_arrow_function(
            seq![op, x, cl] + rest,
            allow_in,
            allow_yield,
            allow_await,
            fuel,
        ),
{
    let t1 = seq![x] + rest;
    let t2 = seq![op, x, cl] + rest;
    let name = x.kind->Identifier_0@;
    let param = SpecFormalParameter { name, init: None, rest: false };

    // The shorthand form binds the identifier directly.
    assert(t1[0] == x);
    assert(t1.skip(1) =~= rest);
    assert(spec_binding_identifier(t1, allow_yield, allow_await) == Ok::<
        (Seq<char>, Seq<Token>),
        ParseError,
    >((name, rest)));

    // The parenthesized form reaches the same single parameter.
    let inner = seq![x, cl] + rest;
    assert(t2[0] == op);
    assert(t2.skip(1) =~= inner);
    assert(inner[0] == x);
    assert(inner.skip(1) =~= seq![cl] + rest);
    assert(spec_binding_identifier(inner, allow_yield, allow_await) == Ok::<
        (Seq<char>, Seq<Token>),
        ParseError,
    >((name, seq![cl] + rest)));
    assert((seq![cl] + rest)[0] == cl);
    assert(spec_formal_params_list(inner, allow_yield, allow_await, (fuel - 2) as nat) == Ok::<
        (Seq<SpecFormalParameter>, Seq<Token>),
        ParseError,
    >((seq![param], seq![cl] + rest)));
    assert(spec_formal_parameters(inner, allow_yield, allow_await, (fuel - 1) as nat) == Ok::<
        (Seq<SpecFormalParameter>, Seq<Token>),
        ParseError,
    >((seq![param], seq![cl] + rest)));
    assert((seq![cl] + rest).skip(1) =~= rest);
    assert(spec_expect(seq![cl] + rest, Punctuator::CloseParen) == Ok::<
        Seq<Token>,
        ParseError,
    >(rest));

    // From the parameter list on, the two parses are the same parse.
    assert(spec_arrow_function(t1, allow_in, allow_yield, allow_await, fuel)
        == spec_arrow_function(t2, allow_in, allow_yield, allow_await, fuel));
}

} // verus!
