use expr_parser::ArrowFunction;
use expr_parser::Cursor;
use expr_parser::Expected;
use expr_parser::Keyword;
use expr_parser::MemberExpression;
use expr_parser::Node;
use expr_parser::ParseError;
use expr_parser::Punctuator;
use expr_parser::Token;
use expr_parser::TokenKind;
use expr_parser::ArrowFunctionDecl;
use expr_parser::FormalParameter;
use expr_parser::assignment_expression;

const FUEL: u32 = 64;

fn punct(p: Punctuator) -> Token {
    Token { kind: TokenKind::Punctuator(p), lt_before: false }
}

fn kw(k: Keyword) -> Token {
    Token { kind: TokenKind::Keyword(k), lt_before: false }
}

fn ident(name: &str) -> Token {
    Token { kind: TokenKind::Identifier(name.to_string()), lt_before: false }
}

fn strlit(value: &str) -> Token {
    Token { kind: TokenKind::StringLiteral(value.to_string()), lt_before: false }
}

fn ident_node(name: &str) -> Node {
    Node::Identifier(name.to_string())
}

fn simple_param(name: &str) -> FormalParameter {
    FormalParameter { name: name.to_string(), init: None, rest: false }
}

fn parse_arrow(tokens: Vec<Token>) -> Result<ArrowFunctionDecl, ParseError> {
    let mut c = Cursor::new(tokens);
    ArrowFunction::new(true, false, false).parse(&mut c, FUEL)
}

fn parse_member(tokens: Vec<Token>) -> Result<Node, ParseError> {
    let mut c = Cursor::new(tokens);
    MemberExpression::new(false, false).parse(&mut c, FUEL)
}

#[test]
fn shorthand_and_parenthesized_params_agree() {
    let short = parse_arrow(vec![ident("x"), punct(Punctuator::Arrow), ident("x")]).unwrap();
    let paren = parse_arrow(vec![
        punct(Punctuator::OpenParen),
        ident("x"),
        punct(Punctuator::CloseParen),
        punct(Punctuator::Arrow),
        ident("x"),
    ])
    .unwrap();
    assert_eq!(short.params, paren.params);
    assert_eq!(short.body, paren.body);
    assert_eq!(short.params, vec![simple_param("x")]);
}

#[test]
fn concise_body_normalizes_to_return_statement() {
    let concise = parse_arrow(vec![
        ident("p"),
        punct(Punctuator::Arrow),
        ident("a"),
        punct(Punctuator::Dot),
        ident("b"),
    ])
    .unwrap();
    let block = parse_arrow(vec![
        ident("p"),
        punct(Punctuator::Arrow),
        punct(Punctuator::OpenBlock),
        kw(Keyword::Return),
        ident("a"),
        punct(Punctuator::Dot),
        ident("b"),
        punct(Punctuator::Semicolon),
        punct(Punctuator::CloseBlock),
    ])
    .unwrap();
    assert_eq!(concise.body, block.body);
    assert_eq!(
        concise.body,
        vec![Node::Return(Box::new(Node::GetConstField(
            Box::new(ident_node("a")),
            "b".to_string()
        )))]
    );
}

#[test]
fn line_break_before_arrow_is_restricted() {
    let broken = parse_arrow(vec![
        punct(Punctuator::OpenParen),
        ident("x"),
        punct(Punctuator::CloseParen),
        Token { kind: TokenKind::Punctuator(Punctuator::Arrow), lt_before: true },
        ident("x"),
    ]);
    assert_eq!(broken, Err(ParseError::RestrictedProduction));

    let joined = parse_arrow(vec![
        punct(Punctuator::OpenParen),
        ident("x"),
        punct(Punctuator::CloseParen),
        punct(Punctuator::Arrow),
        ident("x"),
    ]);
    assert!(joined.is_ok());
}

#[test]
fn member_chains_are_left_associative() {
    let node = parse_member(vec![
        ident("a"),
        punct(Punctuator::Dot),
        ident("b"),
        punct(Punctuator::Dot),
        ident("c"),
    ])
    .unwrap();
    assert_eq!(
        node,
        Node::GetConstField(
            Box::new(Node::GetConstField(Box::new(ident_node("a")), "b".to_string())),
            "c".to_string()
        )
    );
}

#[test]
fn computed_access_differs_from_constant_access() {
    let computed = parse_member(vec![
        ident("a"),
        punct(Punctuator::OpenBracket),
        strlit("b"),
        punct(Punctuator::CloseBracket),
    ])
    .unwrap();
    assert_eq!(
        computed,
        Node::GetField(
            Box::new(ident_node("a")),
            Box::new(Node::StringLiteral("b".to_string()))
        )
    );
    let constant = parse_member(vec![ident("a"), punct(Punctuator::Dot), ident("b")]).unwrap();
    assert_eq!(
        constant,
        Node::GetConstField(Box::new(ident_node("a")), "b".to_string())
    );
    assert_ne!(computed, constant);
}

#[test]
fn new_chains_nest_one_call_per_new() {
    let node = parse_member(vec![
        kw(Keyword::New),
        kw(Keyword::New),
        ident("Foo"),
        punct(Punctuator::OpenParen),
        punct(Punctuator::CloseParen),
        punct(Punctuator::OpenParen),
        punct(Punctuator::CloseParen),
    ])
    .unwrap();
    let inner = Node::New(Box::new(Node::Call(Box::new(ident_node("Foo")), vec![])));
    assert_eq!(node, Node::New(Box::new(Node::Call(Box::new(inner), vec![]))));
}

#[test]
fn keyword_is_allowed_as_property_name() {
    let node = parse_member(vec![ident("a"), punct(Punctuator::Dot), kw(Keyword::New)]).unwrap();
    assert_eq!(
        node,
        Node::GetConstField(Box::new(ident_node("a")), "new".to_string())
    );
    let ret = parse_member(vec![ident("a"), punct(Punctuator::Dot), kw(Keyword::Return)]).unwrap();
    assert_eq!(
        ret,
        Node::GetConstField(Box::new(ident_node("a")), "return".to_string())
    );
}

#[test]
fn lone_open_paren_is_abrupt_end() {
    let r = parse_arrow(vec![punct(Punctuator::OpenParen)]);
    assert_eq!(r, Err(ParseError::AbruptEnd));
}

#[test]
fn empty_parameter_list() {
    let decl = parse_arrow(vec![
        punct(Punctuator::OpenParen),
        punct(Punctuator::CloseParen),
        punct(Punctuator::Arrow),
        ident("x"),
    ])
    .unwrap();
    assert_eq!(decl.params, vec![]);
    assert_eq!(decl.body, vec![Node::Return(Box::new(ident_node("x")))]);
}

#[test]
fn two_parameters_in_order() {
    let decl = parse_arrow(vec![
        punct(Punctuator::OpenParen),
        ident("a"),
        punct(Punctuator::Comma),
        ident("b"),
        punct(Punctuator::CloseParen),
        punct(Punctuator::Arrow),
        ident("a"),
    ])
    .unwrap();
    assert_eq!(decl.params, vec![simple_param("a"), simple_param("b")]);
}

#[test]
fn trailing_comma_in_parameters_is_rejected() {
    let r = parse_arrow(vec![
        punct(Punctuator::OpenParen),
        ident("a"),
        punct(Punctuator::Comma),
        punct(Punctuator::CloseParen),
        punct(Punctuator::Arrow),
        ident("a"),
    ]);
    assert_eq!(
        r,
        Err(ParseError::UnexpectedToken {
            expected: Expected::BindingIdentifier,
            found: punct(Punctuator::CloseParen),
        })
    );
}

#[test]
fn block_body_collects_statements() {
    let decl = parse_arrow(vec![
        ident("f"),
        punct(Punctuator::Arrow),
        punct(Punctuator::OpenBlock),
        ident("a"),
        punct(Punctuator::Semicolon),
        kw(Keyword::Return),
        ident("b"),
        punct(Punctuator::Semicolon),
        punct(Punctuator::CloseBlock),
    ])
    .unwrap();
    assert_eq!(
        decl.body,
        vec![ident_node("a"), Node::Return(Box::new(ident_node("b")))]
    );
}

#[test]
fn empty_block_body() {
    let decl = parse_arrow(vec![
        ident("f"),
        punct(Punctuator::Arrow),
        punct(Punctuator::OpenBlock),
        punct(Punctuator::CloseBlock),
    ])
    .unwrap();
    assert_eq!(decl.body, vec![]);
}

#[test]
fn new_with_arguments_keeps_their_order() {
    let node = parse_member(vec![
        kw(Keyword::New),
        ident("Foo"),
        punct(Punctuator::OpenParen),
        ident("a"),
        punct(Punctuator::Comma),
        ident("b"),
        punct(Punctuator::CloseParen),
    ])
    .unwrap();
    assert_eq!(
        node,
        Node::New(Box::new(Node::Call(
            Box::new(ident_node("Foo")),
            vec![ident_node("a"), ident_node("b")]
        )))
    );
}

#[test]
fn parenthesized_expression_takes_member_path() {
    let node = parse_member(vec![
        punct(Punctuator::OpenParen),
        ident("a"),
        punct(Punctuator::CloseParen),
        punct(Punctuator::Dot),
        ident("b"),
    ])
    .unwrap();
    assert_eq!(
        node,
        Node::GetConstField(Box::new(ident_node("a")), "b".to_string())
    );
}

#[test]
fn assignment_dispatches_to_arrow() {
    let mut c = Cursor::new(vec![ident("x"), punct(Punctuator::Arrow), ident("x")]);
    let node = assignment_expression(&mut c, true, false, false, FUEL).unwrap();
    match node {
        Node::ArrowFunctionDecl(decl) => {
            assert_eq!(decl.params, vec![simple_param("x")]);
        },
        other => panic!("expected an arrow function, got {:?}", other),
    }
}

#[test]
fn dot_followed_by_punctuator_is_unexpected() {
    let r = parse_member(vec![ident("a"), punct(Punctuator::Dot), punct(Punctuator::OpenParen)]);
    assert_eq!(
        r,
        Err(ParseError::UnexpectedToken {
            expected: Expected::IdentifierName,
            found: punct(Punctuator::OpenParen),
        })
    );
}

#[test]
fn missing_close_bracket_is_abrupt_end() {
    let r = parse_member(vec![ident("a"), punct(Punctuator::OpenBracket), ident("b")]);
    assert_eq!(r, Err(ParseError::AbruptEnd));
}

#[test]
fn wrong_close_bracket_is_unexpected() {
    let r = parse_member(vec![
        ident("a"),
        punct(Punctuator::OpenBracket),
        ident("b"),
        punct(Punctuator::CloseParen),
    ]);
    assert_eq!(
        r,
        Err(ParseError::UnexpectedToken {
            expected: Expected::Punctuator(Punctuator::CloseBracket),
            found: punct(Punctuator::CloseParen),
        })
    );
}

#[test]
fn exhausted_fuel_reports_recursion_limit() {
    let mut c = Cursor::new(vec![ident("a")]);
    let r = MemberExpression::new(false, false).parse(&mut c, 1);
    assert_eq!(r, Err(ParseError::RecursionLimitExceeded));
}

#[test]
fn yield_binds_only_outside_generator_context() {
    let relaxed = {
        let mut c = Cursor::new(vec![kw(Keyword::Yield), punct(Punctuator::Arrow), ident("x")]);
        ArrowFunction::new(true, false, false).parse(&mut c, FUEL)
    };
    assert_eq!(relaxed.unwrap().params, vec![simple_param("yield")]);

    let reserved = {
        let mut c = Cursor::new(vec![kw(Keyword::Yield), punct(Punctuator::Arrow), ident("x")]);
        ArrowFunction::new(true, true, false).parse(&mut c, FUEL)
    };
    assert_eq!(
        reserved,
        Err(ParseError::UnexpectedToken {
            expected: Expected::BindingIdentifier,
            found: kw(Keyword::Yield),
        })
    );
}

#[test]
fn line_break_elsewhere_is_not_restricted() {
    let decl = parse_arrow(vec![
        punct(Punctuator::OpenParen),
        Token { kind: TokenKind::Identifier("x".to_string()), lt_before: true },
        punct(Punctuator::CloseParen),
        punct(Punctuator::Arrow),
        ident("x"),
    ])
    .unwrap();
    assert_eq!(decl.params, vec![simple_param("x")]);
}

#[test]
fn empty_input_is_abrupt_end_for_member() {
    assert_eq!(parse_member(vec![]), Err(ParseError::AbruptEnd));
}

#[test]
fn line_break_before_arrow_in_shorthand_is_restricted() {
    let mut c = Cursor::new(vec![
        ident("x"),
        Token { kind: TokenKind::Punctuator(Punctuator::Arrow), lt_before: true },
        ident("x"),
    ]);
    let r = ArrowFunction::new(true, false, false).parse(&mut c, FUEL);
    assert_eq!(r, Err(ParseError::RestrictedProduction));
}

#[test]
fn member_parse_stops_before_foreign_token() {
    let mut c = Cursor::new(vec![
        ident("a"),
        punct(Punctuator::Dot),
        ident("b"),
        punct(Punctuator::Semicolon),
        ident("c"),
    ]);
    let node = MemberExpression::new(false, false).parse(&mut c, FUEL).unwrap();
    assert_eq!(
        node,
        Node::GetConstField(Box::new(ident_node("a")), "b".to_string())
    );
    assert_eq!(c.position(), 3);
}

#[test]
fn dot_at_start_is_no_primary_expression() {
    let r = parse_member(vec![punct(Punctuator::Dot)]);
    assert_eq!(
        r,
        Err(ParseError::UnexpectedToken {
            expected: Expected::PrimaryExpression,
            found: punct(Punctuator::Dot),
        })
    );
}

#[test]
fn string_literal_body_is_returned() {
    let decl = parse_arrow(vec![ident("f"), punct(Punctuator::Arrow), strlit("hi")]).unwrap();
    assert_eq!(
        decl.body,
        vec![Node::Return(Box::new(Node::StringLiteral("hi".to_string())))]
    );
}

#[test]
fn bracket_and_dot_accessors_mix_left_to_right() {
    let node = parse_member(vec![
        ident("a"),
        punct(Punctuator::OpenBracket),
        ident("i"),
        punct(Punctuator::CloseBracket),
        punct(Punctuator::Dot),
        ident("b"),
    ])
    .unwrap();
    assert_eq!(
        node,
        Node::GetConstField(
            Box::new(Node::GetField(
                Box::new(ident_node("a")),
                Box::new(ident_node("i"))
            )),
            "b".to_string()
        )
    );
}

#[test]
fn await_binds_only_outside_async_context() {
    let relaxed = {
        let mut c = Cursor::new(vec![kw(Keyword::Await), punct(Punctuator::Arrow), ident("x")]);
        ArrowFunction::new(true, false, false).parse(&mut c, FUEL)
    };
    assert_eq!(relaxed.unwrap().params, vec![simple_param("await")]);

    let reserved = {
        let mut c = Cursor::new(vec![kw(Keyword::Await), punct(Punctuator::Arrow), ident("x")]);
        ArrowFunction::new(true, false, true).parse(&mut c, FUEL)
    };
    assert_eq!(
        reserved,
        Err(ParseError::UnexpectedToken {
            expected: Expected::BindingIdentifier,
            found: kw(Keyword::Await),
        })
    );
}

#[test]
fn nested_arrow_as_concise_body() {
    let decl = parse_arrow(vec![
        ident("a"),
        punct(Punctuator::Arrow),
        ident("b"),
        punct(Punctuator::Arrow),
        ident("b"),
    ])
    .unwrap();
    let inner = ArrowFunctionDecl {
        params: vec![simple_param("b")],
        body: vec![Node::Return(Box::new(ident_node("b")))],
    };
    assert_eq!(
        decl.body,
        vec![Node::Return(Box::new(Node::ArrowFunctionDecl(inner)))]
    );
}
