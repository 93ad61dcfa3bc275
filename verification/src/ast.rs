//! The abstract syntax tree built by the parser, together with its
//! mathematical model.
//!
//! Every executable node type has a ghost counterpart over `Seq` and
//! `Box`; the parser's contracts are stated over those models.

use vstd::prelude::*;

verus! {

/// Ghost model of an expression or statement node.
pub enum SpecNode {
    /// A variable reference.
    Identifier { name: Seq<char> },
    /// A string literal.
    StringLiteral { value: Seq<char> },
    /// A function call: callee and ordered arguments.
    Call { callee: Box<SpecNode>, args: Seq<SpecNode> },
    /// A `new` expression wrapping the call that constructs the object.
    New { call: Box<SpecNode> },
    /// Property access through a statically known name: `obj.field`.
    GetConstField { obj: Box<SpecNode>, field: Seq<char> },
    /// Property access through a computed index: `obj[index]`.
    GetField { obj: Box<SpecNode>, index: Box<SpecNode> },
    /// A `return` statement.
    Return { expr: Box<SpecNode> },
    /// An arrow function definition.
    ArrowFunctionDecl { params: Seq<SpecFormalParameter>, body: Seq<SpecNode> },
}

/// Ghost model of a formal parameter.
pub struct SpecFormalParameter {
    pub name: Seq<char>,
    pub init: Option<Box<SpecNode>>,
    pub rest: bool,
}

/// An expression or statement node; a fully formed, self-contained subtree.
#[derive(Debug, PartialEq)]
pub enum Node {
    /// A variable reference.
    Identifier(String),
    /// A string literal.
    StringLiteral(String),
    /// A function call: callee and ordered arguments.
    Call(Box<Node>, Vec<Node>),
    /// A `new` expression wrapping the call that constructs the object.
    New(Box<Node>),
    /// Property access through a statically known name: `obj.field`.
    GetConstField(Box<Node>, String),
    /// Property access through a computed index: `obj[index]`.
    GetField(Box<Node>, Box<Node>),
    /// A `return` statement.
    Return(Box<Node>),
    /// An arrow function definition.
    ArrowFunctionDecl(ArrowFunctionDecl),
}

/// A formal parameter of a function: a binding name, an optional
/// default value, and whether it is a rest parameter.
#[derive(Debug, PartialEq)]
pub struct FormalParameter {
    pub name: String,
    pub init: Option<Box<Node>>,
    pub rest: bool,
}

/// An arrow function definition: its parameters and its body,
/// always normalized to a statement list.
#[derive(Debug, PartialEq)]
pub struct ArrowFunctionDecl {
    pub params: Vec<FormalParameter>,
    pub body: Vec<Node>,
}

/// The ghost model of a node.
pub open spec fn node_model(n: Node) -> SpecNode
    decreases n,
{
    match n {
        Node::Identifier(name) => SpecNode::Identifier { name: name@ },
        Node::StringLiteral(value) => SpecNode::StringLiteral { value: value@ },
        Node::Call(callee, args) => SpecNode::Call {
            callee: Box::new(node_model(*callee)),
            args: node_list_model(args@),
        },
        Node::New(call) => SpecNode::New { call: Box::new(node_model(*call)) },
        Node::GetConstField(obj, field) => SpecNode::GetConstField {
            obj: Box::new(node_model(*obj)),
            field: field@,
        },
        Node::GetField(obj, index) => SpecNode::GetField {
            obj: Box::new(node_model(*obj)),
            index: Box::new(node_model(*index)),
        },
        Node::Return(expr) => SpecNode::Return { expr: Box::new(node_model(*expr)) },
        Node::ArrowFunctionDecl(decl) => SpecNode::ArrowFunctionDecl {
            params: param_list_model(decl.params@),
            body: node_list_model(decl.body@),
        },
    }
}

/// The ghost model of a formal parameter.
pub open spec fn param_model(p: FormalParameter) -> SpecFormalParameter
    decreases p,
{
    SpecFormalParameter {
        name: p.name@,
        init: match p.init {
            Some(n) => Some(Box::new(node_model(*n))),
            None => None,
        },
        rest: p.rest,
    }
}

/// The ghost model of a statement or expression list.
pub open spec fn node_list_model(v: Seq<Node>) -> Seq<SpecNode>
    decreases v,
{
    if v.len() == 0 {
        Seq::empty()
    } else {
        seq![node_model(v[0])] + node_list_model(v.subrange(1, v.len() as int))
    }
}

/// The ghost model of a parameter list.
pub open spec fn param_list_model(v: Seq<FormalParameter>) -> Seq<SpecFormalParameter>
    decreases v,
{
    if v.len() == 0 {
        Seq::empty()
    } else {
        seq![param_model(v[0])] + param_list_model(v.subrange(1, v.len() as int))
    }
}

/// Prepending to a node list prepends its model.
pub proof fn lemma_node_list_model_cons(x: Node, v: Seq<Node>)
    ensures
        node_list_model(seq![x] + v) == seq![node_model(x)] + node_list_model(v),
{
    let w = seq![x] + v;
    assert(w[0] == x);
    assert(w.subrange(1, w.len() as int) =~= v);
}

/// The model of a one-node list is the one-element list of the model.
pub proof fn lemma_node_list_model_one(x: Node)
    ensures
        node_list_model(seq![x]) == seq![node_model(x)],
{
    let w = seq![x];
    assert(w.subrange(1, 1) =~= Seq::<Node>::empty());
    assert(node_list_model(Seq::<Node>::empty()) =~= Seq::<SpecNode>::empty());
    assert(node_list_model(w) =~= seq![node_model(x)]);
}

/// Prepending to a parameter list prepends its model.
pub proof fn lemma_param_list_model_cons(x: FormalParameter, v: Seq<FormalParameter>)
    ensures
        param_list_model(seq![x] + v) == seq![param_model(x)] + param_list_model(v),
{
    let w = seq![x] + v;
    assert(w[0] == x);
    assert(w.subrange(1, w.len() as int) =~= v);
}

/// The model of a one-parameter list is the one-element list of the model.
pub proof fn lemma_param_list_model_one(x: FormalParameter)
    ensures
        param_list_model(seq![x]) == seq![param_model(x)],
{
    let w = seq![x];
    assert(w.subrange(1, 1) =~= Seq::<FormalParameter>::empty());
    assert(param_list_model(Seq::<FormalParameter>::empty()) =~= Seq::<SpecFormalParameter>::empty());
    assert(param_list_model(w) =~= seq![param_model(x)]);
}

/// The ghost model of an arrow function definition.
pub open spec fn decl_model(d: ArrowFunctionDecl) -> SpecNode {
    SpecNode::ArrowFunctionDecl {
        params: param_list_model(d.params@),
        body: node_list_model(d.body@),
    }
}

} // verus!
