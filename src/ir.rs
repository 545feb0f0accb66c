//! The intermediate representation produced by the lowering pass, its
//! mathematical model, and the diagnostics that accompany it.
use vstd::prelude::*;
use crate::ast::{ExprKind, Operator, StmtKind, UnaryOp};

verus! {

#[derive(Clone, Copy, Debug, PartialEq, Eq, Structural)]
pub enum ParamKind {
    PositionalOnly,
    Positional,
    VarPositional,
    KeywordOnly,
    VarKeyword,
}

/// A parameter descriptor of a binding node.
#[derive(Debug, PartialEq, Eq)]
pub struct Param {
    pub name: String,
    pub kind: ParamKind,
    pub default: Option<Box<Tree>>,
}

#[derive(Debug, PartialEq, Eq)]
pub enum Tree {
    Unit,
    Break,
    Continue,
    Ellipsis,
    /// Stands where a construct could not be translated; a diagnostic says which.
    Unsupported,
    Int { value: String },
    Float { value: String },
    Bool { value: String },
    Str { value: String },
    Ident { value: String },
    Bytes { elems: Vec<u8> },
    Complex { real: String, imag: String },
    Tuple { elems: Vec<Tree> },
    Neg { expr: Box<Tree> },
    Not { expr: Box<Tree> },
    Add { left: Box<Tree>, right: Box<Tree> },
    Sub { left: Box<Tree>, right: Box<Tree> },
    Mul { left: Box<Tree>, right: Box<Tree> },
    Div { left: Box<Tree>, right: Box<Tree> },
    And { left: Box<Tree>, right: Box<Tree> },
    Or { left: Box<Tree>, right: Box<Tree> },
    Eq { left: Box<Tree>, right: Box<Tree> },
    LE { left: Box<Tree>, right: Box<Tree> },
    In { left: Box<Tree>, right: Box<Tree> },
    If { condition: Box<Tree>, then: Box<Tree>, els: Box<Tree> },
    /// The loop node shared by `while` (init is Unit, condition is the test)
    /// and `for` (init is the target, condition is the iterable).
    While { init: Box<Tree>, condition: Box<Tree>, body: Box<Tree>, post: Box<Tree> },
    LetRec { name: String, params: Vec<Param>, body: Box<Tree> },
    Class {
        name: String,
        attributes: Vec<String>,
        extends: Option<Box<Tree>>,
        implements: Vec<Tree>,
        body: Box<Tree>,
    },
    App { fun: Box<Tree>, args: Vec<Tree> },
    Stmts { first: Box<Tree>, second: Box<Tree> },
    Return { value: Box<Tree> },
    Assert { condition: Box<Tree>, message: Box<Tree> },
    Import { items: Vec<String> },
}

/// The model of a parameter descriptor.
pub struct ParamNode {
    pub name: Seq<char>,
    pub kind: ParamKind,
    pub default: Option<Node>,
}

/// The model of an IR tree: the same shape, with sequences for text and lists.
pub enum Node {
    Unit,
    Break,
    Continue,
    Ellipsis,
    Unsupported,
    Int(Seq<char>),
    Float(Seq<char>),
    Bool(Seq<char>),
    Str(Seq<char>),
    Ident(Seq<char>),
    Bytes(Seq<u8>),
    Complex(Seq<char>, Seq<char>),
    Tuple(Seq<Node>),
    Neg(Box<Node>),
    Not(Box<Node>),
    Add(Box<Node>, Box<Node>),
    Sub(Box<Node>, Box<Node>),
    Mul(Box<Node>, Box<Node>),
    Div(Box<Node>, Box<Node>),
    And(Box<Node>, Box<Node>),
    Or(Box<Node>, Box<Node>),
    Eq(Box<Node>, Box<Node>),
    LE(Box<Node>, Box<Node>),
    In(Box<Node>, Box<Node>),
    If(Box<Node>, Box<Node>, Box<Node>),
    While(Box<Node>, Box<Node>, Box<Node>, Box<Node>),
    LetRec(Seq<char>, Seq<ParamNode>, Box<Node>),
    Class(Seq<char>, Seq<Seq<char>>, Option<Box<Node>>, Seq<Node>, Box<Node>),
    App(Box<Node>, Seq<Node>),
    Stmts(Box<Node>, Box<Node>),
    Return(Box<Node>),
    Assert(Box<Node>, Box<Node>),
    Import(Seq<Seq<char>>),
}

/// A construct that the lowering pass cannot translate.
#[derive(Clone, Copy, Debug, PartialEq, Eq, Structural)]
pub enum Construct {
    Expression(ExprKind),
    Statement(StmtKind),
    BinaryOperator(Operator),
    UnaryOperator(UnaryOp),
    /// A call whose callee is not a plain name.
    Callee,
}

/// One compromise made while lowering, in the order met, with the offset in
/// bytes of the construct in the source text.
#[derive(Clone, Copy, Debug, PartialEq, Eq, Structural)]
pub enum Diagnostic {
    /// The construct was replaced by `Tree::Unsupported`.
    Unsupported { construct: Construct, offset: u32 },
    /// A call was translated without its `count` keyword arguments.
    KeywordArgumentsDropped { count: usize, offset: u32 },
}

pub open spec fn texts(s: Seq<String>) -> Seq<Seq<char>> {
    s.map_values(|t: String| t@)
}

/// The models of the first `n` trees of `s`.
pub open spec fn nodes_upto(s: Seq<Tree>, n: nat) -> Seq<Node>
    decreases s, n,
{
    if n == 0 || n > s.len() {
        Seq::empty()
    } else {
        nodes_upto(s, (n - 1) as nat).push(s[n - 1].node())
    }
}

/// The models of the first `n` parameter descriptors of `s`.
pub open spec fn params_upto(s: Seq<Param>, n: nat) -> Seq<ParamNode>
    decreases s, n,
{
    if n == 0 || n > s.len() {
        Seq::empty()
    } else {
        params_upto(s, (n - 1) as nat).push(s[n - 1].node())
    }
}

impl Param {
    pub open spec fn node(&self) -> ParamNode
        decreases self,
    {
        ParamNode {
            name: self.name@,
            kind: self.kind,
            default: match self.default {
                Some(t) => Some(t.node()),
                None => None,
            },
        }
    }
}

impl Tree {
    pub open spec fn node(&self) -> Node
        decreases self,
    {
        match self {
            Tree::Unit => Node::Unit,
            Tree::Break => Node::Break,
            Tree::Continue => Node::Continue,
            Tree::Ellipsis => Node::Ellipsis,
            Tree::Unsupported => Node::Unsupported,
            Tree::Int { value } => Node::Int(value@),
            Tree::Float { value } => Node::Float(value@),
            Tree::Bool { value } => Node::Bool(value@),
            Tree::Str { value } => Node::Str(value@),
            Tree::Ident { value } => Node::Ident(value@),
            Tree::Bytes { elems } => Node::Bytes(elems@),
            Tree::Complex { real: re, imag: im } => Node::Complex(re@, im@),
            Tree::Tuple { elems } => Node::Tuple(nodes_upto(elems@, elems@.len())),
            Tree::Neg { expr } => Node::Neg(Box::new(expr.node())),
            Tree::Not { expr } => Node::Not(Box::new(expr.node())),
            Tree::Add { left, right } => Node::Add(Box::new(left.node()), Box::new(right.node())),
            Tree::Sub { left, right } => Node::Sub(Box::new(left.node()), Box::new(right.node())),
            Tree::Mul { left, right } => Node::Mul(Box::new(left.node()), Box::new(right.node())),
            Tree::Div { left, right } => Node::Div(Box::new(left.node()), Box::new(right.node())),
            Tree::And { left, right } => Node::And(Box::new(left.node()), Box::new(right.node())),
            Tree::Or { left, right } => Node::Or(Box::new(left.node()), Box::new(right.node())),
            Tree::Eq { left, right } => Node::Eq(Box::new(left.node()), Box::new(right.node())),
            Tree::LE { left, right } => Node::LE(Box::new(left.node()), Box::new(right.node())),
            Tree::In { left, right } => Node::In(Box::new(left.node()), Box::new(right.node())),
            Tree::If { condition, then, els } => Node::If(
                Box::new(condition.node()),
                Box::new(then.node()),
                Box::new(els.node()),
            ),
            Tree::While { init, condition, body, post } => Node::While(
                Box::new(init.node()),
                Box::new(condition.node()),
                Box::new(body.node()),
                Box::new(post.node()),
            ),
            Tree::LetRec { name, params, body } => Node::LetRec(
                name@,
                params_upto(params@, params@.len()),
                Box::new(body.node()),
            ),
            Tree::Class { name, attributes, extends, implements, body } => Node::Class(
                name@,
                texts(attributes@),
                match extends {
                    Some(t) => Some(Box::new(t.node())),
                    None => None,
                },
                nodes_upto(implements@, implements@.len()),
                Box::new(body.node()),
            ),
            Tree::App { fun, args } => Node::App(
                Box::new(fun.node()),
                nodes_upto(args@, args@.len()),
            ),
            Tree::Stmts { first, second } => Node::Stmts(
                Box::new(first.node()),
                Box::new(second.node()),
            ),
            Tree::Return { value } => Node::Return(Box::new(value.node())),
            Tree::Assert { condition, message } => Node::Assert(
                Box::new(condition.node()),
                Box::new(message.node()),
            ),
            Tree::Import { items } => Node::Import(texts(items@)),
        }
    }
}

/// `nodes_upto` lists the models of a prefix, one by one.
pub proof fn lemma_nodes_upto(s: Seq<Tree>, n: nat)
    requires
        n <= s.len(),
    ensures
        nodes_upto(s, n).len() == n,
        forall|j: int| 0 <= j < n ==> #[trigger] nodes_upto(s, n)[j] == s[j].node(),
    decreases n,
{
    if n > 0 {
        lemma_nodes_upto(s, (n - 1) as nat);
    }
}

/// `params_upto` lists the models of a prefix, one by one.
pub proof fn lemma_params_upto(s: Seq<Param>, n: nat)
    requires
        n <= s.len(),
    ensures
        params_upto(s, n).len() == n,
        forall|j: int| 0 <= j < n ==> #[trigger] params_upto(s, n)[j] == s[j].node(),
    decreases n,
{
    if n > 0 {
        lemma_params_upto(s, (n - 1) as nat);
    }
}

} // verus!
