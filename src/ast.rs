//! The source syntax tree handed to the lowering pass: an ordered list of
//! statements, as produced by the parser.
use vstd::prelude::*;

verus! {

/// A literal constant of the source language.
#[derive(Debug, PartialEq, Eq)]
pub enum Constant {
    Null,
    Bool(bool),
    Str(String),
    Bytes(Vec<u8>),
    /// An integer, as its decimal text.
    Int(String),
    Tuple(Vec<Constant>),
    /// A float, as its decimal text.
    Float(String),
    /// A complex number, as the decimal text of its two parts.
    Complex { real: String, imag: String },
    Ellipsis,
}

#[derive(Clone, Copy, Debug, PartialEq, Eq, Structural)]
pub enum BoolOp {
    And,
    Or,
}

#[derive(Clone, Copy, Debug, PartialEq, Eq, Structural)]
pub enum Operator {
    Add,
    Sub,
    Mult,
    MatMult,
    Div,
    Mod,
    Pow,
    LShift,
    RShift,
    BitOr,
    BitXor,
    BitAnd,
    FloorDiv,
}

#[derive(Clone, Copy, Debug, PartialEq, Eq, Structural)]
pub enum UnaryOp {
    Invert,
    Not,
    UAdd,
    USub,
}

#[derive(Clone, Copy, Debug, PartialEq, Eq, Structural)]
pub enum CmpOp {
    Eq,
    NotEq,
    Lt,
    LtE,
    Gt,
    GtE,
    Is,
    IsNot,
    In,
    NotIn,
}

/// The expression kinds that the lowering pass does not translate.
#[derive(Clone, Copy, Debug, PartialEq, Eq, Structural)]
pub enum ExprKind {
    NamedExpr,
    Dict,
    SetLiteral,
    List,
    Tuple,
    ListComp,
    SetComp,
    DictComp,
    GeneratorExp,
    Await,
    Yield,
    YieldFrom,
    FormattedValue,
    JoinedStr,
    Attribute,
    Subscript,
    Starred,
    Slice,
}

/// The statement kinds that the lowering pass does not translate.
#[derive(Clone, Copy, Debug, PartialEq, Eq, Structural)]
pub enum StmtKind {
    Delete,
    Assign,
    AugAssign,
    AnnAssign,
    With,
    AsyncWith,
    Match,
    Raise,
    Try,
    TryStar,
    ImportFrom,
    Global,
    Nonlocal,
    TypeAlias,
}

/// One link `OP right` of a comparison chain.
#[derive(Debug, PartialEq, Eq)]
pub struct Comparison {
    pub op: CmpOp,
    pub right: Expr,
}

/// A keyword argument `arg=value` of a call (`**value` when `arg` is absent).
#[derive(Debug, PartialEq, Eq)]
pub struct Keyword {
    pub arg: Option<String>,
    pub value: Expr,
}

/// A named parameter, with its default value if it has one.
#[derive(Debug, PartialEq, Eq)]
pub struct Parameter {
    pub name: String,
    pub default: Option<Box<Expr>>,
}

/// A parameter list, group by group, in the order of the source.
#[derive(Debug, PartialEq, Eq)]
pub struct Arguments {
    pub posonlyargs: Vec<Parameter>,
    pub args: Vec<Parameter>,
    pub vararg: Option<String>,
    pub kwonlyargs: Vec<Parameter>,
    pub kwarg: Option<String>,
}

#[derive(Debug, PartialEq, Eq)]
/// An expression. Where a node can give a diagnostic, `offset` is where it
/// starts in the source text, in bytes.
pub enum Expr {
    /// `first op rest[0] op rest[1] ...`
    BoolOp { op: BoolOp, first: Box<Expr>, rest: Vec<Expr> },
    BinOp { left: Box<Expr>, op: Operator, right: Box<Expr>, offset: u32 },
    UnaryOp { op: UnaryOp, operand: Box<Expr>, offset: u32 },
    Lambda { args: Box<Arguments>, body: Box<Expr> },
    IfExp { test: Box<Expr>, body: Box<Expr>, orelse: Box<Expr> },
    /// `left op c1 op c2 ...`, one operator per link
    Compare { left: Box<Expr>, comparisons: Vec<Comparison> },
    Call { func: Box<Expr>, args: Vec<Expr>, keywords: Vec<Keyword>, offset: u32 },
    Constant(Constant),
    Name(String),
    Unsupported { kind: ExprKind, offset: u32 },
}

#[derive(Debug, PartialEq, Eq)]
pub enum Stmt {
    FunctionDef { name: String, args: Box<Arguments>, body: Vec<Stmt> },
    AsyncFunctionDef { name: String, args: Box<Arguments>, body: Vec<Stmt> },
    ClassDef { name: String, body: Vec<Stmt> },
    Return { value: Option<Expr> },
    For { target: Expr, iter: Expr, body: Vec<Stmt>, orelse: Vec<Stmt> },
    AsyncFor { target: Expr, iter: Expr, body: Vec<Stmt>, orelse: Vec<Stmt> },
    While { test: Expr, body: Vec<Stmt>, orelse: Vec<Stmt> },
    If { test: Expr, body: Vec<Stmt>, orelse: Vec<Stmt> },
    Assert { test: Expr, msg: Option<Expr> },
    /// `import a.b, c`: the dotted module names, in order.
    Import { names: Vec<String> },
    Expr { value: Expr },
    Pass,
    Break,
    Continue,
    Unsupported { kind: StmtKind, offset: u32 },
}

} // verus!
