//! The syntax-tree node model.
//!
//! A program is a tree of owned nodes: every node exclusively owns its
//! children, mutation never aliases, and copying a subtree is a deep value
//! copy.  The executable types here mirror the ghost model in `model`, which
//! gives every node a mathematical view used by all contracts.

use vstd::prelude::*;

verus! {

/// Binary operators, reduced to the ones the rewrite rules distinguish.
/// Every operator outside that set behaves alike (no rule touches it), so
/// they share the `Other` constructor.
#[derive(Clone, Copy, PartialEq, Eq, Structural, Debug)]
pub enum BinOp {
    Add,
    Sub,
    Mul,
    Div,
    StrictEq,
    Other,
}

/// Assignment operators, reduced in the same way: plain `=`, the four
/// arithmetic compound assignments, and everything else.
#[derive(Clone, Copy, PartialEq, Eq, Structural, Debug)]
pub enum AssignOp {
    Assign,
    AddAssign,
    SubAssign,
    MulAssign,
    DivAssign,
    Other,
}

/// The declaration keyword of a variable statement.
#[derive(Clone, Copy, PartialEq, Eq, Structural, Debug)]
pub enum VarKind {
    Var,
    Let,
    Const,
}

/// The closed set of runtime helpers a rewrite can introduce.
#[derive(Clone, Copy, PartialEq, Eq, Structural, Debug)]
pub enum Helper {
    AccAdd,
    AccSub,
    AccMul,
    AccDiv,
    AccCong,
}

/// A member-access key: a fixed name (`a.x`) or a computed expression
/// (`a[i]`).
#[derive(PartialEq, Eq, Debug)]
pub enum MemberProp {
    Ident(String),
    Computed(Box<Expr>),
}

/// Binding patterns, as far as the rules need to build or inspect them: a
/// plain identifier, or an object pattern of shorthand keys (the shape of
/// the injected helper import).  A compound assignment whose target is a
/// destructuring pattern is represented by `AssignTarget::Pat`.
#[derive(PartialEq, Eq, Debug)]
pub enum Pat {
    Ident(String),
    Object(Vec<String>),
}

/// The target of an assignment: one of the simple shapes that can be read
/// back as an expression, or a destructuring pattern (held abstract, since
/// no rule rewrites into one).
#[derive(PartialEq, Eq, Debug)]
pub enum AssignTarget {
    Simple(SimpleAssignTarget),
    Pat,
}

/// The simple assignment-target shapes.  `TypeWrap` stands for any
/// type-narrowing wrapper around an expression; `Invalid` is a placeholder
/// node that no rule touches.
#[derive(PartialEq, Eq, Debug)]
pub enum SimpleAssignTarget {
    Ident(String),
    Member { obj: Box<Expr>, prop: MemberProp },
    SuperProp { prop: MemberProp },
    Paren(Box<Expr>),
    OptChain(Box<Expr>),
    TypeWrap(Box<Expr>),
    Invalid,
}

/// An arrow-function body: either a statement block or a bare expression.
#[derive(PartialEq, Eq, Debug)]
pub enum ArrowBody {
    Block(Vec<Stmt>),
    Expr(Box<Expr>),
}

/// A function: its `async` flag, parameters and optional body block.
#[derive(PartialEq, Eq, Debug)]
pub struct Function {
    pub is_async: bool,
    pub params: Vec<Pat>,
    pub body: Option<Vec<Stmt>>,
}

/// Expressions.
#[derive(PartialEq, Eq, Debug)]
pub enum Expr {
    Ident(String),
    Str(String),
    Bool(bool),
    Num(i64),
    Regex { exp: String, flags: String },
    Bin { op: BinOp, left: Box<Expr>, right: Box<Expr> },
    Assign { op: AssignOp, target: AssignTarget, value: Box<Expr> },
    Call { callee: Box<Expr>, args: Vec<Expr> },
    Member { obj: Box<Expr>, prop: MemberProp },
    New { callee: Box<Expr>, args: Option<Vec<Expr>> },
    Arrow { is_async: bool, params: Vec<Pat>, body: ArrowBody },
    Func { name: Option<String>, function: Box<Function> },
    Paren(Box<Expr>),
    OptChain(Box<Expr>),
    SuperProp { prop: MemberProp },
    TypeWrap(Box<Expr>),
}

/// A `try` statement: protected block, optional handler, optional finalizer.
#[derive(PartialEq, Eq, Debug)]
pub struct TryStmt {
    pub block: Vec<Stmt>,
    pub handler: Option<CatchClause>,
    pub finalizer: Option<Vec<Stmt>>,
}

/// A `catch` clause: optional bound pattern and handler block.
#[derive(PartialEq, Eq, Debug)]
pub struct CatchClause {
    pub param: Option<Pat>,
    pub body: Vec<Stmt>,
}

/// One declarator of a variable statement.
#[derive(PartialEq, Eq, Debug)]
pub struct VarDeclarator {
    pub name: Pat,
    pub init: Option<Expr>,
}

/// A variable statement.
#[derive(PartialEq, Eq, Debug)]
pub struct VarDecl {
    pub kind: VarKind,
    pub decls: Vec<VarDeclarator>,
}

/// Declarations.
#[derive(PartialEq, Eq, Debug)]
pub enum Decl {
    Var(VarDecl),
    Func { name: String, function: Box<Function> },
}

/// Statements.
#[derive(PartialEq, Eq, Debug)]
pub enum Stmt {
    Expr(Expr),
    Decl(Decl),
    Try(Box<TryStmt>),
    Return(Option<Expr>),
    Block(Vec<Stmt>),
    Empty,
}

/// A whole program: its top-level statement list.
#[derive(PartialEq, Eq, Debug)]
pub struct Program {
    pub body: Vec<Stmt>,
}

/// Does this stored name spell exactly the word `w`?
#[verifier::spinoff_prover]
pub fn word_is(s: &String, w: &str) -> (r: bool)
    ensures
        r == (s@ == w@),
{
    let word: String = w.to_owned();
    *s == word
}

} // verus!
