//! The mathematical model of the node types.
//!
//! Every executable node type of `ast` has a mirror here whose sequences are
//! `Seq` and whose strings are `Seq<char>`, so that two independently built
//! trees are equal exactly when they have the same shape and content.  The
//! `*_view` functions map an executable tree to its model; all contracts in
//! this crate speak about these views.

use vstd::prelude::*;

use crate::ast::{
    ArrowBody, AssignOp, AssignTarget, BinOp, CatchClause, Decl, Expr, Function, Helper,
    MemberProp, Pat, Program, SimpleAssignTarget, Stmt, TryStmt, VarDecl, VarDeclarator, VarKind,
};

verus! {

pub enum MemberPropV {
    Ident(Seq<char>),
    Computed(Box<ExprV>),
}

pub enum PatV {
    Ident(Seq<char>),
    Object(Seq<Seq<char>>),
}

pub enum AssignTargetV {
    Simple(SimpleAssignTargetV),
    Pat,
}

pub enum SimpleAssignTargetV {
    Ident(Seq<char>),
    Member { obj: Box<ExprV>, prop: MemberPropV },
    SuperProp { prop: MemberPropV },
    Paren(Box<ExprV>),
    OptChain(Box<ExprV>),
    TypeWrap(Box<ExprV>),
    Invalid,
}

pub enum ArrowBodyV {
    Block(Seq<StmtV>),
    Expr(Box<ExprV>),
}

pub struct FunctionV {
    pub is_async: bool,
    pub params: Seq<PatV>,
    pub body: Option<Seq<StmtV>>,
}

pub enum ExprV {
    Ident(Seq<char>),
    Str(Seq<char>),
    Bool(bool),
    Num(i64),
    Regex { exp: Seq<char>, flags: Seq<char> },
    Bin { op: BinOp, left: Box<ExprV>, right: Box<ExprV> },
    Assign { op: AssignOp, target: AssignTargetV, value: Box<ExprV> },
    Call { callee: Box<ExprV>, args: Seq<ExprV> },
    Member { obj: Box<ExprV>, prop: MemberPropV },
    New { callee: Box<ExprV>, args: Option<Seq<ExprV>> },
    Arrow { is_async: bool, params: Seq<PatV>, body: ArrowBodyV },
    Func { name: Option<Seq<char>>, function: Box<FunctionV> },
    Paren(Box<ExprV>),
    OptChain(Box<ExprV>),
    SuperProp { prop: MemberPropV },
    TypeWrap(Box<ExprV>),
}

pub struct TryStmtV {
    pub block: Seq<StmtV>,
    pub handler: Option<CatchClauseV>,
    pub finalizer: Option<Seq<StmtV>>,
}

pub struct CatchClauseV {
    pub param: Option<PatV>,
    pub body: Seq<StmtV>,
}

pub struct VarDeclaratorV {
    pub name: PatV,
    pub init: Option<ExprV>,
}

pub struct VarDeclV {
    pub kind: VarKind,
    pub decls: Seq<VarDeclaratorV>,
}

pub enum DeclV {
    Var(VarDeclV),
    Func { name: Seq<char>, function: Box<FunctionV> },
}

pub enum StmtV {
    Expr(ExprV),
    Decl(DeclV),
    Try(Box<TryStmtV>),
    Return(Option<ExprV>),
    Block(Seq<StmtV>),
    Empty,
}

pub struct ProgramV {
    pub body: Seq<StmtV>,
}

// ---------------------------------------------------------------------------
// Views: executable tree -> model tree.
// ---------------------------------------------------------------------------

pub open spec fn strings_view(v: Seq<String>) -> Seq<Seq<char>> {
    Seq::new(v.len(), |i: int| v[i]@)
}

pub open spec fn pat_view(p: Pat) -> PatV {
    match p {
        Pat::Ident(s) => PatV::Ident(s@),
        Pat::Object(names) => PatV::Object(strings_view(names@)),
    }
}

pub open spec fn pats_view(v: Seq<Pat>) -> Seq<PatV> {
    Seq::new(v.len(), |i: int| pat_view(v[i]))
}

pub open spec fn opt_pat_view(p: Option<Pat>) -> Option<PatV> {
    match p {
        Option::Some(p) => Option::Some(pat_view(p)),
        Option::None => Option::None,
    }
}

pub open spec fn opt_string_view(s: Option<String>) -> Option<Seq<char>> {
    match s {
        Option::Some(s) => Option::Some(s@),
        Option::None => Option::None,
    }
}

#[verifier::spinoff_prover]
pub open spec fn prop_view(p: MemberProp) -> MemberPropV
    decreases p,
{
    match p {
        MemberProp::Ident(s) => MemberPropV::Ident(s@),
        MemberProp::Computed(e) => MemberPropV::Computed(Box::new(expr_view(*e))),
    }
}

#[verifier::spinoff_prover]
pub open spec fn starget_view(t: SimpleAssignTarget) -> SimpleAssignTargetV
    decreases t,
{
    match t {
        SimpleAssignTarget::Ident(s) => SimpleAssignTargetV::Ident(s@),
        SimpleAssignTarget::Member { obj, prop } => SimpleAssignTargetV::Member {
            obj: Box::new(expr_view(*obj)),
            prop: prop_view(prop),
        },
        SimpleAssignTarget::SuperProp { prop } => SimpleAssignTargetV::SuperProp {
            prop: prop_view(prop),
        },
        SimpleAssignTarget::Paren(e) => SimpleAssignTargetV::Paren(Box::new(expr_view(*e))),
        SimpleAssignTarget::OptChain(e) => SimpleAssignTargetV::OptChain(Box::new(expr_view(*e))),
        SimpleAssignTarget::TypeWrap(e) => SimpleAssignTargetV::TypeWrap(Box::new(expr_view(*e))),
        SimpleAssignTarget::Invalid => SimpleAssignTargetV::Invalid,
    }
}

#[verifier::spinoff_prover]
pub open spec fn target_view(t: AssignTarget) -> AssignTargetV
    decreases t,
{
    match t {
        AssignTarget::Simple(st) => AssignTargetV::Simple(starget_view(st)),
        AssignTarget::Pat => AssignTargetV::Pat,
    }
}

#[verifier::spinoff_prover]
pub open spec fn arrow_body_view(b: ArrowBody) -> ArrowBodyV
    decreases b,
{
    match b {
        ArrowBody::Block(stmts) => ArrowBodyV::Block(stmts_view(stmts@)),
        ArrowBody::Expr(e) => ArrowBodyV::Expr(Box::new(expr_view(*e))),
    }
}

#[verifier::spinoff_prover]
pub open spec fn function_view(f: Function) -> FunctionV
    decreases f,
{
    FunctionV {
        is_async: f.is_async,
        params: pats_view(f.params@),
        body: opt_stmts_view(f.body),
    }
}

#[verifier::spinoff_prover]
pub open spec fn expr_view(e: Expr) -> ExprV
    decreases e,
{
    match e {
        Expr::Ident(s) => ExprV::Ident(s@),
        Expr::Str(s) => ExprV::Str(s@),
        Expr::Bool(b) => ExprV::Bool(b),
        Expr::Num(n) => ExprV::Num(n),
        Expr::Regex { exp, flags } => ExprV::Regex { exp: exp@, flags: flags@ },
        Expr::Bin { op, left, right } => ExprV::Bin {
            op,
            left: Box::new(expr_view(*left)),
            right: Box::new(expr_view(*right)),
        },
        Expr::Assign { op, target, value } => ExprV::Assign {
            op,
            target: target_view(target),
            value: Box::new(expr_view(*value)),
        },
        Expr::Call { callee, args } => ExprV::Call {
            callee: Box::new(expr_view(*callee)),
            args: exprs_view(args@),
        },
        Expr::Member { obj, prop } => ExprV::Member {
            obj: Box::new(expr_view(*obj)),
            prop: prop_view(prop),
        },
        Expr::New { callee, args } => ExprV::New {
            callee: Box::new(expr_view(*callee)),
            args: opt_exprs_view(args),
        },
        Expr::Arrow { is_async, params, body } => ExprV::Arrow {
            is_async,
            params: pats_view(params@),
            body: arrow_body_view(body),
        },
        Expr::Func { name, function } => ExprV::Func {
            name: opt_string_view(name),
            function: Box::new(function_view(*function)),
        },
        Expr::Paren(e) => ExprV::Paren(Box::new(expr_view(*e))),
        Expr::OptChain(e) => ExprV::OptChain(Box::new(expr_view(*e))),
        Expr::SuperProp { prop } => ExprV::SuperProp { prop: prop_view(prop) },
        Expr::TypeWrap(e) => ExprV::TypeWrap(Box::new(expr_view(*e))),
    }
}

#[verifier::spinoff_prover]
pub open spec fn exprs_view(v: Seq<Expr>) -> Seq<ExprV>
    decreases v,
{
    if v.len() == 0 {
        Seq::empty()
    } else {
        seq![expr_view(v[0])] + exprs_view(v.drop_first())
    }
}

#[verifier::spinoff_prover]
pub open spec fn opt_exprs_view(v: Option<Vec<Expr>>) -> Option<Seq<ExprV>>
    decreases v,
{
    match v {
        Option::Some(v) => Option::Some(exprs_view(v@)),
        Option::None => Option::None,
    }
}

#[verifier::spinoff_prover]
pub open spec fn opt_expr_view(e: Option<Expr>) -> Option<ExprV>
    decreases e,
{
    match e {
        Option::Some(e) => Option::Some(expr_view(e)),
        Option::None => Option::None,
    }
}

#[verifier::spinoff_prover]
pub open spec fn catch_view(c: CatchClause) -> CatchClauseV
    decreases c,
{
    CatchClauseV { param: opt_pat_view(c.param), body: stmts_view(c.body@) }
}

#[verifier::spinoff_prover]
pub open spec fn try_view(t: TryStmt) -> TryStmtV
    decreases t,
{
    TryStmtV {
        block: stmts_view(t.block@),
        handler: match t.handler {
            Option::Some(h) => Option::Some(catch_view(h)),
            Option::None => Option::None,
        },
        finalizer: opt_stmts_view(t.finalizer),
    }
}

#[verifier::spinoff_prover]
pub open spec fn declarator_view(d: VarDeclarator) -> VarDeclaratorV
    decreases d,
{
    VarDeclaratorV { name: pat_view(d.name), init: opt_expr_view(d.init) }
}

#[verifier::spinoff_prover]
pub open spec fn declarators_view(v: Seq<VarDeclarator>) -> Seq<VarDeclaratorV>
    decreases v,
{
    if v.len() == 0 {
        Seq::empty()
    } else {
        seq![declarator_view(v[0])] + declarators_view(v.drop_first())
    }
}

#[verifier::spinoff_prover]
pub open spec fn var_decl_view(d: VarDecl) -> VarDeclV
    decreases d,
{
    VarDeclV { kind: d.kind, decls: declarators_view(d.decls@) }
}

#[verifier::spinoff_prover]
pub open spec fn decl_view(d: Decl) -> DeclV
    decreases d,
{
    match d {
        Decl::Var(v) => DeclV::Var(var_decl_view(v)),
        Decl::Func { name, function } => DeclV::Func {
            name: name@,
            function: Box::new(function_view(*function)),
        },
    }
}

#[verifier::spinoff_prover]
pub open spec fn stmt_view(s: Stmt) -> StmtV
    decreases s,
{
    match s {
        Stmt::Expr(e) => StmtV::Expr(expr_view(e)),
        Stmt::Decl(d) => StmtV::Decl(decl_view(d)),
        Stmt::Try(t) => StmtV::Try(Box::new(try_view(*t))),
        Stmt::Return(e) => StmtV::Return(opt_expr_view(e)),
        Stmt::Block(v) => StmtV::Block(stmts_view(v@)),
        Stmt::Empty => StmtV::Empty,
    }
}

#[verifier::spinoff_prover]
pub open spec fn stmts_view(v: Seq<Stmt>) -> Seq<StmtV>
    decreases v,
{
    if v.len() == 0 {
        Seq::empty()
    } else {
        seq![stmt_view(v[0])] + stmts_view(v.drop_first())
    }
}

#[verifier::spinoff_prover]
pub open spec fn opt_stmts_view(v: Option<Vec<Stmt>>) -> Option<Seq<StmtV>>
    decreases v,
{
    match v {
        Option::Some(v) => Option::Some(stmts_view(v@)),
        Option::None => Option::None,
    }
}

pub open spec fn program_view(p: Program) -> ProgramV {
    ProgramV { body: stmts_view(p.body@) }
}

impl View for Expr {
    type V = ExprV;

    open spec fn view(&self) -> ExprV {
        expr_view(*self)
    }
}

impl View for Stmt {
    type V = StmtV;

    open spec fn view(&self) -> StmtV {
        stmt_view(*self)
    }
}

impl View for Program {
    type V = ProgramV;

    open spec fn view(&self) -> ProgramV {
        program_view(*self)
    }
}

// ---------------------------------------------------------------------------
// Pointwise facts about the list views.
// ---------------------------------------------------------------------------

#[verifier::spinoff_prover]
pub broadcast proof fn lemma_exprs_view_len(v: Seq<Expr>)
    ensures
        (#[trigger] exprs_view(v)).len() == v.len(),
    decreases v,
{
    if v.len() > 0 {
        lemma_exprs_view_len(v.drop_first());
    }
}

#[verifier::spinoff_prover]
pub broadcast proof fn lemma_exprs_view_index(v: Seq<Expr>, i: int)
    requires
        0 <= i < v.len(),
    ensures
        #[trigger] exprs_view(v)[i] == expr_view(v[i]),
    decreases v,
{
    lemma_exprs_view_len(v);
    if i > 0 {
        lemma_exprs_view_index(v.drop_first(), i - 1);
    }
}

#[verifier::spinoff_prover]
pub broadcast proof fn lemma_stmts_view_len(v: Seq<Stmt>)
    ensures
        (#[trigger] stmts_view(v)).len() == v.len(),
    decreases v,
{
    if v.len() > 0 {
        lemma_stmts_view_len(v.drop_first());
    }
}

#[verifier::spinoff_prover]
pub broadcast proof fn lemma_stmts_view_index(v: Seq<Stmt>, i: int)
    requires
        0 <= i < v.len(),
    ensures
        #[trigger] stmts_view(v)[i] == stmt_view(v[i]),
    decreases v,
{
    lemma_stmts_view_len(v);
    if i > 0 {
        lemma_stmts_view_index(v.drop_first(), i - 1);
    }
}

#[verifier::spinoff_prover]
pub broadcast proof fn lemma_declarators_view_len(v: Seq<VarDeclarator>)
    ensures
        (#[trigger] declarators_view(v)).len() == v.len(),
    decreases v,
{
    if v.len() > 0 {
        lemma_declarators_view_len(v.drop_first());
    }
}

#[verifier::spinoff_prover]
pub broadcast proof fn lemma_declarators_view_index(v: Seq<VarDeclarator>, i: int)
    requires
        0 <= i < v.len(),
    ensures
        #[trigger] declarators_view(v)[i] == declarator_view(v[i]),
    decreases v,
{
    lemma_declarators_view_len(v);
    if i > 0 {
        lemma_declarators_view_index(v.drop_first(), i - 1);
    }
}

/// Appending one statement appends its view.
#[verifier::spinoff_prover]
pub proof fn lemma_stmts_view_push(s: Seq<Stmt>, x: Stmt)
    ensures
        stmts_view(s.push(x)) == stmts_view(s).push(stmt_view(x)),
    decreases s.len(),
{
    let sx = s.push(x);
    if s.len() == 0 {
        assert(sx[0] == x);
        assert(sx.drop_first() =~= Seq::<Stmt>::empty());
        assert(stmts_view(sx.drop_first()) == Seq::<StmtV>::empty());
        assert(stmts_view(s) == Seq::<StmtV>::empty());
        assert(seq![stmt_view(x)] + Seq::<StmtV>::empty() =~= Seq::<StmtV>::empty().push(
            stmt_view(x),
        ));
    } else {
        assert(sx[0] == s[0]);
        assert(sx.drop_first() =~= s.drop_first().push(x));
        lemma_stmts_view_push(s.drop_first(), x);
        assert(seq![stmt_view(s[0])] + stmts_view(s.drop_first()).push(stmt_view(x)) =~= (seq![
            stmt_view(s[0]),
        ] + stmts_view(s.drop_first())).push(stmt_view(x)));
    }
}

/// Appending one declarator appends its view.
#[verifier::spinoff_prover]
pub proof fn lemma_declarators_view_push(s: Seq<VarDeclarator>, x: VarDeclarator)
    ensures
        declarators_view(s.push(x)) == declarators_view(s).push(declarator_view(x)),
    decreases s.len(),
{
    let sx = s.push(x);
    if s.len() == 0 {
        assert(sx[0] == x);
        assert(sx.drop_first() =~= Seq::<VarDeclarator>::empty());
        assert(declarators_view(sx.drop_first()) == Seq::<VarDeclaratorV>::empty());
        assert(declarators_view(s) == Seq::<VarDeclaratorV>::empty());
        assert(seq![declarator_view(x)] + Seq::<VarDeclaratorV>::empty()
            =~= Seq::<VarDeclaratorV>::empty().push(declarator_view(x)));
    } else {
        assert(sx[0] == s[0]);
        assert(sx.drop_first() =~= s.drop_first().push(x));
        lemma_declarators_view_push(s.drop_first(), x);
        assert(seq![declarator_view(s[0])] + declarators_view(s.drop_first()).push(
            declarator_view(x),
        ) =~= (seq![declarator_view(s[0])] + declarators_view(s.drop_first())).push(
            declarator_view(x),
        ));
    }
}

pub broadcast group group_view_facts {
    lemma_exprs_view_len,
    lemma_exprs_view_index,
    lemma_stmts_view_len,
    lemma_stmts_view_index,
    lemma_declarators_view_len,
    lemma_declarators_view_index,
}

} // verus!
