//! Deep copies of subtrees.
//!
//! Every node exclusively owns its children, so copying is by value: each
//! function returns a tree with exactly the same view as its argument.  The
//! compound-assignment rule uses these to re-derive a target as a plain
//! expression while the target itself stays in place.

use vstd::prelude::*;

use crate::ast::{
    ArrowBody, AssignTarget, CatchClause, Decl, Expr, Function, MemberProp, Pat, SimpleAssignTarget,
    Stmt, TryStmt, VarDecl, VarDeclarator,
};
use crate::model::{
    arrow_body_view, catch_view, decl_view, declarator_view, declarators_view, expr_view,
    exprs_view, function_view, opt_expr_view, opt_exprs_view, opt_pat_view, opt_stmts_view,
    opt_string_view, pat_view, pats_view, prop_view, starget_view, stmt_view, stmts_view,
    strings_view, target_view, try_view, var_decl_view,
};

verus! {

broadcast use crate::model::group_view_facts;

#[verifier::spinoff_prover]
pub fn clone_string(s: &String) -> (r: String)
    ensures
        r@ == s@,
{
    s.clone()
}

#[verifier::spinoff_prover]
pub fn clone_opt_string(s: &Option<String>) -> (r: Option<String>)
    ensures
        opt_string_view(r) == opt_string_view(*s),
{
    match s {
        Option::Some(x) => Option::Some(clone_string(x)),
        Option::None => Option::None,
    }
}

#[verifier::spinoff_prover]
pub fn clone_strings(v: &Vec<String>) -> (r: Vec<String>)
    ensures
        strings_view(r@) == strings_view(v@),
{
    let mut out: Vec<String> = Vec::new();
    let mut i: usize = 0;
    while i < v.len()
        invariant
            i <= v.len(),
            out@.len() == i,
            forall|j: int| 0 <= j < i ==> out@[j]@ == v@[j]@,
        decreases v.len() - i,
    {
        out.push(clone_string(&v[i]));
        i = i + 1;
    }
    proof {
        assert(strings_view(out@) =~= strings_view(v@));
    }
    out
}

#[verifier::spinoff_prover]
pub fn clone_pat(p: &Pat) -> (r: Pat)
    ensures
        pat_view(r) == pat_view(*p),
{
    match p {
        Pat::Ident(s) => Pat::Ident(clone_string(s)),
        Pat::Object(names) => Pat::Object(clone_strings(names)),
    }
}

#[verifier::spinoff_prover]
pub fn clone_opt_pat(p: &Option<Pat>) -> (r: Option<Pat>)
    ensures
        opt_pat_view(r) == opt_pat_view(*p),
{
    match p {
        Option::Some(x) => Option::Some(clone_pat(x)),
        Option::None => Option::None,
    }
}

#[verifier::spinoff_prover]
pub fn clone_pats(v: &Vec<Pat>) -> (r: Vec<Pat>)
    ensures
        pats_view(r@) == pats_view(v@),
{
    let mut out: Vec<Pat> = Vec::new();
    let mut i: usize = 0;
    while i < v.len()
        invariant
            i <= v.len(),
            out@.len() == i,
            forall|j: int| 0 <= j < i ==> pat_view(out@[j]) == pat_view(v@[j]),
        decreases v.len() - i,
    {
        out.push(clone_pat(&v[i]));
        i = i + 1;
    }
    proof {
        assert(pats_view(out@) =~= pats_view(v@));
    }
    out
}

#[verifier::spinoff_prover]
pub fn clone_prop(p: &MemberProp) -> (r: MemberProp)
    ensures
        prop_view(r) == prop_view(*p),
    decreases *p,
{
    match p {
        MemberProp::Ident(s) => MemberProp::Ident(clone_string(s)),
        MemberProp::Computed(e) => MemberProp::Computed(Box::new(clone_expr(e))),
    }
}

#[verifier::spinoff_prover]
pub fn clone_expr(e: &Expr) -> (r: Expr)
    ensures
        r@ == e@,
    decreases *e,
{
    match e {
        Expr::Ident(s) => Expr::Ident(clone_string(s)),
        Expr::Str(s) => Expr::Str(clone_string(s)),
        Expr::Bool(b) => Expr::Bool(*b),
        Expr::Num(n) => Expr::Num(*n),
        Expr::Regex { exp, flags } => Expr::Regex {
            exp: clone_string(exp),
            flags: clone_string(flags),
        },
        Expr::Bin { op, left, right } => Expr::Bin {
            op: *op,
            left: Box::new(clone_expr(left)),
            right: Box::new(clone_expr(right)),
        },
        Expr::Assign { op, target, value } => Expr::Assign {
            op: *op,
            target: clone_target(target),
            value: Box::new(clone_expr(value)),
        },
        Expr::Call { callee, args } => Expr::Call {
            callee: Box::new(clone_expr(callee)),
            args: clone_exprs(args),
        },
        Expr::Member { obj, prop } => Expr::Member {
            obj: Box::new(clone_expr(obj)),
            prop: clone_prop(prop),
        },
        Expr::New { callee, args } => Expr::New {
            callee: Box::new(clone_expr(callee)),
            args: clone_opt_exprs(args),
        },
        Expr::Arrow { is_async, params, body } => Expr::Arrow {
            is_async: *is_async,
            params: clone_pats(params),
            body: clone_arrow_body(body),
        },
        Expr::Func { name, function } => Expr::Func {
            name: clone_opt_string(name),
            function: Box::new(clone_function(function)),
        },
        Expr::Paren(inner) => Expr::Paren(Box::new(clone_expr(inner))),
        Expr::OptChain(inner) => Expr::OptChain(Box::new(clone_expr(inner))),
        Expr::SuperProp { prop } => Expr::SuperProp { prop: clone_prop(prop) },
        Expr::TypeWrap(inner) => Expr::TypeWrap(Box::new(clone_expr(inner))),
    }
}

#[verifier::spinoff_prover]
pub fn clone_exprs(v: &Vec<Expr>) -> (r: Vec<Expr>)
    ensures
        exprs_view(r@) == exprs_view(v@),
    decreases *v,
{
    let mut out: Vec<Expr> = Vec::new();
    let mut i: usize = 0;
    while i < v.len()
        invariant
            i <= v.len(),
            out@.len() == i,
            forall|j: int| 0 <= j < i ==> expr_view(out@[j]) == expr_view(v@[j]),
        decreases v.len() - i,
    {
        out.push(clone_expr(&v[i]));
        i = i + 1;
    }
    proof {
        assert(exprs_view(out@) =~= exprs_view(v@));
    }
    out
}

#[verifier::spinoff_prover]
pub fn clone_opt_exprs(v: &Option<Vec<Expr>>) -> (r: Option<Vec<Expr>>)
    ensures
        opt_exprs_view(r) == opt_exprs_view(*v),
    decreases *v,
{
    match v {
        Option::Some(list) => Option::Some(clone_exprs(list)),
        Option::None => Option::None,
    }
}

#[verifier::spinoff_prover]
pub fn clone_opt_expr(e: &Option<Expr>) -> (r: Option<Expr>)
    ensures
        opt_expr_view(r) == opt_expr_view(*e),
    decreases *e,
{
    match e {
        Option::Some(x) => Option::Some(clone_expr(x)),
        Option::None => Option::None,
    }
}

#[verifier::spinoff_prover]
pub fn clone_starget(t: &SimpleAssignTarget) -> (r: SimpleAssignTarget)
    ensures
        starget_view(r) == starget_view(*t),
    decreases *t,
{
    match t {
        SimpleAssignTarget::Ident(s) => SimpleAssignTarget::Ident(clone_string(s)),
        SimpleAssignTarget::Member { obj, prop } => SimpleAssignTarget::Member {
            obj: Box::new(clone_expr(obj)),
            prop: clone_prop(prop),
        },
        SimpleAssignTarget::SuperProp { prop } => SimpleAssignTarget::SuperProp {
            prop: clone_prop(prop),
        },
        SimpleAssignTarget::Paren(e) => SimpleAssignTarget::Paren(Box::new(clone_expr(e))),
        SimpleAssignTarget::OptChain(e) => SimpleAssignTarget::OptChain(Box::new(clone_expr(e))),
        SimpleAssignTarget::TypeWrap(e) => SimpleAssignTarget::TypeWrap(Box::new(clone_expr(e))),
        SimpleAssignTarget::Invalid => SimpleAssignTarget::Invalid,
    }
}

#[verifier::spinoff_prover]
pub fn clone_target(t: &AssignTarget) -> (r: AssignTarget)
    ensures
        target_view(r) == target_view(*t),
    decreases *t,
{
    match t {
        AssignTarget::Simple(st) => AssignTarget::Simple(clone_starget(st)),
        AssignTarget::Pat => AssignTarget::Pat,
    }
}

#[verifier::spinoff_prover]
pub fn clone_arrow_body(b: &ArrowBody) -> (r: ArrowBody)
    ensures
        arrow_body_view(r) == arrow_body_view(*b),
    decreases *b,
{
    match b {
        ArrowBody::Block(stmts) => ArrowBody::Block(clone_stmts(stmts)),
        ArrowBody::Expr(e) => ArrowBody::Expr(Box::new(clone_expr(e))),
    }
}

#[verifier::spinoff_prover]
pub fn clone_function(f: &Function) -> (r: Function)
    ensures
        function_view(r) == function_view(*f),
    decreases *f,
{
    Function {
        is_async: f.is_async,
        params: clone_pats(&f.params),
        body: clone_opt_stmts(&f.body),
    }
}

#[verifier::spinoff_prover]
pub fn clone_declarator(d: &VarDeclarator) -> (r: VarDeclarator)
    ensures
        declarator_view(r) == declarator_view(*d),
    decreases *d,
{
    VarDeclarator { name: clone_pat(&d.name), init: clone_opt_expr(&d.init) }
}

#[verifier::spinoff_prover]
pub fn clone_declarators(v: &Vec<VarDeclarator>) -> (r: Vec<VarDeclarator>)
    ensures
        declarators_view(r@) == declarators_view(v@),
    decreases *v,
{
    let mut out: Vec<VarDeclarator> = Vec::new();
    let mut i: usize = 0;
    while i < v.len()
        invariant
            i <= v.len(),
            out@.len() == i,
            forall|j: int| 0 <= j < i ==> declarator_view(out@[j]) == declarator_view(v@[j]),
        decreases v.len() - i,
    {
        out.push(clone_declarator(&v[i]));
        i = i + 1;
    }
    proof {
        assert(declarators_view(out@) =~= declarators_view(v@));
    }
    out
}

#[verifier::spinoff_prover]
pub fn clone_vardecl(d: &VarDecl) -> (r: VarDecl)
    ensures
        var_decl_view(r) == var_decl_view(*d),
    decreases *d,
{
    VarDecl { kind: d.kind, decls: clone_declarators(&d.decls) }
}

#[verifier::spinoff_prover]
pub fn clone_decl(d: &Decl) -> (r: Decl)
    ensures
        decl_view(r) == decl_view(*d),
    decreases *d,
{
    match d {
        Decl::Var(v) => Decl::Var(clone_vardecl(v)),
        Decl::Func { name, function } => Decl::Func {
            name: clone_string(name),
            function: Box::new(clone_function(function)),
        },
    }
}

#[verifier::spinoff_prover]
pub fn clone_catch(c: &CatchClause) -> (r: CatchClause)
    ensures
        catch_view(r) == catch_view(*c),
    decreases *c,
{
    CatchClause { param: clone_opt_pat(&c.param), body: clone_stmts(&c.body) }
}

#[verifier::spinoff_prover]
pub fn clone_try(t: &TryStmt) -> (r: TryStmt)
    ensures
        try_view(r) == try_view(*t),
    decreases *t,
{
    TryStmt {
        block: clone_stmts(&t.block),
        handler: match &t.handler {
            Option::Some(h) => Option::Some(clone_catch(h)),
            Option::None => Option::None,
        },
        finalizer: clone_opt_stmts(&t.finalizer),
    }
}

#[verifier::spinoff_prover]
pub fn clone_stmt(s: &Stmt) -> (r: Stmt)
    ensures
        r@ == s@,
    decreases *s,
{
    match s {
        Stmt::Expr(e) => Stmt::Expr(clone_expr(e)),
        Stmt::Decl(d) => Stmt::Decl(clone_decl(d)),
        Stmt::Try(t) => Stmt::Try(Box::new(clone_try(t))),
        Stmt::Return(e) => Stmt::Return(clone_opt_expr(e)),
        Stmt::Block(v) => Stmt::Block(clone_stmts(v)),
        Stmt::Empty => Stmt::Empty,
    }
}

#[verifier::spinoff_prover]
pub fn clone_stmts(v: &Vec<Stmt>) -> (r: Vec<Stmt>)
    ensures
        stmts_view(r@) == stmts_view(v@),
    decreases *v,
{
    let mut out: Vec<Stmt> = Vec::new();
    let mut i: usize = 0;
    while i < v.len()
        invariant
            i <= v.len(),
            out@.len() == i,
            forall|j: int| 0 <= j < i ==> stmt_view(out@[j]) == stmt_view(v@[j]),
        decreases v.len() - i,
    {
        out.push(clone_stmt(&v[i]));
        i = i + 1;
    }
    proof {
        assert(stmts_view(out@) =~= stmts_view(v@));
    }
    out
}

#[verifier::spinoff_prover]
pub fn clone_opt_stmts(v: &Option<Vec<Stmt>>) -> (r: Option<Vec<Stmt>>)
    ensures
        opt_stmts_view(r) == opt_stmts_view(*v),
    decreases *v,
{
    match v {
        Option::Some(list) => Option::Some(clone_stmts(list)),
        Option::None => Option::None,
    }
}

} // verus!
