//! The meaning of the transform, as one recursive definition on the model.
//!
//! `transform_spec` says what the engine produces for every program and
//! configuration: the rewritten tree together with the helper registry, an
//! insertion-ordered, deduplicated sequence of helper names threaded through
//! the walk exactly as the driver visits the nodes.  The executable engine
//! in `visitor` is verified against these definitions clause by clause.

use vstd::prelude::*;

use crate::ast::{AssignOp, BinOp, Helper, VarKind};
use crate::config::Config;
use crate::model::{
    ArrowBodyV, AssignTargetV, CatchClauseV, DeclV, ExprV, FunctionV, MemberPropV, PatV, ProgramV,
    SimpleAssignTargetV, StmtV, TryStmtV, VarDeclV, VarDeclaratorV,
};

verus! {

// ---------------------------------------------------------------------------
// The operator tables and the helper registry.
// ---------------------------------------------------------------------------

/// The name under which a helper is imported and called.
pub open spec fn helper_chars(h: Helper) -> Seq<char> {
    match h {
        Helper::AccAdd => "accAdd"@,
        Helper::AccSub => "accSub"@,
        Helper::AccMul => "accMul"@,
        Helper::AccDiv => "accDiv"@,
        Helper::AccCong => "accCong"@,
    }
}

/// The helper that replaces a binary operator, if any.
pub open spec fn bin_helper(op: BinOp) -> Option<Helper> {
    match op {
        BinOp::Add => Option::Some(Helper::AccAdd),
        BinOp::Sub => Option::Some(Helper::AccSub),
        BinOp::Mul => Option::Some(Helper::AccMul),
        BinOp::Div => Option::Some(Helper::AccDiv),
        BinOp::StrictEq => Option::Some(Helper::AccCong),
        BinOp::Other => Option::None,
    }
}

/// The helper that replaces a compound-assignment operator, if any.
pub open spec fn assign_helper(op: AssignOp) -> Option<Helper> {
    match op {
        AssignOp::AddAssign => Option::Some(Helper::AccAdd),
        AssignOp::SubAssign => Option::Some(Helper::AccSub),
        AssignOp::MulAssign => Option::Some(Helper::AccMul),
        AssignOp::DivAssign => Option::Some(Helper::AccDiv),
        AssignOp::Assign => Option::None,
        AssignOp::Other => Option::None,
    }
}

/// The strict-equality substitution is gated: `accCong` may only be
/// introduced when `check_chong` is set.
pub open spec fn helper_allowed(cfg: Config, h: Helper) -> bool {
    h != Helper::AccCong || cfg.check_chong
}

/// Registry insertion: set semantics over an ordered sequence.  A name that
/// is already present keeps its first-seen position.
pub open spec fn reg_insert(acc: Seq<Helper>, h: Helper) -> Seq<Helper> {
    if acc.contains(h) {
        acc
    } else {
        acc.push(h)
    }
}

// ---------------------------------------------------------------------------
// Node shapes the rules look for, and the nodes they build.
// ---------------------------------------------------------------------------

/// Does this member key name exactly `name`?
pub open spec fn prop_is(p: MemberPropV, name: Seq<char>) -> bool {
    match p {
        MemberPropV::Ident(s) => s == name,
        MemberPropV::Computed(_) => false,
    }
}

/// A call whose callee is a member access named `then`.
pub open spec fn is_then_call(e: ExprV) -> bool {
    match e {
        ExprV::Call { callee, .. } => match *callee {
            ExprV::Member { prop, .. } => prop_is(prop, "then"@),
            _ => false,
        },
        _ => false,
    }
}

/// A call whose callee is a member access named `catch`.
pub open spec fn is_catch_call(e: ExprV) -> bool {
    match e {
        ExprV::Call { callee, .. } => match *callee {
            ExprV::Member { prop, .. } => prop_is(prop, "catch"@),
            _ => false,
        },
        _ => false,
    }
}

/// The chain predecessor of a call: the receiver of its `then` member
/// access, provided that receiver is itself a call.
pub open spec fn chain_next(e: ExprV) -> Option<ExprV> {
    match e {
        ExprV::Call { callee, .. } => match *callee {
            ExprV::Member { obj, prop } => {
                if prop_is(prop, "then"@) {
                    match *obj {
                        ExprV::Call { .. } => Option::Some(*obj),
                        _ => Option::None,
                    }
                } else {
                    Option::None
                }
            },
            _ => Option::None,
        },
        _ => Option::None,
    }
}

/// The backward walk of the promise rule: starting from a `then` call,
/// follow chain predecessors and report whether any of them accesses
/// `catch`.
#[verifier::spinoff_prover]
pub open spec fn has_catch_walk(e: ExprV) -> bool
    decreases e,
{
    match chain_next(e) {
        Option::Some(n) => is_catch_call(n) || has_catch_walk(n),
        Option::None => false,
    }
}

/// The statement `console.error(this, error)`.
pub open spec fn console_error_this_stmt() -> StmtV {
    StmtV::Expr(
        ExprV::Call {
            callee: Box::new(
                ExprV::Member {
                    obj: Box::new(ExprV::Ident("console"@)),
                    prop: MemberPropV::Ident("error"@),
                },
            ),
            args: seq![ExprV::Ident("this"@), ExprV::Ident("error"@)],
        },
    )
}

/// The try statement that guards a wrapped body: the body becomes the
/// protected block, the handler binds `error` and reports it; no finalizer.
pub open spec fn try_wrap_stmt(b: Seq<StmtV>) -> StmtV {
    StmtV::Try(
        Box::new(
            TryStmtV {
                block: b,
                handler: Option::Some(
                    CatchClauseV {
                        param: Option::Some(PatV::Ident("error"@)),
                        body: seq![console_error_this_stmt()],
                    },
                ),
                finalizer: Option::None,
            },
        ),
    )
}

/// A wrapped body: exactly one statement, the guard.
pub open spec fn wrap_block(b: Seq<StmtV>) -> Seq<StmtV> {
    seq![try_wrap_stmt(b)]
}

/// A body counts as already wrapped exactly when its first statement is a
/// try statement.
pub open spec fn already_wrapped_spec(b: Seq<StmtV>) -> bool {
    b.len() > 0 && b[0] is Try
}

/// Wrap a body unless it already is wrapped.
pub open spec fn wrap_if_unwrapped(b: Seq<StmtV>) -> Seq<StmtV> {
    if already_wrapped_spec(b) {
        b
    } else {
        wrap_block(b)
    }
}

/// The async wrap on an arrow-function body: a block body is wrapped unless
/// it already is; a bare-expression body becomes a block holding a single
/// return of that expression, then wrapped.  A non-async arrow is left
/// alone.
pub open spec fn arrow_wrap_spec(is_async: bool, b: ArrowBodyV) -> ArrowBodyV {
    if is_async {
        match b {
            ArrowBodyV::Block(ss) => ArrowBodyV::Block(wrap_if_unwrapped(ss)),
            ArrowBodyV::Expr(e) => ArrowBodyV::Block(
                wrap_block(seq![StmtV::Return(Option::Some(*e))]),
            ),
        }
    } else {
        b
    }
}

/// The handler `err => console.error(err)` appended by the promise rule.
pub open spec fn catch_handler_arrow() -> ExprV {
    ExprV::Arrow {
        is_async: false,
        params: seq![PatV::Ident("err"@)],
        body: ArrowBodyV::Block(
            seq![
                StmtV::Expr(
                    ExprV::Call {
                        callee: Box::new(
                            ExprV::Member {
                                obj: Box::new(ExprV::Ident("console"@)),
                                prop: MemberPropV::Ident("error"@),
                            },
                        ),
                        args: seq![ExprV::Ident("err"@)],
                    },
                ),
            ],
        ),
    }
}

/// `c.catch(err => console.error(err))`.
pub open spec fn wrap_catch(c: ExprV) -> ExprV {
    ExprV::Call {
        callee: Box::new(
            ExprV::Member { obj: Box::new(c), prop: MemberPropV::Ident("catch"@) },
        ),
        args: seq![catch_handler_arrow()],
    }
}

/// `"<s>".replace(/-/g, '/')`: the normalized date argument.
pub open spec fn replace_call(s: Seq<char>) -> ExprV {
    ExprV::Call {
        callee: Box::new(
            ExprV::Member {
                obj: Box::new(ExprV::Str(s)),
                prop: MemberPropV::Ident("replace"@),
            },
        ),
        args: seq![ExprV::Regex { exp: "-"@, flags: "g"@ }, ExprV::Str("/"@)],
    }
}

/// The string literal of the first constructor argument, when the date rule
/// applies: the callee is the identifier `Date` and the first argument is a
/// string literal.
pub open spec fn date_arg(callee: ExprV, args: Option<Seq<ExprV>>) -> Option<Seq<char>> {
    match callee {
        ExprV::Ident(name) => {
            if name == "Date"@ {
                match args {
                    Option::Some(list) => {
                        if list.len() > 0 {
                            match list[0] {
                                ExprV::Str(s) => Option::Some(s),
                                _ => Option::None,
                            }
                        } else {
                            Option::None
                        }
                    },
                    Option::None => Option::None,
                }
            } else {
                Option::None
            }
        },
        _ => Option::None,
    }
}

/// The plain-expression reading of a simple assignment target.  `Invalid`
/// has no reading; the rewrite never asks for one.
pub open spec fn starget_expr(t: SimpleAssignTargetV) -> ExprV {
    match t {
        SimpleAssignTargetV::Ident(s) => ExprV::Ident(s),
        SimpleAssignTargetV::Member { obj, prop } => ExprV::Member { obj, prop },
        SimpleAssignTargetV::SuperProp { prop } => ExprV::SuperProp { prop },
        SimpleAssignTargetV::Paren(e) => ExprV::Paren(e),
        SimpleAssignTargetV::OptChain(e) => ExprV::OptChain(e),
        SimpleAssignTargetV::TypeWrap(e) => ExprV::TypeWrap(e),
        SimpleAssignTargetV::Invalid => ExprV::Ident(Seq::empty()),
    }
}

/// Whether the compound-assignment rewrite can re-derive this target.
pub open spec fn target_rewritable(t: AssignTargetV) -> bool {
    match t {
        AssignTargetV::Simple(st) => !(st is Invalid),
        AssignTargetV::Pat => false,
    }
}

/// The names bound by the injected import statement, in registry order.
pub open spec fn helper_names(hs: Seq<Helper>) -> Seq<Seq<char>> {
    Seq::new(hs.len(), |i: int| helper_chars(hs[i]))
}

/// The module every helper is imported from.
pub open spec fn helper_module_chars() -> Seq<char> {
    "swc-plugin-accuracy/src/calc.js"@
}

/// The injected import: one `const { ...names } = require("<module>")`.
pub open spec fn require_stmt_spec(hs: Seq<Helper>) -> StmtV {
    StmtV::Decl(
        DeclV::Var(
            VarDeclV {
                kind: VarKind::Const,
                decls: seq![
                    VarDeclaratorV {
                        name: PatV::Object(helper_names(hs)),
                        init: Option::Some(
                            ExprV::Call {
                                callee: Box::new(ExprV::Ident("require"@)),
                                args: seq![ExprV::Str(helper_module_chars())],
                            },
                        ),
                    },
                ],
            },
        ),
    )
}

/// The escape hatch: a program whose first statement is exactly the string
/// literal `"calc polyfill"` in expression position.
pub open spec fn is_escaped(p: ProgramV) -> bool {
    p.body.len() > 0 && match p.body[0] {
        StmtV::Expr(e) => match e {
            ExprV::Str(s) => s == "calc polyfill"@,
            _ => false,
        },
        _ => false,
    }
}

// ---------------------------------------------------------------------------
// The rewrite walk.
//
// Each function returns the rewritten node together with the registry as it
// stands after visiting that node.  The `chain` flag of `rw_expr` is true
// exactly on receivers reached from a `then` or `catch` member call, where
// the promise rule must not fire again: the chain is handled once, at its
// head.
// ---------------------------------------------------------------------------

/// The arithmetic rule at a binary expression: operands first, then the
/// operator substitution, gated for strict equality.
#[verifier::spinoff_prover]
pub open spec fn rw_bin(cfg: Config, e: ExprV, acc: Seq<Helper>) -> (ExprV, Seq<Helper>)
    decreases e, 0int,
{
    match e {
        ExprV::Bin { op, left, right } => {
        let (l2, acc1) = rw_expr(cfg, *left, false, acc);
        let (r2, acc2) = rw_expr(cfg, *right, false, acc1);
        match bin_helper(op) {
            Option::Some(h) => {
                if helper_allowed(cfg, h) {
                    (
                        ExprV::Call {
                            callee: Box::new(ExprV::Ident(helper_chars(h))),
                            args: seq![l2, r2],
                        },
                        reg_insert(acc2, h),
                    )
                } else {
                    (ExprV::Bin { op, left: Box::new(l2), right: Box::new(r2) }, acc2)
                }
            },
            Option::None => (
                ExprV::Bin { op, left: Box::new(l2), right: Box::new(r2) },
                acc2,
            ),
        }
        },
        _ => (e, acc),
    }
}

/// The arithmetic rule at a compound assignment.
#[verifier::spinoff_prover]
pub open spec fn rw_assign(cfg: Config, e: ExprV, acc: Seq<Helper>) -> (ExprV, Seq<Helper>)
    decreases e, 0int,
{
    match e {
        ExprV::Assign { op, target, value } => {
        match (assign_helper(op), target) {
            (Option::Some(h), AssignTargetV::Simple(st)) => {
                if !(st is Invalid) {
                    let acc1 = reg_insert(acc, h);
                    let (st2, acc2) = rw_starget(cfg, st, acc1);
                    // The re-derived left operand is the plain-expression
                    // reading of the target, which the walk has just
                    // descended into; a second descent into the copy
                    // would change nothing.
                    let lv2 = starget_expr(st2);
                    let (v2, acc3) = rw_expr(cfg, *value, false, acc2);
                    (
                        ExprV::Assign {
                            op: AssignOp::Assign,
                            target: AssignTargetV::Simple(st2),
                            value: Box::new(
                                ExprV::Call {
                                    callee: Box::new(ExprV::Ident(helper_chars(h))),
                                    args: seq![lv2, v2],
                                },
                            ),
                        },
                        acc3,
                    )
                } else {
                    let (t2, acc1) = rw_target(cfg, target, acc);
                    let (v2, acc2) = rw_expr(cfg, *value, false, acc1);
                    (ExprV::Assign { op, target: t2, value: Box::new(v2) }, acc2)
                }
            },
            _ => {
                let (t2, acc1) = rw_target(cfg, target, acc);
                let (v2, acc2) = rw_expr(cfg, *value, false, acc1);
                (ExprV::Assign { op, target: t2, value: Box::new(v2) }, acc2)
            },
        }
        },
        _ => (e, acc),
    }
}

/// The promise rule at a call, then the walk of its parts.
#[verifier::spinoff_prover]
pub open spec fn rw_call(cfg: Config, e: ExprV, chain: bool, acc: Seq<Helper>) -> (ExprV, Seq<
    Helper,
>)
    decreases e, 0int,
{
    match e {
        ExprV::Call { callee, args } => {
        let fire = cfg.promise_catch && !chain && is_then_call(e) && !has_catch_walk(e);
        let (callee2, acc1) = match *callee {
            ExprV::Member { obj, prop } => {
                let inner = prop_is(prop, "then"@) || prop_is(prop, "catch"@);
                let (obj2, a1) = rw_expr(cfg, *obj, inner, acc);
                let (p2, a2) = rw_prop(cfg, prop, a1);
                (ExprV::Member { obj: Box::new(obj2), prop: p2 }, a2)
            },
            _ => rw_expr(cfg, *callee, false, acc),
        };
        let (args2, acc2) = rw_exprs(cfg, args, acc1);
        let c_new = ExprV::Call { callee: Box::new(callee2), args: args2 };
        (if fire { wrap_catch(c_new) } else { c_new }, acc2)
        },
        _ => (e, acc),
    }
}

/// The date rule at a constructor call.
#[verifier::spinoff_prover]
pub open spec fn rw_new(cfg: Config, e: ExprV, acc: Seq<Helper>) -> (ExprV, Seq<Helper>)
    decreases e, 0int,
{
    match e {
        ExprV::New { callee, args } => {
        let (c2, acc1) = rw_expr(cfg, *callee, false, acc);
        match args {
            Option::Some(list) => {
                match date_arg(*callee, args) {
                    Option::Some(s) => {
                        let (rest, acc2) = rw_exprs(cfg, list.drop_first(), acc1);
                        (
                            ExprV::New {
                                callee: Box::new(c2),
                                args: Option::Some(seq![replace_call(s)] + rest),
                            },
                            acc2,
                        )
                    },
                    Option::None => {
                        let (l2, acc2) = rw_exprs(cfg, list, acc1);
                        (
                            ExprV::New { callee: Box::new(c2), args: Option::Some(l2) },
                            acc2,
                        )
                    },
                }
            },
            Option::None => (
                ExprV::New { callee: Box::new(c2), args: Option::None },
                acc1,
            ),
        }
        },
        _ => (e, acc),
    }
}

/// The async wrap at an arrow function, then the walk of its body.
#[verifier::spinoff_prover]
pub open spec fn rw_arrow(cfg: Config, e: ExprV, acc: Seq<Helper>) -> (ExprV, Seq<Helper>)
    decreases e, 0int,
{
    match e {
        ExprV::Arrow { is_async, params, body } => {
        if cfg.add_async_try && is_async {
            match body {
                ArrowBodyV::Block(b) => {
                    let (b2, acc1) = rw_stmts(cfg, b, acc);
                    let nb = if already_wrapped_spec(b) {
                        b2
                    } else {
                        wrap_block(b2)
                    };
                    (ExprV::Arrow { is_async, params, body: ArrowBodyV::Block(nb) }, acc1)
                },
                ArrowBodyV::Expr(inner) => {
                    let (e2, acc1) = rw_expr(cfg, *inner, false, acc);
                    (
                        ExprV::Arrow {
                            is_async,
                            params,
                            body: ArrowBodyV::Block(
                                wrap_block(seq![StmtV::Return(Option::Some(e2))]),
                            ),
                        },
                        acc1,
                    )
                },
            }
        } else {
            match body {
                ArrowBodyV::Block(b) => {
                    let (b2, acc1) = rw_stmts(cfg, b, acc);
                    (ExprV::Arrow { is_async, params, body: ArrowBodyV::Block(b2) }, acc1)
                },
                ArrowBodyV::Expr(inner) => {
                    let (e2, acc1) = rw_expr(cfg, *inner, false, acc);
                    (
                        ExprV::Arrow {
                            is_async,
                            params,
                            body: ArrowBodyV::Expr(Box::new(e2)),
                        },
                        acc1,
                    )
                },
            }
        }
        },
        _ => (e, acc),
    }
}

#[verifier::spinoff_prover]
pub open spec fn rw_expr(cfg: Config, e: ExprV, chain: bool, acc: Seq<Helper>) -> (ExprV, Seq<
    Helper,
>)
    decreases e, 1int,
{
    match e {
        ExprV::Ident(_) => (e, acc),
        ExprV::Str(_) => (e, acc),
        ExprV::Bool(_) => (e, acc),
        ExprV::Num(_) => (e, acc),
        ExprV::Regex { .. } => (e, acc),
        ExprV::Bin { .. } => rw_bin(cfg, e, acc),
        ExprV::Assign { .. } => rw_assign(cfg, e, acc),
        ExprV::Call { .. } => rw_call(cfg, e, chain, acc),
        ExprV::Member { obj, prop } => {
            let (obj2, acc1) = rw_expr(cfg, *obj, false, acc);
            let (p2, acc2) = rw_prop(cfg, prop, acc1);
            (ExprV::Member { obj: Box::new(obj2), prop: p2 }, acc2)
        },
        ExprV::New { .. } => rw_new(cfg, e, acc),
        ExprV::Arrow { .. } => rw_arrow(cfg, e, acc),
        ExprV::Func { name, function } => {
            let (f2, acc1) = rw_function(cfg, *function, acc);
            (ExprV::Func { name, function: Box::new(f2) }, acc1)
        },
        ExprV::Paren(inner) => {
            let (e2, acc1) = rw_expr(cfg, *inner, false, acc);
            (ExprV::Paren(Box::new(e2)), acc1)
        },
        ExprV::OptChain(inner) => {
            let (e2, acc1) = rw_expr(cfg, *inner, false, acc);
            (ExprV::OptChain(Box::new(e2)), acc1)
        },
        ExprV::SuperProp { prop } => {
            let (p2, acc1) = rw_prop(cfg, prop, acc);
            (ExprV::SuperProp { prop: p2 }, acc1)
        },
        ExprV::TypeWrap(inner) => {
            let (e2, acc1) = rw_expr(cfg, *inner, false, acc);
            (ExprV::TypeWrap(Box::new(e2)), acc1)
        },
    }
}

/// The async wrap at a function node (declaration or expression): wrap an
/// unwrapped async body, then rewrite inside the protected block.
#[verifier::spinoff_prover]
pub open spec fn rw_function(cfg: Config, f: FunctionV, acc: Seq<Helper>) -> (FunctionV, Seq<
    Helper,
>)
    decreases f, 1int,
{
    match f.body {
        Option::Some(b) => {
            let (b2, acc1) = rw_stmts(cfg, b, acc);
            let nb = if cfg.add_async_try && f.is_async && !already_wrapped_spec(b) {
                wrap_block(b2)
            } else {
                b2
            };
            (
                FunctionV { is_async: f.is_async, params: f.params, body: Option::Some(nb) },
                acc1,
            )
        },
        Option::None => (f, acc),
    }
}

#[verifier::spinoff_prover]
pub open spec fn rw_prop(cfg: Config, p: MemberPropV, acc: Seq<Helper>) -> (MemberPropV, Seq<
    Helper,
>)
    decreases p, 1int,
{
    match p {
        MemberPropV::Ident(_) => (p, acc),
        MemberPropV::Computed(e) => {
            let (e2, acc1) = rw_expr(cfg, *e, false, acc);
            (MemberPropV::Computed(Box::new(e2)), acc1)
        },
    }
}

#[verifier::spinoff_prover]
pub open spec fn rw_starget(cfg: Config, t: SimpleAssignTargetV, acc: Seq<Helper>) -> (
    SimpleAssignTargetV,
    Seq<Helper>,
)
    decreases t, 1int,
{
    match t {
        SimpleAssignTargetV::Ident(_) => (t, acc),
        SimpleAssignTargetV::Member { obj, prop } => {
            let (obj2, acc1) = rw_expr(cfg, *obj, false, acc);
            let (p2, acc2) = rw_prop(cfg, prop, acc1);
            (SimpleAssignTargetV::Member { obj: Box::new(obj2), prop: p2 }, acc2)
        },
        SimpleAssignTargetV::SuperProp { prop } => {
            let (p2, acc1) = rw_prop(cfg, prop, acc);
            (SimpleAssignTargetV::SuperProp { prop: p2 }, acc1)
        },
        SimpleAssignTargetV::Paren(e) => {
            let (e2, acc1) = rw_expr(cfg, *e, false, acc);
            (SimpleAssignTargetV::Paren(Box::new(e2)), acc1)
        },
        SimpleAssignTargetV::OptChain(e) => {
            let (e2, acc1) = rw_expr(cfg, *e, false, acc);
            (SimpleAssignTargetV::OptChain(Box::new(e2)), acc1)
        },
        SimpleAssignTargetV::TypeWrap(e) => {
            let (e2, acc1) = rw_expr(cfg, *e, false, acc);
            (SimpleAssignTargetV::TypeWrap(Box::new(e2)), acc1)
        },
        SimpleAssignTargetV::Invalid => (t, acc),
    }
}

#[verifier::spinoff_prover]
pub open spec fn rw_target(cfg: Config, t: AssignTargetV, acc: Seq<Helper>) -> (AssignTargetV, Seq<
    Helper,
>)
    decreases t, 1int,
{
    match t {
        AssignTargetV::Simple(st) => {
            let (st2, acc1) = rw_starget(cfg, st, acc);
            (AssignTargetV::Simple(st2), acc1)
        },
        AssignTargetV::Pat => (t, acc),
    }
}

#[verifier::spinoff_prover]
pub open spec fn rw_exprs(cfg: Config, es: Seq<ExprV>, acc: Seq<Helper>) -> (Seq<ExprV>, Seq<
    Helper,
>)
    decreases es, 1int,
{
    if es.len() == 0 {
        (es, acc)
    } else {
        let (first, acc1) = rw_expr(cfg, es[0], false, acc);
        let (rest, acc2) = rw_exprs(cfg, es.drop_first(), acc1);
        (seq![first] + rest, acc2)
    }
}

#[verifier::spinoff_prover]
pub open spec fn rw_opt_exprs(cfg: Config, es: Option<Seq<ExprV>>, acc: Seq<Helper>) -> (Option<
    Seq<ExprV>,
>, Seq<Helper>)
    decreases es, 1int,
{
    match es {
        Option::Some(list) => {
            let (l2, acc1) = rw_exprs(cfg, list, acc);
            (Option::Some(l2), acc1)
        },
        Option::None => (es, acc),
    }
}

#[verifier::spinoff_prover]
pub open spec fn rw_opt_expr(cfg: Config, e: Option<ExprV>, acc: Seq<Helper>) -> (Option<ExprV>,
    Seq<Helper>,
)
    decreases e, 1int,
{
    match e {
        Option::Some(inner) => {
            let (e2, acc1) = rw_expr(cfg, inner, false, acc);
            (Option::Some(e2), acc1)
        },
        Option::None => (e, acc),
    }
}

#[verifier::spinoff_prover]
pub open spec fn rw_declarator(cfg: Config, d: VarDeclaratorV, acc: Seq<Helper>) -> (
    VarDeclaratorV,
    Seq<Helper>,
)
    decreases d, 1int,
{
    let (init2, acc1) = rw_opt_expr(cfg, d.init, acc);
    (VarDeclaratorV { name: d.name, init: init2 }, acc1)
}

#[verifier::spinoff_prover]
pub open spec fn rw_declarators(cfg: Config, ds: Seq<VarDeclaratorV>, acc: Seq<Helper>) -> (Seq<
    VarDeclaratorV,
>, Seq<Helper>)
    decreases ds, 1int,
{
    if ds.len() == 0 {
        (ds, acc)
    } else {
        let (first, acc1) = rw_declarator(cfg, ds[0], acc);
        let (rest, acc2) = rw_declarators(cfg, ds.drop_first(), acc1);
        (seq![first] + rest, acc2)
    }
}

/// One declaration: a variable statement's initializers, or a function
/// declaration's async wrap and body.
#[verifier::spinoff_prover]
pub open spec fn rw_decl(cfg: Config, d: DeclV, acc: Seq<Helper>) -> (DeclV, Seq<Helper>)
    decreases d, 1int,
{
    match d {
        DeclV::Var(vd) => {
            let (ds2, acc1) = rw_declarators(cfg, vd.decls, acc);
            (DeclV::Var(VarDeclV { kind: vd.kind, decls: ds2 }), acc1)
        },
        DeclV::Func { name, function } => {
            let (f2, acc1) = rw_function(cfg, *function, acc);
            (DeclV::Func { name, function: Box::new(f2) }, acc1)
        },
    }
}

/// One try statement: the protected block, the handler body, the finalizer,
/// in that order.
#[verifier::spinoff_prover]
pub open spec fn rw_try(cfg: Config, t: TryStmtV, acc: Seq<Helper>) -> (TryStmtV, Seq<Helper>)
    decreases t, 1int,
{
    let (block2, acc1) = rw_stmts(cfg, t.block, acc);
    let (handler2, acc2) = match t.handler {
        Option::Some(h) => {
            let (hb2, a) = rw_stmts(cfg, h.body, acc1);
            (Option::Some(CatchClauseV { param: h.param, body: hb2 }), a)
        },
        Option::None => (Option::None, acc1),
    };
    let (fin2, acc3) = rw_opt_stmts(cfg, t.finalizer, acc2);
    (TryStmtV { block: block2, handler: handler2, finalizer: fin2 }, acc3)
}

#[verifier::spinoff_prover]
pub open spec fn rw_stmt(cfg: Config, s: StmtV, acc: Seq<Helper>) -> (StmtV, Seq<Helper>)
    decreases s, 1int,
{
    match s {
        StmtV::Expr(e) => {
            let (e2, acc1) = rw_expr(cfg, e, false, acc);
            (StmtV::Expr(e2), acc1)
        },
        StmtV::Decl(d) => {
            let (d2, acc1) = rw_decl(cfg, d, acc);
            (StmtV::Decl(d2), acc1)
        },
        StmtV::Try(t) => {
            let (t2, acc1) = rw_try(cfg, *t, acc);
            (StmtV::Try(Box::new(t2)), acc1)
        },
        StmtV::Return(e) => {
            let (e2, acc1) = rw_opt_expr(cfg, e, acc);
            (StmtV::Return(e2), acc1)
        },
        StmtV::Block(b) => {
            let (b2, acc1) = rw_stmts(cfg, b, acc);
            (StmtV::Block(b2), acc1)
        },
        StmtV::Empty => (s, acc),
    }
}

#[verifier::spinoff_prover]
pub open spec fn rw_stmts(cfg: Config, ss: Seq<StmtV>, acc: Seq<Helper>) -> (Seq<StmtV>, Seq<
    Helper,
>)
    decreases ss, 1int,
{
    if ss.len() == 0 {
        (ss, acc)
    } else {
        let (first, acc1) = rw_stmt(cfg, ss[0], acc);
        let (rest, acc2) = rw_stmts(cfg, ss.drop_first(), acc1);
        (seq![first] + rest, acc2)
    }
}

#[verifier::spinoff_prover]
pub open spec fn rw_opt_stmts(cfg: Config, ss: Option<Seq<StmtV>>, acc: Seq<Helper>) -> (Option<
    Seq<StmtV>,
>, Seq<Helper>)
    decreases ss, 1int,
{
    match ss {
        Option::Some(list) => {
            let (l2, acc1) = rw_stmts(cfg, list, acc);
            (Option::Some(l2), acc1)
        },
        Option::None => (ss, acc),
    }
}

// ---------------------------------------------------------------------------
// Unrolling facts for the walk over a list, used by the driver's loops.
// ---------------------------------------------------------------------------

/// The expression-list walk grows from the left in the same way.
#[verifier::spinoff_prover]
pub proof fn lemma_rw_exprs_snoc(cfg: Config, pre: Seq<ExprV>, x: ExprV, acc0: Seq<Helper>)
    ensures
        ({
            let (done, acc_a) = rw_exprs(cfg, pre, acc0);
            let (r, acc_b) = rw_expr(cfg, x, false, acc_a);
            rw_exprs(cfg, pre.push(x), acc0) == (done.push(r), acc_b)
        }),
    decreases pre.len(),
{
    let snoc = pre.push(x);
    if pre.len() == 0 {
        let (r, acc_b) = rw_expr(cfg, x, false, acc0);
        assert(snoc[0] == x);
        assert(snoc.drop_first() =~= Seq::<ExprV>::empty());
        assert(rw_exprs(cfg, snoc.drop_first(), acc_b) == (snoc.drop_first(), acc_b));
        assert(seq![r] + snoc.drop_first() =~= seq![r]);
        assert(rw_exprs(cfg, pre, acc0) == (pre, acc0));
        assert(pre.push(r) =~= seq![r]);
    } else {
        let (h, acc_h) = rw_expr(cfg, pre[0], false, acc0);
        assert(snoc[0] == pre[0]);
        assert(snoc.drop_first() =~= pre.drop_first().push(x));
        lemma_rw_exprs_snoc(cfg, pre.drop_first(), x, acc_h);
        let (done_rest, acc_a) = rw_exprs(cfg, pre.drop_first(), acc_h);
        let (r, acc_b) = rw_expr(cfg, x, false, acc_a);
        assert((seq![h] + done_rest).push(r) =~= seq![h] + done_rest.push(r));
    }
}

/// The declarator-list walk grows from the left in the same way.
#[verifier::spinoff_prover]
pub proof fn lemma_rw_declarators_snoc(
    cfg: Config,
    pre: Seq<VarDeclaratorV>,
    x: VarDeclaratorV,
    acc0: Seq<Helper>,
)
    ensures
        ({
            let (done, acc_a) = rw_declarators(cfg, pre, acc0);
            let (r, acc_b) = rw_declarator(cfg, x, acc_a);
            rw_declarators(cfg, pre.push(x), acc0) == (done.push(r), acc_b)
        }),
    decreases pre.len(),
{
    let snoc = pre.push(x);
    if pre.len() == 0 {
        let (r, acc_b) = rw_declarator(cfg, x, acc0);
        assert(snoc[0] == x);
        assert(snoc.drop_first() =~= Seq::<VarDeclaratorV>::empty());
        assert(rw_declarators(cfg, snoc.drop_first(), acc_b) == (snoc.drop_first(), acc_b));
        assert(seq![r] + snoc.drop_first() =~= seq![r]);
        assert(rw_declarators(cfg, pre, acc0) == (pre, acc0));
        assert(pre.push(r) =~= seq![r]);
    } else {
        let (h, acc_h) = rw_declarator(cfg, pre[0], acc0);
        assert(snoc[0] == pre[0]);
        assert(snoc.drop_first() =~= pre.drop_first().push(x));
        lemma_rw_declarators_snoc(cfg, pre.drop_first(), x, acc_h);
        let (done_rest, acc_a) = rw_declarators(cfg, pre.drop_first(), acc_h);
        let (r, acc_b) = rw_declarator(cfg, x, acc_a);
        assert((seq![h] + done_rest).push(r) =~= seq![h] + done_rest.push(r));
    }
}

/// The statement-list walk grows from the left: appending one statement to
/// the list appends its rewrite to the result and threads the registry on.
#[verifier::spinoff_prover]
pub proof fn lemma_rw_stmts_snoc(cfg: Config, pre: Seq<StmtV>, x: StmtV, acc0: Seq<Helper>)
    ensures
        ({
            let (done, acc_a) = rw_stmts(cfg, pre, acc0);
            let (r, acc_b) = rw_stmt(cfg, x, acc_a);
            rw_stmts(cfg, pre.push(x), acc0) == (done.push(r), acc_b)
        }),
    decreases pre.len(),
{
    let snoc = pre.push(x);
    if pre.len() == 0 {
        let (r, acc_b) = rw_stmt(cfg, x, acc0);
        assert(snoc[0] == x);
        assert(snoc.drop_first() =~= Seq::<StmtV>::empty());
        assert(rw_stmts(cfg, snoc.drop_first(), acc_b) == (snoc.drop_first(), acc_b));
        assert(seq![r] + snoc.drop_first() =~= seq![r]);
        assert(rw_stmts(cfg, pre, acc0) == (pre, acc0));
        assert(pre.push(r) =~= seq![r]);
    } else {
        let (h, acc_h) = rw_stmt(cfg, pre[0], acc0);
        assert(snoc[0] == pre[0]);
        assert(snoc.drop_first() =~= pre.drop_first().push(x));
        lemma_rw_stmts_snoc(cfg, pre.drop_first(), x, acc_h);
        let (done_rest, acc_a) = rw_stmts(cfg, pre.drop_first(), acc_h);
        let (r, acc_b) = rw_stmt(cfg, x, acc_a);
        assert((seq![h] + done_rest).push(r) =~= seq![h] + done_rest.push(r));
    }
}


// ---------------------------------------------------------------------------
// The whole-program transform.
// ---------------------------------------------------------------------------

/// The helper registry a full traversal of `p` produces.
pub open spec fn program_helpers(cfg: Config, p: ProgramV) -> Seq<Helper> {
    rw_stmts(cfg, p.body, Seq::empty()).1
}

/// What the engine produces: the program unchanged when the escape hatch is
/// present; otherwise the rewritten statement list, preceded by the helper
/// import exactly when at least one helper was registered.
pub open spec fn transform_spec(cfg: Config, p: ProgramV) -> ProgramV {
    if is_escaped(p) {
        p
    } else {
        let (body2, helpers) = rw_stmts(cfg, p.body, Seq::empty());
        ProgramV {
            body: if helpers.len() > 0 {
                seq![require_stmt_spec(helpers)] + body2
            } else {
                body2
            },
        }
    }
}

} // verus!
