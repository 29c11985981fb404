//! The stated laws of the transform, each proved against the definitions in
//! `semantics`.

use vstd::prelude::*;

use crate::ast::{AssignOp, BinOp, Helper};
use crate::config::Config;
use crate::model::{ArrowBodyV, AssignTargetV, ExprV, ProgramV, SimpleAssignTargetV, StmtV};
use crate::semantics::{
    already_wrapped_spec, arrow_wrap_spec, assign_helper, bin_helper, helper_allowed, helper_chars,
    is_escaped, reg_insert, replace_call, rw_expr, rw_prop, rw_starget, rw_stmts, starget_expr,
    transform_spec, wrap_block, wrap_catch, wrap_if_unwrapped,
};

verus! {

/// Wrapping an async body twice is the same as wrapping it once: the wrap
/// leaves a body whose first statement is a try statement, which the
/// already-wrapped test recognizes.
#[verifier::spinoff_prover]
pub proof fn lemma_async_wrap_idempotent(b: Seq<StmtV>)
    ensures
        wrap_if_unwrapped(wrap_if_unwrapped(b)) == wrap_if_unwrapped(b),
        already_wrapped_spec(wrap_if_unwrapped(b)),
{
}

/// The same, for the arrow-function form of the wrap: a second application
/// is a no-op, whichever body shape the arrow started with.
#[verifier::spinoff_prover]
pub proof fn lemma_arrow_wrap_idempotent(is_async: bool, b: ArrowBodyV)
    ensures
        arrow_wrap_spec(is_async, arrow_wrap_spec(is_async, b)) == arrow_wrap_spec(is_async, b),
{
}

/// Every arithmetic binary expression becomes a call to its helper, with the
/// walked operands handed over unchanged and in order, and its helper
/// registered.
#[verifier::spinoff_prover]
pub proof fn lemma_binary_substitution(
    cfg: Config,
    op: BinOp,
    h: Helper,
    l: ExprV,
    r: ExprV,
    chain: bool,
    acc: Seq<Helper>,
)
    requires
        bin_helper(op) == Option::Some(h),
        h != Helper::AccCong,
    ensures
        ({
            let (l2, acc1) = rw_expr(cfg, l, false, acc);
            let (r2, acc2) = rw_expr(cfg, r, false, acc1);
            rw_expr(cfg, ExprV::Bin { op, left: Box::new(l), right: Box::new(r) }, chain, acc)
                == (
                ExprV::Call {
                    callee: Box::new(ExprV::Ident(helper_chars(h))),
                    args: seq![l2, r2],
                },
                reg_insert(acc2, h),
            )
        }),
{
    let node = ExprV::Bin { op, left: Box::new(l), right: Box::new(r) };
    let arm = crate::semantics::rw_bin(cfg, node, acc);
}

/// With the congruence check disabled, a strict-equality node is never
/// rewritten: only its operands are walked.
#[verifier::spinoff_prover]
pub proof fn lemma_strict_equality_gated(
    cfg: Config,
    l: ExprV,
    r: ExprV,
    chain: bool,
    acc: Seq<Helper>,
)
    requires
        !cfg.check_chong,
    ensures
        ({
            let (l2, acc1) = rw_expr(cfg, l, false, acc);
            let (r2, acc2) = rw_expr(cfg, r, false, acc1);
            rw_expr(
                cfg,
                ExprV::Bin { op: BinOp::StrictEq, left: Box::new(l), right: Box::new(r) },
                chain,
                acc,
            ) == (ExprV::Bin { op: BinOp::StrictEq, left: Box::new(l2), right: Box::new(r2) }, acc2)
        }),
{
    let node = ExprV::Bin { op: BinOp::StrictEq, left: Box::new(l), right: Box::new(r) };
    let arm = crate::semantics::rw_bin(cfg, node, acc);
    assert(!helper_allowed(cfg, Helper::AccCong));
}

/// A compound assignment to a plain identifier `x` becomes
/// `x = helper(x, y')`, with the helper matching the operator table and `y'`
/// the walked right-hand side.
#[verifier::spinoff_prover]
pub proof fn lemma_compound_assign_ident(
    cfg: Config,
    op: AssignOp,
    h: Helper,
    name: Seq<char>,
    value: ExprV,
    chain: bool,
    acc: Seq<Helper>,
)
    requires
        assign_helper(op) == Option::Some(h),
    ensures
        ({
            let target = AssignTargetV::Simple(SimpleAssignTargetV::Ident(name));
            let (v2, acc2) = rw_expr(cfg, value, false, reg_insert(acc, h));
            rw_expr(cfg, ExprV::Assign { op, target, value: Box::new(value) }, chain, acc) == (
                ExprV::Assign {
                    op: AssignOp::Assign,
                    target,
                    value: Box::new(
                        ExprV::Call {
                            callee: Box::new(ExprV::Ident(helper_chars(h))),
                            args: seq![ExprV::Ident(name), v2],
                        },
                    ),
                },
                acc2,
            )
        }),
{
    let node = ExprV::Assign {
        op,
        target: AssignTargetV::Simple(SimpleAssignTargetV::Ident(name)),
        value: Box::new(value),
    };
    let arm = crate::semantics::rw_assign(cfg, node, acc);
    let acc1 = reg_insert(acc, h);
    assert(rw_starget(cfg, SimpleAssignTargetV::Ident(name), acc1) == (
        SimpleAssignTargetV::Ident(name),
        acc1,
    ));
    assert(starget_expr(SimpleAssignTargetV::Ident(name)) == ExprV::Ident(name));
}

/// A compound assignment to any simple, valid target becomes a plain
/// assignment whose right-hand side calls the helper on the re-derived
/// target and the walked right-hand side; a destructuring-pattern target is
/// left untouched apart from the walk of its parts.
#[verifier::spinoff_prover]
pub proof fn lemma_compound_assign_simple(
    cfg: Config,
    op: AssignOp,
    h: Helper,
    st: SimpleAssignTargetV,
    value: ExprV,
    chain: bool,
    acc: Seq<Helper>,
)
    requires
        assign_helper(op) == Option::Some(h),
        !(st is Invalid),
    ensures
        ({
            let (st2, acc2) = rw_starget(cfg, st, reg_insert(acc, h));
            let (v2, acc3) = rw_expr(cfg, value, false, acc2);
            rw_expr(
                cfg,
                ExprV::Assign {
                    op,
                    target: AssignTargetV::Simple(st),
                    value: Box::new(value),
                },
                chain,
                acc,
            ) == (
                ExprV::Assign {
                    op: AssignOp::Assign,
                    target: AssignTargetV::Simple(st2),
                    value: Box::new(
                        ExprV::Call {
                            callee: Box::new(ExprV::Ident(helper_chars(h))),
                            args: seq![starget_expr(st2), v2],
                        },
                    ),
                },
                acc3,
            )
        }),
{
    let node = ExprV::Assign { op, target: AssignTargetV::Simple(st), value: Box::new(value) };
    let arm = crate::semantics::rw_assign(cfg, node, acc);
}

/// A compound assignment to a destructuring pattern is not rewritten: the
/// operator stays, only the right-hand side is walked.
#[verifier::spinoff_prover]
pub proof fn lemma_compound_assign_pattern(
    cfg: Config,
    op: AssignOp,
    value: ExprV,
    chain: bool,
    acc: Seq<Helper>,
)
    ensures
        ({
            let (v2, acc2) = rw_expr(cfg, value, false, acc);
            rw_expr(
                cfg,
                ExprV::Assign { op, target: AssignTargetV::Pat, value: Box::new(value) },
                chain,
                acc,
            ) == (ExprV::Assign { op, target: AssignTargetV::Pat, value: Box::new(v2) }, acc2)
        }),
{
    let node = ExprV::Assign { op, target: AssignTargetV::Pat, value: Box::new(value) };
    let arm = crate::semantics::rw_assign(cfg, node, acc);
    assert(crate::semantics::rw_target(cfg, AssignTargetV::Pat, acc) == (
        AssignTargetV::Pat,
        acc,
    ));
}

/// The escape hatch: a program whose first statement is exactly the string
/// literal `"calc polyfill"` is returned unchanged, whatever the switches.
#[verifier::spinoff_prover]
pub proof fn lemma_escape_hatch(cfg: Config, p: ProgramV)
    requires
        is_escaped(p),
    ensures
        transform_spec(cfg, p) == p,
{
}

/// A `new Date(...)` whose first argument is a string literal has that
/// argument replaced by `"<s>".replace(/-/g, '/')`; further arguments are
/// walked as usual.
#[verifier::spinoff_prover]
pub proof fn lemma_date_literal(
    cfg: Config,
    s: Seq<char>,
    rest: Seq<ExprV>,
    chain: bool,
    acc: Seq<Helper>,
)
    ensures
        ({
            let node = ExprV::New {
                callee: Box::new(ExprV::Ident("Date"@)),
                args: Option::Some(seq![ExprV::Str(s)] + rest),
            };
            let (rest2, acc2) = crate::semantics::rw_exprs(cfg, rest, acc);
            rw_expr(cfg, node, chain, acc) == (
                ExprV::New {
                    callee: Box::new(ExprV::Ident("Date"@)),
                    args: Option::Some(seq![replace_call(s)] + rest2),
                },
                acc2,
            )
        }),
{
    let node = ExprV::New {
        callee: Box::new(ExprV::Ident("Date"@)),
        args: Option::Some(seq![ExprV::Str(s)] + rest),
    };
    let arm = crate::semantics::rw_new(cfg, node, acc);
    let list = seq![ExprV::Str(s)] + rest;
    assert(list[0] == ExprV::Str(s));
    assert(list.drop_first() =~= rest);
    assert(crate::semantics::date_arg(ExprV::Ident("Date"@), Option::Some(list))
        == Option::Some(s));
    assert(rw_expr(cfg, ExprV::Ident("Date"@), false, acc) == (ExprV::Ident("Date"@), acc));
}

/// A `new Date(...)` whose first argument is not a string literal is left
/// alone: a variable argument, in particular, survives unchanged.
#[verifier::spinoff_prover]
pub proof fn lemma_date_variable(cfg: Config, name: Seq<char>, chain: bool, acc: Seq<Helper>)
    ensures
        ({
            let node = ExprV::New {
                callee: Box::new(ExprV::Ident("Date"@)),
                args: Option::Some(seq![ExprV::Ident(name)]),
            };
            rw_expr(cfg, node, chain, acc) == (node, acc)
        }),
{
    let list = seq![ExprV::Ident(name)];
    let node = ExprV::New {
        callee: Box::new(ExprV::Ident("Date"@)),
        args: Option::Some(list),
    };
    let arm = crate::semantics::rw_new(cfg, node, acc);
    assert(crate::semantics::date_arg(ExprV::Ident("Date"@), Option::Some(list)) is None);
    assert(rw_expr(cfg, ExprV::Ident("Date"@), false, acc) == (ExprV::Ident("Date"@), acc));
    assert(rw_expr(cfg, list[0], false, acc) == (ExprV::Ident(name), acc));
    assert(list.drop_first().len() == 0);
    assert(crate::semantics::rw_exprs(cfg, list.drop_first(), acc) == (list.drop_first(), acc));
    assert(list.drop_first() =~= Seq::<ExprV>::empty());
    assert(crate::semantics::rw_exprs(cfg, list, acc) == (
        seq![ExprV::Ident(name)] + list.drop_first(),
        acc,
    ));
    assert(seq![ExprV::Ident(name)] + list.drop_first() =~= list);
}

// ---------------------------------------------------------------------------
// Promise chains.  The laws below speak of the concrete chain
// `fetchData().then(a).then(b)` with identifier callbacks, the shape the
// rule is specified on.
// ---------------------------------------------------------------------------

/// A plain call `f()`.
pub open spec fn chain_call(f: Seq<char>) -> ExprV {
    ExprV::Call { callee: Box::new(ExprV::Ident(f)), args: Seq::empty() }
}

/// One fluent link `recv.<prop>(cb)`.
pub open spec fn chain_link(recv: ExprV, prop: Seq<char>, cb: Seq<char>) -> ExprV {
    ExprV::Call {
        callee: Box::new(
            ExprV::Member { obj: Box::new(recv), prop: crate::model::MemberPropV::Ident(prop) },
        ),
        args: seq![ExprV::Ident(cb)],
    }
}

/// A plain call is left alone by the walk, whatever the chain flag.
#[verifier::spinoff_prover]
pub proof fn lemma_plain_call_inert(cfg: Config, f: Seq<char>, chain: bool, acc: Seq<Helper>)
    ensures
        rw_expr(cfg, chain_call(f), chain, acc) == (chain_call(f), acc),
{
    let node = chain_call(f);
    let arm = crate::semantics::rw_call(cfg, node, chain, acc);
    assert(!crate::semantics::is_then_call(node));
    assert(rw_expr(cfg, ExprV::Ident(f), false, acc) == (ExprV::Ident(f), acc));
    assert(crate::semantics::rw_exprs(cfg, Seq::<ExprV>::empty(), acc) == (
        Seq::<ExprV>::empty(),
        acc,
    ));
}

/// A `then` or `catch` link on the spine of a handled chain is left alone:
/// the rule fires only at a chain's head.
#[verifier::spinoff_prover]
pub proof fn lemma_link_inert(
    cfg: Config,
    recv: ExprV,
    prop: Seq<char>,
    cb: Seq<char>,
    acc: Seq<Helper>,
)
    requires
        prop == "then"@ || prop == "catch"@,
        rw_expr(cfg, recv, true, acc) == (recv, acc),
    ensures
        rw_expr(cfg, chain_link(recv, prop, cb), true, acc) == (chain_link(recv, prop, cb), acc),
{
    let node = chain_link(recv, prop, cb);
    let arm = crate::semantics::rw_call(cfg, node, true, acc);
    let p = crate::model::MemberPropV::Ident(prop);
    assert(crate::semantics::prop_is(p, "then"@) || crate::semantics::prop_is(p, "catch"@));
    assert(rw_prop(cfg, p, acc) == (p, acc));
    assert(rw_expr(cfg, ExprV::Ident(cb), false, acc) == (ExprV::Ident(cb), acc));
    assert(seq![ExprV::Ident(cb)].drop_first() =~= Seq::<ExprV>::empty());
    assert(crate::semantics::rw_exprs(cfg, seq![ExprV::Ident(cb)].drop_first(), acc) == (
        seq![ExprV::Ident(cb)].drop_first(),
        acc,
    ));
    assert(crate::semantics::rw_exprs(cfg, seq![ExprV::Ident(cb)], acc) == (
        seq![ExprV::Ident(cb)] + seq![ExprV::Ident(cb)].drop_first(),
        acc,
    ));
    assert(seq![ExprV::Ident(cb)] + seq![ExprV::Ident(cb)].drop_first() =~= seq![
        ExprV::Ident(cb),
    ]);
}

/// At a chain head without a rejection handler, the rule appends one; the
/// chain itself is already fully walked, so it is carried over unchanged.
#[verifier::spinoff_prover]
pub proof fn lemma_chain_head(cfg: Config, recv: ExprV, cb: Seq<char>, acc: Seq<Helper>)
    requires
        rw_expr(cfg, recv, true, acc) == (recv, acc),
    ensures
        ({
            let node = chain_link(recv, "then"@, cb);
            rw_expr(cfg, node, false, acc) == (
                if cfg.promise_catch && !crate::semantics::has_catch_walk(node) {
                    wrap_catch(node)
                } else {
                    node
                },
                acc,
            )
        }),
{
    let node = chain_link(recv, "then"@, cb);
    let arm = crate::semantics::rw_call(cfg, node, false, acc);
    let p = crate::model::MemberPropV::Ident("then"@);
    assert(crate::semantics::is_then_call(node));
    assert(crate::semantics::prop_is(p, "then"@));
    assert(rw_prop(cfg, p, acc) == (p, acc));
    assert(rw_expr(cfg, ExprV::Ident(cb), false, acc) == (ExprV::Ident(cb), acc));
    assert(seq![ExprV::Ident(cb)].drop_first() =~= Seq::<ExprV>::empty());
    assert(crate::semantics::rw_exprs(cfg, seq![ExprV::Ident(cb)].drop_first(), acc) == (
        seq![ExprV::Ident(cb)].drop_first(),
        acc,
    ));
    assert(crate::semantics::rw_exprs(cfg, seq![ExprV::Ident(cb)], acc) == (
        seq![ExprV::Ident(cb)] + seq![ExprV::Ident(cb)].drop_first(),
        acc,
    ));
    assert(seq![ExprV::Ident(cb)] + seq![ExprV::Ident(cb)].drop_first() =~= seq![
        ExprV::Ident(cb),
    ]);
}

/// The promise rule on `fetchData().then(a).then(b)` with no handler in the
/// chain: exactly one `.catch(err => console.error(err))` is appended, and
/// the chain itself is unchanged inside it.
#[verifier::spinoff_prover]
pub proof fn lemma_promise_chain_injected(
    cfg: Config,
    a: Seq<char>,
    b: Seq<char>,
    acc: Seq<Helper>,
)
    requires
        cfg.promise_catch,
    ensures
        ({
            let chain = chain_link(chain_link(chain_call("fetchData"@), "then"@, a), "then"@, b);
            rw_expr(cfg, chain, false, acc) == (wrap_catch(chain), acc)
        }),
{
    reveal_strlit("then");
    reveal_strlit("catch");
    assert("then"@.len() == 4);
    assert("catch"@.len() == 5);
    assert("then"@ != "catch"@);
    let f0 = chain_call("fetchData"@);
    let t1 = chain_link(f0, "then"@, a);
    let t2 = chain_link(t1, "then"@, b);
    lemma_plain_call_inert(cfg, "fetchData"@, true, acc);
    lemma_link_inert(cfg, f0, "then"@, a, acc);
    assert(crate::semantics::chain_next(f0) is None);
    assert(crate::semantics::has_catch_walk(f0) == false);
    assert(crate::semantics::chain_next(t1) == Option::Some(f0));
    assert(!crate::semantics::is_catch_call(f0));
    assert(crate::semantics::has_catch_walk(t1) == false);
    assert(crate::semantics::chain_next(t2) == Option::Some(t1));
    assert("then"@ != "catch"@);
    assert(!crate::semantics::is_catch_call(t1));
    assert(crate::semantics::has_catch_walk(t2) == false);
    lemma_chain_head(cfg, t1, b, acc);
}

/// The same chain with a `.catch(handler)` already present — at its end, in
/// its middle, or at its start — is left byte for byte unchanged.
#[verifier::spinoff_prover]
pub proof fn lemma_promise_chain_handled(
    cfg: Config,
    a: Seq<char>,
    b: Seq<char>,
    handler: Seq<char>,
    acc: Seq<Helper>,
)
    ensures
        ({
            let f0 = chain_call("fetchData"@);
            let tail = chain_link(
                chain_link(chain_link(f0, "then"@, a), "then"@, b),
                "catch"@,
                handler,
            );
            rw_expr(cfg, tail, false, acc) == (tail, acc)
        }),
        ({
            let f0 = chain_call("fetchData"@);
            let mid = chain_link(
                chain_link(chain_link(f0, "then"@, a), "catch"@, handler),
                "then"@,
                b,
            );
            rw_expr(cfg, mid, false, acc) == (mid, acc)
        }),
        ({
            let f0 = chain_call("fetchData"@);
            let head = chain_link(
                chain_link(chain_link(f0, "catch"@, handler), "then"@, a),
                "then"@,
                b,
            );
            rw_expr(cfg, head, false, acc) == (head, acc)
        }),
{
    reveal_strlit("then");
    reveal_strlit("catch");
    assert("then"@.len() == 4);
    assert("catch"@.len() == 5);
    assert("then"@ != "catch"@);
    let f0 = chain_call("fetchData"@);
    lemma_plain_call_inert(cfg, "fetchData"@, true, acc);
    assert(crate::semantics::chain_next(f0) is None);
    assert(crate::semantics::has_catch_walk(f0) == false);

    // handler at the end: the outermost call is a `catch` link, no `then`
    // head fires, and everything below is on the spine.
    let t1 = chain_link(f0, "then"@, a);
    let t2 = chain_link(t1, "then"@, b);
    let tail = chain_link(t2, "catch"@, handler);
    let arm_tail = crate::semantics::rw_call(cfg, tail, false, acc);
    lemma_link_inert(cfg, f0, "then"@, a, acc);
    lemma_link_inert(cfg, t1, "then"@, b, acc);
    assert(!crate::semantics::is_then_call(tail));
    let tp = crate::model::MemberPropV::Ident("catch"@);
    assert(crate::semantics::prop_is(tp, "catch"@));
    assert(rw_prop(cfg, tp, acc) == (tp, acc));
    assert(rw_expr(cfg, ExprV::Ident(handler), false, acc) == (ExprV::Ident(handler), acc));
    assert(seq![ExprV::Ident(handler)].drop_first() =~= Seq::<ExprV>::empty());
    assert(crate::semantics::rw_exprs(cfg, seq![ExprV::Ident(handler)].drop_first(), acc) == (
        seq![ExprV::Ident(handler)].drop_first(),
        acc,
    ));
    assert(crate::semantics::rw_exprs(cfg, seq![ExprV::Ident(handler)], acc) == (
        seq![ExprV::Ident(handler)] + seq![ExprV::Ident(handler)].drop_first(),
        acc,
    ));
    assert(seq![ExprV::Ident(handler)] + seq![ExprV::Ident(handler)].drop_first() =~= seq![
        ExprV::Ident(handler),
    ]);

    // handler in the middle: the head's backward walk finds it one step in.
    let c1 = chain_link(t1, "catch"@, handler);
    let mid = chain_link(c1, "then"@, b);
    lemma_link_inert(cfg, t1, "catch"@, handler, acc);
    assert(crate::semantics::chain_next(mid) == Option::Some(c1));
    assert(crate::semantics::is_catch_call(c1));
    assert(crate::semantics::has_catch_walk(mid));
    lemma_chain_head(cfg, c1, b, acc);

    // handler at the bottom: the walk crosses the `then` links and reaches
    // it.
    let c0 = chain_link(f0, "catch"@, handler);
    let u1 = chain_link(c0, "then"@, a);
    let head = chain_link(u1, "then"@, b);
    lemma_link_inert(cfg, f0, "catch"@, handler, acc);
    lemma_link_inert(cfg, c0, "then"@, a, acc);
    assert(crate::semantics::chain_next(u1) == Option::Some(c0));
    assert(crate::semantics::is_catch_call(c0));
    assert(crate::semantics::has_catch_walk(u1));
    assert(crate::semantics::chain_next(head) == Option::Some(u1));
    assert(!crate::semantics::is_catch_call(u1));
    assert(crate::semantics::has_catch_walk(head));
    lemma_chain_head(cfg, u1, b, acc);
}

/// Inserting one name leaves the presence of any other name unchanged.
#[verifier::spinoff_prover]
pub proof fn lemma_reg_insert_other(acc: Seq<Helper>, inserted: Helper, other: Helper)
    requires
        inserted != other,
    ensures
        reg_insert(acc, inserted).contains(other) == acc.contains(other),
{
    if !acc.contains(inserted) {
        let pushed = acc.push(inserted);
        if acc.contains(other) {
            let i = choose|i: int| 0 <= i < acc.len() && acc[i] == other;
            assert(pushed[i] == other);
        }
        if pushed.contains(other) {
            let i = choose|i: int| 0 <= i < pushed.len() && pushed[i] == other;
            if i < acc.len() {
                assert(acc[i] == other);
            }
        }
    }
}

// ---------------------------------------------------------------------------
// A gated helper never enters the registry.  The induction follows the walk:
// each lemma states that, for a helper the configuration does not allow, the
// registry holds it after a node exactly when it held it before.
// ---------------------------------------------------------------------------

#[verifier::spinoff_prover]
pub proof fn acc_pres_expr(cfg: Config, e: ExprV, chain: bool, acc: Seq<Helper>, h: Helper)
    requires
        !helper_allowed(cfg, h),
    ensures
        rw_expr(cfg, e, chain, acc).1.contains(h) == acc.contains(h),
    decreases e,
{
    match e {
        ExprV::Bin { op, left, right } => {
            let arm = crate::semantics::rw_bin(cfg, e, acc);
            acc_pres_expr(cfg, *left, false, acc, h);
            let a1 = rw_expr(cfg, *left, false, acc).1;
            acc_pres_expr(cfg, *right, false, a1, h);
            let a2 = rw_expr(cfg, *right, false, a1).1;
            match bin_helper(op) {
                Option::Some(h2) => {
                    if helper_allowed(cfg, h2) {
                        assert(h2 != h);
                        lemma_reg_insert_other(a2, h2, h);
                    }
                },
                Option::None => {},
            }
        },
        ExprV::Assign { op, target, value } => {
            let arm = crate::semantics::rw_assign(cfg, e, acc);
            match (assign_helper(op), target) {
                (Option::Some(h2), AssignTargetV::Simple(st)) => {
                    if !(st is Invalid) {
                        assert(h2 != h);
                        lemma_reg_insert_other(acc, h2, h);
                        let a1 = reg_insert(acc, h2);
                        acc_pres_starget(cfg, st, a1, h);
                        let a2 = rw_starget(cfg, st, a1).1;
                        acc_pres_expr(cfg, *value, false, a2, h);
                    } else {
                        acc_pres_target(cfg, target, acc, h);
                        let a1 = crate::semantics::rw_target(cfg, target, acc).1;
                        acc_pres_expr(cfg, *value, false, a1, h);
                    }
                },
                _ => {
                    acc_pres_target(cfg, target, acc, h);
                    let a1 = crate::semantics::rw_target(cfg, target, acc).1;
                    acc_pres_expr(cfg, *value, false, a1, h);
                },
            }
        },
        ExprV::Call { callee, args } => {
            let arm = crate::semantics::rw_call(cfg, e, chain, acc);
            let a1 = match *callee {
                ExprV::Member { obj, prop } => {
                    let inner = crate::semantics::prop_is(prop, "then"@)
                        || crate::semantics::prop_is(prop, "catch"@);
                    acc_pres_expr(cfg, *obj, inner, acc, h);
                    let ao = rw_expr(cfg, *obj, inner, acc).1;
                    acc_pres_prop(cfg, prop, ao, h);
                    rw_prop(cfg, prop, ao).1
                },
                _ => {
                    acc_pres_expr(cfg, *callee, false, acc, h);
                    rw_expr(cfg, *callee, false, acc).1
                },
            };
            acc_pres_exprs(cfg, args, a1, h);
        },
        ExprV::Member { obj, prop } => {
            acc_pres_expr(cfg, *obj, false, acc, h);
            let a1 = rw_expr(cfg, *obj, false, acc).1;
            acc_pres_prop(cfg, prop, a1, h);
        },
        ExprV::New { callee, args } => {
            let arm = crate::semantics::rw_new(cfg, e, acc);
            acc_pres_expr(cfg, *callee, false, acc, h);
            let a1 = rw_expr(cfg, *callee, false, acc).1;
            match args {
                Option::Some(list) => {
                    match crate::semantics::date_arg(*callee, args) {
                        Option::Some(_) => {
                            acc_pres_exprs(cfg, list.drop_first(), a1, h);
                        },
                        Option::None => {
                            acc_pres_exprs(cfg, list, a1, h);
                        },
                    }
                },
                Option::None => {},
            }
        },
        ExprV::Arrow { is_async, params, body } => {
            let arm = crate::semantics::rw_arrow(cfg, e, acc);
            match body {
                ArrowBodyV::Block(b) => {
                    acc_pres_stmts(cfg, b, acc, h);
                },
                ArrowBodyV::Expr(inner) => {
                    acc_pres_expr(cfg, *inner, false, acc, h);
                },
            }
        },
        ExprV::Func { name, function } => {
            acc_pres_function(cfg, *function, acc, h);
        },
        ExprV::Paren(inner) => {
            acc_pres_expr(cfg, *inner, false, acc, h);
        },
        ExprV::OptChain(inner) => {
            acc_pres_expr(cfg, *inner, false, acc, h);
        },
        ExprV::SuperProp { prop } => {
            acc_pres_prop(cfg, prop, acc, h);
        },
        ExprV::TypeWrap(inner) => {
            acc_pres_expr(cfg, *inner, false, acc, h);
        },
        _ => {},
    }
}

#[verifier::spinoff_prover]
pub proof fn acc_pres_prop(cfg: Config, p: crate::model::MemberPropV, acc: Seq<Helper>, h: Helper)
    requires
        !helper_allowed(cfg, h),
    ensures
        rw_prop(cfg, p, acc).1.contains(h) == acc.contains(h),
    decreases p,
{
    match p {
        crate::model::MemberPropV::Computed(e) => {
            acc_pres_expr(cfg, *e, false, acc, h);
        },
        _ => {},
    }
}

#[verifier::spinoff_prover]
pub proof fn acc_pres_starget(
    cfg: Config,
    t: SimpleAssignTargetV,
    acc: Seq<Helper>,
    h: Helper,
)
    requires
        !helper_allowed(cfg, h),
    ensures
        rw_starget(cfg, t, acc).1.contains(h) == acc.contains(h),
    decreases t,
{
    match t {
        SimpleAssignTargetV::Member { obj, prop } => {
            acc_pres_expr(cfg, *obj, false, acc, h);
            let a1 = rw_expr(cfg, *obj, false, acc).1;
            acc_pres_prop(cfg, prop, a1, h);
        },
        SimpleAssignTargetV::SuperProp { prop } => {
            acc_pres_prop(cfg, prop, acc, h);
        },
        SimpleAssignTargetV::Paren(e) => {
            acc_pres_expr(cfg, *e, false, acc, h);
        },
        SimpleAssignTargetV::OptChain(e) => {
            acc_pres_expr(cfg, *e, false, acc, h);
        },
        SimpleAssignTargetV::TypeWrap(e) => {
            acc_pres_expr(cfg, *e, false, acc, h);
        },
        _ => {},
    }
}

#[verifier::spinoff_prover]
pub proof fn acc_pres_target(cfg: Config, t: AssignTargetV, acc: Seq<Helper>, h: Helper)
    requires
        !helper_allowed(cfg, h),
    ensures
        crate::semantics::rw_target(cfg, t, acc).1.contains(h) == acc.contains(h),
    decreases t,
{
    match t {
        AssignTargetV::Simple(st) => {
            acc_pres_starget(cfg, st, acc, h);
        },
        AssignTargetV::Pat => {},
    }
}

#[verifier::spinoff_prover]
pub proof fn acc_pres_exprs(cfg: Config, es: Seq<ExprV>, acc: Seq<Helper>, h: Helper)
    requires
        !helper_allowed(cfg, h),
    ensures
        crate::semantics::rw_exprs(cfg, es, acc).1.contains(h) == acc.contains(h),
    decreases es,
{
    if es.len() > 0 {
        acc_pres_expr(cfg, es[0], false, acc, h);
        let a1 = rw_expr(cfg, es[0], false, acc).1;
        acc_pres_exprs(cfg, es.drop_first(), a1, h);
    }
}

#[verifier::spinoff_prover]
pub proof fn acc_pres_function(
    cfg: Config,
    f: crate::model::FunctionV,
    acc: Seq<Helper>,
    h: Helper,
)
    requires
        !helper_allowed(cfg, h),
    ensures
        crate::semantics::rw_function(cfg, f, acc).1.contains(h) == acc.contains(h),
    decreases f,
{
    match f.body {
        Option::Some(b) => {
            acc_pres_stmts(cfg, b, acc, h);
        },
        Option::None => {},
    }
}

#[verifier::spinoff_prover]
pub proof fn acc_pres_declarator(
    cfg: Config,
    d: crate::model::VarDeclaratorV,
    acc: Seq<Helper>,
    h: Helper,
)
    requires
        !helper_allowed(cfg, h),
    ensures
        crate::semantics::rw_declarator(cfg, d, acc).1.contains(h) == acc.contains(h),
    decreases d,
{
    match d.init {
        Option::Some(e) => {
            acc_pres_expr(cfg, e, false, acc, h);
        },
        Option::None => {},
    }
}

#[verifier::spinoff_prover]
pub proof fn acc_pres_declarators(
    cfg: Config,
    ds: Seq<crate::model::VarDeclaratorV>,
    acc: Seq<Helper>,
    h: Helper,
)
    requires
        !helper_allowed(cfg, h),
    ensures
        crate::semantics::rw_declarators(cfg, ds, acc).1.contains(h) == acc.contains(h),
    decreases ds,
{
    if ds.len() > 0 {
        acc_pres_declarator(cfg, ds[0], acc, h);
        let a1 = crate::semantics::rw_declarator(cfg, ds[0], acc).1;
        acc_pres_declarators(cfg, ds.drop_first(), a1, h);
    }
}

#[verifier::spinoff_prover]
pub proof fn acc_pres_stmt(cfg: Config, s: StmtV, acc: Seq<Helper>, h: Helper)
    requires
        !helper_allowed(cfg, h),
    ensures
        crate::semantics::rw_stmt(cfg, s, acc).1.contains(h) == acc.contains(h),
    decreases s,
{
    match s {
        StmtV::Expr(e) => {
            acc_pres_expr(cfg, e, false, acc, h);
        },
        StmtV::Decl(d) => {
            let arm = crate::semantics::rw_decl(cfg, d, acc);
            match d {
                crate::model::DeclV::Var(vd) => {
                    acc_pres_declarators(cfg, vd.decls, acc, h);
                },
                crate::model::DeclV::Func { name, function } => {
                    acc_pres_function(cfg, *function, acc, h);
                },
            }
        },
        StmtV::Try(t) => {
            let arm = crate::semantics::rw_try(cfg, *t, acc);
            acc_pres_stmts(cfg, t.block, acc, h);
            let a1 = rw_stmts(cfg, t.block, acc).1;
            let a2 = match t.handler {
                Option::Some(hc) => {
                    acc_pres_stmts(cfg, hc.body, a1, h);
                    rw_stmts(cfg, hc.body, a1).1
                },
                Option::None => a1,
            };
            match t.finalizer {
                Option::Some(f) => {
                    acc_pres_stmts(cfg, f, a2, h);
                },
                Option::None => {},
            }
        },
        StmtV::Return(e) => {
            match e {
                Option::Some(inner) => {
                    acc_pres_expr(cfg, inner, false, acc, h);
                },
                Option::None => {},
            }
        },
        StmtV::Block(b) => {
            acc_pres_stmts(cfg, b, acc, h);
        },
        StmtV::Empty => {},
    }
}

#[verifier::spinoff_prover]
pub proof fn acc_pres_stmts(cfg: Config, ss: Seq<StmtV>, acc: Seq<Helper>, h: Helper)
    requires
        !helper_allowed(cfg, h),
    ensures
        rw_stmts(cfg, ss, acc).1.contains(h) == acc.contains(h),
    decreases ss,
{
    if ss.len() > 0 {
        acc_pres_stmt(cfg, ss[0], acc, h);
        let a1 = crate::semantics::rw_stmt(cfg, ss[0], acc).1;
        acc_pres_stmts(cfg, ss.drop_first(), a1, h);
    }
}

/// With the congruence check disabled, no walk ever registers `accCong`, so
/// the injected import never binds it.
#[verifier::spinoff_prover]
pub proof fn lemma_no_cong_registered(cfg: Config, p: ProgramV)
    requires
        !cfg.check_chong,
    ensures
        !crate::semantics::program_helpers(cfg, p).contains(Helper::AccCong),
{
    assert(!helper_allowed(cfg, Helper::AccCong));
    acc_pres_stmts(cfg, p.body, Seq::empty(), Helper::AccCong);
    if Seq::<Helper>::empty().contains(Helper::AccCong) {
        let i = choose|i: int| 0 <= i < 0 && Seq::<Helper>::empty()[i] == Helper::AccCong;
    }
}

} // verus!
