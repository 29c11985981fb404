//! The Helper Registry invariant: after one traversal the registry holds
//! exactly the helper names referenced by rewritten nodes.
//!
//! `mentions_*` says that a tree holds, anywhere, a call whose callee is the
//! identifier of a given helper.  The induction follows the walk and shows,
//! for every node: the registry only grows; a name it gains is referenced by
//! the rewritten node; and a reference in the rewritten node was either
//! already in the input or is in the registry.  On a program that nowhere
//! names a helper beforehand, the registry — and with it the injected import
//! — binds exactly the helpers the rewritten tree references.

use vstd::prelude::*;

use crate::ast::Helper;
use crate::config::Config;
use crate::model::{
    ArrowBodyV, AssignTargetV, DeclV, ExprV, FunctionV, MemberPropV, ProgramV,
    SimpleAssignTargetV, StmtV, VarDeclaratorV,
};
use crate::semantics::{
    assign_helper, bin_helper, catch_handler_arrow, console_error_this_stmt, date_arg,
    helper_allowed, helper_chars, program_helpers, reg_insert, replace_call, rw_declarator,
    rw_declarators, rw_expr, rw_exprs, rw_function, rw_prop, rw_starget, rw_stmt, rw_stmts,
    rw_target, starget_expr, try_wrap_stmt, wrap_block, wrap_catch,
};

verus! {

// ---------------------------------------------------------------------------
// References to a helper inside a tree.
// ---------------------------------------------------------------------------

#[verifier::spinoff_prover]
pub open spec fn mentions_expr(e: ExprV, h: Helper) -> bool
    decreases e,
{
    match e {
        ExprV::Ident(_) => false,
        ExprV::Str(_) => false,
        ExprV::Bool(_) => false,
        ExprV::Num(_) => false,
        ExprV::Regex { .. } => false,
        ExprV::Bin { op, left, right } => mentions_expr(*left, h) || mentions_expr(*right, h),
        ExprV::Assign { op, target, value } => mentions_target(target, h) || mentions_expr(
            *value,
            h,
        ),
        ExprV::Call { callee, args } => (match *callee {
            ExprV::Ident(name) => name == helper_chars(h),
            _ => false,
        }) || mentions_expr(*callee, h) || mentions_exprs(args, h),
        ExprV::Member { obj, prop } => mentions_expr(*obj, h) || mentions_prop(prop, h),
        ExprV::New { callee, args } => mentions_expr(*callee, h) || (match args {
            Option::Some(list) => mentions_exprs(list, h),
            Option::None => false,
        }),
        ExprV::Arrow { is_async, params, body } => match body {
            ArrowBodyV::Block(b) => mentions_stmts(b, h),
            ArrowBodyV::Expr(inner) => mentions_expr(*inner, h),
        },
        ExprV::Func { name, function } => mentions_function(*function, h),
        ExprV::Paren(inner) => mentions_expr(*inner, h),
        ExprV::OptChain(inner) => mentions_expr(*inner, h),
        ExprV::SuperProp { prop } => mentions_prop(prop, h),
        ExprV::TypeWrap(inner) => mentions_expr(*inner, h),
    }
}

#[verifier::spinoff_prover]
pub open spec fn mentions_prop(p: MemberPropV, h: Helper) -> bool
    decreases p,
{
    match p {
        MemberPropV::Ident(_) => false,
        MemberPropV::Computed(e) => mentions_expr(*e, h),
    }
}

#[verifier::spinoff_prover]
pub open spec fn mentions_starget(t: SimpleAssignTargetV, h: Helper) -> bool
    decreases t,
{
    match t {
        SimpleAssignTargetV::Ident(_) => false,
        SimpleAssignTargetV::Member { obj, prop } => mentions_expr(*obj, h) || mentions_prop(
            prop,
            h,
        ),
        SimpleAssignTargetV::SuperProp { prop } => mentions_prop(prop, h),
        SimpleAssignTargetV::Paren(e) => mentions_expr(*e, h),
        SimpleAssignTargetV::OptChain(e) => mentions_expr(*e, h),
        SimpleAssignTargetV::TypeWrap(e) => mentions_expr(*e, h),
        SimpleAssignTargetV::Invalid => false,
    }
}

#[verifier::spinoff_prover]
pub open spec fn mentions_target(t: AssignTargetV, h: Helper) -> bool
    decreases t,
{
    match t {
        AssignTargetV::Simple(st) => mentions_starget(st, h),
        AssignTargetV::Pat => false,
    }
}

#[verifier::spinoff_prover]
pub open spec fn mentions_exprs(es: Seq<ExprV>, h: Helper) -> bool
    decreases es,
{
    if es.len() == 0 {
        false
    } else {
        mentions_expr(es[0], h) || mentions_exprs(es.drop_first(), h)
    }
}

#[verifier::spinoff_prover]
pub open spec fn mentions_function(f: FunctionV, h: Helper) -> bool
    decreases f,
{
    match f.body {
        Option::Some(b) => mentions_stmts(b, h),
        Option::None => false,
    }
}

#[verifier::spinoff_prover]
pub open spec fn mentions_declarator(d: VarDeclaratorV, h: Helper) -> bool
    decreases d,
{
    match d.init {
        Option::Some(e) => mentions_expr(e, h),
        Option::None => false,
    }
}

#[verifier::spinoff_prover]
pub open spec fn mentions_declarators(ds: Seq<VarDeclaratorV>, h: Helper) -> bool
    decreases ds,
{
    if ds.len() == 0 {
        false
    } else {
        mentions_declarator(ds[0], h) || mentions_declarators(ds.drop_first(), h)
    }
}

#[verifier::spinoff_prover]
pub open spec fn mentions_stmt(s: StmtV, h: Helper) -> bool
    decreases s,
{
    match s {
        StmtV::Expr(e) => mentions_expr(e, h),
        StmtV::Decl(d) => match d {
            DeclV::Var(vd) => mentions_declarators(vd.decls, h),
            DeclV::Func { name, function } => mentions_function(*function, h),
        },
        StmtV::Try(t) => mentions_stmts(t.block, h) || (match t.handler {
            Option::Some(c) => mentions_stmts(c.body, h),
            Option::None => false,
        }) || (match t.finalizer {
            Option::Some(f) => mentions_stmts(f, h),
            Option::None => false,
        }),
        StmtV::Return(e) => match e {
            Option::Some(inner) => mentions_expr(inner, h),
            Option::None => false,
        },
        StmtV::Block(b) => mentions_stmts(b, h),
        StmtV::Empty => false,
    }
}

#[verifier::spinoff_prover]
pub open spec fn mentions_stmts(ss: Seq<StmtV>, h: Helper) -> bool
    decreases ss,
{
    if ss.len() == 0 {
        false
    } else {
        mentions_stmt(ss[0], h) || mentions_stmts(ss.drop_first(), h)
    }
}

// ---------------------------------------------------------------------------
// Small facts.
// ---------------------------------------------------------------------------

/// Two helpers with the same name are the same helper.
#[verifier::spinoff_prover]
pub proof fn lemma_helper_chars_injective(h1: Helper, h2: Helper)
    requires
        helper_chars(h1) == helper_chars(h2),
    ensures
        h1 == h2,
{
    reveal_strlit("accAdd");
    reveal_strlit("accSub");
    reveal_strlit("accMul");
    reveal_strlit("accDiv");
    reveal_strlit("accCong");
    assert("accAdd"@.len() == 6);
    assert("accSub"@.len() == 6);
    assert("accMul"@.len() == 6);
    assert("accDiv"@.len() == 6);
    assert("accCong"@.len() == 7);
    assert("accAdd"@[3] == 'A');
    assert("accSub"@[3] == 'S');
    assert("accMul"@[3] == 'M');
    assert("accDiv"@[3] == 'D');
}

/// Insertion keeps every present name and adds the inserted one.
#[verifier::spinoff_prover]
pub proof fn lemma_reg_insert_facts(acc: Seq<Helper>, inserted: Helper, other: Helper)
    ensures
        reg_insert(acc, inserted).contains(inserted),
        acc.contains(other) ==> reg_insert(acc, inserted).contains(other),
        reg_insert(acc, inserted).contains(other) ==> acc.contains(other) || other == inserted,
{
    let pushed = acc.push(inserted);
    assert(pushed[acc.len() as int] == inserted);
    if acc.contains(other) {
        let i = choose|i: int| 0 <= i < acc.len() && acc[i] == other;
        assert(pushed[i] == other);
    }
    if !acc.contains(inserted) && pushed.contains(other) {
        let i = choose|i: int| 0 <= i < pushed.len() && pushed[i] == other;
        if i < acc.len() {
            assert(acc[i] == other);
        }
    }
}

/// The wrap guard references exactly the helpers its protected block does:
/// the handler is inert.
#[verifier::spinoff_prover]
pub proof fn lemma_mentions_wrap(b: Seq<StmtV>, h: Helper)
    ensures
        mentions_stmts(wrap_block(b), h) == mentions_stmts(b, h),
{
    let guard = try_wrap_stmt(b);
    let reporter = console_error_this_stmt();
    let rcallee = ExprV::Member {
        obj: Box::new(ExprV::Ident("console"@)),
        prop: MemberPropV::Ident("error"@),
    };
    let rcall = ExprV::Call {
        callee: Box::new(rcallee),
        args: seq![ExprV::Ident("this"@), ExprV::Ident("error"@)],
    };
    assert(!mentions_stmt(reporter, h)) by {
        assert(!mentions_expr(ExprV::Ident("console"@), h));
        assert(!mentions_prop(MemberPropV::Ident("error"@), h));
        assert(!mentions_expr(rcallee, h));
        assert(!mentions_expr(ExprV::Ident("this"@), h));
        assert(!mentions_expr(ExprV::Ident("error"@), h));
        assert(seq![ExprV::Ident("this"@), ExprV::Ident("error"@)].drop_first() =~= seq![
            ExprV::Ident("error"@),
        ]);
        assert(seq![ExprV::Ident("error"@)].drop_first() =~= Seq::<ExprV>::empty());
        assert(!mentions_exprs(Seq::<ExprV>::empty(), h));
        assert(!mentions_exprs(seq![ExprV::Ident("error"@)], h));
        assert(!mentions_exprs(seq![ExprV::Ident("this"@), ExprV::Ident("error"@)], h));
        assert(!mentions_expr(rcall, h));
    }
    assert(seq![reporter].drop_first() =~= Seq::<StmtV>::empty());
    assert(!mentions_stmts(Seq::<StmtV>::empty(), h));
    assert(!mentions_stmts(seq![reporter], h));
    assert(mentions_stmt(guard, h) == mentions_stmts(b, h));
    assert(wrap_block(b).drop_first() =~= Seq::<StmtV>::empty());
    assert(mentions_stmts(wrap_block(b), h) == mentions_stmt(guard, h));
}

/// The injected rejection handler is inert: the wrapped chain references
/// exactly what the chain itself does.
#[verifier::spinoff_prover]
pub proof fn lemma_mentions_wrap_catch(c: ExprV, h: Helper)
    ensures
        mentions_expr(wrap_catch(c), h) == mentions_expr(c, h),
{
    let handler = catch_handler_arrow();
    assert(!mentions_expr(handler, h)) by {
        assert(!mentions_expr(ExprV::Ident("err"@), h));
        assert(seq![ExprV::Ident("err"@)].drop_first() =~= Seq::<ExprV>::empty());
        assert(!mentions_exprs(Seq::<ExprV>::empty(), h));
        assert(!mentions_exprs(seq![ExprV::Ident("err"@)], h));
        let hcallee = ExprV::Member {
            obj: Box::new(ExprV::Ident("console"@)),
            prop: MemberPropV::Ident("error"@),
        };
        let hcall = ExprV::Call { callee: Box::new(hcallee), args: seq![ExprV::Ident("err"@)] };
        let report = StmtV::Expr(hcall);
        assert(!mentions_expr(ExprV::Ident("console"@), h));
        assert(!mentions_prop(MemberPropV::Ident("error"@), h));
        assert(!mentions_expr(hcallee, h));
        assert(!mentions_expr(hcall, h));
        assert(!mentions_stmt(report, h));
        assert(seq![report].drop_first() =~= Seq::<StmtV>::empty());
        assert(!mentions_stmts(Seq::<StmtV>::empty(), h));
        assert(!mentions_stmts(seq![report], h));
    }
    assert(seq![handler].drop_first() =~= Seq::<ExprV>::empty());
    assert(!mentions_exprs(Seq::<ExprV>::empty(), h));
    assert(mentions_exprs(seq![handler], h) == false);
    let wcallee = ExprV::Member { obj: Box::new(c), prop: MemberPropV::Ident("catch"@) };
    assert(!mentions_prop(MemberPropV::Ident("catch"@), h));
    assert(mentions_expr(wcallee, h) == mentions_expr(c, h));
}

/// The normalized date argument is inert.
#[verifier::spinoff_prover]
pub proof fn lemma_mentions_replace_call(s: Seq<char>, h: Helper)
    ensures
        !mentions_expr(replace_call(s), h),
{
    let args = seq![ExprV::Regex { exp: "-"@, flags: "g"@ }, ExprV::Str("/"@)];
    let rcallee = ExprV::Member {
        obj: Box::new(ExprV::Str(s)),
        prop: MemberPropV::Ident("replace"@),
    };
    assert(!mentions_expr(ExprV::Str(s), h));
    assert(!mentions_prop(MemberPropV::Ident("replace"@), h));
    assert(!mentions_expr(rcallee, h));
    assert(!mentions_expr(ExprV::Regex { exp: "-"@, flags: "g"@ }, h));
    assert(!mentions_expr(ExprV::Str("/"@), h));
    assert(args.drop_first() =~= seq![ExprV::Str("/"@)]);
    assert(seq![ExprV::Str("/"@)].drop_first() =~= Seq::<ExprV>::empty());
    assert(!mentions_exprs(Seq::<ExprV>::empty(), h));
    assert(!mentions_exprs(seq![ExprV::Str("/"@)], h));
    assert(!mentions_exprs(args, h));
}

/// The reading of a simple target references what the target does.
#[verifier::spinoff_prover]
pub proof fn lemma_mentions_starget_expr(st: SimpleAssignTargetV, h: Helper)
    ensures
        mentions_expr(starget_expr(st), h) == mentions_starget(st, h),
{
}

} // verus!
