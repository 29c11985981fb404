//! The promise-catch rule: chain inspection and the injected handler.
//!
//! The rule is purely syntactic: a call whose callee is a member access named
//! `then` is taken for a promise-chain continuation, and the backward walk
//! follows receiver links through `then` accesses only.  Objects that merely
//! share these method names are indistinguishable from promises here; the
//! rule prefers injecting a handler over missing one.

use vstd::prelude::*;

use crate::ast::{word_is, ArrowBody, Expr, MemberProp, Pat, Stmt};
use crate::model::{
    arrow_body_view, expr_view, exprs_view, pats_view, prop_view, stmt_view, stmts_view,
};
use crate::semantics::{
    catch_handler_arrow, chain_next, has_catch_walk, is_catch_call, is_then_call, wrap_catch,
};

verus! {

broadcast use crate::model::group_view_facts;

/// Is this a call whose callee is a member access named `name`?
#[verifier::spinoff_prover]
fn is_member_call_named(e: &Expr, name: &str) -> (r: bool)
    ensures
        r == (match expr_view(*e) {
            crate::model::ExprV::Call { callee, .. } => match *callee {
                crate::model::ExprV::Member { prop, .. } => crate::semantics::prop_is(prop, name@),
                _ => false,
            },
            _ => false,
        }),
{
    match e {
        Expr::Call { callee, args } => {
            proof {
                assert(expr_view(*e) == (crate::model::ExprV::Call {
                    callee: Box::new(expr_view(**callee)),
                    args: exprs_view(args@),
                }));
            }
            match &**callee {
                Expr::Member { obj, prop } => {
                    proof {
                        assert(expr_view(**callee) == (crate::model::ExprV::Member {
                            obj: Box::new(expr_view(**obj)),
                            prop: prop_view(*prop),
                        }));
                    }
                    match prop {
                        MemberProp::Ident(s) => word_is(s, name),
                        _ => false,
                    }
                },
                _ => false,
            }
        },
        _ => false,
    }
}

/// The chain predecessor of a call: the receiver of its `then` member
/// access, provided that receiver is itself a call.
#[verifier::spinoff_prover]
pub fn get_next_call_expr<'a>(call: &'a Expr) -> (r: Option<&'a Expr>)
    ensures
        r is Some <==> chain_next(expr_view(*call)) is Some,
        r is Some ==> expr_view(*r->Some_0) == chain_next(expr_view(*call))->Some_0,
{
    match call {
        Expr::Call { callee, args } => {
            proof {
                assert(expr_view(*call) == (crate::model::ExprV::Call {
                    callee: Box::new(expr_view(**callee)),
                    args: exprs_view(args@),
                }));
            }
            match &**callee {
                Expr::Member { obj, prop } => {
                    proof {
                        assert(expr_view(**callee) == (crate::model::ExprV::Member {
                            obj: Box::new(expr_view(**obj)),
                            prop: prop_view(*prop),
                        }));
                    }
                    let named_then = match prop {
                        MemberProp::Ident(s) => word_is(s, "then"),
                        _ => false,
                    };
                    if named_then {
                        match &**obj {
                            Expr::Call { .. } => Option::Some(&**obj),
                            _ => Option::None,
                        }
                    } else {
                        Option::None
                    }
                },
                _ => Option::None,
            }
        },
        _ => Option::None,
    }
}

/// Is this a call whose callee is a member access named `then` — the shape
/// the promise rule fires on?
#[verifier::spinoff_prover]
pub fn is_then_call_e(e: &Expr) -> (r: bool)
    ensures
        r == is_then_call(expr_view(*e)),
{
    is_member_call_named(e, "then")
}

/// The backward walk: does any chain predecessor of this call access
/// `catch`?
#[verifier::spinoff_prover]
pub fn has_catch(call: &Expr) -> (r: bool)
    ensures
        r == has_catch_walk(expr_view(*call)),
    decreases *call,
{
    match call {
        Expr::Call { callee, args } => {
            proof {
                assert(expr_view(*call) == (crate::model::ExprV::Call {
                    callee: Box::new(expr_view(**callee)),
                    args: exprs_view(args@),
                }));
            }
            match &**callee {
                Expr::Member { obj, prop } => {
                    proof {
                        assert(expr_view(**callee) == (crate::model::ExprV::Member {
                            obj: Box::new(expr_view(**obj)),
                            prop: prop_view(*prop),
                        }));
                    }
                    let named_then = match prop {
                        MemberProp::Ident(s) => word_is(s, "then"),
                        _ => false,
                    };
                    if named_then {
                        match &**obj {
                            Expr::Call { .. } => {
                                if is_member_call_named(&**obj, "catch") {
                                    true
                                } else {
                                    has_catch(&**obj)
                                }
                            },
                            _ => false,
                        }
                    } else {
                        false
                    }
                },
                _ => false,
            }
        },
        _ => false,
    }
}

/// The injected handler `err => console.error(err)`.
#[verifier::spinoff_prover]
fn build_catch_handler() -> (r: Expr)
    ensures
        r@ == catch_handler_arrow(),
{
    let obj = Expr::Ident("console".to_owned());
    proof {
        assert(expr_view(obj) == crate::model::ExprV::Ident("console"@));
    }
    let prop = MemberProp::Ident("error".to_owned());
    proof {
        assert(prop_view(prop) == crate::model::MemberPropV::Ident("error"@));
    }
    let callee = Expr::Member { obj: Box::new(obj), prop };
    proof {
        assert(expr_view(callee) == (crate::model::ExprV::Member {
            obj: Box::new(crate::model::ExprV::Ident("console"@)),
            prop: crate::model::MemberPropV::Ident("error"@),
        }));
    }
    let mut args: Vec<Expr> = Vec::new();
    args.push(Expr::Ident("err".to_owned()));
    proof {
        assert(exprs_view(args@) =~= seq![crate::model::ExprV::Ident("err"@)]);
    }
    let report_call = Expr::Call { callee: Box::new(callee), args };
    proof {
        assert(expr_view(report_call) == (crate::model::ExprV::Call {
            callee: Box::new(
                crate::model::ExprV::Member {
                    obj: Box::new(crate::model::ExprV::Ident("console"@)),
                    prop: crate::model::MemberPropV::Ident("error"@),
                },
            ),
            args: seq![crate::model::ExprV::Ident("err"@)],
        }));
    }
    let report = Stmt::Expr(report_call);
    let mut body: Vec<Stmt> = Vec::new();
    body.push(report);
    let mut params: Vec<Pat> = Vec::new();
    params.push(Pat::Ident("err".to_owned()));
    proof {
        assert(stmts_view(body@) =~= seq![stmt_view(report)]);
        assert(pats_view(params@) =~= seq![crate::model::PatV::Ident("err"@)]);
    }
    let handler_body = ArrowBody::Block(body);
    let arrow = Expr::Arrow { is_async: false, params, body: handler_body };
    proof {
        assert(arrow_body_view(handler_body) == (crate::model::ArrowBodyV::Block(
            seq![stmt_view(report)],
        )));
        assert(expr_view(arrow) == catch_handler_arrow());
    }
    arrow
}

/// Append `.catch(err => console.error(err))` to a chain: the original call
/// becomes the receiver of the injected `catch` call.
#[verifier::spinoff_prover]
pub fn create_new_catch_callee(call: Expr) -> (r: Expr)
    ensures
        r@ == wrap_catch(call@),
{
    let ghost cv = call@;
    let prop = MemberProp::Ident("catch".to_owned());
    proof {
        assert(prop_view(prop) == crate::model::MemberPropV::Ident("catch"@));
    }
    let callee = Expr::Member { obj: Box::new(call), prop };
    proof {
        assert(expr_view(callee) == (crate::model::ExprV::Member {
            obj: Box::new(cv),
            prop: crate::model::MemberPropV::Ident("catch"@),
        }));
    }
    let mut args: Vec<Expr> = Vec::new();
    args.push(build_catch_handler());
    proof {
        assert(exprs_view(args@) =~= seq![catch_handler_arrow()]);
    }
    Expr::Call { callee: Box::new(callee), args }
}

} // verus!
