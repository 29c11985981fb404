//! The async try/catch wrap.
//!
//! An async function body is replaced by a single try statement: the original
//! statement list becomes the protected block, and the handler binds the
//! thrown value to `error` and reports it with `console.error(this, error)`.
//! A body whose first statement is already a try statement is left alone, so
//! the wrap is idempotent.

use vstd::prelude::*;

use crate::ast::{ArrowBody, CatchClause, Expr, MemberProp, Pat, Stmt, TryStmt};
use crate::model::{
    arrow_body_view, catch_view, expr_view, exprs_view, stmt_view, stmts_view, try_view,
};
use crate::semantics::{
    already_wrapped_spec, arrow_wrap_spec, console_error_this_stmt, try_wrap_stmt, wrap_block,
};

verus! {

broadcast use crate::model::group_view_facts;

/// A body counts as already wrapped exactly when its first statement is a
/// try statement.
#[verifier::spinoff_prover]
pub fn already_wrapped(block: &Vec<Stmt>) -> (r: bool)
    ensures
        r == already_wrapped_spec(stmts_view(block@)),
{
    if block.len() > 0 {
        match &block[0] {
            Stmt::Try(_) => true,
            _ => false,
        }
    } else {
        false
    }
}

/// The reporting statement `console.error(this, error)` of the handler.
#[verifier::spinoff_prover]
fn console_error_call() -> (r: Stmt)
    ensures
        r@ == console_error_this_stmt(),
{
    let obj = Expr::Ident("console".to_owned());
    let mut args: Vec<Expr> = Vec::new();
    args.push(Expr::Ident("this".to_owned()));
    args.push(Expr::Ident("error".to_owned()));
    proof {
        assert(exprs_view(args@) =~= seq![
            crate::model::ExprV::Ident("this"@),
            crate::model::ExprV::Ident("error"@),
        ]);
        assert(expr_view(obj) == crate::model::ExprV::Ident("console"@));
    }
    let prop = MemberProp::Ident("error".to_owned());
    proof {
        assert(crate::model::prop_view(prop) == crate::model::MemberPropV::Ident("error"@));
    }
    let callee = Expr::Member { obj: Box::new(obj), prop };
    proof {
        assert(expr_view(callee) == (crate::model::ExprV::Member {
            obj: Box::new(crate::model::ExprV::Ident("console"@)),
            prop: crate::model::MemberPropV::Ident("error"@),
        }));
    }
    let call = Expr::Call { callee: Box::new(callee), args };
    Stmt::Expr(call)
}

/// Wrap a body: the returned list holds exactly one try statement guarding
/// the handed-over statements.
#[verifier::spinoff_prover]
pub fn wrap_with_try_catch(body: Vec<Stmt>) -> (r: Vec<Stmt>)
    ensures
        stmts_view(r@) == wrap_block(stmts_view(body@)),
{
    let ghost bv = stmts_view(body@);
    let reporter = console_error_call();
    let mut handler_body: Vec<Stmt> = Vec::new();
    handler_body.push(reporter);
    proof {
        assert(stmts_view(handler_body@) =~= seq![console_error_this_stmt()]);
    }
    let handler = CatchClause {
        param: Option::Some(Pat::Ident("error".to_owned())),
        body: handler_body,
    };
    proof {
        assert(catch_view(handler) == (crate::model::CatchClauseV {
            param: Option::Some(crate::model::PatV::Ident("error"@)),
            body: seq![console_error_this_stmt()],
        }));
    }
    let guard = TryStmt { block: body, handler: Option::Some(handler), finalizer: Option::None };
    proof {
        assert(try_view(guard) == (crate::model::TryStmtV {
            block: bv,
            handler: Option::Some(
                crate::model::CatchClauseV {
                    param: Option::Some(crate::model::PatV::Ident("error"@)),
                    body: seq![console_error_this_stmt()],
                },
            ),
            finalizer: Option::None,
        }));
    }
    let wrapped = Stmt::Try(Box::new(guard));
    proof {
        assert(stmt_view(wrapped) == try_wrap_stmt(bv));
    }
    let mut out: Vec<Stmt> = Vec::new();
    out.push(wrapped);
    proof {
        assert(stmts_view(out@) =~= wrap_block(bv));
    }
    out
}

/// The arrow-function form of the wrap: a block body is wrapped unless it
/// already is; a bare-expression body first becomes a block holding a single
/// return of that expression, which is then wrapped.  A non-async arrow is
/// left alone.
#[verifier::spinoff_prover]
pub fn wrap_arrow_body_with_try_catch(is_async: bool, body: ArrowBody) -> (r: ArrowBody)
    ensures
        arrow_body_view(r) == arrow_wrap_spec(is_async, arrow_body_view(body)),
{
    if !is_async {
        return body;
    }
    match body {
        ArrowBody::Block(stmts) => {
            if already_wrapped(&stmts) {
                ArrowBody::Block(stmts)
            } else {
                ArrowBody::Block(wrap_with_try_catch(stmts))
            }
        },
        ArrowBody::Expr(e) => {
            let ghost ev = expr_view(*e);
            let ret = Stmt::Return(Option::Some(*e));
            let mut block: Vec<Stmt> = Vec::new();
            block.push(ret);
            proof {
                assert(stmts_view(block@) =~= seq![
                    crate::model::StmtV::Return(Option::Some(ev)),
                ]);
            }
            ArrowBody::Block(wrap_with_try_catch(block))
        },
    }
}

} // verus!
