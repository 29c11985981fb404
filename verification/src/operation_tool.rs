//! Builders and operator tables of the arithmetic-precision rule and the
//! import synthesizer.

use vstd::prelude::*;

use crate::ast::{
    AssignOp, AssignTarget, BinOp, Decl, Expr, Helper, Pat, Stmt, VarDecl, VarDeclarator, VarKind,
};
use crate::model::{
    expr_view, exprs_view, pat_view, stmt_view, strings_view, target_view, declarators_view,
};
use crate::semantics::{
    assign_helper, bin_helper, helper_chars, helper_module_chars, helper_names, require_stmt_spec,
    starget_expr,
};

verus! {

broadcast use crate::model::group_view_facts;

/// The helper that replaces a compound-assignment operator, if any.
#[verifier::spinoff_prover]
pub fn push_assign_cache(op: &AssignOp) -> (r: Option<Helper>)
    ensures
        r == assign_helper(*op),
{
    match op {
        AssignOp::AddAssign => Option::Some(Helper::AccAdd),
        AssignOp::SubAssign => Option::Some(Helper::AccSub),
        AssignOp::MulAssign => Option::Some(Helper::AccMul),
        AssignOp::DivAssign => Option::Some(Helper::AccDiv),
        _ => Option::None,
    }
}

/// The helper that replaces a binary operator, if any.
#[verifier::spinoff_prover]
pub fn push_bin_cache(op: &BinOp) -> (r: Option<Helper>)
    ensures
        r == bin_helper(*op),
{
    match op {
        BinOp::Add => Option::Some(Helper::AccAdd),
        BinOp::Sub => Option::Some(Helper::AccSub),
        BinOp::Mul => Option::Some(Helper::AccMul),
        BinOp::Div => Option::Some(Helper::AccDiv),
        BinOp::StrictEq => Option::Some(Helper::AccCong),
        BinOp::Other => Option::None,
    }
}

/// The name under which a helper is imported and called.
#[verifier::spinoff_prover]
pub fn helper_name(h: Helper) -> (r: String)
    ensures
        r@ == helper_chars(h),
{
    match h {
        Helper::AccAdd => "accAdd".to_owned(),
        Helper::AccSub => "accSub".to_owned(),
        Helper::AccMul => "accMul".to_owned(),
        Helper::AccDiv => "accDiv".to_owned(),
        Helper::AccCong => "accCong".to_owned(),
    }
}

/// `<helper>(left, right)`: the call that replaces a binary expression.  The
/// operands are handed over unchanged and in order.
#[verifier::spinoff_prover]
pub fn create_new_bin_call(h: Helper, left: Expr, right: Expr) -> (r: Expr)
    ensures
        r@ == (crate::model::ExprV::Call {
            callee: Box::new(crate::model::ExprV::Ident(helper_chars(h))),
            args: seq![left@, right@],
        }),
{
    let ghost lv = left@;
    let ghost rv = right@;
    let mut args: Vec<Expr> = Vec::new();
    args.push(left);
    args.push(right);
    let callee = Expr::Ident(helper_name(h));
    proof {
        assert(exprs_view(args@) =~= seq![lv, rv]);
        assert(expr_view(callee) == crate::model::ExprV::Ident(helper_chars(h)));
    }
    Expr::Call { callee: Box::new(callee), args }
}

/// `<target> = <helper>(<re-derived-left>, <right>)`: the assignment that
/// replaces a compound assignment.  `lv` is the plain-expression reading of
/// the target, re-derived by the caller.
#[verifier::spinoff_prover]
pub fn create_assign_expr(target: AssignTarget, lv: Expr, value: Expr, h: Helper) -> (r: Expr)
    ensures
        r@ == (crate::model::ExprV::Assign {
            op: AssignOp::Assign,
            target: target_view(target),
            value: Box::new(
                crate::model::ExprV::Call {
                    callee: Box::new(crate::model::ExprV::Ident(helper_chars(h))),
                    args: seq![lv@, value@],
                },
            ),
        }),
{
    let call = create_new_bin_call(h, lv, value);
    Expr::Assign { op: AssignOp::Assign, target, value: Box::new(call) }
}

/// The plain-expression reading of a simple assignment target, built from a
/// deep copy of the target's parts.  `Invalid` has no reading.
#[verifier::spinoff_prover]
pub fn starget_to_expr(t: &crate::ast::SimpleAssignTarget) -> (r: Option<Expr>)
    ensures
        r is Some <==> !(crate::model::starget_view(*t) is Invalid),
        forall|e: Expr| r == Option::Some(e) ==> e@ == starget_expr(
            crate::model::starget_view(*t),
        ),
{
    match t {
        crate::ast::SimpleAssignTarget::Ident(s) => Option::Some(
            Expr::Ident(crate::clone_tree::clone_string(s)),
        ),
        crate::ast::SimpleAssignTarget::Member { obj, prop } => Option::Some(
            Expr::Member {
                obj: Box::new(crate::clone_tree::clone_expr(obj)),
                prop: crate::clone_tree::clone_prop(prop),
            },
        ),
        crate::ast::SimpleAssignTarget::SuperProp { prop } => Option::Some(
            Expr::SuperProp { prop: crate::clone_tree::clone_prop(prop) },
        ),
        crate::ast::SimpleAssignTarget::Paren(e) => Option::Some(
            Expr::Paren(Box::new(crate::clone_tree::clone_expr(e))),
        ),
        crate::ast::SimpleAssignTarget::OptChain(e) => Option::Some(
            Expr::OptChain(Box::new(crate::clone_tree::clone_expr(e))),
        ),
        crate::ast::SimpleAssignTarget::TypeWrap(e) => Option::Some(
            Expr::TypeWrap(Box::new(crate::clone_tree::clone_expr(e))),
        ),
        crate::ast::SimpleAssignTarget::Invalid => Option::None,
    }
}

/// The module every helper is imported from.
#[verifier::spinoff_prover]
pub fn helper_module() -> (r: String)
    ensures
        r@ == helper_module_chars(),
{
    "swc-plugin-accuracy/src/calc.js".to_owned()
}

/// The injected import statement: one constant declaration binding the
/// registered helper names, in registry order, from a `require` of the
/// helper module.
#[verifier::spinoff_prover]
pub fn create_require_statement(cache: &Vec<Helper>) -> (r: Stmt)
    ensures
        r@ == require_stmt_spec(cache@),
{
    let mut names: Vec<String> = Vec::new();
    let mut i: usize = 0;
    while i < cache.len()
        invariant
            i <= cache.len(),
            names@.len() == i,
            forall|j: int| 0 <= j < i ==> names@[j]@ == helper_chars(cache@[j]),
        decreases cache.len() - i,
    {
        names.push(helper_name(cache[i]));
        i = i + 1;
    }
    proof {
        assert(strings_view(names@) =~= helper_names(cache@));
    }
    let mut require_args: Vec<Expr> = Vec::new();
    require_args.push(Expr::Str(helper_module()));
    let req_callee = Expr::Ident("require".to_owned());
    proof {
        assert(exprs_view(require_args@) =~= seq![
            crate::model::ExprV::Str(helper_module_chars()),
        ]);
        assert(expr_view(req_callee) == crate::model::ExprV::Ident("require"@));
    }
    let init = Expr::Call { callee: Box::new(req_callee), args: require_args };
    proof {
        assert(expr_view(init) == (crate::model::ExprV::Call {
            callee: Box::new(crate::model::ExprV::Ident("require"@)),
            args: seq![crate::model::ExprV::Str(helper_module_chars())],
        }));
    }
    let declarator = VarDeclarator { name: Pat::Object(names), init: Option::Some(init) };
    let ghost dv = crate::model::declarator_view(declarator);
    proof {
        assert(dv == (crate::model::VarDeclaratorV {
            name: crate::model::PatV::Object(helper_names(cache@)),
            init: Option::Some(
                crate::model::ExprV::Call {
                    callee: Box::new(crate::model::ExprV::Ident("require"@)),
                    args: seq![crate::model::ExprV::Str(helper_module_chars())],
                },
            ),
        }));
    }
    let mut decls: Vec<VarDeclarator> = Vec::new();
    decls.push(declarator);
    let vd = VarDecl { kind: VarKind::Const, decls };
    proof {
        assert(declarators_view(vd.decls@) =~= seq![dv]);
        assert(crate::model::var_decl_view(vd) == (crate::model::VarDeclV {
            kind: VarKind::Const,
            decls: seq![dv],
        }));
    }
    Stmt::Decl(Decl::Var(vd))
}

} // verus!
