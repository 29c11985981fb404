//! The traversal driver.
//!
//! `TransformVisitor` walks a program once, top down, applying each rule at
//! the node kinds it cares about and collecting helper names in `cache`.
//! Every method is proven to produce exactly the tree and registry that the
//! corresponding `semantics` definition gives, so `visit_mut_program` meets
//! `transform_spec` clause for clause.

use vstd::prelude::*;

use crate::ast::{
    word_is, ArrowBody, AssignTarget, CatchClause, Decl, Expr, Function, Helper, MemberProp, Pat,
    Program, SimpleAssignTarget, Stmt, TryStmt, VarDecl, VarDeclarator,
};
use crate::async_tool::{already_wrapped, wrap_with_try_catch};
use crate::clone_tree::{clone_starget, clone_string};
use crate::config::Config;
use crate::model::{
    catch_view, declarator_view, declarators_view, expr_view, exprs_view, function_view,
    opt_expr_view, opt_exprs_view, opt_stmts_view, pat_view, program_view, prop_view,
    starget_view, stmt_view, stmts_view, target_view, try_view,
};
use crate::new_date_tool::create_new_regex_call;
use crate::operation_tool::{
    create_assign_expr, create_new_bin_call, create_require_statement, push_assign_cache,
    push_bin_cache, starget_to_expr,
};
use crate::promise_tool::{create_new_catch_callee, has_catch, is_then_call_e};
use crate::semantics::{
    date_arg, has_catch_walk, helper_allowed, is_escaped, is_then_call, prop_is, reg_insert,
    require_stmt_spec, rw_declarator, rw_declarators, rw_expr, rw_exprs, rw_function, rw_opt_expr,
    rw_opt_exprs, rw_opt_stmts, rw_prop, rw_starget, rw_stmt, rw_stmts, rw_target, transform_spec,
    wrap_block,
};

verus! {

broadcast use crate::model::group_view_facts;

/// The traversal state: the helper registry, the switches, and the marker
/// flag of the original escape-hatch bookkeeping.
pub struct TransformVisitor {
    pub cache: Vec<Helper>,
    pub parse_config: Config,
    pub has_polyfill_tag: bool,
}

/// Everything but the registry stays as it was.
pub open spec fn same_frame(a: TransformVisitor, b: TransformVisitor) -> bool {
    a.parse_config == b.parse_config && a.has_polyfill_tag == b.has_polyfill_tag
}

impl TransformVisitor {
    /// A fresh traversal state with every rule enabled.
    #[verifier::spinoff_prover]
    pub fn new() -> (v: TransformVisitor)
        ensures
            v.cache@ == Seq::<Helper>::empty(),
            v.parse_config == (Config { check_chong: true, add_async_try: true, promise_catch: true }),
            !v.has_polyfill_tag,
    {
        TransformVisitor {
            cache: Vec::new(),
            parse_config: Config::new(true, true, true),
            has_polyfill_tag: false,
        }
    }

    /// Registry insertion: append the name unless it is already present.
    #[verifier::loop_isolation(false)]
    #[verifier::spinoff_prover]
    fn cache_push(&mut self, h: Helper)
        ensures
            same_frame(*old(self), *final(self)),
            final(self).cache@ == reg_insert(old(self).cache@, h),
    {
        let mut i: usize = 0;
        let mut found = false;
        while i < self.cache.len()
            invariant
                i <= self.cache.len(),
                same_frame(*old(self), *self),
                self.cache@ == old(self).cache@,
                found <==> exists|j: int| 0 <= j < i && self.cache@[j] == h,
            decreases self.cache.len() - i,
        {
            if self.cache[i] == h {
                found = true;
            }
            i = i + 1;
        }
        if !found {
            self.cache.push(h);
        }
    }

    /// One expression.  `chain` is true exactly on receivers reached from a
    /// `then` or `catch` member call, where the promise rule must not fire
    /// again.
    #[verifier::spinoff_prover]
    pub fn rewrite_expr(&mut self, e: Expr, chain: bool) -> (r: Expr)
        ensures
            same_frame(*old(self), *final(self)),
            (r@, final(self).cache@) == rw_expr(
                old(self).parse_config,
                e@,
                chain,
                old(self).cache@,
            ),
        decreases e, 1int,
    {
        let kind: u8 = match &e {
            Expr::Bin { .. } => 0,
            Expr::Assign { .. } => 1,
            Expr::Call { .. } => 2,
            Expr::New { .. } => 3,
            Expr::Arrow { .. } => 4,
            _ => 5,
        };
        if kind == 0 {
            return self.rewrite_bin(e, chain);
        }
        if kind == 1 {
            return self.rewrite_assign(e, chain);
        }
        if kind == 2 {
            return self.rewrite_call(e, chain);
        }
        if kind == 3 {
            return self.rewrite_new(e, chain);
        }
        if kind == 4 {
            return self.rewrite_arrow(e, chain);
        }
        match e {
            Expr::Ident(s) => Expr::Ident(s),
            Expr::Str(s) => Expr::Str(s),
            Expr::Bool(b) => Expr::Bool(b),
            Expr::Num(n) => Expr::Num(n),
            Expr::Regex { exp, flags } => Expr::Regex { exp, flags },
            Expr::Member { obj, prop } => {
                let obj2 = self.rewrite_expr(*obj, false);
                let p2 = self.rewrite_prop(prop);
                Expr::Member { obj: Box::new(obj2), prop: p2 }
            },
            Expr::Func { name, function } => {
                let f2 = self.rewrite_function(*function);
                Expr::Func { name, function: Box::new(f2) }
            },
            Expr::Paren(inner) => {
                let e2 = self.rewrite_expr(*inner, false);
                Expr::Paren(Box::new(e2))
            },
            Expr::OptChain(inner) => {
                let e2 = self.rewrite_expr(*inner, false);
                Expr::OptChain(Box::new(e2))
            },
            Expr::SuperProp { prop } => {
                let p2 = self.rewrite_prop(prop);
                Expr::SuperProp { prop: p2 }
            },
            Expr::TypeWrap(inner) => {
                let e2 = self.rewrite_expr(*inner, false);
                Expr::TypeWrap(Box::new(e2))
            },
            _ => unreached(),
        }
    }

    /// A binary expression: operands first, then the operator substitution.
    #[verifier::spinoff_prover]
    fn rewrite_bin(&mut self, e: Expr, chain: bool) -> (r: Expr)
        requires
            e is Bin,
        ensures
            same_frame(*old(self), *final(self)),
            (r@, final(self).cache@) == rw_expr(
                old(self).parse_config,
                e@,
                chain,
                old(self).cache@,
            ),
        decreases e, 0int,
    {
        let ghost cfg0 = self.parse_config;
        let ghost acc_in = self.cache@;
        proof {
            let arm = crate::semantics::rw_bin(cfg0, e@, acc_in);
        }
        match e {
            Expr::Bin { op, left, right } => {
                let l2 = self.rewrite_expr(*left, false);
                let r2 = self.rewrite_expr(*right, false);
                match push_bin_cache(&op) {
                    Option::Some(h) => {
                        if h != Helper::AccCong || self.parse_config.check_chong {
                            self.cache_push(h);
                            create_new_bin_call(h, l2, r2)
                        } else {
                            Expr::Bin { op, left: Box::new(l2), right: Box::new(r2) }
                        }
                    },
                    Option::None => Expr::Bin { op, left: Box::new(l2), right: Box::new(r2) },
                }
            },
            _ => unreached(),
        }
    }

    /// A compound assignment: register, re-derive the target, substitute.
    #[verifier::spinoff_prover]
    fn rewrite_assign(&mut self, e: Expr, chain: bool) -> (r: Expr)
        requires
            e is Assign,
        ensures
            same_frame(*old(self), *final(self)),
            (r@, final(self).cache@) == rw_expr(
                old(self).parse_config,
                e@,
                chain,
                old(self).cache@,
            ),
        decreases e, 0int,
    {
        let ghost cfg0 = self.parse_config;
        let ghost acc_in = self.cache@;
        proof {
            let arm = crate::semantics::rw_assign(cfg0, e@, acc_in);
        }
        let ghost e0 = e;
        match e {
            Expr::Assign { op, target, value } => {
                let ghost target0 = target;
                proof {
                    assert(expr_view(e0) == (crate::model::ExprV::Assign {
                        op,
                        target: target_view(target0),
                        value: Box::new(expr_view(*value)),
                    }));
                }
                match push_assign_cache(&op) {
                    Option::Some(h) => {
                        let rewritable = match &target {
                            AssignTarget::Simple(st) => match st {
                                SimpleAssignTarget::Invalid => false,
                                _ => true,
                            },
                            AssignTarget::Pat => false,
                        };
                        if rewritable {
                            let ghost cfg = self.parse_config;
                            self.cache_push(h);
                            let ghost acc1 = self.cache@;
                            let st = match target {
                                AssignTarget::Simple(st) => st,
                                AssignTarget::Pat => unreached(),
                            };
                            let ghost st0 = st;
                            proof {
                                assert(target_view(target0) == crate::model::AssignTargetV::Simple(
                                    starget_view(st0),
                                ));
                                assert(!(starget_view(st0) is Invalid));
                            }
                            let st_t = self.rewrite_starget(st);
                            proof {
                                assert(!(rw_starget(cfg, starget_view(st0), acc1).0 is Invalid));
                            }
                            let lv = match starget_to_expr(&st_t) {
                                Option::Some(x) => x,
                                Option::None => unreached(),
                            };
                            let v2 = self.rewrite_expr(*value, false);
                            let t2 = AssignTarget::Simple(st_t);
                            proof {
                                assert(target_view(t2) == crate::model::AssignTargetV::Simple(
                                    starget_view(st_t),
                                ));
                            }
                            create_assign_expr(t2, lv, v2, h)
                        } else {
                            proof {
                                match target0 {
                                    AssignTarget::Simple(st) => {
                                        assert(target_view(target0)
                                            == crate::model::AssignTargetV::Simple(
                                            starget_view(st),
                                        ));
                                        assert(starget_view(st) is Invalid);
                                    },
                                    AssignTarget::Pat => {
                                        assert(target_view(target0)
                                            is Pat);
                                    },
                                }
                            }
                            let t2 = self.rewrite_target(target);
                            let v2 = self.rewrite_expr(*value, false);
                            Expr::Assign { op, target: t2, value: Box::new(v2) }
                        }
                    },
                    Option::None => {
                        let t2 = self.rewrite_target(target);
                        let v2 = self.rewrite_expr(*value, false);
                        Expr::Assign { op, target: t2, value: Box::new(v2) }
                    },
                }
            },
            _ => unreached(),
        }
    }

    /// A call: the promise rule at the head, then the parts.
    #[verifier::spinoff_prover]
    fn rewrite_call(&mut self, e: Expr, chain: bool) -> (r: Expr)
        requires
            e is Call,
        ensures
            same_frame(*old(self), *final(self)),
            (r@, final(self).cache@) == rw_expr(
                old(self).parse_config,
                e@,
                chain,
                old(self).cache@,
            ),
        decreases e, 0int,
    {
        let ghost cfg0 = self.parse_config;
        let ghost acc_in = self.cache@;
        proof {
            let arm = crate::semantics::rw_call(cfg0, e@, chain, acc_in);
        }
        let ghost e0 = e;
        let fire = self.parse_config.promise_catch && !chain && is_then_call_e(&e) && !has_catch(
            &e,
        );
        match e {
            Expr::Call { callee, args } => {
                proof {
                    assert(expr_view(e0) == (crate::model::ExprV::Call {
                        callee: Box::new(expr_view(*callee)),
                        args: exprs_view(args@),
                    }));
                }
                let callee2 = match *callee {
                    Expr::Member { obj, prop } => {
                        proof {
                            assert(expr_view(*callee) == (crate::model::ExprV::Member {
                                obj: Box::new(expr_view(*obj)),
                                prop: prop_view(prop),
                            }));
                        }
                        let inner = match &prop {
                            MemberProp::Ident(s) => {
                                proof {
                                    assert(prop_view(prop)
                                        == crate::model::MemberPropV::Ident(s@));
                                }
                                word_is(s, "then") || word_is(s, "catch")
                            },
                            _ => {
                                proof {
                                    assert(!(prop_view(prop) is Ident));
                                }
                                false
                            },
                        };
                        let obj2 = self.rewrite_expr(*obj, inner);
                        let p2 = self.rewrite_prop(prop);
                        let c2 = Expr::Member { obj: Box::new(obj2), prop: p2 };
                        proof {
                            assert(expr_view(c2) == (crate::model::ExprV::Member {
                                obj: Box::new(expr_view(obj2)),
                                prop: prop_view(p2),
                            }));
                        }
                        c2
                    },
                    other => self.rewrite_expr(other, false),
                };
                let args2 = self.rewrite_exprs(args);
                let c_new = Expr::Call { callee: Box::new(callee2), args: args2 };
                if fire {
                    create_new_catch_callee(c_new)
                } else {
                    c_new
                }
            },
            _ => unreached(),
        }
    }

    /// A constructor call: the date rule on the first argument.
    #[verifier::spinoff_prover]
    fn rewrite_new(&mut self, e: Expr, chain: bool) -> (r: Expr)
        requires
            e is New,
        ensures
            same_frame(*old(self), *final(self)),
            (r@, final(self).cache@) == rw_expr(
                old(self).parse_config,
                e@,
                chain,
                old(self).cache@,
            ),
        decreases e, 0int,
    {
        let ghost cfg0 = self.parse_config;
        let ghost acc_in = self.cache@;
        proof {
            let arm = crate::semantics::rw_new(cfg0, e@, acc_in);
        }
        let ghost e0 = e;
        match e {
            Expr::New { callee, args } => {
                let ghost args0 = args;
                proof {
                    assert(expr_view(e0) == (crate::model::ExprV::New {
                        callee: Box::new(expr_view(*callee)),
                        args: opt_exprs_view(args0),
                    }));
                }
                let is_date = match &*callee {
                    Expr::Ident(s) => {
                        proof {
                            assert(expr_view(*callee) == crate::model::ExprV::Ident(s@));
                        }
                        word_is(s, "Date")
                    },
                    _ => {
                        proof {
                            assert(!(expr_view(*callee) is Ident));
                        }
                        false
                    },
                };
                let ghost cv = expr_view(*callee);
                let c2 = self.rewrite_expr(*callee, false);
                match args {
                    Option::Some(list) => {
                        proof {
                            assert(opt_exprs_view(args0) == Option::Some(exprs_view(list@)));
                        }
                        let date_str: Option<String> = if is_date && list.len() > 0 {
                            match &list[0] {
                                Expr::Str(s) => {
                                    proof {
                                        assert(expr_view(list@[0])
                                            == crate::model::ExprV::Str(s@));
                                    }
                                    Option::Some(clone_string(s))
                                },
                                _ => {
                                    proof {
                                        assert(!(expr_view(list@[0]) is Str));
                                    }
                                    Option::None
                                },
                            }
                        } else {
                            Option::None
                        };
                        match date_str {
                            Option::Some(sval) => {
                                let ghost lview = exprs_view(list@);
                                let ghost acc_mid = self.cache@;
                                let ghost cfg = self.parse_config;
                                proof {
                                    assert(date_arg(cv, Option::Some(lview))
                                        == Option::Some(sval@));
                                }
                                // A string literal is a fixed point of the
                                // walk, so rewriting the whole argument list
                                // and then swapping the head for the
                                // normalizing call gives exactly the rule's
                                // result.
                                let mut args2 = self.rewrite_exprs(list);
                                let ghost l2view = exprs_view(args2@);
                                proof {
                                    assert(rw_expr(cfg, lview[0], false, acc_mid)
                                        == (lview[0], acc_mid));
                                    let (rest, acc_end) = rw_exprs(
                                        cfg,
                                        lview.drop_first(),
                                        acc_mid,
                                    );
                                    assert(l2view =~= seq![lview[0]] + rest);
                                    assert(l2view.drop_first() =~= rest);
                                }
                                let discarded = args2.remove(0);
                                proof {
                                    assert(exprs_view(args2@) =~= l2view.drop_first());
                                }
                                args2.insert(0, create_new_regex_call(sval));
                                proof {
                                    assert(exprs_view(args2@) =~= seq![
                                        crate::semantics::replace_call(sval@),
                                    ] + l2view.drop_first());
                                }
                                let ghost a2v = exprs_view(args2@);
                                let argsopt = Option::Some(args2);
                                proof {
                                    assert(opt_exprs_view(argsopt) == Option::Some(a2v));
                                }
                                Expr::New { callee: Box::new(c2), args: argsopt }
                            },
                            Option::None => {
                                proof {
                                    assert(date_arg(cv, Option::Some(exprs_view(list@)))
                                        is None);
                                }
                                let l2 = self.rewrite_exprs(list);
                                let ghost l2v = exprs_view(l2@);
                                let argsopt = Option::Some(l2);
                                proof {
                                    assert(opt_exprs_view(argsopt) == Option::Some(l2v));
                                }
                                Expr::New { callee: Box::new(c2), args: argsopt }
                            },
                        }
                    },
                    Option::None => {
                        let argsopt: Option<Vec<Expr>> = Option::None;
                        proof {
                            assert(opt_exprs_view(args0) is None);
                            assert(opt_exprs_view(argsopt) is None);
                        }
                        Expr::New { callee: Box::new(c2), args: argsopt }
                    },
                }
            },
            _ => unreached(),
        }
    }

    /// An arrow function: the async wrap, then the walk of the body.
    #[verifier::spinoff_prover]
    fn rewrite_arrow(&mut self, e: Expr, chain: bool) -> (r: Expr)
        requires
            e is Arrow,
        ensures
            same_frame(*old(self), *final(self)),
            (r@, final(self).cache@) == rw_expr(
                old(self).parse_config,
                e@,
                chain,
                old(self).cache@,
            ),
        decreases e, 0int,
    {
        let ghost cfg0 = self.parse_config;
        let ghost acc_in = self.cache@;
        proof {
            let arm = crate::semantics::rw_arrow(cfg0, e@, acc_in);
        }
        let ghost e0 = e;
        match e {
            Expr::Arrow { is_async, params, body } => {
                let ghost body0 = body;
                proof {
                    assert(expr_view(e0) == (crate::model::ExprV::Arrow {
                        is_async,
                        params: crate::model::pats_view(params@),
                        body: crate::model::arrow_body_view(body0),
                    }));
                }
                let enabled = self.parse_config.add_async_try;
                if enabled && is_async {
                    match body {
                        ArrowBody::Block(b) => {
                            proof {
                                assert(crate::model::arrow_body_view(body0)
                                    == crate::model::ArrowBodyV::Block(stmts_view(b@)));
                            }
                            let wrapped = already_wrapped(&b);
                            let b2 = self.rewrite_stmts(b);
                            let nb = if wrapped {
                                b2
                            } else {
                                wrap_with_try_catch(b2)
                            };
                            let body2 = ArrowBody::Block(nb);
                            proof {
                                assert(crate::model::arrow_body_view(body2)
                                    == crate::model::ArrowBodyV::Block(stmts_view(nb@)));
                            }
                            Expr::Arrow { is_async, params, body: body2 }
                        },
                        ArrowBody::Expr(inner) => {
                            proof {
                                assert(crate::model::arrow_body_view(body0)
                                    == crate::model::ArrowBodyV::Expr(
                                    Box::new(expr_view(*inner)),
                                ));
                            }
                            let e2 = self.rewrite_expr(*inner, false);
                            let ghost e2v = expr_view(e2);
                            let mut block: Vec<Stmt> = Vec::new();
                            block.push(Stmt::Return(Option::Some(e2)));
                            proof {
                                assert(stmts_view(block@) =~= seq![
                                    crate::model::StmtV::Return(Option::Some(e2v)),
                                ]);
                            }
                            let body2 = ArrowBody::Block(wrap_with_try_catch(block));
                            proof {
                                assert(crate::model::arrow_body_view(body2)
                                    == crate::model::ArrowBodyV::Block(
                                    crate::semantics::wrap_block(seq![
                                        crate::model::StmtV::Return(Option::Some(e2v)),
                                    ]),
                                ));
                            }
                            Expr::Arrow { is_async, params, body: body2 }
                        },
                    }
                } else {
                    match body {
                        ArrowBody::Block(b) => {
                            proof {
                                assert(crate::model::arrow_body_view(body0)
                                    == crate::model::ArrowBodyV::Block(stmts_view(b@)));
                            }
                            let b2 = self.rewrite_stmts(b);
                            let body2 = ArrowBody::Block(b2);
                            proof {
                                assert(crate::model::arrow_body_view(body2)
                                    == crate::model::ArrowBodyV::Block(stmts_view(b2@)));
                            }
                            Expr::Arrow { is_async, params, body: body2 }
                        },
                        ArrowBody::Expr(inner) => {
                            proof {
                                assert(crate::model::arrow_body_view(body0)
                                    == crate::model::ArrowBodyV::Expr(
                                    Box::new(expr_view(*inner)),
                                ));
                            }
                            let e2 = self.rewrite_expr(*inner, false);
                            let body2 = ArrowBody::Expr(Box::new(e2));
                            proof {
                                assert(crate::model::arrow_body_view(body2)
                                    == crate::model::ArrowBodyV::Expr(Box::new(expr_view(e2))));
                            }
                            Expr::Arrow { is_async, params, body: body2 }
                        },
                    }
                }
            },
            _ => unreached(),
        }
    }

    /// A member key: a computed key is descended into, a fixed name is left.
    #[verifier::spinoff_prover]
    pub fn rewrite_prop(&mut self, p: MemberProp) -> (r: MemberProp)
        ensures
            same_frame(*old(self), *final(self)),
            (prop_view(r), final(self).cache@) == rw_prop(
                old(self).parse_config,
                prop_view(p),
                old(self).cache@,
            ),
        decreases p, 1int,
    {
        match p {
            MemberProp::Ident(s) => MemberProp::Ident(s),
            MemberProp::Computed(e) => {
                let e2 = self.rewrite_expr(*e, false);
                MemberProp::Computed(Box::new(e2))
            },
        }
    }

    /// A simple assignment target: its subexpressions are descended into.
    #[verifier::spinoff_prover]
    pub fn rewrite_starget(&mut self, t: SimpleAssignTarget) -> (r: SimpleAssignTarget)
        ensures
            same_frame(*old(self), *final(self)),
            (starget_view(r), final(self).cache@) == rw_starget(
                old(self).parse_config,
                starget_view(t),
                old(self).cache@,
            ),
        decreases t, 1int,
    {
        match t {
            SimpleAssignTarget::Ident(s) => SimpleAssignTarget::Ident(s),
            SimpleAssignTarget::Member { obj, prop } => {
                let obj2 = self.rewrite_expr(*obj, false);
                let p2 = self.rewrite_prop(prop);
                SimpleAssignTarget::Member { obj: Box::new(obj2), prop: p2 }
            },
            SimpleAssignTarget::SuperProp { prop } => {
                let p2 = self.rewrite_prop(prop);
                SimpleAssignTarget::SuperProp { prop: p2 }
            },
            SimpleAssignTarget::Paren(e) => {
                let e2 = self.rewrite_expr(*e, false);
                SimpleAssignTarget::Paren(Box::new(e2))
            },
            SimpleAssignTarget::OptChain(e) => {
                let e2 = self.rewrite_expr(*e, false);
                SimpleAssignTarget::OptChain(Box::new(e2))
            },
            SimpleAssignTarget::TypeWrap(e) => {
                let e2 = self.rewrite_expr(*e, false);
                SimpleAssignTarget::TypeWrap(Box::new(e2))
            },
            SimpleAssignTarget::Invalid => SimpleAssignTarget::Invalid,
        }
    }

    /// An assignment target.
    #[verifier::spinoff_prover]
    pub fn rewrite_target(&mut self, t: AssignTarget) -> (r: AssignTarget)
        ensures
            same_frame(*old(self), *final(self)),
            (target_view(r), final(self).cache@) == rw_target(
                old(self).parse_config,
                target_view(t),
                old(self).cache@,
            ),
        decreases t, 1int,
    {
        match t {
            AssignTarget::Simple(st) => {
                let st2 = self.rewrite_starget(st);
                AssignTarget::Simple(st2)
            },
            AssignTarget::Pat => AssignTarget::Pat,
        }
    }

    /// An argument list, in order.
    #[verifier::loop_isolation(false)]
    #[verifier::spinoff_prover]
    pub fn rewrite_exprs(&mut self, v: Vec<Expr>) -> (r: Vec<Expr>)
        ensures
            same_frame(*old(self), *final(self)),
            (exprs_view(r@), final(self).cache@) == rw_exprs(
                old(self).parse_config,
                exprs_view(v@),
                old(self).cache@,
            ),
        decreases v, 1int,
    {
        let ghost v0 = v;
        let ghost cfg = self.parse_config;
        let ghost acc0 = self.cache@;
        let mut rem = v;
        let mut out: Vec<Expr> = Vec::new();
        let ghost mut idx: int = 0;
        while rem.len() > 0
            invariant
                same_frame(*old(self), *self),
                self.parse_config == cfg,
                0 <= idx <= v0@.len(),
                rem@ =~= v0@.subrange(idx, v0@.len() as int),
                rw_exprs(cfg, exprs_view(v0@.subrange(0, idx)), acc0) == (
                    exprs_view(out@),
                    self.cache@,
                ),
            decreases rem@.len(),
        {
            let first = rem.remove(0);
            proof {
                assert(first == v0@[idx]);
                assert(first == v0[idx]);
                assert(decreases_to!(v0 => v0[idx]));
            }
            let ghost out_before = exprs_view(out@);
            let r1 = self.rewrite_expr(first, false);
            out.push(r1);
            proof {
                crate::semantics::lemma_rw_exprs_snoc(
                    cfg,
                    exprs_view(v0@.subrange(0, idx)),
                    expr_view(first),
                    acc0,
                );
                assert(v0@.subrange(0, idx + 1) =~= v0@.subrange(0, idx).push(first));
                assert(exprs_view(v0@.subrange(0, idx + 1)) =~= exprs_view(
                    v0@.subrange(0, idx),
                ).push(expr_view(first)));
                assert(exprs_view(out@) =~= out_before.push(expr_view(r1)));
                idx = idx + 1;
            }
        }
        proof {
            assert(v0@.subrange(0, idx) =~= v0@);
            assert(exprs_view(v0@.subrange(0, idx)) =~= exprs_view(v0@));
        }
        out
    }

}

} // verus!
