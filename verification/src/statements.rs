//! The walk over statements: the per-kind rules and their dispatcher.

use vstd::prelude::*;

use crate::ast::{CatchClause, Stmt, TryStmt};
use crate::model::{
    catch_view, expr_view, opt_expr_view, opt_stmts_view, stmt_view, stmts_view, try_view,
};
use crate::semantics::{rw_opt_expr, rw_opt_stmts, rw_stmt, rw_stmts, rw_try};
use crate::visitor::{same_frame, TransformVisitor};

verus! {

impl TransformVisitor {
    /// One statement.
    #[verifier::spinoff_prover]
    pub fn rewrite_stmt(&mut self, s: Stmt) -> (r: Stmt)
        ensures
            same_frame(*old(self), *final(self)),
            (r@, final(self).cache@) == rw_stmt(
                old(self).parse_config,
                s@,
                old(self).cache@,
            ),
        decreases s, 1int,
    {
        let kind: u8 = match &s {
            Stmt::Decl(_) => 0,
            Stmt::Try(_) => 1,
            Stmt::Expr(_) => 2,
            Stmt::Block(_) => 3,
            _ => 4,
        };
        if kind == 0 {
            return self.rewrite_stmt_decl(s);
        }
        if kind == 1 {
            return self.rewrite_stmt_try(s);
        }
        if kind == 2 {
            return self.rewrite_stmt_expr(s);
        }
        if kind == 3 {
            return self.rewrite_stmt_block(s);
        }
        self.rewrite_stmt_other(s)
    }

    /// An expression statement.
    #[verifier::spinoff_prover]
    fn rewrite_stmt_expr(&mut self, s: Stmt) -> (r: Stmt)
        requires
            s is Expr,
        ensures
            same_frame(*old(self), *final(self)),
            (r@, final(self).cache@) == rw_stmt(
                old(self).parse_config,
                s@,
                old(self).cache@,
            ),
        decreases s, 0int,
    {
        match s {
            Stmt::Expr(e) => {
                let e2 = self.rewrite_expr(e, false);
                Stmt::Expr(e2)
            },
            _ => unreached(),
        }
    }

    /// A statement block.
    #[verifier::spinoff_prover]
    fn rewrite_stmt_block(&mut self, s: Stmt) -> (r: Stmt)
        requires
            s is Block,
        ensures
            same_frame(*old(self), *final(self)),
            (r@, final(self).cache@) == rw_stmt(
                old(self).parse_config,
                s@,
                old(self).cache@,
            ),
        decreases s, 0int,
    {
        match s {
            Stmt::Block(b) => {
                let b2 = self.rewrite_stmts(b);
                Stmt::Block(b2)
            },
            _ => unreached(),
        }
    }

    /// A return statement or the empty statement.
    #[verifier::spinoff_prover]
    fn rewrite_stmt_other(&mut self, s: Stmt) -> (r: Stmt)
        requires
            s is Return || s is Empty,
        ensures
            same_frame(*old(self), *final(self)),
            (r@, final(self).cache@) == rw_stmt(
                old(self).parse_config,
                s@,
                old(self).cache@,
            ),
        decreases s, 0int,
    {
        let ghost cfg = self.parse_config;
        let ghost acc0 = self.cache@;
        match s {
            Stmt::Return(e) => {
                let ghost e0 = e;
                proof {
                    assert(stmt_view(s) == crate::model::StmtV::Return(opt_expr_view(e0)));
                }
                match e {
                    Option::Some(inner) => {
                        proof {
                            assert(opt_expr_view(e0) == Option::Some(expr_view(inner)));
                        }
                        let e2 = self.rewrite_expr(inner, false);
                        proof {
                            assert(rw_opt_expr(cfg, opt_expr_view(e0), acc0) == (
                                Option::Some(expr_view(e2)),
                                self.cache@,
                            ));
                        }
                        let out = Stmt::Return(Option::Some(e2));
                        proof {
                            assert(stmt_view(out) == crate::model::StmtV::Return(
                                Option::Some(expr_view(e2)),
                            ));
                        }
                        out
                    },
                    Option::None => {
                        proof {
                            assert(opt_expr_view(e0) is None);
                            assert(rw_opt_expr(cfg, opt_expr_view(e0), acc0) == (
                                opt_expr_view(e0),
                                acc0,
                            ));
                        }
                        Stmt::Return(Option::None)
                    },
                }
            },
            Stmt::Empty => Stmt::Empty,
            _ => unreached(),
        }
    }

    /// A try statement: the protected block, the handler body, the
    /// finalizer.
    #[verifier::spinoff_prover]
    fn rewrite_stmt_try(&mut self, s: Stmt) -> (r: Stmt)
        requires
            s is Try,
        ensures
            same_frame(*old(self), *final(self)),
            (r@, final(self).cache@) == rw_stmt(
                old(self).parse_config,
                s@,
                old(self).cache@,
            ),
        decreases s, 0int,
    {
        let ghost s0 = s;
        let ghost cfg = self.parse_config;
        let ghost acc0 = self.cache@;
        match s {
            Stmt::Try(t) => {
                proof {
                    let tpair = crate::semantics::rw_try(cfg, try_view(*t), acc0);
                }
                let TryStmt { block, handler, finalizer } = *t;
                let ghost handler0 = handler;
                let ghost fin0 = finalizer;
                proof {
                    assert(try_view(*t) == (crate::model::TryStmtV {
                        block: stmts_view(block@),
                        handler: match handler0 {
                            Option::Some(h) => Option::Some(catch_view(h)),
                            Option::None => Option::None,
                        },
                        finalizer: opt_stmts_view(fin0),
                    }));
                    assert(stmt_view(s0) == crate::model::StmtV::Try(Box::new(try_view(*t))));
                }
                let block2 = self.rewrite_stmts(block);
                let handler2 = match handler {
                    Option::Some(h) => {
                        let ghost h0 = h;
                        let CatchClause { param, body } = h;
                        proof {
                            assert(catch_view(h0) == (crate::model::CatchClauseV {
                                param: crate::model::opt_pat_view(param),
                                body: stmts_view(body@),
                            }));
                        }
                        let hb2 = self.rewrite_stmts(body);
                        let h2 = CatchClause { param, body: hb2 };
                        proof {
                            assert(catch_view(h2) == (crate::model::CatchClauseV {
                                param: crate::model::opt_pat_view(h2.param),
                                body: stmts_view(hb2@),
                            }));
                        }
                        Option::Some(h2)
                    },
                    Option::None => Option::None,
                };
                let ghost acc_fin = self.cache@;
                let fin2 = match finalizer {
                    Option::Some(v) => {
                        proof {
                            assert(opt_stmts_view(fin0) == Option::Some(stmts_view(v@)));
                        }
                        let v2 = self.rewrite_stmts(v);
                        proof {
                            assert(rw_opt_stmts(cfg, opt_stmts_view(fin0), acc_fin) == (
                                Option::Some(stmts_view(v2@)),
                                self.cache@,
                            ));
                        }
                        Option::Some(v2)
                    },
                    Option::None => {
                        proof {
                            assert(opt_stmts_view(fin0) is None);
                            assert(rw_opt_stmts(cfg, opt_stmts_view(fin0), acc_fin) == (
                                opt_stmts_view(fin0),
                                acc_fin,
                            ));
                        }
                        Option::None
                    },
                };
                let t2 = TryStmt { block: block2, handler: handler2, finalizer: fin2 };
                let ghost fin2v = opt_stmts_view(t2.finalizer);
                let out = Stmt::Try(Box::new(t2));
                proof {
                    assert(try_view(t2) == (crate::model::TryStmtV {
                        block: stmts_view(block2@),
                        handler: match handler2 {
                            Option::Some(h) => Option::Some(catch_view(h)),
                            Option::None => Option::None,
                        },
                        finalizer: fin2v,
                    }));
                    assert(stmt_view(out) == crate::model::StmtV::Try(Box::new(try_view(t2))));
                }
                out
            },
            _ => unreached(),
        }
    }

}

} // verus!
