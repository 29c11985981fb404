//! The walk at a declaration statement.

use vstd::prelude::*;

use crate::ast::{Decl, Stmt, VarDecl, VarDeclarator};
use crate::model::{
    declarator_view, declarators_view, expr_view, function_view, opt_expr_view, pat_view,
    stmt_view,
};
use crate::semantics::{rw_decl, rw_declarator, rw_opt_expr, rw_stmt};
use crate::visitor::{same_frame, TransformVisitor};

verus! {

impl TransformVisitor {
    /// A declaration statement.
    #[verifier::spinoff_prover]
    pub fn rewrite_stmt_decl(&mut self, s: Stmt) -> (r: Stmt)
        requires
            s is Decl,
        ensures
            same_frame(*old(self), *final(self)),
            (r@, final(self).cache@) == rw_stmt(
                old(self).parse_config,
                s@,
                old(self).cache@,
            ),
        decreases s, 0int,
    {
        let ghost s0 = s;
        let ghost cfg = self.parse_config;
        let ghost acc0 = self.cache@;
        match s {
            Stmt::Decl(d) => {
                let ghost d0 = d;
                proof {
                    let dpair = crate::semantics::rw_decl(cfg, crate::model::decl_view(d0), acc0);
                }
                match d {
                    Decl::Var(vd) => {
                        let ghost vd0 = vd;
                        let VarDecl { kind, decls } = vd;
                        proof {
                            assert(crate::model::var_decl_view(vd0)
                                == (crate::model::VarDeclV {
                                kind,
                                decls: declarators_view(decls@),
                            }));
                            assert(crate::model::decl_view(d0) == crate::model::DeclV::Var(
                                crate::model::var_decl_view(vd0),
                            ));
                            assert(stmt_view(s0) == crate::model::StmtV::Decl(
                                crate::model::decl_view(d0),
                            ));
                        }
                        let ds2 = self.rewrite_declarators(decls);
                        let vd2 = VarDecl { kind, decls: ds2 };
                        let d2 = Decl::Var(vd2);
                        let out = Stmt::Decl(d2);
                        proof {
                            assert(crate::model::var_decl_view(vd2)
                                == (crate::model::VarDeclV {
                                kind,
                                decls: declarators_view(ds2@),
                            }));
                            assert(crate::model::decl_view(d2) == crate::model::DeclV::Var(
                                crate::model::var_decl_view(vd2),
                            ));
                            assert(stmt_view(out) == crate::model::StmtV::Decl(
                                crate::model::decl_view(d2),
                            ));
                        }
                        out
                    },
                    Decl::Func { name, function } => {
                        proof {
                            assert(crate::model::decl_view(d0) == (crate::model::DeclV::Func {
                                name: name@,
                                function: Box::new(function_view(*function)),
                            }));
                            assert(stmt_view(s0) == crate::model::StmtV::Decl(
                                crate::model::decl_view(d0),
                            ));
                        }
                        let f2 = self.rewrite_function(*function);
                        let ghost namev = name@;
                        let d2 = Decl::Func { name, function: Box::new(f2) };
                        let out = Stmt::Decl(d2);
                        proof {
                            assert(crate::model::decl_view(d2) == (crate::model::DeclV::Func {
                                name: namev,
                                function: Box::new(function_view(f2)),
                            }));
                            assert(stmt_view(out) == crate::model::StmtV::Decl(
                                crate::model::decl_view(d2),
                            ));
                        }
                        out
                    },
                }
            },
            _ => unreached(),
        }
    }

}

} // verus!
