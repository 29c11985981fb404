//! The statement-level driver: statement lists, the whole-program walk
//! with its escape hatch and import synthesis, and the transform entry
//! point.

use vstd::prelude::*;

use crate::ast::{
    word_is, CatchClause, Decl, Expr, Function, Helper, Program, Stmt, TryStmt, VarDecl,
    VarDeclarator,
};
use crate::config::Config;
use crate::model::{
    catch_view, declarator_view, declarators_view, expr_view, function_view, opt_expr_view,
    opt_stmts_view, stmt_view, stmts_view, try_view,
};
use crate::async_tool::{already_wrapped, wrap_with_try_catch};
use crate::model::pat_view;
use crate::operation_tool::create_require_statement;
use crate::semantics::{
    is_escaped, rw_declarator, rw_declarators, rw_function, rw_opt_expr, rw_opt_stmts, rw_stmt,
    rw_stmts, transform_spec,
};
use crate::visitor::{same_frame, TransformVisitor};

verus! {

impl TransformVisitor {
    /// A statement list, in order.
    #[verifier::spinoff_prover]
    #[verifier::loop_isolation(false)]
    pub fn rewrite_stmts(&mut self, v: Vec<Stmt>) -> (r: Vec<Stmt>)
        ensures
            same_frame(*old(self), *final(self)),
            (stmts_view(r@), final(self).cache@) == rw_stmts(
                old(self).parse_config,
                stmts_view(v@),
                old(self).cache@,
            ),
        decreases v, 1int,
    {
        let ghost v0 = v;
        let ghost cfg = self.parse_config;
        let ghost acc0 = self.cache@;
        let mut rem = v;
        let mut out: Vec<Stmt> = Vec::new();
        let ghost mut idx: int = 0;
        while rem.len() > 0
            invariant
                same_frame(*old(self), *self),
                self.parse_config == cfg,
                0 <= idx <= v0@.len(),
                rem@ =~= v0@.subrange(idx, v0@.len() as int),
                rw_stmts(cfg, stmts_view(v0@.subrange(0, idx)), acc0) == (
                    stmts_view(out@),
                    self.cache@,
                ),
            decreases rem@.len(),
        {
            let ghost acc_a = self.cache@;
            let first = rem.remove(0);
            proof {
                assert(first == v0@[idx]);
                assert(first == v0[idx]);
                assert(decreases_to!(v0 => v0[idx]));
            }
            let ghost out_seq = out@;
            let r1 = self.rewrite_stmt(first);
            out.push(r1);
            proof {
                crate::semantics::lemma_rw_stmts_snoc(
                    cfg,
                    stmts_view(v0@.subrange(0, idx)),
                    stmt_view(first),
                    acc0,
                );
                assert(v0@.subrange(0, idx + 1) =~= v0@.subrange(0, idx).push(first));
                crate::model::lemma_stmts_view_push(v0@.subrange(0, idx), first);
                crate::model::lemma_stmts_view_push(out_seq, r1);
                idx = idx + 1;
            }
        }
        proof {
            assert(v0@.subrange(0, idx) =~= v0@);
        }
        out
    }

    /// The whole-program walk: the escape hatch first, then one traversal,
    /// then the import synthesizer.
    #[verifier::spinoff_prover]
    pub fn visit_mut_program(&mut self, p: Program) -> (r: Program)
        requires
            old(self).cache@ == Seq::<Helper>::empty(),
        ensures
            same_frame(*old(self), *final(self)),
            r@ == transform_spec(old(self).parse_config, p@),
    {
        let escaped = if p.body.len() > 0 {
            proof {
                assert(stmts_view(p.body@) == seq![stmt_view(p.body@[0])] + stmts_view(
                    p.body@.drop_first(),
                ));
            }
            match &p.body[0] {
                Stmt::Expr(e) => {
                    proof {
                        assert(stmt_view(p.body@[0]) == crate::model::StmtV::Expr(expr_view(*e)));
                    }
                    match e {
                        Expr::Str(s) => word_is(s, "calc polyfill"),
                        _ => false,
                    }
                },
                _ => false,
            }
        } else {
            proof {
                assert(stmts_view(p.body@) == Seq::<crate::model::StmtV>::empty());
            }
            false
        };
        proof {
            assert(escaped == is_escaped(p@));
        }
        if escaped {
            return p;
        }
        let body2 = self.rewrite_stmts(p.body);
        if self.cache.len() > 0 {
            let imp = create_require_statement(&self.cache);
            let ghost impv = stmt_view(imp);
            let ghost imp0 = imp;
            let ghost bvec = body2@;
            let mut nb: Vec<Stmt> = Vec::new();
            nb.push(imp);
            let mut rest = body2;
            nb.append(&mut rest);
            proof {
                assert(nb@ =~= seq![imp0] + bvec);
                assert(nb@[0] == imp0);
                assert(nb@.drop_first() =~= bvec);
                assert(stmts_view(nb@) == seq![stmt_view(nb@[0])] + stmts_view(
                    nb@.drop_first(),
                ));
            }
            Program { body: nb }
        } else {
            Program { body: body2 }
        }
    }
}

/// The transform: one traversal of `program` under `config`.
#[verifier::spinoff_prover]
pub fn transform(program: Program, config: Config) -> (r: Program)
    ensures
        r@ == transform_spec(config, program@),
{
    let mut visitor = TransformVisitor {
        cache: Vec::new(),
        parse_config: config,
        has_polyfill_tag: false,
    };
    visitor.visit_mut_program(program)
}


} // verus!
