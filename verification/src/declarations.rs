//! The walk over a variable statement's list of declarators.

use vstd::prelude::*;

use crate::ast::{Decl, Function, Stmt, VarDecl, VarDeclarator};
use crate::async_tool::{already_wrapped, wrap_with_try_catch};
use crate::model::{
    declarator_view, declarators_view, expr_view, function_view, opt_expr_view, opt_stmts_view,
    pat_view, stmt_view, stmts_view,
};
use crate::semantics::{
    rw_decl, rw_declarator, rw_declarators, rw_function, rw_opt_expr, rw_stmt,
};
use crate::visitor::{same_frame, TransformVisitor};

verus! {

impl TransformVisitor {
    /// A declarator list, in order.
    #[verifier::loop_isolation(false)]
    #[verifier::spinoff_prover]
    pub fn rewrite_declarators(&mut self, v: Vec<VarDeclarator>) -> (r: Vec<VarDeclarator>)
        ensures
            same_frame(*old(self), *final(self)),
            (declarators_view(r@), final(self).cache@) == rw_declarators(
                old(self).parse_config,
                declarators_view(v@),
                old(self).cache@,
            ),
        decreases v, 1int,
    {
        let ghost v0 = v;
        let ghost cfg = self.parse_config;
        let ghost acc0 = self.cache@;
        let mut rem = v;
        let mut out: Vec<VarDeclarator> = Vec::new();
        let ghost mut idx: int = 0;
        while rem.len() > 0
            invariant
                same_frame(*old(self), *self),
                self.parse_config == cfg,
                0 <= idx <= v0@.len(),
                rem@ =~= v0@.subrange(idx, v0@.len() as int),
                rw_declarators(cfg, declarators_view(v0@.subrange(0, idx)), acc0) == (
                    declarators_view(out@),
                    self.cache@,
                ),
            decreases rem@.len(),
        {
            let first = rem.remove(0);
            proof {
                assert(first == v0@[idx]);
                assert(first == v0[idx]);
                assert(decreases_to!(v0 => v0[idx]));
            }
            let ghost out_seq = out@;
            let r1 = self.rewrite_declarator(first);
            out.push(r1);
            proof {
                crate::semantics::lemma_rw_declarators_snoc(
                    cfg,
                    declarators_view(v0@.subrange(0, idx)),
                    declarator_view(first),
                    acc0,
                );
                assert(v0@.subrange(0, idx + 1) =~= v0@.subrange(0, idx).push(first));
                crate::model::lemma_declarators_view_push(v0@.subrange(0, idx), first);
                crate::model::lemma_declarators_view_push(out_seq, r1);
                idx = idx + 1;
            }
        }
        proof {
            assert(v0@.subrange(0, idx) =~= v0@);
        }
        out
    }

}

} // verus!
