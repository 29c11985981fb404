//! The walk at one variable declarator: its initializer is descended
//! into.

use vstd::prelude::*;

use crate::ast::VarDeclarator;
use crate::model::{declarator_view, expr_view, opt_expr_view};
use crate::semantics::{rw_declarator, rw_opt_expr};
use crate::visitor::{same_frame, TransformVisitor};

verus! {

impl TransformVisitor {
    /// One declarator: the initializer is descended into.
    #[verifier::spinoff_prover]
    pub fn rewrite_declarator(&mut self, d: VarDeclarator) -> (r: VarDeclarator)
        ensures
            same_frame(*old(self), *final(self)),
            (declarator_view(r), final(self).cache@) == rw_declarator(
                old(self).parse_config,
                declarator_view(d),
                old(self).cache@,
            ),
        decreases d, 1int,
    {
        let ghost d0 = d;
        let ghost cfg = self.parse_config;
        let ghost acc0 = self.cache@;
        let VarDeclarator { name, init } = d;
        let ghost init0 = init;
        match init {
            Option::Some(e) => {
                proof {
                    assert(opt_expr_view(init0) == Option::Some(expr_view(e)));
                }
                let e2 = self.rewrite_expr(e, false);
                proof {
                    assert(rw_opt_expr(cfg, opt_expr_view(init0), acc0) == (
                        Option::Some(expr_view(e2)),
                        self.cache@,
                    ));
                }
                let out = VarDeclarator { name, init: Option::Some(e2) };
                proof {
                    assert(opt_expr_view(out.init) == Option::Some(expr_view(e2)));
                }
                out
            },
            Option::None => {
                proof {
                    assert(opt_expr_view(init0) is None);
                    assert(rw_opt_expr(cfg, opt_expr_view(init0), acc0) == (
                        opt_expr_view(init0),
                        acc0,
                    ));
                }
                VarDeclarator { name, init: Option::None }
            },
        }
    }

}

} // verus!
