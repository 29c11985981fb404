//! The walk at a function node: the async wrap, then the body.

use vstd::prelude::*;

use crate::ast::Function;
use crate::async_tool::{already_wrapped, wrap_with_try_catch};
use crate::model::{function_view, opt_stmts_view, pat_view, stmts_view};
use crate::semantics::rw_function;
use crate::visitor::{same_frame, TransformVisitor};

verus! {

impl TransformVisitor {
    /// The async wrap at a function node, then the walk of the body.
    #[verifier::spinoff_prover]
    pub fn rewrite_function(&mut self, f: Function) -> (r: Function)
        ensures
            same_frame(*old(self), *final(self)),
            (function_view(r), final(self).cache@) == rw_function(
                old(self).parse_config,
                function_view(f),
                old(self).cache@,
            ),
        decreases f, 1int,
    {
        let ghost f0 = f;
        let Function { is_async, params, body } = f;
        let ghost body0 = body;
        proof {
            assert(function_view(f0) == (crate::model::FunctionV {
                is_async,
                params: crate::model::pats_view(params@),
                body: opt_stmts_view(body0),
            }));
        }
        match body {
            Option::Some(b) => {
                proof {
                    assert(opt_stmts_view(body0) == Option::Some(stmts_view(b@)));
                }
                let wrapped = already_wrapped(&b);
                let b2 = self.rewrite_stmts(b);
                let nb = if self.parse_config.add_async_try && is_async && !wrapped {
                    wrap_with_try_catch(b2)
                } else {
                    b2
                };
                let out = Function { is_async, params, body: Option::Some(nb) };
                proof {
                    assert(opt_stmts_view(out.body) == Option::Some(stmts_view(nb@)));
                    assert(function_view(out) == (crate::model::FunctionV {
                        is_async,
                        params: crate::model::pats_view(out.params@),
                        body: Option::Some(stmts_view(nb@)),
                    }));
                }
                out
            },
            Option::None => {
                proof {
                    assert(opt_stmts_view(body0) is None);
                }
                let out = Function { is_async, params, body: Option::None };
                proof {
                    assert(opt_stmts_view(out.body) is None);
                    assert(function_view(out) == function_view(f0));
                }
                out
            },
        }
    }

}

} // verus!
