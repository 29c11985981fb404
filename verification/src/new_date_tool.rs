//! The date-string normalization rule's builder.

use vstd::prelude::*;

use crate::ast::{Expr, MemberProp};
use crate::model::{expr_view, exprs_view};
use crate::semantics::replace_call;

verus! {

broadcast use crate::model::group_view_facts;

/// `"<value>".replace(/-/g, '/')`: the call that replaces a string literal
/// handed to the `Date` constructor, so dashes become slashes at runtime
/// before the string reaches the constructor.
#[verifier::spinoff_prover]
pub fn create_new_regex_call(value: String) -> (r: Expr)
    ensures
        r@ == replace_call(value@),
{
    let ghost sv = value@;
    let obj = Expr::Str(value);
    proof {
        assert(expr_view(obj) == crate::model::ExprV::Str(sv));
    }
    let prop = MemberProp::Ident("replace".to_owned());
    proof {
        assert(crate::model::prop_view(prop) == crate::model::MemberPropV::Ident("replace"@));
    }
    let callee = Expr::Member { obj: Box::new(obj), prop };
    proof {
        assert(expr_view(callee) == (crate::model::ExprV::Member {
            obj: Box::new(crate::model::ExprV::Str(sv)),
            prop: crate::model::MemberPropV::Ident("replace"@),
        }));
    }
    let mut args: Vec<Expr> = Vec::new();
    args.push(Expr::Regex { exp: "-".to_owned(), flags: "g".to_owned() });
    args.push(Expr::Str("/".to_owned()));
    proof {
        assert(exprs_view(args@) =~= seq![
            crate::model::ExprV::Regex { exp: "-"@, flags: "g"@ },
            crate::model::ExprV::Str("/"@),
        ]);
    }
    Expr::Call { callee: Box::new(callee), args }
}

} // verus!
