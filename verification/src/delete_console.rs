//! The console-strip companion transform.
//!
//! For files selected by the host's path rules, statements that are bare
//! `console.<method>(...)` calls are removed: a method named in `includes`
//! is always removed, and any other `console` method is removed unless it is
//! named in `excludes`.  The walk covers statement lists and the bodies of
//! statement blocks, try statements and function declarations; removal
//! leaves no empty placeholder behind.

use vstd::prelude::*;

use crate::ast::{word_is, CatchClause, Decl, Expr, Function, MemberProp, Stmt, TryStmt, VarDecl};
use crate::model::{
    decl_view, expr_view, exprs_view, function_view, opt_stmts_view, prop_view, stmt_view,
    stmts_view, strings_view, try_view, StmtV,
};

verus! {

broadcast use crate::model::group_view_facts;

/// The file-selection rules of the host: which paths the transform runs on.
pub struct ConfigFile {
    pub includes: Vec<String>,
    pub excludes: Vec<String>,
}

impl ConfigFile {
    #[verifier::spinoff_prover]
    pub fn new(includes: Vec<String>, excludes: Vec<String>) -> (c: ConfigFile)
        ensures
            strings_view(c.includes@) == strings_view(includes@),
            strings_view(c.excludes@) == strings_view(excludes@),
    {
        ConfigFile { includes, excludes }
    }
}

/// The transform's switches: `console` methods always removed, `console`
/// methods kept, and the file-selection rules.
pub struct Config {
    includes: Vec<String>,
    excludes: Vec<String>,
    file: ConfigFile,
}

impl Config {
    /// The methods whose calls are always removed.
    pub closed spec fn spec_includes(&self) -> Seq<Seq<char>> {
        strings_view(self.includes@)
    }

    /// The methods whose calls are kept.
    pub closed spec fn spec_excludes(&self) -> Seq<Seq<char>> {
        strings_view(self.excludes@)
    }

    /// The path rules under which files are selected.
    pub closed spec fn spec_file_includes(&self) -> Seq<Seq<char>> {
        strings_view(self.file.includes@)
    }

    pub closed spec fn spec_file_excludes(&self) -> Seq<Seq<char>> {
        strings_view(self.file.excludes@)
    }

    #[verifier::spinoff_prover]
    pub fn new(includes: Vec<String>, excludes: Vec<String>, file: ConfigFile) -> (c: Config)
        ensures
            c.spec_includes() == strings_view(includes@),
            c.spec_excludes() == strings_view(excludes@),
            c.spec_file_includes() == strings_view(file.includes@),
            c.spec_file_excludes() == strings_view(file.excludes@),
    {
        Config { includes, excludes, file }
    }

    #[verifier::spinoff_prover]
    pub fn includes(&self) -> (r: &Vec<String>)
        ensures
            strings_view(r@) == self.spec_includes(),
    {
        &self.includes
    }

    #[verifier::spinoff_prover]
    pub fn excludes(&self) -> (r: &Vec<String>)
        ensures
            strings_view(r@) == self.spec_excludes(),
    {
        &self.excludes
    }

    #[verifier::spinoff_prover]
    pub fn file(&self) -> (r: &ConfigFile)
        ensures
            strings_view(r.includes@) == self.spec_file_includes(),
            strings_view(r.excludes@) == self.spec_file_excludes(),
    {
        &self.file
    }
}

/// Does the list hold this exact word?
#[verifier::spinoff_prover]
fn word_list_contains(v: &Vec<String>, w: &String) -> (r: bool)
    ensures
        r == strings_view(v@).contains(w@),
{
    let mut i: usize = 0;
    while i < v.len()
        invariant
            i <= v.len(),
            forall|j: int| 0 <= j < i ==> strings_view(v@)[j] != w@,
        decreases v.len() - i,
    {
        if word_is(&v[i], w.as_str()) {
            proof {
                assert(strings_view(v@)[i as int] == w@);
            }
            return true;
        }
        i = i + 1;
    }
    proof {
        assert(forall|j: int| 0 <= j < strings_view(v@).len() ==> strings_view(v@)[j] != w@);
    }
    false
}

/// The `console` method a statement calls, if the statement is a bare call
/// `console.<method>(...)` with a fixed method name.
pub open spec fn console_method(s: StmtV) -> Option<Seq<char>> {
    match s {
        StmtV::Expr(e) => match e {
            crate::model::ExprV::Call { callee, .. } => match *callee {
                crate::model::ExprV::Member { obj, prop } => match (*obj, prop) {
                    (
                        crate::model::ExprV::Ident(name),
                        crate::model::MemberPropV::Ident(m),
                    ) => if name == "console"@ {
                        Option::Some(m)
                    } else {
                        Option::None
                    },
                    _ => Option::None,
                },
                _ => Option::None,
            },
            _ => Option::None,
        },
        _ => Option::None,
    }
}

/// Whether a `console` method's call is removed under these rules.
pub open spec fn method_removed(m: Seq<char>, inc: Seq<Seq<char>>, exc: Seq<Seq<char>>) -> bool {
    inc.contains(m) || !exc.contains(m)
}

/// What the statement rule leaves of one statement.
pub open spec fn delete_console_stmt_spec(
    s: StmtV,
    inc: Seq<Seq<char>>,
    exc: Seq<Seq<char>>,
) -> StmtV {
    match console_method(s) {
        Option::Some(m) => if method_removed(m, inc, exc) {
            StmtV::Empty
        } else {
            s
        },
        Option::None => s,
    }
}

/// Remove a statement that is a bare `console` call the rules strip: it is
/// replaced by the empty statement, which the surrounding list drops.
#[verifier::spinoff_prover]
pub fn stmt_delete_console(n: &mut Stmt, config: &Config)
    ensures
        final(n)@ == delete_console_stmt_spec(
            old(n)@,
            config.spec_includes(),
            config.spec_excludes(),
        ),
{
    let method: Option<String> = match &*n {
        Stmt::Expr(e) => {
            proof {
                assert(old(n)@ == StmtV::Expr(expr_view(*e)));
            }
            match e {
                Expr::Call { callee, args } => {
                    proof {
                        assert(expr_view(*e) == (crate::model::ExprV::Call {
                            callee: Box::new(expr_view(**callee)),
                            args: exprs_view(args@),
                        }));
                    }
                    match &**callee {
                        Expr::Member { obj, prop } => {
                            proof {
                                assert(expr_view(**callee) == (crate::model::ExprV::Member {
                                    obj: Box::new(expr_view(**obj)),
                                    prop: prop_view(*prop),
                                }));
                            }
                            match (&**obj, prop) {
                                (Expr::Ident(name), MemberProp::Ident(m)) => {
                                    proof {
                                        assert(expr_view(**obj)
                                            == crate::model::ExprV::Ident(name@));
                                        assert(prop_view(*prop)
                                            == crate::model::MemberPropV::Ident(m@));
                                    }
                                    if word_is(name, "console") {
                                        Option::Some(m.clone())
                                    } else {
                                        Option::None
                                    }
                                },
                                _ => Option::None,
                            }
                        },
                        _ => Option::None,
                    }
                },
                _ => Option::None,
            }
        },
        _ => Option::None,
    };
    match method {
        Option::Some(m) => {
            if word_list_contains(config.includes(), &m) {
                *n = Stmt::Empty;
            } else if !word_list_contains(config.excludes(), &m) {
                *n = Stmt::Empty;
            }
        },
        Option::None => {},
    }
}

/// The statement rule applied through statement structure: blocks, try
/// statements and function-declaration bodies are entered; a list keeps, in
/// order, the processed statements that did not come out empty.
#[verifier::spinoff_prover]
pub open spec fn dc_stmt(s: StmtV, inc: Seq<Seq<char>>, exc: Seq<Seq<char>>) -> StmtV
    decreases s,
{
    let descended = match s {
        StmtV::Block(b) => StmtV::Block(dc_stmts(b, inc, exc)),
        StmtV::Try(t) => StmtV::Try(
            Box::new(
                crate::model::TryStmtV {
                    block: dc_stmts(t.block, inc, exc),
                    handler: match t.handler {
                        Option::Some(h) => Option::Some(
                            crate::model::CatchClauseV {
                                param: h.param,
                                body: dc_stmts(h.body, inc, exc),
                            },
                        ),
                        Option::None => Option::None,
                    },
                    finalizer: match t.finalizer {
                        Option::Some(f) => Option::Some(dc_stmts(f, inc, exc)),
                        Option::None => Option::None,
                    },
                },
            ),
        ),
        StmtV::Decl(d) => match d {
            crate::model::DeclV::Func { name, function } => StmtV::Decl(
                crate::model::DeclV::Func {
                    name,
                    function: Box::new(
                        crate::model::FunctionV {
                            is_async: function.is_async,
                            params: function.params,
                            body: match function.body {
                                Option::Some(b) => Option::Some(dc_stmts(b, inc, exc)),
                                Option::None => Option::None,
                            },
                        },
                    ),
                },
            ),
            _ => s,
        },
        _ => s,
    };
    delete_console_stmt_spec(descended, inc, exc)
}

#[verifier::spinoff_prover]
pub open spec fn dc_stmts(list: Seq<StmtV>, inc: Seq<Seq<char>>, exc: Seq<Seq<char>>) -> Seq<StmtV>
    decreases list,
{
    if list.len() == 0 {
        Seq::empty()
    } else {
        let first = dc_stmt(list[0], inc, exc);
        (if first is Empty {
            Seq::empty()
        } else {
            seq![first]
        }) + dc_stmts(list.drop_first(), inc, exc)
    }
}

impl Config {
    /// One statement, with its nested statement lists.
    #[verifier::spinoff_prover]
    pub fn visit_mut_stmt(&self, s: Stmt) -> (r: Stmt)
        ensures
            r@ == dc_stmt(s@, self.spec_includes(), self.spec_excludes()),
        decreases s, 1int,
    {
        let ghost s0 = s;
        let descended = match s {
            Stmt::Block(b) => {
                let b2 = self.visit_mut_stmts(b);
                Stmt::Block(b2)
            },
            Stmt::Try(t) => {
                let TryStmt { block, handler, finalizer } = *t;
                let ghost handler0 = handler;
                let ghost fin0 = finalizer;
                proof {
                    assert(try_view(*t) == (crate::model::TryStmtV {
                        block: stmts_view(block@),
                        handler: match handler0 {
                            Option::Some(h) => Option::Some(crate::model::catch_view(h)),
                            Option::None => Option::None,
                        },
                        finalizer: opt_stmts_view(fin0),
                    }));
                    assert(stmt_view(s0) == StmtV::Try(Box::new(try_view(*t))));
                }
                let block2 = self.visit_mut_stmts(block);
                let handler2 = match handler {
                    Option::Some(h) => {
                        let ghost h0 = h;
                        let CatchClause { param, body } = h;
                        proof {
                            assert(crate::model::catch_view(h0)
                                == (crate::model::CatchClauseV {
                                param: crate::model::opt_pat_view(param),
                                body: stmts_view(body@),
                            }));
                        }
                        let body2 = self.visit_mut_stmts(body);
                        let h2 = CatchClause { param, body: body2 };
                        proof {
                            assert(crate::model::catch_view(h2)
                                == (crate::model::CatchClauseV {
                                param: crate::model::opt_pat_view(h2.param),
                                body: stmts_view(h2.body@),
                            }));
                        }
                        Option::Some(h2)
                    },
                    Option::None => Option::None,
                };
                let fin2 = match finalizer {
                    Option::Some(f) => Option::Some(self.visit_mut_stmts(f)),
                    Option::None => Option::None,
                };
                let t2 = TryStmt { block: block2, handler: handler2, finalizer: fin2 };
                let ghost fin2v = opt_stmts_view(t2.finalizer);
                let out = Stmt::Try(Box::new(t2));
                proof {
                    assert(try_view(t2) == (crate::model::TryStmtV {
                        block: stmts_view(t2.block@),
                        handler: match t2.handler {
                            Option::Some(h) => Option::Some(crate::model::catch_view(h)),
                            Option::None => Option::None,
                        },
                        finalizer: fin2v,
                    }));
                    assert(stmt_view(out) == StmtV::Try(Box::new(try_view(t2))));
                }
                out
            },
            Stmt::Decl(d) => {
                let ghost d0 = d;
                match d {
                    Decl::Func { name, function } => {
                        proof {
                            assert(decl_view(d0) == (crate::model::DeclV::Func {
                                name: name@,
                                function: Box::new(function_view(*function)),
                            }));
                            assert(stmt_view(s0) == StmtV::Decl(decl_view(d0)));
                        }
                        let ghost f0 = *function;
                        let Function { is_async, params, body } = *function;
                        let ghost body0 = body;
                        proof {
                            assert(function_view(f0) == (crate::model::FunctionV {
                                is_async,
                                params: crate::model::pats_view(params@),
                                body: opt_stmts_view(body0),
                            }));
                        }
                        let body2 = match body {
                            Option::Some(b) => {
                                proof {
                                    assert(opt_stmts_view(body0)
                                        == Option::Some(stmts_view(b@)));
                                }
                                Option::Some(self.visit_mut_stmts(b))
                            },
                            Option::None => {
                                proof {
                                    assert(opt_stmts_view(body0) is None);
                                }
                                Option::None
                            },
                        };
                        let f2 = Function { is_async, params, body: body2 };
                        let ghost b2v = opt_stmts_view(f2.body);
                        let ghost namev = name@;
                        let d2 = Decl::Func { name, function: Box::new(f2) };
                        let out = Stmt::Decl(d2);
                        proof {
                            assert(function_view(f2) == (crate::model::FunctionV {
                                is_async,
                                params: crate::model::pats_view(f2.params@),
                                body: b2v,
                            }));
                            assert(decl_view(d2) == (crate::model::DeclV::Func {
                                name: namev,
                                function: Box::new(function_view(f2)),
                            }));
                            assert(stmt_view(out) == StmtV::Decl(decl_view(d2)));
                        }
                        out
                    },
                    Decl::Var(vd) => {
                        proof {
                            assert(decl_view(d0) == crate::model::DeclV::Var(
                                crate::model::var_decl_view(vd),
                            ));
                            assert(stmt_view(s0) == StmtV::Decl(decl_view(d0)));
                        }
                        Stmt::Decl(Decl::Var(vd))
                    },
                }
            },
            other => other,
        };
        let mut out = descended;
        stmt_delete_console(&mut out, self);
        out
    }

    /// A statement list: every statement processed, empty results dropped.
    #[verifier::loop_isolation(false)]
    #[verifier::spinoff_prover]
    pub fn visit_mut_stmts(&self, v: Vec<Stmt>) -> (r: Vec<Stmt>)
        ensures
            stmts_view(r@) == dc_stmts(
                stmts_view(v@),
                self.spec_includes(),
                self.spec_excludes(),
            ),
        decreases v, 0int,
    {
        let ghost v0 = v;
        let ghost inc = self.spec_includes();
        let ghost exc = self.spec_excludes();
        let mut rem = v;
        let mut out: Vec<Stmt> = Vec::new();
        let ghost mut idx: int = 0;
        while rem.len() > 0
            invariant
                0 <= idx <= v0@.len(),
                rem@ =~= v0@.subrange(idx, v0@.len() as int),
                dc_stmts(stmts_view(v0@), inc, exc) == stmts_view(out@) + dc_stmts(
                    stmts_view(rem@),
                    inc,
                    exc,
                ),
            decreases rem@.len(),
        {
            let ghost rem_before = stmts_view(rem@);
            let mut first = rem.remove(0);
            proof {
                assert(first == v0@[idx]);
                assert(first == v0[idx]);
                assert(decreases_to!(v0 => v0[idx]));
                assert(rem_before =~= seq![stmt_view(first)] + stmts_view(rem@));
                assert(rem_before.drop_first() =~= stmts_view(rem@));
            }
            let ghost out_before = stmts_view(out@);
            let first = self.visit_mut_stmt(first);
            let keep = match &first {
                Stmt::Empty => false,
                _ => true,
            };
            proof {
                assert(keep == !(stmt_view(first) is Empty));
            }
            if keep {
                out.push(first);
                proof {
                    assert(stmts_view(out@) =~= out_before.push(stmt_view(first)));
                    assert(out_before.push(stmt_view(first)) + dc_stmts(stmts_view(rem@), inc, exc)
                        =~= out_before + (seq![stmt_view(first)] + dc_stmts(
                        stmts_view(rem@),
                        inc,
                        exc,
                    )));
                }
            } else {
                proof {
                    assert(Seq::<StmtV>::empty() + dc_stmts(stmts_view(rem@), inc, exc)
                        =~= dc_stmts(stmts_view(rem@), inc, exc));
                }
            }
            proof {
                idx = idx + 1;
            }
        }
        proof {
            assert(stmts_view(rem@) =~= Seq::empty());
            assert(stmts_view(out@) + Seq::<StmtV>::empty() =~= stmts_view(out@));
        }
        out
    }
}

} // verus!
