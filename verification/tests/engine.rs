use accuracy::ast::{
    ArrowBody, AssignOp, AssignTarget, BinOp, CatchClause, Decl, Expr, Function, Helper,
    MemberProp, Pat, Program, SimpleAssignTarget, Stmt, TryStmt, VarDecl, VarDeclarator, VarKind,
};
use accuracy::async_tool::{already_wrapped, wrap_arrow_body_with_try_catch, wrap_with_try_catch};
use accuracy::config::Config;
use accuracy::new_date_tool::create_new_regex_call;
use accuracy::operation_tool::{create_new_bin_call, push_assign_cache, push_bin_cache};
use accuracy::promise_tool::{create_new_catch_callee, get_next_call_expr, has_catch};
use accuracy::driver::transform;

fn ident(s: &str) -> Expr {
    Expr::Ident(s.to_owned())
}

fn call(callee: Expr, args: Vec<Expr>) -> Expr {
    Expr::Call { callee: Box::new(callee), args }
}

fn member(obj: Expr, prop: &str) -> Expr {
    Expr::Member { obj: Box::new(obj), prop: MemberProp::Ident(prop.to_owned()) }
}

fn bin(op: BinOp, l: Expr, r: Expr) -> Expr {
    Expr::Bin { op, left: Box::new(l), right: Box::new(r) }
}

/// The handler `err => console.error(err)` the promise rule appends.
fn catch_handler() -> Expr {
    Expr::Arrow {
        is_async: false,
        params: vec![Pat::Ident("err".to_owned())],
        body: ArrowBody::Block(vec![Stmt::Expr(call(
            member(ident("console"), "error"),
            vec![ident("err")],
        ))]),
    }
}

/// The reporting statement of a wrapped body.
fn console_error_this() -> Stmt {
    Stmt::Expr(call(member(ident("console"), "error"), vec![ident("this"), ident("error")]))
}

/// The guard around a wrapped body.
fn wrapped(body: Vec<Stmt>) -> Vec<Stmt> {
    vec![Stmt::Try(Box::new(TryStmt {
        block: body,
        handler: Some(CatchClause {
            param: Some(Pat::Ident("error".to_owned())),
            body: vec![console_error_this()],
        }),
        finalizer: None,
    }))]
}

/// The injected helper import for the given names.
fn import_stmt(names: &[&str]) -> Stmt {
    Stmt::Decl(Decl::Var(VarDecl {
        kind: VarKind::Const,
        decls: vec![VarDeclarator {
            name: Pat::Object(names.iter().map(|n| (*n).to_owned()).collect()),
            init: Some(call(
                ident("require"),
                vec![Expr::Str("swc-plugin-accuracy/src/calc.js".to_owned())],
            )),
        }],
    }))
}

#[test]
fn operator_tables() {
    assert_eq!(push_bin_cache(&BinOp::Add), Some(Helper::AccAdd));
    assert_eq!(push_bin_cache(&BinOp::Sub), Some(Helper::AccSub));
    assert_eq!(push_bin_cache(&BinOp::Mul), Some(Helper::AccMul));
    assert_eq!(push_bin_cache(&BinOp::Div), Some(Helper::AccDiv));
    assert_eq!(push_bin_cache(&BinOp::StrictEq), Some(Helper::AccCong));
    assert_eq!(push_bin_cache(&BinOp::Other), None);
    assert_eq!(push_assign_cache(&AssignOp::AddAssign), Some(Helper::AccAdd));
    assert_eq!(push_assign_cache(&AssignOp::SubAssign), Some(Helper::AccSub));
    assert_eq!(push_assign_cache(&AssignOp::MulAssign), Some(Helper::AccMul));
    assert_eq!(push_assign_cache(&AssignOp::DivAssign), Some(Helper::AccDiv));
    assert_eq!(push_assign_cache(&AssignOp::Assign), None);
    assert_eq!(push_assign_cache(&AssignOp::Other), None);
}

#[test]
fn scenario_async_function_with_addition() {
    // async function f() { return 1 + 2; }  with every rule enabled
    let program = Program {
        body: vec![Stmt::Decl(Decl::Func {
            name: "f".to_owned(),
            function: Box::new(Function {
                is_async: true,
                params: vec![],
                body: Some(vec![Stmt::Return(Some(bin(
                    BinOp::Add,
                    Expr::Num(1),
                    Expr::Num(2),
                )))]),
            }),
        })],
    };
    let out = transform(program, Config::default());
    let expected_fn = Stmt::Decl(Decl::Func {
        name: "f".to_owned(),
        function: Box::new(Function {
            is_async: true,
            params: vec![],
            body: Some(wrapped(vec![Stmt::Return(Some(call(
                ident("accAdd"),
                vec![Expr::Num(1), Expr::Num(2)],
            )))])),
        }),
    });
    assert_eq!(out.body.len(), 2);
    assert_eq!(out.body[0], import_stmt(&["accAdd"]));
    assert_eq!(out.body[1], expected_fn);
}

#[test]
fn binary_operators_become_helper_calls() {
    let program = Program {
        body: vec![Stmt::Expr(bin(
            BinOp::Mul,
            bin(BinOp::Add, ident("a"), ident("b")),
            ident("c"),
        ))],
    };
    let out = transform(program, Config::default());
    let inner = call(ident("accAdd"), vec![ident("a"), ident("b")]);
    let outer = call(ident("accMul"), vec![inner, ident("c")]);
    assert_eq!(out.body.len(), 2);
    // bottom-up: the inner addition registers first
    assert_eq!(out.body[0], import_stmt(&["accAdd", "accMul"]));
    assert_eq!(out.body[1], Stmt::Expr(outer));
}

#[test]
fn registry_deduplicates_and_keeps_first_seen_order() {
    let program = Program {
        body: vec![
            Stmt::Expr(bin(BinOp::Sub, ident("a"), ident("b"))),
            Stmt::Expr(bin(BinOp::Mul, ident("c"), ident("d"))),
            Stmt::Expr(bin(BinOp::Sub, ident("e"), ident("f"))),
        ],
    };
    let out = transform(program, Config::default());
    assert_eq!(out.body.len(), 4);
    assert_eq!(out.body[0], import_stmt(&["accSub", "accMul"]));
}

#[test]
fn no_rewrite_means_no_import() {
    let program = Program { body: vec![Stmt::Expr(ident("x"))] };
    let out = transform(program, Config::default());
    assert_eq!(out.body, vec![Stmt::Expr(ident("x"))]);
}

#[test]
fn strict_equality_rewritten_only_when_enabled() {
    let make = || Program { body: vec![Stmt::Expr(bin(BinOp::StrictEq, ident("x"), ident("y")))] };
    let on = transform(make(), Config::default());
    assert_eq!(on.body[0], import_stmt(&["accCong"]));
    assert_eq!(on.body[1], Stmt::Expr(call(ident("accCong"), vec![ident("x"), ident("y")])));

    let off = transform(make(), Config::new(false, true, true));
    assert_eq!(off.body, vec![Stmt::Expr(bin(BinOp::StrictEq, ident("x"), ident("y")))]);
}

#[test]
fn compound_assignment_to_identifier() {
    // x += y  becomes  x = accAdd(x, y)
    let program = Program {
        body: vec![Stmt::Expr(Expr::Assign {
            op: AssignOp::AddAssign,
            target: AssignTarget::Simple(SimpleAssignTarget::Ident("x".to_owned())),
            value: Box::new(ident("y")),
        })],
    };
    let out = transform(program, Config::default());
    let expected = Expr::Assign {
        op: AssignOp::Assign,
        target: AssignTarget::Simple(SimpleAssignTarget::Ident("x".to_owned())),
        value: Box::new(call(ident("accAdd"), vec![ident("x"), ident("y")])),
    };
    assert_eq!(out.body[0], import_stmt(&["accAdd"]));
    assert_eq!(out.body[1], Stmt::Expr(expected));
}

#[test]
fn compound_assignment_to_member() {
    // o.n /= y  becomes  o.n = accDiv(o.n, y)
    let target = || SimpleAssignTarget::Member {
        obj: Box::new(ident("o")),
        prop: MemberProp::Ident("n".to_owned()),
    };
    let program = Program {
        body: vec![Stmt::Expr(Expr::Assign {
            op: AssignOp::DivAssign,
            target: AssignTarget::Simple(target()),
            value: Box::new(ident("y")),
        })],
    };
    let out = transform(program, Config::default());
    let expected = Expr::Assign {
        op: AssignOp::Assign,
        target: AssignTarget::Simple(target()),
        value: Box::new(call(ident("accDiv"), vec![member(ident("o"), "n"), ident("y")])),
    };
    assert_eq!(out.body[1], Stmt::Expr(expected));
}

#[test]
fn compound_assignment_to_pattern_is_left_alone() {
    let program = Program {
        body: vec![Stmt::Expr(Expr::Assign {
            op: AssignOp::AddAssign,
            target: AssignTarget::Pat,
            value: Box::new(ident("y")),
        })],
    };
    let out = transform(program, Config::default());
    assert_eq!(
        out.body,
        vec![Stmt::Expr(Expr::Assign {
            op: AssignOp::AddAssign,
            target: AssignTarget::Pat,
            value: Box::new(ident("y")),
        })]
    );
}

#[test]
fn escape_hatch_disables_everything() {
    let make = || Program {
        body: vec![
            Stmt::Expr(Expr::Str("calc polyfill".to_owned())),
            Stmt::Expr(bin(BinOp::Add, ident("a"), ident("b"))),
        ],
    };
    let out = transform(make(), Config::default());
    assert_eq!(out.body, make().body);
}

#[test]
fn promise_chain_without_catch_gets_one() {
    // fetchData().then(a).then(b)
    let chain = || {
        call(
            member(call(member(call(ident("fetchData"), vec![]), "then"), vec![ident("a")]), "then"),
            vec![ident("b")],
        )
    };
    let program = Program { body: vec![Stmt::Expr(chain())] };
    let out = transform(program, Config::default());
    let expected = call(member(chain(), "catch"), vec![catch_handler()]);
    assert_eq!(out.body, vec![Stmt::Expr(expected)]);
}

#[test]
fn promise_chain_with_catch_is_unchanged() {
    // fetchData().then(a).catch(h).then(b)
    let chain = || {
        call(
            member(
                call(
                    member(
                        call(member(call(ident("fetchData"), vec![]), "then"), vec![ident("a")]),
                        "catch",
                    ),
                    vec![ident("h")],
                ),
                "then",
            ),
            vec![ident("b")],
        )
    };
    let program = Program { body: vec![Stmt::Expr(chain())] };
    let out = transform(program, Config::default());
    assert_eq!(out.body, vec![Stmt::Expr(chain())]);
}

#[test]
fn promise_injection_respects_switch() {
    let chain = || call(member(call(ident("fetchData"), vec![]), "then"), vec![ident("a")]);
    let program = Program { body: vec![Stmt::Expr(chain())] };
    let out = transform(program, Config::new(true, true, false));
    assert_eq!(out.body, vec![Stmt::Expr(chain())]);
}

#[test]
fn date_string_literal_is_normalized() {
    let program = Program {
        body: vec![Stmt::Expr(Expr::New {
            callee: Box::new(ident("Date")),
            args: Some(vec![Expr::Str("2024-01-15".to_owned())]),
        })],
    };
    let out = transform(program, Config::default());
    let replaced = call(
        member(Expr::Str("2024-01-15".to_owned()), "replace"),
        vec![
            Expr::Regex { exp: "-".to_owned(), flags: "g".to_owned() },
            Expr::Str("/".to_owned()),
        ],
    );
    let expected = Expr::New { callee: Box::new(ident("Date")), args: Some(vec![replaced]) };
    assert_eq!(out.body, vec![Stmt::Expr(expected)]);
}

#[test]
fn date_variable_argument_is_unchanged() {
    let make = || Program {
        body: vec![Stmt::Expr(Expr::New {
            callee: Box::new(ident("Date")),
            args: Some(vec![ident("someVariable")]),
        })],
    };
    let out = transform(make(), Config::default());
    assert_eq!(out.body, make().body);
}

#[test]
fn async_wrap_is_idempotent() {
    // a body already starting with a try statement is not wrapped again
    let inner = vec![Stmt::Return(Some(ident("x")))];
    let once = wrap_with_try_catch(inner);
    assert!(already_wrapped(&once));
    let program = Program {
        body: vec![Stmt::Decl(Decl::Func {
            name: "f".to_owned(),
            function: Box::new(Function { is_async: true, params: vec![], body: Some(once) }),
        })],
    };
    let out = transform(program, Config::default());
    let inner2 = vec![Stmt::Return(Some(ident("x")))];
    assert_eq!(
        out.body,
        vec![Stmt::Decl(Decl::Func {
            name: "f".to_owned(),
            function: Box::new(Function {
                is_async: true,
                params: vec![],
                body: Some(wrapped(inner2)),
            }),
        })]
    );
}

#[test]
fn arrow_expression_body_becomes_wrapped_block() {
    let body = ArrowBody::Expr(Box::new(ident("x")));
    let out = wrap_arrow_body_with_try_catch(true, body);
    assert_eq!(out, ArrowBody::Block(wrapped(vec![Stmt::Return(Some(ident("x")))])));

    let untouched = wrap_arrow_body_with_try_catch(false, ArrowBody::Expr(Box::new(ident("x"))));
    assert_eq!(untouched, ArrowBody::Expr(Box::new(ident("x"))));
}

#[test]
fn chain_walk_finds_catch() {
    let no_catch = call(member(call(ident("f"), vec![]), "then"), vec![ident("a")]);
    assert!(!has_catch(&no_catch));
    let next = get_next_call_expr(&no_catch).expect("chain predecessor");
    assert_eq!(*next, call(ident("f"), vec![]));

    let with_catch = call(
        member(call(member(call(ident("f"), vec![]), "catch"), vec![ident("h")]), "then"),
        vec![ident("a")],
    );
    assert!(has_catch(&with_catch));
    assert!(get_next_call_expr(&ident("x")).is_none());
}

#[test]
fn builders_produce_the_documented_shapes() {
    let c = create_new_bin_call(Helper::AccSub, ident("a"), ident("b"));
    assert_eq!(c, call(ident("accSub"), vec![ident("a"), ident("b")]));

    let wrapped_chain = create_new_catch_callee(call(ident("p"), vec![]));
    assert_eq!(
        wrapped_chain,
        call(member(call(ident("p"), vec![]), "catch"), vec![catch_handler()])
    );

    let r = create_new_regex_call("2024-01-15".to_owned());
    assert_eq!(
        r,
        call(
            member(Expr::Str("2024-01-15".to_owned()), "replace"),
            vec![
                Expr::Regex { exp: "-".to_owned(), flags: "g".to_owned() },
                Expr::Str("/".to_owned()),
            ],
        )
    );
}

#[test]
fn rewrites_reach_nested_call_arguments() {
    // h(1 + 2) keeps its shape but the argument is substituted
    let program = Program {
        body: vec![Stmt::Expr(call(ident("h"), vec![bin(BinOp::Add, Expr::Num(1), Expr::Num(2))]))],
    };
    let out = transform(program, Config::default());
    assert_eq!(out.body[0], import_stmt(&["accAdd"]));
    assert_eq!(
        out.body[1],
        Stmt::Expr(call(ident("h"), vec![call(ident("accAdd"), vec![Expr::Num(1), Expr::Num(2)])]))
    );
}
