use accuracy::ast::{Expr, MemberProp, Stmt};
use accuracy::delete_console::{Config, ConfigFile};
use accuracy::file::file_check;

fn console_call(method: &str) -> Stmt {
    Stmt::Expr(Expr::Call {
        callee: Box::new(Expr::Member {
            obj: Box::new(Expr::Ident("console".to_owned())),
            prop: MemberProp::Ident(method.to_owned()),
        }),
        args: vec![Expr::Str("hi".to_owned())],
    })
}

fn cfg(includes: &[&str], excludes: &[&str]) -> Config {
    Config::new(
        includes.iter().map(|s| (*s).to_owned()).collect(),
        excludes.iter().map(|s| (*s).to_owned()).collect(),
        ConfigFile::new(vec![], vec![]),
    )
}

#[test]
fn included_method_is_removed() {
    let c = cfg(&["log"], &[]);
    let mut s = console_call("log");
    accuracy::delete_console::stmt_delete_console(&mut s, &c);
    assert_eq!(s, Stmt::Empty);
}

#[test]
fn excluded_method_is_kept() {
    let c = cfg(&[], &["error"]);
    let mut s = console_call("error");
    accuracy::delete_console::stmt_delete_console(&mut s, &c);
    assert_eq!(s, console_call("error"));
}

#[test]
fn unlisted_method_is_removed() {
    let c = cfg(&[], &["error"]);
    let mut s = console_call("log");
    accuracy::delete_console::stmt_delete_console(&mut s, &c);
    assert_eq!(s, Stmt::Empty);
}

#[test]
fn non_console_statement_is_kept() {
    let c = cfg(&[], &[]);
    let mut s = Stmt::Expr(Expr::Ident("x".to_owned()));
    accuracy::delete_console::stmt_delete_console(&mut s, &c);
    assert_eq!(s, Stmt::Expr(Expr::Ident("x".to_owned())));
}

#[test]
fn stripped_statements_leave_no_placeholder() {
    let c = cfg(&[], &["error"]);
    let body = vec![
        console_call("log"),
        Stmt::Expr(Expr::Ident("keep".to_owned())),
        console_call("error"),
        console_call("warn"),
    ];
    let out = c.visit_mut_stmts(body);
    assert_eq!(
        out,
        vec![Stmt::Expr(Expr::Ident("keep".to_owned())), console_call("error")]
    );
}

#[test]
fn stripping_reaches_nested_blocks() {
    let c = cfg(&[], &[]);
    let body = vec![Stmt::Block(vec![console_call("log"), Stmt::Return(None)])];
    let out = c.visit_mut_stmts(body);
    assert_eq!(out, vec![Stmt::Block(vec![Stmt::Return(None)])]);
}

#[test]
fn config_accessors_round_trip() {
    let c = Config::new(
        vec!["log".to_owned()],
        vec!["error".to_owned()],
        ConfigFile::new(vec!["**/tests/**/*.js".to_owned()], vec![]),
    );
    assert_eq!(c.includes(), &vec!["log".to_owned()]);
    assert_eq!(c.excludes(), &vec!["error".to_owned()]);
    assert_eq!(c.file().includes, vec!["**/tests/**/*.js".to_owned()]);
    assert_eq!(c.file().excludes, Vec::<String>::new());
}

#[test]
fn file_path_include() {
    let rule = "**/tests/**/*.js".to_owned();
    let path = "/Users/liushuai/Desktop/study/rust/swc_plugin/delete-console/tests/input.js"
        .to_owned();
    let result = file_check(rule.clone(), path.clone());
    println!("file check rule: {}   reslut------> {}", rule, result);
    assert!(result);
}

#[test]
fn file_check_rejects_other_directories() {
    // a rule without a leading glob stops at the first fixed segment
    assert!(!file_check("src/x.js".to_owned(), "/a/src/x.js".to_owned()));
}

#[test]
fn file_check_extension_must_match() {
    assert!(!file_check(
        "**/tests/**/*.js".to_owned(),
        "/home/user/project/tests/input.ts".to_owned(),
    ));
}
