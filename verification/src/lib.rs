//! A verified source-to-source rewrite engine for a JavaScript syntax tree.
//!
//! The engine walks a program once and applies four independent rules:
//! wrapping async function bodies in a try/catch reporting guard, appending a
//! rejection handler to promise chains that lack one, replacing arithmetic
//! operators with calls to precision-safe helpers, and normalizing the string
//! argument of `new Date(...)`.  Helpers introduced by rewrites are collected
//! in an insertion-ordered registry and bound by one import statement
//! prepended to the program.  A companion transform strips `console` calls
//! from files selected by path rules.

pub mod ast;
pub mod async_tool;
pub mod clone_tree;
pub mod config;
pub mod decl_stmt;
pub mod declarations;
pub mod declarator;
pub mod delete_console;
pub mod driver;
pub mod file;
pub mod functions;
pub mod laws;
pub mod model;
pub mod new_date_tool;
pub mod operation_tool;
pub mod promise_tool;
pub mod registry_law;
pub mod semantics;
pub mod statements;
pub mod visitor;
