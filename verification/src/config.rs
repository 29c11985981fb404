//! The rewrite switches.

use vstd::prelude::*;

verus! {

/// Three independent switches, one per gated rule: `check_chong` enables the
/// strict-equality substitution, `add_async_try` the async try/catch wrap,
/// and `promise_catch` the rejection-handler injection.  A `Config` is built
/// once per transform invocation and never changes afterwards.
#[derive(Clone, Copy, PartialEq, Eq, Structural, Debug)]
pub struct Config {
    pub check_chong: bool,
    pub add_async_try: bool,
    pub promise_catch: bool,
}

impl Config {
    #[verifier::spinoff_prover]
    pub fn new(check_chong: bool, add_async_try: bool, promise_catch: bool) -> (c: Config)
        ensures
            c == (Config { check_chong, add_async_try, promise_catch }),
    {
        Config { check_chong, add_async_try, promise_catch }
    }
}

impl Default for Config {
    /// All rules are enabled by default.
    #[verifier::spinoff_prover]
    fn default() -> (c: Config)
        ensures
            c == (Config { check_chong: true, add_async_try: true, promise_catch: true }),
    {
        Config { check_chong: true, add_async_try: true, promise_catch: true }
    }
}

} // verus!
