use vstd::prelude::*;

use std::path::PathBuf;

verus! {

#[verifier::external_type_specification]
#[verifier::external_body]
pub struct ExPathBuf(PathBuf);

/// How a Wasm workload is booted.
#[derive(Clone, Debug)]
pub struct LindBootOptions {
    pub args: Vec<String>,
    pub vars: Vec<(String, Option<String>)>,
    pub preloads: Vec<(String, PathBuf)>,
    pub precompile: bool,
    pub wasmtime_backtrace: bool,
    pub enable_fpcast: bool,
    pub thread_stack_size: usize,
    pub chroot_lindfs: bool,
}

impl LindBootOptions {
    /// The module to run: the first argument.
    pub fn wasm_file(&self) -> (r: &str)
        requires
            self.args@.len() > 0,
        ensures
            r@ == self.args@[0]@,
    {
        self.args[0].as_str()
    }
}

} // verus!
