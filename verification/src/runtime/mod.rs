//! The Wasm runtime's decisions: what a workload boots with, how the
//! standard streams are handed to it, and how the Wasm runner is invoked.

use vstd::prelude::*;

pub mod io;
pub mod lind;
pub mod lind_boot;

use lind_boot::LindBootOptions;

verus! {

/// Stack size of each workload thread: 64 MiB.
pub const THREAD_STACK_SIZE: usize = 0x400_0000;

/// Each workload thread gets 64 MiB of stack.
pub proof fn law_thread_stack_size()
    ensures
        THREAD_STACK_SIZE == 64 * 1024 * 1024,
{
}

/// The Wasm runtime.
#[derive(Clone)]
pub struct Runtime;

impl Runtime {
    /// What a workload boots with, given the arguments and environment of
    /// its configuration: `main.wasm` followed by the arguments, every
    /// variable set, no preloads, and every switch off.
    pub fn boot_options(config_args: Vec<String>, env: Vec<(String, String)>) -> (r:
        LindBootOptions)
        ensures
            r.args@.len() == config_args@.len() + 1,
            r.args@[0]@ == "main.wasm"@,
            forall|i: int| 0 <= i < config_args@.len() ==> #[trigger] r.args@[i + 1] == config_args@[i],
            r.vars@.len() == env@.len(),
            forall|i: int|
                0 <= i < env@.len() ==> #[trigger] r.vars@[i] == (env@[i].0, Some(env@[i].1)),
            r.preloads@.len() == 0,
            !r.precompile,
            !r.wasmtime_backtrace,
            !r.enable_fpcast,
            r.thread_stack_size == THREAD_STACK_SIZE,
            !r.chroot_lindfs,
    {
        let mut args: Vec<String> = Vec::new();
        args.push("main.wasm".to_owned());
        let mut config_args = config_args;
        args.append(&mut config_args);

        let mut vars: Vec<(String, Option<String>)> = Vec::new();
        let mut i: usize = 0;
        while i < env.len()
            invariant
                i <= env@.len(),
                vars@.len() == i,
                forall|j: int|
                    0 <= j < i ==> #[trigger] vars@[j] == (env@[j].0, Some(env@[j].1)),
            decreases env@.len() - i,
        {
            let name = env[i].0.clone();
            let value = env[i].1.clone();
            vars.push((name, Some(value)));
            i = i + 1;
        }

        LindBootOptions {
            args,
            vars,
            preloads: Vec::new(),
            precompile: false,
            wasmtime_backtrace: false,
            enable_fpcast: false,
            thread_stack_size: 64 * 1024 * 1024,
            chroot_lindfs: false,
        }
    }
}

} // verus!
