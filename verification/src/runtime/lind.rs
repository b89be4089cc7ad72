//! Running a Wasm module through the lind-wasm runner.

use vstd::prelude::*;

verus! {

/// The command line the runner is invoked with: the run subcommand with
/// WASI threads on and preview 2 off, the module's path, then the
/// module's own arguments.
pub fn run_argv(path: String, args: &[String]) -> (r: Vec<String>)
    ensures
        r@.len() == args@.len() + 2,
        r@[0]@ == "wasmtime run --wasi threads=y --wasi preview2=n"@,
        r@[1] == path,
        forall|i: int| 0 <= i < args@.len() ==> #[trigger] r@[i + 2] == args@[i],
{
    let mut argv: Vec<String> = Vec::new();
    argv.push("wasmtime run --wasi threads=y --wasi preview2=n".to_owned());
    argv.push(path);
    let mut i: usize = 0;
    while i < args.len()
        invariant
            i <= args@.len(),
            argv@.len() == i + 2,
            argv@[0]@ == "wasmtime run --wasi threads=y --wasi preview2=n"@,
            argv@[1] == path,
            forall|j: int| 0 <= j < i ==> #[trigger] argv@[j + 2] == args@[j],
        decreases args@.len() - i,
    {
        argv.push(args[i].clone());
        i = i + 1;
    }
    argv
}

} // verus!
