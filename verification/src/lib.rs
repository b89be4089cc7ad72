//! Staging of guest system calls into a shared block, and the boot-time
//! decisions of the Wasm runtime that drives them.

use vstd::prelude::*;

pub mod block;
pub mod libc;
pub mod runtime;
pub mod syscall;

verus! {

/// The result of a system call: the value, or a positive `errno`.
pub type Result<T> = core::result::Result<T, libc::c_int>;

} // verus!
