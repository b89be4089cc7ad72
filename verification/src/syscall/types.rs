//! Shapes shared by the staged system calls.

use vstd::prelude::*;

verus! {

/// The arguments of a system call as the host receives them.
pub struct Argv<const N: usize>(pub [usize; N]);

/// A call that is either answered inside the guest (`Stub`) or has to be
/// staged into the block for the host (`Alloc`).
pub enum UnstagedMaybeAlloc<S, A> {
    Stub(S),
    Alloc(A),
}

} // verus!
