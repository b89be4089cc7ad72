use vstd::prelude::*;

use super::types::{Argv, UnstagedMaybeAlloc};
use crate::libc::{c_int, c_long, SYS_lseek};
use crate::Result;

verus! {

/// `lseek(fd, offset, whence)`.
pub struct Lseek {
    pub fd: c_int,
    pub offset: i64,
    pub whence: c_int,
}

impl Lseek {
    /// Always handed to the host.
    pub fn stage(self) -> (r: Result<UnstagedMaybeAlloc<Result<usize>, AllocLseek>>)
        ensures
            r matches Ok(UnstagedMaybeAlloc::Alloc(a)) && a.0 == self,
    {
        Ok(UnstagedMaybeAlloc::Alloc(AllocLseek(self)))
    }
}

/// An `lseek` on its way to the host: it needs nothing in the block.
pub struct AllocLseek(pub Lseek);

impl AllocLseek {
    pub const NUM: c_long = SYS_lseek;

    /// The arguments, each widened to a machine word as the kernel ABI does.
    pub fn stage(self) -> (r: Argv<3>)
        ensures
            r.0@ == seq![self.0.fd as usize, self.0.offset as usize, self.0.whence as usize],
    {
        let argv = Argv([self.0.fd as usize, self.0.offset as usize, self.0.whence as usize]);
        assert(argv.0@ =~= seq![self.0.fd as usize, self.0.offset as usize, self.0.whence as usize]);
        argv
    }
}

} // verus!
