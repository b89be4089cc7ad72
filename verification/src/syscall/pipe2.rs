use vstd::prelude::*;

use super::types::Argv;
use crate::block::{align_up, fds_at, BlockAllocator, Collector, FdsOutput};
use crate::libc::{c_int, c_long, ENOMEM, SYS_pipe2};
use crate::Result;

verus! {

/// `pipe2(pipefd, flags)`: it cannot be a passthrough, since the host must
/// write the two descriptors back into the block.
pub struct Pipe2<'a> {
    pub pipefd: &'a mut [c_int; 2],
    pub flags: c_int,
}

impl<'a> Pipe2<'a> {
    pub const NUM: c_long = SYS_pipe2;

    /// Reserves room for the two descriptors; the host gets its offset and
    /// the flags.
    pub fn stage(self, alloc: &mut BlockAllocator) -> (r: Result<(Argv<2>, FdsOutput<'a>)>)
        requires
            old(alloc).wf(),
        ensures
            final(alloc).wf(),
            final(alloc).bytes() == old(alloc).bytes(),
            r is Ok <==> align_up(old(alloc).used(), 4) + 8 <= old(alloc).bytes().len(),
            r matches Ok((argv, o)) ==> {
                &&& argv.0@ == seq![o.region().offset(), self.flags as usize]
                &&& o.region().offset() == align_up(old(alloc).used(), 4)
                &&& o.region().len() == 8
                &&& final(alloc).used() == o.region().offset() + 8
                &&& *o.dst() == *old(self.pipefd)
                &&& *final(o.dst()) == *final(self.pipefd)
            },
            r matches Err(e) ==> {
                &&& e == ENOMEM
                &&& final(alloc).used() == old(alloc).used()
                &&& *final(self.pipefd) == *old(self.pipefd)
            },
    {
        let pipefd = FdsOutput::stage(alloc, self.pipefd)?;
        let argv = Argv([pipefd.offset(), self.flags as usize]);
        assert(argv.0@ =~= seq![pipefd.region().offset(), self.flags as usize]);
        Ok((argv, pipefd))
    }

    /// On success the descriptors the host wrote reach the caller; the
    /// answer comes back as it came.
    pub fn collect(pipefd: FdsOutput<'a>, ret: Result<c_int>, col: &Collector) -> (r: Result<c_int>)
        requires
            pipefd.region().len() == 8,
            pipefd.region().offset() + 8 <= col.bytes().len(),
        ensures
            r == ret,
            ret is Ok ==> *final(pipefd.dst()) == fds_at(col.bytes(), pipefd.region().offset() as int),
            ret is Err ==> *final(pipefd.dst()) == *pipefd.dst(),
    {
        if ret.is_ok() {
            pipefd.collect(col);
        } else {
            pipefd.discard();
        }
        ret
    }
}

} // verus!
