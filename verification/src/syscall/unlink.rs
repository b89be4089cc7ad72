use vstd::prelude::*;

use super::types::Argv;
use crate::block::{input_staged, lemma_splice, untouched, BlockAllocator, Collector, Input};
use crate::libc::{c_int, c_long, ENOMEM, SYS_unlink};
use crate::Result;

verus! {

/// `unlink(pathname)`.
pub struct Unlink<'a> {
    pub pathname: &'a [u8],
}

impl<'a> Unlink<'a> {
    pub const NUM: c_long = SYS_unlink;

    /// Copies the path into the block; the host gets its offset and length.
    pub fn stage(self, alloc: &mut BlockAllocator) -> (r: Result<(Argv<2>, Input)>)
        requires
            old(alloc).wf(),
        ensures
            final(alloc).wf(),
            r is Ok <==> old(alloc).used() + self.pathname@.len() <= old(alloc).bytes().len(),
            r matches Ok((argv, p)) ==> {
                &&& input_staged(*old(alloc), *final(alloc), self.pathname@, p)
                &&& argv.0@ == seq![p.offset(), p.len()]
                &&& final(alloc).bytes().subrange(argv.0[0] as int, argv.0[0] + argv.0[1])
                    == self.pathname@
            },
            r matches Err(e) ==> e == ENOMEM && untouched(*old(alloc), *final(alloc)),
    {
        let pathname = Input::stage_slice(alloc, self.pathname)?;
        proof {
            lemma_splice(old(alloc).bytes(), pathname.offset() as int, self.pathname@);
        }
        let argv = Argv([pathname.offset(), pathname.len()]);
        assert(argv.0@ =~= seq![pathname.offset(), pathname.len()]);
        Ok((argv, pathname))
    }

    /// The host's answer, as it came.
    pub fn collect(_committed: (), ret: Result<c_int>, _col: &Collector) -> (r: Result<c_int>)
        ensures
            r == ret,
    {
        ret
    }
}

} // verus!
