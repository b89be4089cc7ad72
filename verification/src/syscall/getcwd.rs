use vstd::prelude::*;

use super::types::Argv;
use crate::block::{splice, BlockAllocator, BytesOutput, Collector};
use crate::libc::{c_long, c_size_t, ENOMEM, SYS_getcwd};
use crate::Result;

verus! {

/// `getcwd(buf, size)`.
pub struct Getcwd<'a> {
    pub buf: &'a mut [u8],
}

impl<'a> Getcwd<'a> {
    pub const NUM: c_long = SYS_getcwd;

    /// Reserves as much of the caller's buffer as the block can hold; the
    /// host gets the region's offset and length.
    pub fn stage(self, alloc: &mut BlockAllocator) -> (r: Result<(Argv<2>, BytesOutput<'a>)>)
        requires
            old(alloc).wf(),
        ensures
            final(alloc).wf(),
            final(alloc).bytes() == old(alloc).bytes(),
            r is Err <==> old(self.buf)@.len() > 0 && old(alloc).used() == old(alloc).bytes().len(),
            r matches Ok((argv, o)) ==> {
                &&& argv.0@ == seq![o.region().offset(), o.region().len()]
                &&& o.region().offset() == old(alloc).used()
                &&& o.region().len() == if old(self.buf)@.len() <= old(alloc).bytes().len()
                    - old(alloc).used() {
                    old(self.buf)@.len() as int
                } else {
                    old(alloc).bytes().len() - old(alloc).used()
                }
                &&& final(alloc).used() == old(alloc).used() + o.region().len()
                &&& o.dst()@ == old(self.buf)@
                &&& final(o.dst())@ == final(self.buf)@
            },
            r matches Err(e) ==> {
                &&& e == ENOMEM
                &&& final(alloc).used() == old(alloc).used()
                &&& final(self.buf)@ == old(self.buf)@
            },
    {
        let buf = BytesOutput::stage_slice_max(alloc, self.buf)?;
        let argv = Argv([buf.offset(), buf.len()]);
        assert(argv.0@ =~= seq![buf.region().offset(), buf.region().len()]);
        Ok((argv, buf))
    }

    /// The kernel counts the terminating nul in its answer; an answer longer
    /// than the staged region means the host is lying, and yields `None`.
    /// Otherwise that many bytes are copied into the caller's buffer.
    pub fn collect(buf: BytesOutput<'a>, ret: Result<c_size_t>, col: &Collector) -> (r: Option<
        Result<c_size_t>,
    >)
        requires
            buf.region().offset() + buf.region().len() <= col.bytes().len(),
            buf.region().len() <= buf.dst()@.len(),
        ensures
            match ret {
                Ok(n) => if n > buf.region().len() {
                    r == None::<Result<c_size_t>> && final(buf.dst())@ == buf.dst()@
                } else {
                    &&& r == Some(ret)
                    &&& final(buf.dst())@ == splice(
                        buf.dst()@,
                        0,
                        col.bytes().subrange(
                            buf.region().offset() as int,
                            buf.region().offset() + n,
                        ),
                    )
                },
                Err(_) => r == Some(ret) && final(buf.dst())@ == buf.dst()@,
            },
    {
        match ret {
            Ok(n) => {
                if n > buf.len() {
                    buf.discard();
                    None
                } else {
                    buf.collect_range(col, n);
                    Some(ret)
                }
            },
            Err(_) => {
                buf.discard();
                Some(ret)
            },
        }
    }
}

} // verus!
