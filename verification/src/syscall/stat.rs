use vstd::prelude::*;

use super::types::Argv;
use crate::block::{
    align_up, lemma_splice, stat_at, untouched, BlockAllocator, Collector, Input, StatOutput,
};
use crate::libc::{c_long, stat, ENOMEM, STAT_ALIGN, STAT_SIZE, SYS_stat};
use crate::Result;

verus! {

/// `stat(pathname, statbuf)`.
pub struct Stat<'a> {
    pub pathname: &'a [u8],
    pub statbuf: &'a mut stat,
}

impl<'a> Stat<'a> {
    pub const NUM: c_long = SYS_stat;

    /// Copies the path into the block and reserves room for the answer
    /// behind it; the host gets the path's offset and length and the
    /// answer's offset.
    pub fn stage(self, alloc: &mut BlockAllocator) -> (r: Result<(Argv<3>, (Input, StatOutput<'a>))>)
        requires
            old(alloc).wf(),
        ensures
            final(alloc).wf(),
            r is Ok <==> {
                &&& old(alloc).used() + self.pathname@.len() <= old(alloc).bytes().len()
                &&& align_up(old(alloc).used() + self.pathname@.len(), STAT_ALIGN as nat)
                    + STAT_SIZE <= old(alloc).bytes().len()
            },
            r matches Ok((argv, (p, s))) ==> {
                &&& p.offset() == old(alloc).used()
                &&& p.len() == self.pathname@.len()
                &&& final(alloc).bytes() == crate::block::splice(
                    old(alloc).bytes(),
                    p.offset() as int,
                    self.pathname@,
                )
                &&& final(alloc).bytes().subrange(argv.0[0] as int, argv.0[0] + argv.0[1])
                    == self.pathname@
                &&& s.region().offset() == align_up((p.offset() + p.len()) as nat, STAT_ALIGN as nat)
                &&& p.offset() + p.len() <= s.region().offset()
                &&& s.region().len() == STAT_SIZE
                &&& final(alloc).used() == s.region().offset() + STAT_SIZE
                &&& argv.0@ == seq![p.offset(), p.len(), s.region().offset()]
                &&& *s.dst() == *old(self.statbuf)
                &&& *final(s.dst()) == *final(self.statbuf)
            },
            r matches Err(e) ==> {
                &&& e == ENOMEM
                &&& *final(self.statbuf) == *old(self.statbuf)
                &&& old(alloc).used() + self.pathname@.len() > old(alloc).bytes().len() ==> untouched(
                    *old(alloc),
                    *final(alloc),
                )
                &&& old(alloc).used() + self.pathname@.len() <= old(alloc).bytes().len() ==> {
                    &&& final(alloc).used() == old(alloc).used() + self.pathname@.len()
                    &&& final(alloc).bytes() == crate::block::splice(
                        old(alloc).bytes(),
                        old(alloc).used() as int,
                        self.pathname@,
                    )
                }
            },
    {
        let pathname = Input::stage_slice(alloc, self.pathname)?;
        proof {
            lemma_splice(old(alloc).bytes(), pathname.offset() as int, self.pathname@);
        }
        let statbuf = StatOutput::stage(alloc, self.statbuf)?;
        proof {
            crate::block::law_align_up((pathname.offset() + pathname.len()) as nat, STAT_ALIGN as nat);
        }
        let argv = Argv([pathname.offset(), pathname.len(), statbuf.offset()]);
        assert(argv.0@ =~= seq![pathname.offset(), pathname.len(), statbuf.region().offset()]);
        Ok((argv, (pathname, statbuf)))
    }

    /// On success the `struct stat` the host wrote reaches the caller; the
    /// answer comes back as it came.
    pub fn collect(committed: ((), StatOutput<'a>), ret: Result<()>, col: &Collector) -> (r: Result<()>)
        requires
            committed.1.region().len() == STAT_SIZE,
            committed.1.region().offset() + STAT_SIZE <= col.bytes().len(),
        ensures
            r == ret,
            ret is Ok ==> *final(committed.1.dst()) == stat_at(
                col.bytes(),
                committed.1.region().offset() as int,
            ),
            ret is Err ==> *final(committed.1.dst()) == *committed.1.dst(),
    {
        let (_, statbuf) = committed;
        if ret.is_ok() {
            statbuf.collect(col);
        } else {
            statbuf.discard();
        }
        ret
    }
}

} // verus!
