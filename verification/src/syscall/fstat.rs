use vstd::prelude::*;

use super::types::{Argv, UnstagedMaybeAlloc};
use crate::block::{align_up, stat_at, BlockAllocator, Collector, StatOutput};
use crate::libc::{
    c_int, c_long, stat, stat_zeroed, ENOMEM, STAT_ALIGN, STAT_SIZE, STDERR_FILENO,
    STDIN_FILENO, STDOUT_FILENO, SYS_fstat, S_IFIFO,
};
use crate::Result;

verus! {

/// glibc's encoding of a device number from its major and minor parts.
pub open spec fn spec_makedev(x: u64, y: u64) -> u64 {
    ((x & 0xffff_f000u64) << 32u64) | ((x & 0x0000_0fffu64) << 8u64) | ((y & 0xffff_ff00u64)
        << 12u64) | (y & 0x0000_00ffu64)
}

/// The major part of a device number, as glibc decodes it.
pub open spec fn dev_major(dev: u64) -> u64 {
    ((dev >> 32u64) & 0xffff_f000u64) | ((dev >> 8u64) & 0x0000_0fffu64)
}

/// The minor part of a device number, as glibc decodes it.
pub open spec fn dev_minor(dev: u64) -> u64 {
    ((dev >> 12u64) & 0xffff_ff00u64) | (dev & 0x0000_00ffu64)
}

/// glibc's encoding of a device number from its major and minor parts.
#[verifier::when_used_as_spec(spec_makedev)]
pub fn makedev(x: u64, y: u64) -> (r: u64)
    ensures
        r == spec_makedev(x, y),
{
    ((x & 0xffff_f000u64) << 32u64) | ((x & 0x0000_0fffu64) << 8u64) | ((y & 0xffff_ff00u64)
        << 12u64) | (y & 0x0000_00ffu64)
}

/// Major and minor parts of up to 32 bits each come back out of the device
/// number that `makedev` builds from them.
pub proof fn law_makedev_roundtrip(x: u64, y: u64)
    requires
        x <= 0xffff_ffff,
        y <= 0xffff_ffff,
    ensures
        dev_major(makedev(x, y)) == x,
        dev_minor(makedev(x, y)) == y,
{
    assert(dev_major(spec_makedev(x, y)) == x && dev_minor(spec_makedev(x, y)) == y)
        by (bit_vector)
        requires
            x <= 0xffff_ffff,
            y <= 0xffff_ffff,
    ;
}

/// Small numbers keep the classic 16-bit layout: a major below 4096 and a
/// minor below 256 give `major * 256 + minor`.
pub proof fn law_makedev_small(x: u64, y: u64)
    requires
        x < 4096,
        y < 256,
    ensures
        makedev(x, y) == x * 256 + y,
{
    assert(spec_makedev(x, y) == x * 256 + y) by (bit_vector)
        requires
            x < 4096,
            y < 256,
    ;
}

/// Whether `fd` is one of the three standard streams.
pub open spec fn is_std_stream(fd: c_int) -> bool {
    fd == STDIN_FILENO || fd == STDOUT_FILENO || fd == STDERR_FILENO
}

/// The standard streams are exactly the descriptors 0, 1 and 2.
pub proof fn law_std_stream_fds(fd: c_int)
    ensures
        is_std_stream(fd) <==> 0 <= fd <= 2,
{
}

/// The `struct stat` reported for a standard stream: a pipe owned by the
/// user, with a fixed device, inode and times.
pub open spec fn std_stream_stat(fd: c_int) -> stat {
    stat {
        st_dev: spec_makedev(0, if fd == 0 { 0x19 } else { 0xc }),
        st_ino: 3,
        st_mode: S_IFIFO | 0o600,
        st_nlink: 1,
        st_uid: 1000,
        st_gid: 5,
        st_blksize: 4096,
        st_blocks: 0,
        st_rdev: spec_makedev(0x88, 0),
        st_size: 0,
        st_atime: 1_579_507_218,
        st_atime_nsec: 0,
        st_mtime: 1_579_507_218,
        st_mtime_nsec: 0,
        st_ctime: 1_579_507_218,
        st_ctime_nsec: 0,
        ..stat_zeroed()
    }
}

/// All three standard streams are reported as pipes with permissions 0600,
/// owned by user 1000 and group 5, on device 0x19 for stdin and 0xc for
/// stdout and stderr, with every other field fixed.
pub proof fn law_std_streams_are_pipes(fd: c_int)
    requires
        is_std_stream(fd),
    ensures
        std_stream_stat(fd).st_mode == S_IFIFO | 0o600,
        std_stream_stat(fd).st_mode == 0o010600,
        std_stream_stat(fd).st_dev == if fd == 0 { 0x19u64 } else { 0xcu64 },
        std_stream_stat(fd).st_rdev == 0x8800,
        std_stream_stat(fd).st_ino == 3,
        std_stream_stat(fd).st_nlink == 1,
        std_stream_stat(fd).st_uid == 1000,
        std_stream_stat(fd).st_gid == 5,
        std_stream_stat(fd).st_blksize == 4096,
        std_stream_stat(fd).st_blocks == 0,
        std_stream_stat(fd).st_size == 0,
        std_stream_stat(fd).st_atime == 1_579_507_218,
        std_stream_stat(fd).st_mtime == 1_579_507_218,
        std_stream_stat(fd).st_ctime == 1_579_507_218,
        std_stream_stat(fd).st_atime_nsec == 0,
        std_stream_stat(fd).st_mtime_nsec == 0,
        std_stream_stat(fd).st_ctime_nsec == 0,
        std_stream_stat(fd).__pad0 == 0,
        std_stream_stat(fd).__unused == [0i64, 0i64, 0i64],
{
    assert(spec_makedev(0, 0x19) == 0x19) by (bit_vector);
    assert(spec_makedev(0, 0xc) == 0xc) by (bit_vector);
    assert(spec_makedev(0x88, 0) == 0x8800) by (bit_vector);
    assert(S_IFIFO | 0o600 == 0o010600) by (bit_vector);
}

/// `fstat(fd, statbuf)`.
pub struct Fstat<'a> {
    pub fd: c_int,
    pub statbuf: &'a mut stat,
}

impl<'a> Fstat<'a> {
    /// Standard streams are answered inside the guest: the host's notion of
    /// these descriptors is not necessarily the guest's, and they are
    /// reported as pipes. Any other descriptor refers to a real host file
    /// and is handed to the host.
    pub fn stage(self) -> (r: Result<UnstagedMaybeAlloc<Result<()>, AllocFstat<'a>>>)
        ensures
            is_std_stream(self.fd) ==> {
                &&& r matches Ok(UnstagedMaybeAlloc::Stub(Ok(())))
                &&& *final(self.statbuf) == std_stream_stat(self.fd)
                &&& final(self.statbuf).st_mode == S_IFIFO | 0o600
            },
            !is_std_stream(self.fd) ==> {
                &&& r matches Ok(UnstagedMaybeAlloc::Alloc(a))
                &&& a.0.fd == self.fd
                &&& *a.0.statbuf == *old(self.statbuf)
                &&& *final(a.0.statbuf) == *final(self.statbuf)
            },
    {
        if self.fd == STDIN_FILENO || self.fd == STDOUT_FILENO || self.fd == STDERR_FILENO {
            let mut p: stat = stat::zeroed();

            p.st_dev = makedev(
                0,
                if self.fd == 0 {
                    0x19
                } else {
                    0xc
                },
            );
            p.st_ino = 3;
            p.st_mode = S_IFIFO | 0o600;
            p.st_nlink = 1;
            p.st_uid = 1000;
            p.st_gid = 5;
            p.st_blksize = 4096;
            p.st_blocks = 0;
            p.st_rdev = makedev(0x88, 0);
            p.st_size = 0;

            p.st_atime = 1_579_507_218;  // 2020-01-21T11:45:08.467721685+0100
            p.st_atime_nsec = 0;
            p.st_mtime = 1_579_507_218;  // 2020-01-21T11:45:07.467721685+0100
            p.st_mtime_nsec = 0;
            p.st_ctime = 1_579_507_218;  // 2020-01-20T09:00:18.467721685+0100
            p.st_ctime_nsec = 0;

            *self.statbuf = p;
            Ok(UnstagedMaybeAlloc::Stub(Ok(())))
        } else {
            Ok(UnstagedMaybeAlloc::Alloc(AllocFstat(self)))
        }
    }
}

/// An `fstat` of a host file on its way to the host.
pub struct AllocFstat<'a>(pub Fstat<'a>);

impl<'a> AllocFstat<'a> {
    pub const NUM: c_long = SYS_fstat;

    /// Reserves room for the answer; the host gets the descriptor, widened
    /// to a machine word, and the answer's offset.
    pub fn stage(self, alloc: &mut BlockAllocator) -> (r: Result<(Argv<2>, StatOutput<'a>)>)
        requires
            old(alloc).wf(),
        ensures
            final(alloc).wf(),
            final(alloc).bytes() == old(alloc).bytes(),
            r is Ok <==> align_up(old(alloc).used(), STAT_ALIGN as nat) + STAT_SIZE
                <= old(alloc).bytes().len(),
            r matches Ok((argv, s)) ==> {
                &&& argv.0@ == seq![self.0.fd as usize, s.region().offset()]
                &&& s.region().offset() == align_up(old(alloc).used(), STAT_ALIGN as nat)
                &&& s.region().len() == STAT_SIZE
                &&& final(alloc).used() == s.region().offset() + STAT_SIZE
                &&& *s.dst() == *old(self.0.statbuf)
                &&& *final(s.dst()) == *final(self.0.statbuf)
            },
            r matches Err(e) ==> {
                &&& e == ENOMEM
                &&& final(alloc).used() == old(alloc).used()
                &&& *final(self.0.statbuf) == *old(self.0.statbuf)
            },
    {
        let fd = self.0.fd;
        let statbuf = StatOutput::stage(alloc, self.0.statbuf)?;
        let argv = Argv([fd as usize, statbuf.offset()]);
        assert(argv.0@ =~= seq![fd as usize, statbuf.region().offset()]);
        Ok((argv, statbuf))
    }

    /// On success the `struct stat` the host wrote reaches the caller; the
    /// answer comes back as it came.
    pub fn collect(statbuf: StatOutput<'a>, ret: Result<()>, col: &Collector) -> (r: Result<()>)
        requires
            statbuf.region().len() == STAT_SIZE,
            statbuf.region().offset() + STAT_SIZE <= col.bytes().len(),
        ensures
            r == ret,
            ret is Ok ==> *final(statbuf.dst()) == stat_at(
                col.bytes(),
                statbuf.region().offset() as int,
            ),
            ret is Err ==> *final(statbuf.dst()) == *statbuf.dst(),
    {
        if ret.is_ok() {
            statbuf.collect(col);
        } else {
            statbuf.discard();
        }
        ret
    }
}

} // verus!
