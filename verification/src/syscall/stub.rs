//! Calls answered inside the guest, without the host.

use vstd::prelude::*;

use crate::block::{le_u64, lemma_read_u64_bytes, splice, u64_bytes, Collector};
use vstd::string::StringSliceAdditionalSpecFns;
use crate::libc::{
    c_char, c_int, c_size_t, c_uint, gid_t, pid_t, sigset_t, stack_t, uid_t, utsname, EAGAIN,
    EINVAL, ENOENT, GRND_NONBLOCK, GRND_RANDOM, UTSNAME_LEN,
};
use crate::Result;

verus! {

/// Fake GID returned by enarx.
pub const FAKE_GID: gid_t = 1000;

/// Fake PID returned by enarx.
pub const FAKE_PID: pid_t = 1000;

/// Fake TID returned by enarx.
pub const FAKE_TID: pid_t = 1;

/// Fake UID returned by enarx.
pub const FAKE_UID: uid_t = 1000;

/// `getegid()`.
pub struct Getegid;

impl Getegid {
    pub fn collect(self, _col: &Collector) -> (r: gid_t)
        ensures
            r == FAKE_GID,
    {
        FAKE_GID
    }
}

/// `geteuid()`.
pub struct Geteuid;

impl Geteuid {
    pub fn collect(self, _col: &Collector) -> (r: uid_t)
        ensures
            r == FAKE_UID,
    {
        FAKE_UID
    }
}

/// `getgid()`.
pub struct Getgid;

impl Getgid {
    pub fn collect(self, _col: &Collector) -> (r: gid_t)
        ensures
            r == FAKE_GID,
    {
        FAKE_GID
    }
}

/// `getpid()`.
pub struct Getpid;

impl Getpid {
    pub fn collect(self, _col: &Collector) -> (r: pid_t)
        ensures
            r == FAKE_PID,
    {
        FAKE_PID
    }
}

/// `getuid()`.
pub struct Getuid;

impl Getuid {
    pub fn collect(self, _col: &Collector) -> (r: uid_t)
        ensures
            r == FAKE_UID,
    {
        FAKE_UID
    }
}

/// Byte `k` (from the least significant) of `x`.
pub open spec fn le_byte(x: u64, k: nat) -> u8 {
    ((x >> ((8 * k) as u64)) & 0xffu64) as u8
}

/// Where the chunk of eight bytes that starts at `start` ends in a buffer of
/// `len` bytes.
pub open spec fn chunk_end(start: int, len: int) -> int {
    if start + 8 <= len {
        start + 8
    } else {
        len
    }
}

/// `s` with the chunk that starts at `start` filled with the bytes of `el`,
/// least significant first.
pub open spec fn fill_chunk(s: Seq<u8>, start: int, el: u64) -> Seq<u8> {
    Seq::new(
        s.len(),
        |j: int|
            if start <= j < chunk_end(start, s.len() as int) {
                le_byte(el, (j - start) as nat)
            } else {
                s[j]
            },
    )
}

/// A filled chunk holds the word byte by byte, least significant first, in
/// every position from `start` up to eight bytes on or the buffer's end,
/// whichever comes first; no other byte changes; and a whole chunk reads
/// back little-endian as the word.
pub proof fn law_fill_chunk_writes_word(s: Seq<u8>, start: int, el: u64)
    requires
        0 <= start < s.len(),
    ensures
        fill_chunk(s, start, el).len() == s.len(),
        forall|j: int|
            start <= j < s.len() && j < start + 8 ==> #[trigger] fill_chunk(s, start, el)[j] == ((el
                >> ((8 * (j - start)) as u64)) & 0xffu64) as u8,
        forall|j: int|
            0 <= j < s.len() && !(start <= j < start + 8) ==> #[trigger] fill_chunk(s, start, el)[j]
                == s[j],
        start + 8 <= s.len() ==> le_u64(fill_chunk(s, start, el), start) == el,
{
    if start + 8 <= s.len() {
        let f = fill_chunk(s, start, el);
        assert(el >> 0u64 == el) by (bit_vector);
        assert(f.subrange(start, start + 8) =~= u64_bytes(el));
        lemma_read_u64_bytes(f, start, el);
    }
}

/// Whether `flags` holds a bit other than `GRND_NONBLOCK` and `GRND_RANDOM`.
pub open spec fn unknown_grnd_flags(flags: c_uint) -> bool {
    flags & !(GRND_NONBLOCK | GRND_RANDOM) != 0
}

/// The only flags `getrandom` accepts are `GRND_NONBLOCK` (1) and
/// `GRND_RANDOM` (2), alone or together.
pub proof fn law_grnd_flags(flags: c_uint)
    ensures
        !unknown_grnd_flags(flags) <==> (flags == 0 || flags == 1 || flags == 2 || flags == 3),
{
    assert((flags & !(1u32 | 2u32) == 0) <==> (flags == 0 || flags == 1 || flags == 2 || flags
        == 3)) by (bit_vector);
}

/// What a `getrandom` asks for next.
pub enum GetrandomAction {
    /// Draw a random word from the hardware for the chunk with this index.
    Draw(usize),
    /// The call is answered.
    Done(Result<c_size_t>),
}

/// `getrandom(buf, flags)`, filled eight bytes at a time from the CPU's
/// random number generator; whoever holds the generator draws the words.
pub struct Getrandom<'a> {
    pub buf: &'a mut [u8],
    pub flags: c_uint,
}

impl<'a> Getrandom<'a> {
    /// Unknown flags are refused with `EINVAL`; an empty buffer is answered
    /// at once; otherwise the first chunk needs a word.
    pub fn begin(&self) -> (r: GetrandomAction)
        ensures
            unknown_grnd_flags(self.flags) ==> r == GetrandomAction::Done(Err(EINVAL)),
            !unknown_grnd_flags(self.flags) && old(self.buf)@.len() == 0 ==> r
                == GetrandomAction::Done(Ok(0)),
            !unknown_grnd_flags(self.flags) && old(self.buf)@.len() > 0 ==> r == GetrandomAction::Draw(
                0,
            ),
    {
        if self.flags & !(GRND_NONBLOCK | GRND_RANDOM) != 0 {
            return GetrandomAction::Done(Err(EINVAL));
        }
        if self.buf.len() == 0 {
            GetrandomAction::Done(Ok(0))
        } else {
            GetrandomAction::Draw(0)
        }
    }

    /// Takes the outcome of a draw for chunk `chunk`. A word fills the
    /// chunk and moves on to the next one, or answers with the whole length
    /// after the last. A failed draw answers `EAGAIN` under
    /// `GRND_NONBLOCK`, the bytes filled so far under `GRND_RANDOM`, and
    /// otherwise asks again for the same chunk.
    pub fn advance(&mut self, chunk: usize, drawn: Option<u64>) -> (r: GetrandomAction)
        requires
            chunk * 8 < old(self).buf@.len(),
        ensures
            final(self).flags == old(self).flags,
            match drawn {
                Some(el) => {
                    &&& final(self).buf@ == fill_chunk(old(self).buf@, chunk * 8, el)
                    &&& final(self).buf@.len() == old(self).buf@.len()
                    &&& forall|j: int|
                        chunk * 8 <= j < old(self).buf@.len() && j < chunk * 8 + 8
                            ==> #[trigger] final(self).buf@[j] == ((el >> ((8 * (j - chunk * 8)) as u64))
                            & 0xffu64) as u8
                    &&& r == if chunk * 8 + 8 < old(self).buf@.len() {
                        GetrandomAction::Draw((chunk + 1) as usize)
                    } else {
                        GetrandomAction::Done(Ok(old(self).buf@.len() as usize))
                    }
                },
                None => {
                    &&& final(self).buf@ == old(self).buf@
                    &&& r == if old(self).flags & GRND_NONBLOCK != 0 {
                        GetrandomAction::Done(Err(EAGAIN))
                    } else if old(self).flags & GRND_RANDOM != 0 {
                        GetrandomAction::Done(Ok((chunk * 8) as usize))
                    } else {
                        GetrandomAction::Draw(chunk)
                    }
                },
            },
    {
        let len = self.buf.len();
        let start = chunk * 8;
        match drawn {
            Some(el) => {
                let end = if len - start >= 8 {
                    start + 8
                } else {
                    len
                };
                let ghost orig = self.buf@;
                let mut k: usize = 0;
                while k < end - start
                    invariant
                        start < end <= len,
                        k <= end - start,
                        end == chunk_end(start as int, len as int),
                        end - start <= 8,
                        len == orig.len(),
                        self.buf@.len() == len,
                        self.flags == old(self).flags,
                        forall|j: int|
                            0 <= j < len ==> #[trigger] self.buf@[j] == if start <= j < start
                                + k {
                                le_byte(el, (j - start) as nat)
                            } else {
                                orig[j]
                            },
                    decreases end - start - k,
                {
                    self.buf[start + k] = #[verifier::truncate] (((el >> ((8 * k) as u64)) & 0xffu64) as u8);
                    k = k + 1;
                }
                assert(self.buf@ =~= fill_chunk(orig, start as int, el));
                proof {
                    law_fill_chunk_writes_word(orig, start as int, el);
                }
                if len - start > 8 {
                    GetrandomAction::Draw(chunk + 1)
                } else {
                    GetrandomAction::Done(Ok(len))
                }
            },
            None => {
                if (self.flags & GRND_NONBLOCK) != 0 {
                    GetrandomAction::Done(Err(EAGAIN))
                } else if (self.flags & GRND_RANDOM) != 0 {
                    GetrandomAction::Done(Ok(start))
                } else {
                    GetrandomAction::Draw(chunk)
                }
            },
        }
    }
}

/// The path `/proc/self/exe`, nul-terminated.
pub open spec fn proc_self_exe() -> Seq<u8> {
    seq![47u8, 112, 114, 111, 99, 47, 115, 101, 108, 102, 47, 101, 120, 101, 0]
}

/// The path `/init`, nul-terminated.
pub open spec fn init_path() -> Seq<u8> {
    seq![47u8, 105, 110, 105, 116, 0]
}

/// The two paths are the bytes of the strings `/proc/self/exe` and
/// `/init`, each nul-terminated.
pub proof fn law_readlink_paths()
    ensures
        proc_self_exe() == "/proc/self/exe\0".spec_bytes(),
        init_path() == "/init\0".spec_bytes(),
{
    reveal_strlit("/proc/self/exe\0");
    reveal_strlit("/init\0");
    vstd::string::is_ascii_spec_bytes("/proc/self/exe\0");
    vstd::string::is_ascii_spec_bytes("/init\0");
    assert(vstd::string::is_ascii("/proc/self/exe\0"));
    assert(vstd::string::is_ascii("/init\0"));
    assert(proc_self_exe() =~= "/proc/self/exe\0".spec_bytes());
    assert(init_path() =~= "/init\0".spec_bytes());
}

/// Whether `p` is `/proc/self/exe`, nul-terminated.
fn is_proc_self_exe(p: &[u8]) -> (b: bool)
    ensures
        b == (p@ == proc_self_exe()),
{
    let exe: [u8; 15] = [47u8, 112, 114, 111, 99, 47, 115, 101, 108, 102, 47, 101, 120, 101, 0];
    assert(exe@ =~= proc_self_exe());
    if p.len() != 15 {
        return false;
    }
    let mut i: usize = 0;
    while i < 15
        invariant
            i <= 15,
            p@.len() == 15,
            exe@ == proc_self_exe(),
            forall|j: int| 0 <= j < i ==> p@[j] == exe@[j],
        decreases 15 - i,
    {
        if p[i] != exe[i] {
            return false;
        }
        i = i + 1;
    }
    assert(p@ =~= proc_self_exe());
    true
}

/// `readlink(pathname, buf)`.
pub struct Readlink<'a> {
    pub pathname: &'a [u8],
    pub buf: &'a mut [u8],
}

impl<'a> Readlink<'a> {
    /// The running executable is `/init`; no other link exists.
    pub fn collect(self, _col: &Collector) -> (r: Option<Result<c_size_t>>)
        ensures
            self.pathname@ == proc_self_exe() && old(self.buf)@.len() < 6 ==> {
                &&& r == Some(Err::<c_size_t, c_int>(EINVAL))
                &&& final(self.buf)@ == old(self.buf)@
            },
            self.pathname@ == proc_self_exe() && old(self.buf)@.len() >= 6 ==> {
                &&& r == Some(Ok::<c_size_t, c_int>(6))
                &&& final(self.buf)@ == splice(old(self.buf)@, 0, init_path())
            },
            self.pathname@ != proc_self_exe() ==> {
                &&& r == Some(Err::<c_size_t, c_int>(ENOENT))
                &&& final(self.buf)@ == old(self.buf)@
            },
    {
        if is_proc_self_exe(self.pathname) {
            let dest: [u8; 6] = [47u8, 105, 110, 105, 116, 0];
            assert(dest@ =~= init_path());
            let buf = self.buf;
            if buf.len() < dest.len() {
                return Some(Err(EINVAL));
            }
            let ghost orig = buf@;
            let mut i: usize = 0;
            while i < 6
                invariant
                    i <= 6,
                    6 <= orig.len(),
                    dest@ == init_path(),
                    buf@.len() == orig.len(),
                    buf@ == dest@.take(i as int) + orig.skip(i as int),
                decreases 6 - i,
            {
                buf[i] = dest[i];
                i = i + 1;
                assert(buf@ =~= dest@.take(i as int) + orig.skip(i as int));
            }
            assert(buf@ =~= splice(orig, 0, init_path()));
            Some(Ok(6))
        } else {
            Some(Err(ENOENT))
        }
    }
}

/// `rt_sigprocmask(how, set, oldset, sigsetsize)`: signal masks are not
/// kept, and the call succeeds.
pub struct RtSigprocmask<'a> {
    pub how: c_int,
    pub set: Option<&'a sigset_t>,
    pub oldset: Option<&'a mut sigset_t>,
    pub sigsetsize: c_size_t,
}

impl<'a> RtSigprocmask<'a> {
    pub fn collect(self, _col: &Collector) -> (r: Result<()>)
        ensures
            r == Ok::<(), c_int>(()),
            self.oldset matches Some(o) ==> *final(o) == *o,
    {
        Ok(())
    }
}

/// `sigaltstack(ss, old_ss)`: alternate signal stacks are not kept, and the
/// call succeeds.
pub struct Sigaltstack<'a> {
    pub ss: Option<&'a stack_t>,
    pub old_ss: Option<&'a mut stack_t>,
}

impl<'a> Sigaltstack<'a> {
    pub fn collect(self, _col: &Collector) -> (r: Result<()>)
        ensures
            r == Ok::<(), c_int>(()),
            self.old_ss matches Some(o) ==> *final(o) == *o,
    {
        Ok(())
    }
}

/// `set_tid_address(tidptr)`.
pub struct SetTidAddress<'a> {
    pub tidptr: &'a mut c_int,
}

impl<'a> SetTidAddress<'a> {
    pub fn collect(self, _col: &Collector) -> (r: pid_t)
        ensures
            r == FAKE_TID,
            *final(self.tidptr) == *old(self.tidptr),
    {
        FAKE_TID
    }
}

/// A `utsname` field holding `src`: its bytes, cut at the field's length
/// and padded with nul.
pub open spec fn uts_field(src: Seq<u8>) -> Seq<c_char> {
    Seq::new(UTSNAME_LEN as nat, |i: int| if i < src.len() { src[i] as c_char } else { 0 })
}

/// A `utsname` field has 65 entries: the bytes of `src` (cut at 65), then
/// nul up to the end.
pub proof fn law_uts_field(src: Seq<u8>)
    ensures
        uts_field(src).len() == 65,
        forall|i: int| 0 <= i < 65 && i < src.len() ==> #[trigger] uts_field(src)[i] == src[i] as i8,
        forall|i: int| src.len() <= i < 65 ==> #[trigger] uts_field(src)[i] == 0,
{
}

/// Fills one `utsname` field with `with`.
fn fill(buf: &mut [c_char; 65], with: &str)
    ensures
        final(buf)@ == uts_field(with.spec_bytes()),
{
    let src = with.as_bytes();
    let mut i: usize = 0;
    while i < 65
        invariant
            i <= 65,
            src@ == with.spec_bytes(),
            buf@.len() == 65,
            forall|j: int| 0 <= j < i ==> #[trigger] buf@[j] == uts_field(src@)[j],
        decreases 65 - i,
    {
        buf[i] = if i < src.len() {
            #[verifier::truncate] (src[i] as c_char)
        } else {
            0
        };
        i = i + 1;
    }
    assert(buf@ =~= uts_field(src@));
}

/// `uname(buf)`.
pub struct Uname<'a> {
    pub buf: &'a mut utsname,
}

impl<'a> Uname<'a> {
    /// Reports a Linux 5.6.0 x86_64 machine named localhost.localdomain; the
    /// domain name is left as it was.
    pub fn collect(self, _col: &Collector) -> (r: Result<()>)
        ensures
            r == Ok::<(), c_int>(()),
            final(self.buf).sysname@ == uts_field("Linux".spec_bytes()),
            final(self.buf).nodename@ == uts_field("localhost.localdomain".spec_bytes()),
            final(self.buf).release@ == uts_field("5.6.0".spec_bytes()),
            final(self.buf).version@ == uts_field("#1".spec_bytes()),
            final(self.buf).machine@ == uts_field("x86_64".spec_bytes()),
            final(self.buf).domainname == old(self.buf).domainname,
    {
        fill(&mut self.buf.sysname, "Linux");
        fill(&mut self.buf.nodename, "localhost.localdomain");
        fill(&mut self.buf.release, "5.6.0");
        fill(&mut self.buf.version, "#1");
        fill(&mut self.buf.machine, "x86_64");
        Ok(())
    }
}

} // verus!
