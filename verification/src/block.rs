//! The shared block through which a guest hands system calls to the host:
//! an allocator that stages inputs and reserves outputs, and a collector
//! that reads back what the host wrote.

use vstd::prelude::*;

use crate::libc::{c_int, stat, ENOMEM, STAT_ALIGN, STAT_SIZE};
use crate::Result;

verus! {

/// `x` rounded up to the next multiple of `a`.
pub open spec fn align_up(x: nat, a: nat) -> nat {
    if x % a == 0 {
        x
    } else {
        (x + (a - x % a)) as nat
    }
}

/// `s` with the bytes from `off` on replaced by `d`.
pub open spec fn splice(s: Seq<u8>, off: int, d: Seq<u8>) -> Seq<u8> {
    s.take(off) + d + s.skip(off + d.len())
}

/// The little-endian `u64` at byte `i` of `s`.
pub open spec fn le_u64(s: Seq<u8>, i: int) -> u64 {
    (s[i] as u64) | ((s[i + 1] as u64) << 8u64) | ((s[i + 2] as u64) << 16u64) | ((s[i + 3] as u64)
        << 24u64) | ((s[i + 4] as u64) << 32u64) | ((s[i + 5] as u64) << 40u64) | ((s[i + 6] as u64)
        << 48u64) | ((s[i + 7] as u64) << 56u64)
}

/// The little-endian `u32` at byte `i` of `s`.
pub open spec fn le_u32(s: Seq<u8>, i: int) -> u32 {
    (s[i] as u32) | ((s[i + 1] as u32) << 8u32) | ((s[i + 2] as u32) << 16u32) | ((s[i + 3] as u32)
        << 24u32)
}

/// The `struct stat` that the host left at byte `off` of the block.
pub open spec fn stat_at(s: Seq<u8>, off: int) -> stat {
    stat {
        st_dev: le_u64(s, off),
        st_ino: le_u64(s, off + 8),
        st_nlink: le_u64(s, off + 16),
        st_mode: le_u32(s, off + 24),
        st_uid: le_u32(s, off + 28),
        st_gid: le_u32(s, off + 32),
        __pad0: le_u32(s, off + 36) as i32,
        st_rdev: le_u64(s, off + 40),
        st_size: le_u64(s, off + 48) as i64,
        st_blksize: le_u64(s, off + 56) as i64,
        st_blocks: le_u64(s, off + 64) as i64,
        st_atime: le_u64(s, off + 72) as i64,
        st_atime_nsec: le_u64(s, off + 80) as i64,
        st_mtime: le_u64(s, off + 88) as i64,
        st_mtime_nsec: le_u64(s, off + 96) as i64,
        st_ctime: le_u64(s, off + 104) as i64,
        st_ctime_nsec: le_u64(s, off + 112) as i64,
        __unused: [
            le_u64(s, off + 120) as i64,
            le_u64(s, off + 128) as i64,
            le_u64(s, off + 136) as i64,
        ],
    }
}

/// The two file descriptors that the host left at byte `off` of the block.
pub open spec fn fds_at(s: Seq<u8>, off: int) -> [c_int; 2] {
    [le_u32(s, off) as i32, le_u32(s, off + 4) as i32]
}

/// The eight bytes of `x`, least significant first.
pub open spec fn u64_bytes(x: u64) -> Seq<u8> {
    seq![
        (x & 0xff) as u8,
        ((x >> 8u64) & 0xff) as u8,
        ((x >> 16u64) & 0xff) as u8,
        ((x >> 24u64) & 0xff) as u8,
        ((x >> 32u64) & 0xff) as u8,
        ((x >> 40u64) & 0xff) as u8,
        ((x >> 48u64) & 0xff) as u8,
        ((x >> 56u64) & 0xff) as u8,
    ]
}

/// The four bytes of `x`, least significant first.
pub open spec fn u32_bytes(x: u32) -> Seq<u8> {
    seq![
        (x & 0xff) as u8,
        ((x >> 8u32) & 0xff) as u8,
        ((x >> 16u32) & 0xff) as u8,
        ((x >> 24u32) & 0xff) as u8,
    ]
}

/// `s` holds `st` at byte `off` as the x86_64 kernel lays out
/// `struct stat`: each field little-endian at its offset.
pub open spec fn stat_encoded_at(s: Seq<u8>, off: int, st: stat) -> bool {
    &&& 0 <= off
    &&& off + 144 <= s.len()
    &&& s.subrange(off, off + 8) == u64_bytes(st.st_dev)
    &&& s.subrange(off + 8, off + 16) == u64_bytes(st.st_ino)
    &&& s.subrange(off + 16, off + 24) == u64_bytes(st.st_nlink)
    &&& s.subrange(off + 24, off + 28) == u32_bytes(st.st_mode)
    &&& s.subrange(off + 28, off + 32) == u32_bytes(st.st_uid)
    &&& s.subrange(off + 32, off + 36) == u32_bytes(st.st_gid)
    &&& s.subrange(off + 36, off + 40) == u32_bytes(st.__pad0 as u32)
    &&& s.subrange(off + 40, off + 48) == u64_bytes(st.st_rdev)
    &&& s.subrange(off + 48, off + 56) == u64_bytes(st.st_size as u64)
    &&& s.subrange(off + 56, off + 64) == u64_bytes(st.st_blksize as u64)
    &&& s.subrange(off + 64, off + 72) == u64_bytes(st.st_blocks as u64)
    &&& s.subrange(off + 72, off + 80) == u64_bytes(st.st_atime as u64)
    &&& s.subrange(off + 80, off + 88) == u64_bytes(st.st_atime_nsec as u64)
    &&& s.subrange(off + 88, off + 96) == u64_bytes(st.st_mtime as u64)
    &&& s.subrange(off + 96, off + 104) == u64_bytes(st.st_mtime_nsec as u64)
    &&& s.subrange(off + 104, off + 112) == u64_bytes(st.st_ctime as u64)
    &&& s.subrange(off + 112, off + 120) == u64_bytes(st.st_ctime_nsec as u64)
    &&& s.subrange(off + 120, off + 128) == u64_bytes(st.__unused[0] as u64)
    &&& s.subrange(off + 128, off + 136) == u64_bytes(st.__unused[1] as u64)
    &&& s.subrange(off + 136, off + 144) == u64_bytes(st.__unused[2] as u64)
}

/// Eight bytes that hold `x` little-endian read back as `x`.
pub proof fn lemma_read_u64_bytes(s: Seq<u8>, i: int, x: u64)
    requires
        0 <= i,
        i + 8 <= s.len(),
        s.subrange(i, i + 8) == u64_bytes(x),
    ensures
        le_u64(s, i) == x,
{
    let t = s.subrange(i, i + 8);
    assert(s[i] == t[0] && s[i + 1] == t[1] && s[i + 2] == t[2] && s[i + 3] == t[3]);
    assert(s[i + 4] == t[4] && s[i + 5] == t[5] && s[i + 6] == t[6] && s[i + 7] == t[7]);
    let (b0, b1, b2, b3, b4, b5, b6, b7) = (s[i], s[i + 1], s[i + 2], s[i + 3], s[i + 4], s[i
        + 5], s[i + 6], s[i + 7]);
    assert((b0 as u64) | ((b1 as u64) << 8u64) | ((b2 as u64) << 16u64) | ((b3 as u64) << 24u64)
        | ((b4 as u64) << 32u64) | ((b5 as u64) << 40u64) | ((b6 as u64) << 48u64) | ((b7 as u64)
        << 56u64) == x) by (bit_vector)
        requires
            b0 == (x & 0xff) as u8,
            b1 == ((x >> 8u64) & 0xff) as u8,
            b2 == ((x >> 16u64) & 0xff) as u8,
            b3 == ((x >> 24u64) & 0xff) as u8,
            b4 == ((x >> 32u64) & 0xff) as u8,
            b5 == ((x >> 40u64) & 0xff) as u8,
            b6 == ((x >> 48u64) & 0xff) as u8,
            b7 == ((x >> 56u64) & 0xff) as u8,
    ;
}

/// Four bytes that hold `x` little-endian read back as `x`.
proof fn lemma_read_u32_bytes(s: Seq<u8>, i: int, x: u32)
    requires
        0 <= i,
        i + 4 <= s.len(),
        s.subrange(i, i + 4) == u32_bytes(x),
    ensures
        le_u32(s, i) == x,
{
    let t = s.subrange(i, i + 4);
    assert(s[i] == t[0] && s[i + 1] == t[1] && s[i + 2] == t[2] && s[i + 3] == t[3]);
    let (b0, b1, b2, b3) = (s[i], s[i + 1], s[i + 2], s[i + 3]);
    assert((b0 as u32) | ((b1 as u32) << 8u32) | ((b2 as u32) << 16u32) | ((b3 as u32) << 24u32)
        == x) by (bit_vector)
        requires
            b0 == (x & 0xff) as u8,
            b1 == ((x >> 8u32) & 0xff) as u8,
            b2 == ((x >> 16u32) & 0xff) as u8,
            b3 == ((x >> 24u32) & 0xff) as u8,
    ;
}

/// Eight bytes that hold the bits of `x` little-endian read back as `x`.
proof fn lemma_read_i64_bytes(s: Seq<u8>, i: int, x: i64)
    requires
        0 <= i,
        i + 8 <= s.len(),
        s.subrange(i, i + 8) == u64_bytes(x as u64),
    ensures
        le_u64(s, i) as i64 == x,
{
    lemma_read_u64_bytes(s, i, x as u64);
    assert((x as u64) as i64 == x) by (bit_vector);
}

/// Decoding a `struct stat` is the inverse of the x86_64 kernel layout:
/// whatever `struct stat` the host laid out at `off`, collecting it there
/// gives it back, field for field (the owner from bytes 28..32, the group
/// from 32..36, and so on).
pub proof fn law_stat_decodes_kernel_layout(s: Seq<u8>, off: int, st: stat)
    requires
        stat_encoded_at(s, off, st),
    ensures
        stat_at(s, off) == st,
{
    lemma_read_u64_bytes(s, off, st.st_dev);
    lemma_read_u64_bytes(s, off + 8, st.st_ino);
    lemma_read_u64_bytes(s, off + 16, st.st_nlink);
    lemma_read_u32_bytes(s, off + 24, st.st_mode);
    lemma_read_u32_bytes(s, off + 28, st.st_uid);
    lemma_read_u32_bytes(s, off + 32, st.st_gid);
    lemma_read_u32_bytes(s, off + 36, st.__pad0 as u32);
    let pad = st.__pad0;
    assert((pad as u32) as i32 == pad) by (bit_vector);
    lemma_read_u64_bytes(s, off + 40, st.st_rdev);
    lemma_read_i64_bytes(s, off + 48, st.st_size);
    lemma_read_i64_bytes(s, off + 56, st.st_blksize);
    lemma_read_i64_bytes(s, off + 64, st.st_blocks);
    lemma_read_i64_bytes(s, off + 72, st.st_atime);
    lemma_read_i64_bytes(s, off + 80, st.st_atime_nsec);
    lemma_read_i64_bytes(s, off + 88, st.st_mtime);
    lemma_read_i64_bytes(s, off + 96, st.st_mtime_nsec);
    lemma_read_i64_bytes(s, off + 104, st.st_ctime);
    lemma_read_i64_bytes(s, off + 112, st.st_ctime_nsec);
    lemma_read_i64_bytes(s, off + 120, st.__unused[0]);
    lemma_read_i64_bytes(s, off + 128, st.__unused[1]);
    lemma_read_i64_bytes(s, off + 136, st.__unused[2]);
    assert(stat_at(s, off).__unused =~= st.__unused);
}

/// Decoding the two descriptors is the inverse of their layout: whatever
/// pair the host wrote little-endian at `off` and `off + 4`, collecting it
/// gives back the first from `off` and the second from `off + 4`, at every
/// offset.
pub proof fn law_fds_decode_layout(s: Seq<u8>, off: int, a: c_int, b: c_int)
    requires
        0 <= off,
        off + 8 <= s.len(),
        s.subrange(off, off + 4) == u32_bytes(a as u32),
        s.subrange(off + 4, off + 8) == u32_bytes(b as u32),
    ensures
        fds_at(s, off)[0] == a,
        fds_at(s, off)[1] == b,
{
    lemma_read_u32_bytes(s, off, a as u32);
    lemma_read_u32_bytes(s, off + 4, b as u32);
    assert((a as u32) as i32 == a) by (bit_vector);
    assert((b as u32) as i32 == b) by (bit_vector);
}

/// Staging `data` as `i` copied it into `before` right behind what was
/// handed out, and handed those bytes out.
pub open spec fn input_staged(
    before: BlockAllocator,
    after: BlockAllocator,
    data: Seq<u8>,
    i: Input,
) -> bool {
    &&& i.offset() == before.used()
    &&& i.len() == data.len()
    &&& after.used() == before.used() + data.len()
    &&& after.bytes() == splice(before.bytes(), before.used() as int, data)
}

/// Nothing was handed out and nothing written.
pub open spec fn untouched(before: BlockAllocator, after: BlockAllocator) -> bool {
    &&& after.used() == before.used()
    &&& after.bytes() == before.bytes()
}

/// What is read back at `off` after a splice there is what was spliced in;
/// the bytes in front of it and the length stay as they were.
pub proof fn lemma_splice(s: Seq<u8>, off: int, d: Seq<u8>)
    requires
        0 <= off,
        off + d.len() <= s.len(),
    ensures
        splice(s, off, d).len() == s.len(),
        splice(s, off, d).subrange(off, off + d.len()) == d,
        splice(s, off, d).take(off) == s.take(off),
        splice(s, off, d).skip(off + d.len()) == s.skip(off + d.len()),
{
    assert(splice(s, off, d).subrange(off, off + d.len()) =~= d);
    assert(splice(s, off, d).take(off) =~= s.take(off));
    assert(splice(s, off, d).skip(off + d.len()) =~= s.skip(off + d.len()));
}

/// Rounding up to a multiple of `a` lands on a multiple of `a`, at or
/// behind `x` and less than `a` past it: aligned regions never reach back
/// into what was handed out before.
pub proof fn law_align_up(x: nat, a: nat)
    requires
        a > 0,
    ensures
        x <= align_up(x, a) < x + a,
        align_up(x, a) % a == 0,
{
    assert(align_up(x, a) % a == 0) by (nonlinear_arith)
        requires
            a > 0,
    {
        if x % a != 0 {
            assert(x == (x / a) * a + x % a);
            assert(align_up(x, a) == (x / a + 1) * a);
        }
    }
}

/// Two regions handed out one after the other never overlap: the second
/// starts at or behind the end of the first.
pub proof fn law_successive_regions_disjoint(used: nat, size1: nat, align1: nat, align2: nat)
    requires
        align1 > 0,
        align2 > 0,
    ensures
        used <= align_up(used, align1),
        align_up(used, align1) + size1 <= align_up(align_up(used, align1) + size1, align2),
{
    law_align_up(used, align1);
    law_align_up(align_up(used, align1) + size1, align2);
}

/// What the host reads at a staged input's offset and length is the data
/// that was staged, and every byte handed out before it is as it was.
pub proof fn law_input_reads_back(
    before: BlockAllocator,
    after: BlockAllocator,
    data: Seq<u8>,
    i: Input,
)
    requires
        before.wf(),
        input_staged(before, after, data, i),
        before.used() + data.len() <= before.bytes().len(),
    ensures
        after.bytes().len() == before.bytes().len(),
        after.bytes().subrange(i.offset() as int, i.offset() + i.len()) == data,
        after.bytes().take(before.used() as int) == before.bytes().take(before.used() as int),
{
    lemma_splice(before.bytes(), before.used() as int, data);
}

/// A bump allocator over the shared block: everything below `used` has been
/// handed out, in order of the calls.
pub struct BlockAllocator {
    block: Vec<u8>,
    used: usize,
}

impl BlockAllocator {
    pub closed spec fn wf(&self) -> bool {
        self.used <= self.block@.len()
    }

    /// The contents of the block.
    pub closed spec fn bytes(&self) -> Seq<u8> {
        self.block@
    }

    /// How many bytes from the start of the block have been handed out.
    pub closed spec fn used(&self) -> nat {
        self.used as nat
    }

    /// A zeroed block of `size` bytes with nothing handed out.
    pub fn new(size: usize) -> (r: Self)
        ensures
            r.wf(),
            r.bytes() == Seq::new(size as nat, |_i: int| 0u8),
            r.used() == 0,
    {
        let mut block: Vec<u8> = Vec::new();
        let mut i: usize = 0;
        while i < size
            invariant
                i <= size,
                block@ == Seq::new(i as nat, |_i: int| 0u8),
            decreases size - i,
        {
            block.push(0u8);
            i = i + 1;
        }
        BlockAllocator { block, used: 0 }
    }

    /// Size of the block in bytes.
    pub fn capacity(&self) -> (r: usize)
        ensures
            r == self.bytes().len(),
    {
        self.block.len()
    }

    /// Bytes handed out so far.
    pub fn used_len(&self) -> (r: usize)
        ensures
            r == self.used(),
    {
        self.used
    }

    /// The block, as the host receives it.
    pub fn into_bytes(self) -> (r: Vec<u8>)
        ensures
            r@ == self.bytes(),
    {
        self.block
    }

    /// Reserves `size` bytes aligned to `align`; fails with `ENOMEM` when
    /// they do not fit behind what was handed out before.
    pub fn allocate(&mut self, size: usize, align: usize) -> (r: Result<usize>)
        requires
            old(self).wf(),
            align > 0,
        ensures
            final(self).wf(),
            final(self).bytes() == old(self).bytes(),
            r is Ok <==> align_up(old(self).used(), align as nat) + size <= old(self).bytes().len(),
            r matches Ok(off) ==> {
                &&& off == align_up(old(self).used(), align as nat)
                &&& (off as int) % (align as int) == 0
                &&& final(self).used() == off + size
            },
            r matches Err(e) ==> e == ENOMEM && final(self).used() == old(self).used(),
    {
        let rem = self.used % align;
        let pad = if rem == 0 {
            0
        } else {
            align - rem
        };
        let room = self.block.len() - self.used;
        if pad > room || size > room - pad {
            return Err(ENOMEM);
        }
        let off = self.used + pad;
        assert((off as int) % (align as int) == 0) by (nonlinear_arith)
            requires
                align > 0,
                rem == self.used % align,
                pad == (if rem == 0 { 0 } else { align - rem }),
                off == self.used + pad,
        {
            if rem != 0 {
                assert(self.used == (self.used / align) * align + rem);
                assert(off == (self.used / align + 1) * align);
            }
        }
        self.used = off + size;
        Ok(off)
    }

    /// Copies `data` into the block at `off`.
    fn write_at(&mut self, off: usize, data: &[u8])
        requires
            old(self).wf(),
            off + data@.len() <= old(self).bytes().len(),
        ensures
            final(self).wf(),
            final(self).used() == old(self).used(),
            final(self).bytes() == splice(old(self).bytes(), off as int, data@),
    {
        let ghost orig = self.block@;
        let _n = self.block.len();
        let mut i: usize = 0;
        while i < data.len()
            invariant
                i <= data@.len(),
                off + data@.len() <= orig.len(),
                orig.len() <= usize::MAX,
                self.used == old(self).used,
                self.block@.len() == orig.len(),
                self.block@ == orig.take(off as int) + data@.take(i as int) + orig.skip(off + i),
            decreases data@.len() - i,
        {
            self.block.set(off + i, data[i]);
            i = i + 1;
            assert(self.block@ =~= orig.take(off as int) + data@.take(i as int) + orig.skip(
                off + i,
            ));
        }
        assert(data@.take(i as int) =~= data@);
    }
}

/// A region of the block that holds a staged input for the host to read.
pub struct Input {
    offset: usize,
    len: usize,
}

impl Input {
    pub closed spec fn spec_offset(&self) -> usize {
        self.offset
    }

    pub closed spec fn spec_len(&self) -> usize {
        self.len
    }

    /// Where in the block the input starts.
    #[verifier::when_used_as_spec(spec_offset)]
    pub fn offset(&self) -> (r: usize)
        ensures
            r == self.spec_offset(),
    {
        self.offset
    }

    /// How many bytes the input holds.
    #[verifier::when_used_as_spec(spec_len)]
    pub fn len(&self) -> (r: usize)
        ensures
            r == self.spec_len(),
    {
        self.len
    }

    /// Copies `data` into the block behind what was handed out before.
    pub fn stage_slice(alloc: &mut BlockAllocator, data: &[u8]) -> (r: Result<Input>)
        requires
            old(alloc).wf(),
        ensures
            final(alloc).wf(),
            r is Ok <==> old(alloc).used() + data@.len() <= old(alloc).bytes().len(),
            r matches Ok(i) ==> {
                &&& i.offset() == old(alloc).used()
                &&& i.len() == data@.len()
                &&& final(alloc).used() == old(alloc).used() + data@.len()
                &&& final(alloc).bytes() == splice(old(alloc).bytes(), i.offset() as int, data@)
            },
            r matches Err(e) ==> {
                &&& e == ENOMEM
                &&& final(alloc).used() == old(alloc).used()
                &&& final(alloc).bytes() == old(alloc).bytes()
            },
    {
        let off = alloc.allocate(data.len(), 1)?;
        alloc.write_at(off, data);
        Ok(Input { offset: off, len: data.len() })
    }
}

/// A region of the block reserved for the host to write an output into.
pub struct Output {
    offset: usize,
    len: usize,
}

impl Output {
    pub closed spec fn spec_offset(&self) -> usize {
        self.offset
    }

    pub closed spec fn spec_len(&self) -> usize {
        self.len
    }

    /// Where in the block the output starts.
    #[verifier::when_used_as_spec(spec_offset)]
    pub fn offset(&self) -> (r: usize)
        ensures
            r == self.spec_offset(),
    {
        self.offset
    }

    /// How many bytes are reserved for the output.
    #[verifier::when_used_as_spec(spec_len)]
    pub fn len(&self) -> (r: usize)
        ensures
            r == self.spec_len(),
    {
        self.len
    }

    /// Reserves `size` bytes aligned to `align`.
    pub fn stage(alloc: &mut BlockAllocator, size: usize, align: usize) -> (r: Result<Output>)
        requires
            old(alloc).wf(),
            align > 0,
        ensures
            final(alloc).wf(),
            final(alloc).bytes() == old(alloc).bytes(),
            r is Ok <==> align_up(old(alloc).used(), align as nat) + size <= old(alloc).bytes().len(),
            r matches Ok(o) ==> {
                &&& o.offset() == align_up(old(alloc).used(), align as nat)
                &&& (o.offset() as int) % (align as int) == 0
                &&& o.len() == size
                &&& final(alloc).used() == o.offset() + size
            },
            r matches Err(e) ==> e == ENOMEM && final(alloc).used() == old(alloc).used(),
    {
        let off = alloc.allocate(size, align)?;
        Ok(Output { offset: off, len: size })
    }

    /// Reserves as many bytes as remain in the block, up to `max`; fails
    /// with `ENOMEM` only when `max` is positive and nothing remains.
    pub fn stage_slice_max(alloc: &mut BlockAllocator, max: usize) -> (r: Result<Output>)
        requires
            old(alloc).wf(),
        ensures
            final(alloc).wf(),
            final(alloc).bytes() == old(alloc).bytes(),
            r is Err <==> max > 0 && old(alloc).used() == old(alloc).bytes().len(),
            r matches Ok(o) ==> {
                &&& o.offset() == old(alloc).used()
                &&& o.len() == if max <= old(alloc).bytes().len() - old(alloc).used() {
                    max as int
                } else {
                    old(alloc).bytes().len() - old(alloc).used()
                }
                &&& final(alloc).used() == o.offset() + o.len()
            },
            r matches Err(e) ==> e == ENOMEM && final(alloc).used() == old(alloc).used(),
    {
        let room = alloc.capacity() - alloc.used_len();
        if max > 0 && room == 0 {
            return Err(ENOMEM);
        }
        let len = if max <= room {
            max
        } else {
            room
        };
        let off = alloc.allocate(len, 1)?;
        Ok(Output { offset: off, len })
    }
}

/// Read access to the block after the host has answered.
pub struct Collector {
    block: Vec<u8>,
}

impl Collector {
    /// The contents of the block.
    pub closed spec fn bytes(&self) -> Seq<u8> {
        self.block@
    }

    /// Wraps the block that came back from the host.
    pub fn new(block: Vec<u8>) -> (r: Collector)
        ensures
            r.bytes() == block@,
    {
        Collector { block }
    }

    /// The little-endian `u64` at byte `i`.
    pub fn read_u64(&self, i: usize) -> (r: u64)
        requires
            i + 8 <= self.bytes().len(),
        ensures
            r == le_u64(self.bytes(), i as int),
    {
        let b = &self.block;
        let _n = b.len();
        (b[i] as u64) | ((b[i + 1] as u64) << 8u64) | ((b[i + 2] as u64) << 16u64) | ((b[i
            + 3] as u64) << 24u64) | ((b[i + 4] as u64) << 32u64) | ((b[i + 5] as u64) << 40u64)
            | ((b[i + 6] as u64) << 48u64) | ((b[i + 7] as u64) << 56u64)
    }

    /// The little-endian `u32` at byte `i`.
    pub fn read_u32(&self, i: usize) -> (r: u32)
        requires
            i + 4 <= self.bytes().len(),
        ensures
            r == le_u32(self.bytes(), i as int),
    {
        let b = &self.block;
        let _n = b.len();
        (b[i] as u32) | ((b[i + 1] as u32) << 8u32) | ((b[i + 2] as u32) << 16u32) | ((b[i
            + 3] as u32) << 24u32)
    }

    /// The byte at `i`.
    pub fn read_u8(&self, i: usize) -> (r: u8)
        requires
            i < self.bytes().len(),
        ensures
            r == self.bytes()[i as int],
    {
        self.block[i]
    }

    /// The `struct stat` at byte `off`.
    pub fn read_stat(&self, off: usize) -> (r: stat)
        requires
            off + STAT_SIZE <= self.bytes().len(),
        ensures
            r == stat_at(self.bytes(), off as int),
    {
        let _n = self.block.len();
        stat {
            st_dev: self.read_u64(off),
            st_ino: self.read_u64(off + 8),
            st_nlink: self.read_u64(off + 16),
            st_mode: self.read_u32(off + 24),
            st_uid: self.read_u32(off + 28),
            st_gid: self.read_u32(off + 32),
            __pad0: #[verifier::truncate] (self.read_u32(off + 36) as i32),
            st_rdev: self.read_u64(off + 40),
            st_size: #[verifier::truncate] (self.read_u64(off + 48) as i64),
            st_blksize: #[verifier::truncate] (self.read_u64(off + 56) as i64),
            st_blocks: #[verifier::truncate] (self.read_u64(off + 64) as i64),
            st_atime: #[verifier::truncate] (self.read_u64(off + 72) as i64),
            st_atime_nsec: #[verifier::truncate] (self.read_u64(off + 80) as i64),
            st_mtime: #[verifier::truncate] (self.read_u64(off + 88) as i64),
            st_mtime_nsec: #[verifier::truncate] (self.read_u64(off + 96) as i64),
            st_ctime: #[verifier::truncate] (self.read_u64(off + 104) as i64),
            st_ctime_nsec: #[verifier::truncate] (self.read_u64(off + 112) as i64),
            __unused: [
                #[verifier::truncate] (self.read_u64(off + 120) as i64),
                #[verifier::truncate] (self.read_u64(off + 128) as i64),
                #[verifier::truncate] (self.read_u64(off + 136) as i64),
            ],
        }
    }
}

/// A byte buffer of the caller's that an output region is collected into.
pub struct BytesOutput<'a> {
    region: Output,
    dst: &'a mut [u8],
}

impl<'a> BytesOutput<'a> {
    pub closed spec fn region(&self) -> Output {
        self.region
    }

    pub closed spec fn dst(&self) -> &'a mut [u8] {
        self.dst
    }

    /// Where in the block the region starts.
    pub fn offset(&self) -> (r: usize)
        ensures
            r == self.region().offset(),
    {
        self.region.offset
    }

    /// How many bytes the region holds.
    pub fn len(&self) -> (r: usize)
        ensures
            r == self.region().len(),
    {
        self.region.len
    }

    /// Reserves room for as much of `dst` as the block can hold.
    pub fn stage_slice_max(alloc: &mut BlockAllocator, dst: &'a mut [u8]) -> (r: Result<BytesOutput<'a>>)
        requires
            old(alloc).wf(),
        ensures
            final(alloc).wf(),
            final(alloc).bytes() == old(alloc).bytes(),
            r is Err <==> old(dst)@.len() > 0 && old(alloc).used() == old(alloc).bytes().len(),
            r matches Ok(o) ==> {
                &&& o.region().offset() == old(alloc).used()
                &&& o.region().len() == if old(dst)@.len() <= old(alloc).bytes().len() - old(alloc).used() {
                    old(dst)@.len() as int
                } else {
                    old(alloc).bytes().len() - old(alloc).used()
                }
                &&& final(alloc).used() == o.region().offset() + o.region().len()
                &&& o.dst()@ == old(dst)@
                &&& final(o.dst())@ == final(dst)@
            },
            r matches Err(e) ==> e == ENOMEM && final(alloc).used() == old(alloc).used() && final(dst)@ == old(dst)@,
    {
        let region = Output::stage_slice_max(alloc, dst.len())?;
        Ok(BytesOutput { region, dst })
    }

    /// Gives the caller's buffer back untouched.
    pub fn discard(self)
        ensures
            final(self.dst())@ == self.dst()@,
    {
        let _dst = self.dst;
    }

    /// Copies the first `n` bytes that the host wrote into the front of the
    /// caller's buffer.
    pub fn collect_range(self, col: &Collector, n: usize)
        requires
            n <= self.region().len(),
            self.region().offset() + self.region().len() <= col.bytes().len(),
            self.region().len() <= self.dst()@.len(),
        ensures
            final(self.dst())@ == splice(
                self.dst()@,
                0,
                col.bytes().subrange(
                    self.region().offset() as int,
                    self.region().offset() + n,
                ),
            ),
    {
        let off = self.region.offset;
        let dst = self.dst;
        let ghost orig = dst@;
        let _n = col.block.len();
        let mut i: usize = 0;
        while i < n
            invariant
                i <= n,
                n <= orig.len(),
                off + n <= col.bytes().len(),
                col.bytes().len() <= usize::MAX,
                dst@.len() == orig.len(),
                dst@ == col.bytes().subrange(off as int, off + i) + orig.skip(i as int),
            decreases n - i,
        {
            dst[i] = col.read_u8(off + i);
            i = i + 1;
            assert(dst@ =~= col.bytes().subrange(off as int, off + i) + orig.skip(i as int));
        }
        assert(orig.take(0) + col.bytes().subrange(off as int, off + n) + orig.skip(n as int)
            =~= dst@);
    }
}

/// A caller's `struct stat` that an output region is collected into.
pub struct StatOutput<'a> {
    region: Output,
    dst: &'a mut stat,
}

impl<'a> StatOutput<'a> {
    pub closed spec fn region(&self) -> Output {
        self.region
    }

    /// Where in the block the region starts.
    pub fn offset(&self) -> (r: usize)
        ensures
            r == self.region().offset(),
    {
        self.region.offset
    }

    pub closed spec fn dst(&self) -> &'a mut stat {
        self.dst
    }

    /// Reserves room for one `struct stat`.
    pub fn stage(alloc: &mut BlockAllocator, dst: &'a mut stat) -> (r: Result<StatOutput<'a>>)
        requires
            old(alloc).wf(),
        ensures
            final(alloc).wf(),
            final(alloc).bytes() == old(alloc).bytes(),
            r is Ok <==> align_up(old(alloc).used(), STAT_ALIGN as nat) + STAT_SIZE
                <= old(alloc).bytes().len(),
            r matches Ok(o) ==> {
                &&& o.region().offset() == align_up(old(alloc).used(), STAT_ALIGN as nat)
                &&& o.region().len() == STAT_SIZE
                &&& final(alloc).used() == o.region().offset() + STAT_SIZE
                &&& *o.dst() == *old(dst)
                &&& *final(o.dst()) == *final(dst)
            },
            r matches Err(e) ==> e == ENOMEM && final(alloc).used() == old(alloc).used() && *final(dst) == *old(dst),
    {
        let region = Output::stage(alloc, STAT_SIZE, STAT_ALIGN)?;
        Ok(StatOutput { region, dst })
    }

    /// Gives the caller's value back untouched.
    pub fn discard(self)
        ensures
            *final(self.dst()) == *self.dst(),
    {
        let _dst = self.dst;
    }

    /// Copies the `struct stat` that the host wrote into the caller's.
    pub fn collect(self, col: &Collector)
        requires
            self.region().len() == STAT_SIZE,
            self.region().offset() + STAT_SIZE <= col.bytes().len(),
        ensures
            *final(self.dst()) == stat_at(col.bytes(), self.region().offset() as int),
    {
        *self.dst = col.read_stat(self.region.offset);
    }
}

/// A caller's pair of descriptors that an output region is collected into.
pub struct FdsOutput<'a> {
    region: Output,
    dst: &'a mut [c_int; 2],
}

impl<'a> FdsOutput<'a> {
    pub closed spec fn region(&self) -> Output {
        self.region
    }

    /// Where in the block the region starts.
    pub fn offset(&self) -> (r: usize)
        ensures
            r == self.region().offset(),
    {
        self.region.offset
    }

    pub closed spec fn dst(&self) -> &'a mut [c_int; 2] {
        self.dst
    }

    /// Reserves room for two `c_int`.
    pub fn stage(alloc: &mut BlockAllocator, dst: &'a mut [c_int; 2]) -> (r: Result<FdsOutput<'a>>)
        requires
            old(alloc).wf(),
        ensures
            final(alloc).wf(),
            final(alloc).bytes() == old(alloc).bytes(),
            r is Ok <==> align_up(old(alloc).used(), 4) + 8 <= old(alloc).bytes().len(),
            r matches Ok(o) ==> {
                &&& o.region().offset() == align_up(old(alloc).used(), 4)
                &&& o.region().len() == 8
                &&& final(alloc).used() == o.region().offset() + 8
                &&& *o.dst() == *old(dst)
                &&& *final(o.dst()) == *final(dst)
            },
            r matches Err(e) ==> e == ENOMEM && final(alloc).used() == old(alloc).used() && *final(dst) == *old(dst),
    {
        let region = Output::stage(alloc, 8, 4)?;
        Ok(FdsOutput { region, dst })
    }

    /// Gives the caller's value back untouched.
    pub fn discard(self)
        ensures
            *final(self.dst()) == *self.dst(),
    {
        let _dst = self.dst;
    }

    /// Copies the two descriptors that the host wrote into the caller's.
    pub fn collect(self, col: &Collector)
        requires
            self.region().len() == 8,
            self.region().offset() + 8 <= col.bytes().len(),
        ensures
            *final(self.dst()) == fds_at(col.bytes(), self.region().offset() as int),
    {
        let off = self.region.offset;
        let _n = col.block.len();
        *self.dst = [#[verifier::truncate] (col.read_u32(off) as i32), #[verifier::truncate] (col.read_u32(off + 4) as i32)];
    }
}

} // verus!
