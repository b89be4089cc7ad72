//! Syscall-specific functionality.

use vstd::prelude::*;

pub mod access;
pub mod fstat;
pub mod getcwd;
pub mod lseek;
pub mod pipe2;
pub mod stat;
pub mod stub;
pub mod types;
pub mod unlink;

verus! {

/// The sum of the lengths of the buffers in `iov`.
pub open spec fn iov_total(iov: Seq<&[u8]>) -> nat
    decreases iov.len(),
{
    if iov.len() == 0 {
        0
    } else {
        iov_total(iov.drop_last()) + iov.last()@.len()
    }
}

/// A prefix of the buffers never holds more than all of them.
proof fn lemma_iov_total_prefix(iov: Seq<&[u8]>, i: int)
    requires
        0 <= i <= iov.len(),
    ensures
        iov_total(iov.take(i)) <= iov_total(iov),
    decreases iov.len(),
{
    if i < iov.len() {
        assert(iov.take(i) =~= iov.drop_last().take(i));
        lemma_iov_total_prefix(iov.drop_last(), i);
    } else {
        assert(iov.take(i) =~= iov);
    }
}

/// The length of two runs of buffers together is the sum of their lengths.
pub proof fn law_iov_total_concat(a: Seq<&[u8]>, b: Seq<&[u8]>)
    ensures
        iov_total(a + b) == iov_total(a) + iov_total(b),
    decreases b.len(),
{
    if b.len() == 0 {
        assert(a + b =~= a);
    } else {
        assert((a + b).drop_last() =~= a + b.drop_last());
        law_iov_total_concat(a, b.drop_last());
    }
}

/// A single buffer counts its own length; no buffers count nothing.
pub proof fn law_iov_total_single(b: &[u8])
    ensures
        iov_total(seq![b]) == b@.len(),
        iov_total(Seq::<&[u8]>::empty()) == 0,
{
    assert(seq![b].drop_last() =~= Seq::<&[u8]>::empty());
    assert(seq![b].last() == b);
    assert(iov_total(seq![b].drop_last()) == 0);
}

/// Computes the sum of length of all `iovec` elements in a `iov`.
pub fn iov_len(iov: &[&[u8]]) -> (r: usize)
    requires
        iov_total(iov@) <= usize::MAX,
    ensures
        r == iov_total(iov@),
{
    let mut sum: usize = 0;
    let mut i: usize = 0;
    while i < iov.len()
        invariant
            i <= iov@.len(),
            iov_total(iov@) <= usize::MAX,
            sum == iov_total(iov@.take(i as int)),
        decreases iov@.len() - i,
    {
        proof {
            assert(iov@.take(i + 1).drop_last() =~= iov@.take(i as int));
            lemma_iov_total_prefix(iov@, i + 1);
        }
        sum = sum + iov[i].len();
        i = i + 1;
    }
    assert(iov@.take(i as int) =~= iov@);
    sum
}

} // verus!
