//! I/O functionality for keeps.

use vstd::prelude::*;

use wasmtime_wasi::preview1::types::Rights;

verus! {

/// Every right that WASI preview 1 defines: its thirty flags.
pub const ALL_RIGHTS: u64 = 0x3fff_ffff;

/// The right to seek.
pub const RIGHT_FD_SEEK: u64 = 0x4;

/// The right to tell the current offset.
pub const RIGHT_FD_TELL: u64 = 0x20;

/// The bits of `Rights::all()`: wiggle gives each of the thirty flags of
/// `rights` in the preview 1 witx the bit of its position.
#[verifier::external_body]
fn rights_all() -> (r: u64)
    ensures
        r == ALL_RIGHTS,
{
    Rights::all().bits()
}

/// The bits of `Rights::FD_SEEK`, the third flag of `rights`.
#[verifier::external_body]
fn rights_fd_seek() -> (r: u64)
    ensures
        r == RIGHT_FD_SEEK,
{
    Rights::FD_SEEK.bits()
}

/// The bits of `Rights::FD_TELL`, the sixth flag of `rights`.
#[verifier::external_body]
fn rights_fd_tell() -> (r: u64)
    ensures
        r == RIGHT_FD_TELL,
{
    Rights::FD_TELL.bits()
}

/// The bits of `a | b` on `Rights`: bitflags' union ors the bits.
#[verifier::external_body]
fn rights_union(a: u64, b: u64) -> (r: u64)
    ensures
        r == a | b,
{
    (Rights::from_bits_retain(a) | Rights::from_bits_retain(b)).bits()
}

/// The bits of `a.difference(b)` on `Rights`: bitflags keeps the bits of
/// `a` that are not in `b`.
#[verifier::external_body]
fn rights_difference(a: u64, b: u64) -> (r: u64)
    ensures
        r == a & !b,
{
    Rights::from_bits_retain(a).difference(Rights::from_bits_retain(b)).bits()
}

/// The rights a standard stream is handed to the workload with: all of
/// them, except that a terminal can neither seek nor tell (so that wasmtime
/// detects the TTY).
pub fn stdio_rights(isatty: bool) -> (r: u64)
    ensures
        isatty ==> r == ALL_RIGHTS & !(RIGHT_FD_SEEK | RIGHT_FD_TELL),
        !isatty ==> r == ALL_RIGHTS,
        isatty ==> r & RIGHT_FD_SEEK == 0 && r & RIGHT_FD_TELL == 0 && r | RIGHT_FD_SEEK
            | RIGHT_FD_TELL == ALL_RIGHTS,
{
    if isatty {
        let r = rights_difference(rights_all(), rights_union(rights_fd_seek(), rights_fd_tell()));
        assert(r & 0x4u64 == 0 && r & 0x20u64 == 0 && r | 0x4u64 | 0x20u64 == 0x3fff_ffffu64)
            by (bit_vector)
            requires
                r == 0x3fff_ffffu64 & !(0x4u64 | 0x20u64),
        ;
        r
    } else {
        rights_all()
    }
}

} // verus!
