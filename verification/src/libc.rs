//! The Linux x86_64 ABI that the staged system calls speak: numbers,
//! constants and the layout of the structures that cross the block.

#![allow(non_camel_case_types)]

use vstd::prelude::*;

verus! {

pub type c_int = i32;
pub type c_uint = u32;
pub type c_long = i64;
pub type c_char = i8;
pub type c_size_t = usize;

pub type gid_t = u32;
pub type uid_t = u32;
pub type pid_t = i32;
pub type mode_t = u32;
pub type dev_t = u64;

/// The kernel's signal set (its `sigsetsize` is 8).
pub type sigset_t = u64;

pub const SYS_stat: c_long = 4;
pub const SYS_fstat: c_long = 5;
pub const SYS_lseek: c_long = 8;
pub const SYS_access: c_long = 21;
pub const SYS_getcwd: c_long = 79;
pub const SYS_unlink: c_long = 87;
pub const SYS_pipe2: c_long = 293;

pub const STDIN_FILENO: c_int = 0;
pub const STDOUT_FILENO: c_int = 1;
pub const STDERR_FILENO: c_int = 2;

pub const S_IFIFO: mode_t = 0o010000;

pub const ENOENT: c_int = 2;
pub const EAGAIN: c_int = 11;
pub const ENOMEM: c_int = 12;
pub const EINVAL: c_int = 22;

pub const GRND_NONBLOCK: c_uint = 1;
pub const GRND_RANDOM: c_uint = 2;

/// Size in bytes of `struct stat` on x86_64.
pub const STAT_SIZE: usize = 144;
/// Alignment of `struct stat` on x86_64.
pub const STAT_ALIGN: usize = 8;

/// `struct stat` as the x86_64 kernel lays it out.
#[derive(Clone, Copy, Debug, PartialEq, Eq)]
pub struct stat {
    pub st_dev: dev_t,
    pub st_ino: u64,
    pub st_nlink: u64,
    pub st_mode: mode_t,
    pub st_uid: uid_t,
    pub st_gid: gid_t,
    pub __pad0: c_int,
    pub st_rdev: dev_t,
    pub st_size: i64,
    pub st_blksize: i64,
    pub st_blocks: i64,
    pub st_atime: i64,
    pub st_atime_nsec: i64,
    pub st_mtime: i64,
    pub st_mtime_nsec: i64,
    pub st_ctime: i64,
    pub st_ctime_nsec: i64,
    pub __unused: [i64; 3],
}

/// The all-zero `struct stat`.
pub open spec fn stat_zeroed() -> stat {
    stat {
        st_dev: 0,
        st_ino: 0,
        st_nlink: 0,
        st_mode: 0,
        st_uid: 0,
        st_gid: 0,
        __pad0: 0,
        st_rdev: 0,
        st_size: 0,
        st_blksize: 0,
        st_blocks: 0,
        st_atime: 0,
        st_atime_nsec: 0,
        st_mtime: 0,
        st_mtime_nsec: 0,
        st_ctime: 0,
        st_ctime_nsec: 0,
        __unused: [0i64, 0i64, 0i64],
    }
}

/// Every field of the zeroed `struct stat` is zero.
pub proof fn law_stat_zeroed()
    ensures
        stat_zeroed().st_dev == 0 && stat_zeroed().st_ino == 0 && stat_zeroed().st_nlink == 0,
        stat_zeroed().st_mode == 0 && stat_zeroed().st_uid == 0 && stat_zeroed().st_gid == 0,
        stat_zeroed().__pad0 == 0 && stat_zeroed().st_rdev == 0 && stat_zeroed().st_size == 0,
        stat_zeroed().st_blksize == 0 && stat_zeroed().st_blocks == 0,
        stat_zeroed().st_atime == 0 && stat_zeroed().st_atime_nsec == 0,
        stat_zeroed().st_mtime == 0 && stat_zeroed().st_mtime_nsec == 0,
        stat_zeroed().st_ctime == 0 && stat_zeroed().st_ctime_nsec == 0,
        stat_zeroed().__unused@ == seq![0i64, 0i64, 0i64],
{
    assert(stat_zeroed().__unused@ =~= seq![0i64, 0i64, 0i64]);
}

impl stat {
    /// The all-zero `struct stat`.
    pub fn zeroed() -> (r: stat)
        ensures
            r == stat_zeroed(),
    {
        stat {
            st_dev: 0,
            st_ino: 0,
            st_nlink: 0,
            st_mode: 0,
            st_uid: 0,
            st_gid: 0,
            __pad0: 0,
            st_rdev: 0,
            st_size: 0,
            st_blksize: 0,
            st_blocks: 0,
            st_atime: 0,
            st_atime_nsec: 0,
            st_mtime: 0,
            st_mtime_nsec: 0,
            st_ctime: 0,
            st_ctime_nsec: 0,
            __unused: [0i64, 0i64, 0i64],
        }
    }
}

/// An alternate signal stack (`stack_t`); the stack pointer is carried as
/// an address.
#[derive(Clone, Copy, Debug, PartialEq, Eq)]
pub struct stack_t {
    pub ss_sp: usize,
    pub ss_flags: c_int,
    pub ss_size: c_size_t,
}

/// Length of each field of `struct utsname`.
pub const UTSNAME_LEN: usize = 65;

/// `struct utsname`.
#[derive(Clone, Copy, Debug, PartialEq, Eq)]
pub struct utsname {
    pub sysname: [c_char; 65],
    pub nodename: [c_char; 65],
    pub release: [c_char; 65],
    pub version: [c_char; 65],
    pub machine: [c_char; 65],
    pub domainname: [c_char; 65],
}

} // verus!
