use sallyport::block::{BlockAllocator, Collector};
use sallyport::libc::{stat, EINVAL, ENOMEM, S_IFIFO, SYS_access, SYS_fstat, SYS_getcwd, SYS_lseek, SYS_pipe2, SYS_stat, SYS_unlink};
use sallyport::syscall::access::Access;
use sallyport::syscall::fstat::{makedev, AllocFstat, Fstat};
use sallyport::syscall::getcwd::Getcwd;
use sallyport::syscall::iov_len;
use sallyport::syscall::lseek::{AllocLseek, Lseek};
use sallyport::syscall::pipe2::Pipe2;
use sallyport::syscall::stat::Stat;
use sallyport::syscall::types::UnstagedMaybeAlloc;
use sallyport::syscall::unlink::Unlink;

#[test]
fn syscall_numbers() {
    assert_eq!(Access::NUM, SYS_access);
    assert_eq!(AllocFstat::NUM, SYS_fstat);
    assert_eq!(Getcwd::NUM, SYS_getcwd);
    assert_eq!(AllocLseek::NUM, SYS_lseek);
    assert_eq!(Pipe2::NUM, SYS_pipe2);
    assert_eq!(Stat::NUM, SYS_stat);
    assert_eq!(Unlink::NUM, SYS_unlink);
}

#[test]
fn access_stages_path_and_mode() {
    let mut alloc = BlockAllocator::new(32);
    alloc.allocate(5, 1).unwrap();
    let path = b"/tmp\0";
    let (argv, staged) = Access { pathname: path, mode: 4 }.stage(&mut alloc).unwrap();
    assert_eq!(argv.0, [5, 5, 4]);
    assert_eq!((staged.offset(), staged.len()), (5, 5));
    let block = alloc.into_bytes();
    assert_eq!(&block[argv.0[0]..argv.0[0] + argv.0[1]], path);
    assert_eq!(Access::collect((), Ok(0), &Collector::new(block.clone())), Ok(0));
    assert_eq!(Access::collect((), Err(2), &Collector::new(block)), Err(2));
}

#[test]
fn access_negative_mode_is_sign_extended() {
    let mut alloc = BlockAllocator::new(8);
    let (argv, _) = Access { pathname: &[0], mode: -1 }.stage(&mut alloc).unwrap();
    assert_eq!(argv.0[2], usize::MAX);
}

#[test]
fn access_path_too_long_is_enomem() {
    let mut alloc = BlockAllocator::new(3);
    assert_eq!(Access { pathname: b"/tmp\0", mode: 0 }.stage(&mut alloc).err(), Some(ENOMEM));
    assert_eq!(alloc.used_len(), 0);
}

#[test]
fn unlink_stages_path() {
    let mut alloc = BlockAllocator::new(16);
    let (argv, _) = Unlink { pathname: b"a\0" }.stage(&mut alloc).unwrap();
    assert_eq!(argv.0, [0, 2]);
    assert_eq!(&alloc.into_bytes()[0..2], b"a\0");
    assert_eq!(Unlink::collect((), Err(13), &Collector::new(vec![])), Err(13));
}

#[test]
fn getcwd_copies_answer() {
    let mut alloc = BlockAllocator::new(64);
    let mut buf = [0xffu8; 16];
    let (argv, staged) = Getcwd { buf: &mut buf }.stage(&mut alloc).unwrap();
    assert_eq!(argv.0, [0, 16]);
    let mut block = alloc.into_bytes();
    block[0..3].copy_from_slice(b"/a\0");
    let r = Getcwd::collect(staged, Ok(3), &Collector::new(block));
    assert_eq!(r, Some(Ok(3)));
    assert_eq!(&buf[0..3], b"/a\0");
    assert_eq!(buf[3], 0xff);
}

#[test]
fn getcwd_stages_only_what_fits() {
    let mut alloc = BlockAllocator::new(10);
    alloc.allocate(6, 1).unwrap();
    let mut buf = [0u8; 16];
    let (argv, _) = Getcwd { buf: &mut buf }.stage(&mut alloc).unwrap();
    assert_eq!(argv.0, [6, 4]);
}

#[test]
fn getcwd_lying_host_yields_none() {
    let mut alloc = BlockAllocator::new(8);
    let mut buf = [1u8; 4];
    let (_, staged) = Getcwd { buf: &mut buf }.stage(&mut alloc).unwrap();
    let r = Getcwd::collect(staged, Ok(5), &Collector::new(vec![9u8; 8]));
    assert_eq!(r, None);
    assert_eq!(buf, [1u8; 4]);
}

#[test]
fn getcwd_error_passes_through() {
    let mut alloc = BlockAllocator::new(8);
    let mut buf = [1u8; 4];
    let (_, staged) = Getcwd { buf: &mut buf }.stage(&mut alloc).unwrap();
    let r = Getcwd::collect(staged, Err(34), &Collector::new(vec![9u8; 8]));
    assert_eq!(r, Some(Err(34)));
    assert_eq!(buf, [1u8; 4]);
}

#[test]
fn getcwd_full_block_is_enomem() {
    let mut alloc = BlockAllocator::new(2);
    alloc.allocate(2, 1).unwrap();
    let mut buf = [0u8; 4];
    assert_eq!(Getcwd { buf: &mut buf }.stage(&mut alloc).err(), Some(ENOMEM));
}

#[test]
fn makedev_values() {
    assert_eq!(makedev(0, 0x19), 0x19);
    assert_eq!(makedev(0, 0xc), 0xc);
    assert_eq!(makedev(0x88, 0), 0x8800);
    let dev: u64 = makedev(0x1234_5678, 0x9abc_def0);
    assert_eq!(dev, 0x123459abcde678f0);
    let major: u64 = ((dev >> 32) & 0xffff_f000) | ((dev >> 8) & 0x0000_0fff);
    let minor: u64 = ((dev >> 12) & 0xffff_ff00) | (dev & 0x0000_00ff);
    assert_eq!((major, minor), (0x1234_5678, 0x9abc_def0));
}

fn std_stat(fd: i32) -> stat {
    let mut st = stat::zeroed();
    match (Fstat { fd, statbuf: &mut st }).stage() {
        Ok(UnstagedMaybeAlloc::Stub(Ok(()))) => {}
        _ => panic!("a standard stream is answered in the guest"),
    }
    st
}

#[test]
fn fstat_standard_streams_are_pipes() {
    let st = std_stat(0);
    assert_eq!(st.st_dev, 0x19);
    assert_eq!(st.st_ino, 3);
    assert_eq!(st.st_mode, S_IFIFO | 0o600);
    assert_eq!(st.st_mode, 0o010600);
    assert_eq!(st.st_nlink, 1);
    assert_eq!(st.st_uid, 1000);
    assert_eq!(st.st_gid, 5);
    assert_eq!(st.st_blksize, 4096);
    assert_eq!(st.st_blocks, 0);
    assert_eq!(st.st_rdev, 0x8800);
    assert_eq!(st.st_size, 0);
    assert_eq!(st.st_atime, 1_579_507_218);
    assert_eq!(st.st_mtime, 1_579_507_218);
    assert_eq!(st.st_ctime, 1_579_507_218);
    assert_eq!(st.st_atime_nsec, 0);
    assert_eq!(std_stat(1).st_dev, 0xc);
    assert_eq!(std_stat(2).st_dev, 0xc);
    assert_eq!(std_stat(2).st_ino, 3);
}

#[test]
fn fstat_other_fd_goes_to_host() {
    let mut st = stat::zeroed();
    let alloc_fstat = match (Fstat { fd: 7, statbuf: &mut st }).stage() {
        Ok(UnstagedMaybeAlloc::Alloc(a)) => a,
        _ => panic!("a host file is proxied"),
    };
    assert_eq!(alloc_fstat.0.fd, 7);
    let mut alloc = BlockAllocator::new(200);
    alloc.allocate(1, 1).unwrap();
    let (argv, staged) = alloc_fstat.stage(&mut alloc).unwrap();
    assert_eq!(argv.0, [7, 8]);
    let mut block = alloc.into_bytes();
    block[8 + 48..8 + 56].copy_from_slice(&1234i64.to_le_bytes());
    assert_eq!(AllocFstat::collect(staged, Ok(()), &Collector::new(block)), Ok(()));
    assert_eq!(st.st_size, 1234);
}

#[test]
fn fstat_host_error_leaves_buffer() {
    let mut st = stat::zeroed();
    st.st_size = 99;
    let alloc_fstat = match (Fstat { fd: 3, statbuf: &mut st }).stage() {
        Ok(UnstagedMaybeAlloc::Alloc(a)) => a,
        _ => panic!("a host file is proxied"),
    };
    let mut alloc = BlockAllocator::new(200);
    let (_, staged) = alloc_fstat.stage(&mut alloc).unwrap();
    let block = vec![0xffu8; 200];
    assert_eq!(AllocFstat::collect(staged, Err(9), &Collector::new(block)), Err(9));
    assert_eq!(st.st_size, 99);
}

#[test]
fn fstat_block_too_small_is_enomem() {
    let mut st = stat::zeroed();
    let alloc_fstat = match (Fstat { fd: 3, statbuf: &mut st }).stage() {
        Ok(UnstagedMaybeAlloc::Alloc(a)) => a,
        _ => panic!("a host file is proxied"),
    };
    let mut alloc = BlockAllocator::new(100);
    assert_eq!(alloc_fstat.stage(&mut alloc).err(), Some(ENOMEM));
}

#[test]
fn lseek_is_passed_through() {
    let l = Lseek { fd: 3, offset: -8, whence: 2 };
    let a = match l.stage() {
        Ok(UnstagedMaybeAlloc::Alloc(a)) => a,
        _ => panic!("lseek always goes to the host"),
    };
    assert_eq!(a.stage().0, [3, (-8i64) as usize, 2]);
}

#[test]
fn pipe2_collects_descriptors() {
    let mut fds = [-1i32; 2];
    let mut alloc = BlockAllocator::new(16);
    alloc.allocate(1, 1).unwrap();
    let (argv, staged) = Pipe2 { pipefd: &mut fds, flags: 0o2000000 }.stage(&mut alloc).unwrap();
    assert_eq!(argv.0, [4, 0o2000000]);
    let mut block = alloc.into_bytes();
    block[4..8].copy_from_slice(&3i32.to_le_bytes());
    block[8..12].copy_from_slice(&4i32.to_le_bytes());
    assert_eq!(Pipe2::collect(staged, Ok(0), &Collector::new(block)), Ok(0));
    assert_eq!(fds, [3, 4]);
}

#[test]
fn pipe2_error_leaves_descriptors() {
    let mut fds = [-1i32; 2];
    let mut alloc = BlockAllocator::new(16);
    let (_, staged) = Pipe2 { pipefd: &mut fds, flags: 0 }.stage(&mut alloc).unwrap();
    assert_eq!(Pipe2::collect(staged, Err(24), &Collector::new(vec![1u8; 16])), Err(24));
    assert_eq!(fds, [-1, -1]);
}

#[test]
fn stat_stages_path_then_buffer() {
    let mut st = stat::zeroed();
    let mut alloc = BlockAllocator::new(256);
    let (argv, (path, staged)) = Stat { pathname: b"/etc\0", statbuf: &mut st }.stage(&mut alloc).unwrap();
    assert_eq!(argv.0, [0, 5, 8]);
    assert_eq!((path.offset(), path.len()), (0, 5));
    assert_eq!(alloc.used_len(), 8 + 144);
    let mut block = alloc.into_bytes();
    assert_eq!(&block[0..5], b"/etc\0");
    block[8 + 8..8 + 16].copy_from_slice(&77u64.to_le_bytes());
    assert_eq!(Stat::collect(((), staged), Ok(()), &Collector::new(block)), Ok(()));
    assert_eq!(st.st_ino, 77);
}

#[test]
fn stat_without_room_for_buffer_is_enomem() {
    let mut st = stat::zeroed();
    let mut alloc = BlockAllocator::new(100);
    assert_eq!(Stat { pathname: b"/etc\0", statbuf: &mut st }.stage(&mut alloc).err(), Some(ENOMEM));
}

#[test]
fn iov_len_sums_lengths() {
    let a: &[u8] = b"abc";
    let b: &[u8] = b"";
    let c: &[u8] = b"de";
    assert_eq!(iov_len(&[a, b, c]), 5);
    assert_eq!(iov_len(&[]), 0);
    assert_eq!(iov_len(&[a]) + iov_len(&[b, c]), iov_len(&[a, b, c]));
}

#[test]
fn einval_value() {
    assert_eq!(EINVAL, 22);
}
