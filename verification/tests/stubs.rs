use sallyport::block::Collector;
use sallyport::libc::{stack_t, utsname, EAGAIN, EINVAL, ENOENT, GRND_NONBLOCK, GRND_RANDOM};
use sallyport::syscall::stub::{
    GetrandomAction, Getegid, Geteuid, Getgid, Getpid, Getrandom, Getuid, Readlink,
    RtSigprocmask, SetTidAddress, Sigaltstack, Uname, FAKE_GID, FAKE_PID, FAKE_TID, FAKE_UID,
};

fn col() -> Collector {
    Collector::new(Vec::new())
}

#[test]
fn fake_ids() {
    assert_eq!(Getegid.collect(&col()), FAKE_GID);
    assert_eq!(Geteuid.collect(&col()), FAKE_UID);
    assert_eq!(Getgid.collect(&col()), FAKE_GID);
    assert_eq!(Getpid.collect(&col()), FAKE_PID);
    assert_eq!(Getuid.collect(&col()), FAKE_UID);
    assert_eq!((FAKE_GID, FAKE_PID, FAKE_TID, FAKE_UID), (1000, 1000, 1, 1000));
    let mut tid: i32 = 0;
    assert_eq!(SetTidAddress { tidptr: &mut tid }.collect(&col()), FAKE_TID);
}

#[test]
fn signal_stubs_succeed() {
    let set: u64 = 5;
    let mut old: u64 = 9;
    let r = RtSigprocmask { how: 0, set: Some(&set), oldset: Some(&mut old), sigsetsize: 8 }.collect(&col());
    assert_eq!(r, Ok(()));
    assert_eq!(old, 9);
    let ss = stack_t { ss_sp: 0x1000, ss_flags: 0, ss_size: 4096 };
    assert_eq!(Sigaltstack { ss: Some(&ss), old_ss: None }.collect(&col()), Ok(()));
}

fn as_bytes(field: &[i8; 65]) -> Vec<u8> {
    field.iter().map(|&c| c as u8).collect()
}

fn field(s: &str) -> Vec<u8> {
    let mut v = s.as_bytes().to_vec();
    v.resize(65, 0);
    v
}

#[test]
fn uname_reports_linux() {
    let mut buf = utsname {
        sysname: [1; 65],
        nodename: [1; 65],
        release: [1; 65],
        version: [1; 65],
        machine: [1; 65],
        domainname: [1; 65],
    };
    assert_eq!(Uname { buf: &mut buf }.collect(&col()), Ok(()));
    assert_eq!(as_bytes(&buf.sysname), field("Linux"));
    assert_eq!(as_bytes(&buf.nodename), field("localhost.localdomain"));
    assert_eq!(as_bytes(&buf.release), field("5.6.0"));
    assert_eq!(as_bytes(&buf.version), field("#1"));
    assert_eq!(as_bytes(&buf.machine), field("x86_64"));
    assert_eq!(buf.domainname, [1; 65]);
}

#[test]
fn readlink_proc_self_exe_is_init() {
    let mut buf = [0xffu8; 10];
    let r = Readlink { pathname: b"/proc/self/exe\0", buf: &mut buf }.collect(&col());
    assert_eq!(r, Some(Ok(6)));
    assert_eq!(&buf[..6], b"/init\0");
    assert_eq!(&buf[6..], &[0xff; 4]);
}

#[test]
fn readlink_short_buffer_is_einval() {
    let mut buf = [0xffu8; 5];
    let r = Readlink { pathname: b"/proc/self/exe\0", buf: &mut buf }.collect(&col());
    assert_eq!(r, Some(Err(EINVAL)));
    assert_eq!(buf, [0xff; 5]);
}

#[test]
fn readlink_other_path_is_enoent() {
    let mut buf = [0u8; 16];
    let r = Readlink { pathname: b"/proc/self/exe", buf: &mut buf }.collect(&col());
    assert_eq!(r, Some(Err(ENOENT)));
    let r = Readlink { pathname: b"/etc/passwd\0", buf: &mut buf }.collect(&col());
    assert_eq!(r, Some(Err(ENOENT)));
    assert_eq!(buf, [0u8; 16]);
}

#[test]
fn getrandom_refuses_unknown_flags() {
    let mut buf = [0u8; 4];
    let g = Getrandom { buf: &mut buf, flags: 4 };
    assert!(matches!(g.begin(), GetrandomAction::Done(Err(e)) if e == EINVAL));
}

#[test]
fn getrandom_empty_buffer_is_done() {
    let mut buf = [0u8; 0];
    let g = Getrandom { buf: &mut buf, flags: GRND_NONBLOCK | GRND_RANDOM };
    assert!(matches!(g.begin(), GetrandomAction::Done(Ok(0))));
}

#[test]
fn getrandom_fills_chunks_little_endian() {
    let mut buf = [0u8; 11];
    let mut g = Getrandom { buf: &mut buf, flags: 0 };
    assert!(matches!(g.begin(), GetrandomAction::Draw(0)));
    assert!(matches!(g.advance(0, Some(0x0807_0605_0403_0201)), GetrandomAction::Draw(1)));
    assert!(matches!(g.advance(1, None), GetrandomAction::Draw(1)));
    assert!(matches!(g.advance(1, Some(0xaabb_ccdd_eeff_0a0b)), GetrandomAction::Done(Ok(11))));
    assert_eq!(buf, [1, 2, 3, 4, 5, 6, 7, 8, 0x0b, 0x0a, 0xff]);
}

#[test]
fn getrandom_failed_draw_nonblock_is_eagain() {
    let mut buf = [0u8; 16];
    let mut g = Getrandom { buf: &mut buf, flags: GRND_NONBLOCK };
    assert!(matches!(g.advance(1, None), GetrandomAction::Done(Err(e)) if e == EAGAIN));
}

#[test]
fn getrandom_failed_draw_random_returns_filled() {
    let mut buf = [0u8; 16];
    let mut g = Getrandom { buf: &mut buf, flags: GRND_RANDOM };
    assert!(matches!(g.advance(0, Some(1)), GetrandomAction::Draw(1)));
    assert!(matches!(g.advance(1, None), GetrandomAction::Done(Ok(8))));
    assert_eq!(buf[0], 1);
}
