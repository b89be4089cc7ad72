use sallyport::runtime::io::{stdio_rights, ALL_RIGHTS, RIGHT_FD_SEEK, RIGHT_FD_TELL};
use sallyport::runtime::lind::run_argv;
use sallyport::runtime::lind_boot::LindBootOptions;
use sallyport::runtime::{Runtime, THREAD_STACK_SIZE};
use wasmtime_wasi::preview1::types::Rights;

#[test]
fn stdio_rights_for_files_and_terminals() {
    assert_eq!(stdio_rights(false), 0x3fff_ffff);
    assert_eq!(stdio_rights(true), 0x3fff_ffdb);
    assert_eq!(stdio_rights(true) | RIGHT_FD_SEEK | RIGHT_FD_TELL, ALL_RIGHTS);
    assert_eq!(stdio_rights(true) & (RIGHT_FD_SEEK | RIGHT_FD_TELL), 0);
}

#[test]
fn stdio_rights_match_wasi_flags() {
    assert_eq!(stdio_rights(false), Rights::all().bits());
    assert_eq!(
        stdio_rights(true),
        Rights::all().difference(Rights::FD_SEEK | Rights::FD_TELL).bits()
    );
}

#[test]
fn run_argv_prefixes_runner() {
    let args = vec!["-v".to_string(), "x".to_string()];
    let argv = run_argv("/tmp/m.wasm".to_string(), &args);
    assert_eq!(
        argv,
        vec![
            "wasmtime run --wasi threads=y --wasi preview2=n".to_string(),
            "/tmp/m.wasm".to_string(),
            "-v".to_string(),
            "x".to_string(),
        ]
    );
    assert_eq!(run_argv("p".to_string(), &[]).len(), 2);
}

#[test]
fn boot_options_from_config() {
    let opts = Runtime::boot_options(
        vec!["a".to_string(), "b".to_string()],
        vec![("K".to_string(), "V".to_string())],
    );
    assert_eq!(opts.args, vec!["main.wasm", "a", "b"]);
    assert_eq!(opts.vars, vec![("K".to_string(), Some("V".to_string()))]);
    assert!(opts.preloads.is_empty());
    assert!(!opts.precompile && !opts.wasmtime_backtrace && !opts.enable_fpcast && !opts.chroot_lindfs);
    assert_eq!(opts.thread_stack_size, 64 * 1024 * 1024);
    assert_eq!(THREAD_STACK_SIZE, 64 * 1024 * 1024);
    assert_eq!(opts.wasm_file(), "main.wasm");
}

#[test]
fn wasm_file_is_first_arg() {
    let opts = LindBootOptions {
        args: vec!["m.wasm".to_string()],
        vars: Vec::new(),
        preloads: Vec::new(),
        precompile: true,
        wasmtime_backtrace: false,
        enable_fpcast: false,
        thread_stack_size: 1,
        chroot_lindfs: false,
    };
    assert_eq!(opts.clone().wasm_file(), "m.wasm");
}
