# sallyport

A verified model of how an enclave guest hands system calls to its host,
and of the decisions the Wasm runtime makes when it boots a workload.

- `src/block.rs`: the shared block — a bump allocator that copies inputs
  in and reserves room for outputs, and a collector that reads back what
  the host wrote (little-endian, x86_64 layouts).
- `src/syscall/`: one module per staged call (`access`, `fstat`,
  `getcwd`, `lseek`, `pipe2`, `stat`, `unlink`), the calls answered inside
  the guest (`stub`), and `iov_len`.
- `src/libc.rs`: syscall numbers, errno values and structure layouts.
- `src/runtime/`: boot options, the rights of standard streams (through
  `wasmtime-wasi`'s `Rights`) and the runner's command line.
- `app/`: the command-line entry point and the glue that needs I/O, outside
  traits or CPU intrinsics.
