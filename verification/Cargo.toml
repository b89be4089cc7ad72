[package]
name = "sallyport"
version = "0.1.0"
edition = "2021"
publish = false

[dependencies]
anyhow = "1"
clap = "4"
tempfile = "3"
wasmtime = "24"
wasmtime-wasi = "24"
wasi-common = "24"
