//! Booting a Wasm workload.

pub mod options;

pub use options::LindBootOptions;
