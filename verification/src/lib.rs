//! Host-side runtime for guests compiled to WebAssembly and executed by
//! wasmtime on the Pulley interpreter: fuel-sliced execution, host state
//! shared with the guest's imports, snapshot capture and restore, and the
//! bookkeeping of the interpreter's dispatch hook.
pub mod dispatch;
pub mod engine;
pub mod exception;
pub mod host;
pub mod runtime;
pub mod snapshot;
pub mod syscall;
pub mod wasm;
