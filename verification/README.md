# wasmtime_oc

Host-side runtime for guests compiled to WebAssembly and run by wasmtime on
the Pulley interpreter, verified with Verus.

- `src/host.rs`: the host state shared with the guest's imports, and how a
  fuel-limited time slice is concluded (yield, snapshot, pending host call,
  crash, completion).
- `src/runtime.rs`: `OcComputer`, a guest instance; stepping, capture and
  restore of snapshots, and the law that restoring a captured snapshot gives
  the captured state back.
- `src/snapshot.rs`: snapshot records, their LZ4 framing and the SHA-256
  module identity.
- `src/syscall.rs`, `src/engine.rs`: the `oc` host imports and the engine
  configuration.
- `src/dispatch.rs`: the dispatch hook's schedule and the jump-target rule of
  the interpreter loop, with the periodicity law.
- `src/wasm.rs`: the trusted boundary to wasmtime.
- `app/`: bincode encoding of snapshots, loading snapshots from bytes, and the
  dispatch-loop driver.
