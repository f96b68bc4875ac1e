use wasmtime::{Config, Engine, Linker, OptLevel};
use wasmtime_oc::engine::build_engine;
use wasmtime_oc::exception::{OcError, OcErrorCode};
use wasmtime_oc::host::{HostState, Signal, StepResult, FUEL_PER_TICK};
use wasmtime_oc::runtime::{GlobalValue, OcComputer, RuntimeError};
use wasmtime_oc::snapshot::module_hash;
use wasmtime_oc::syscall::register_all;

const COUNTER: &str = r#"
(module
  (memory (export "memory") 1)
  (global (export "g32") (mut i32) (i32.const 7))
  (global (export "g64") (mut i64) (i64.const -5))
  (global (export "gf32") (mut f32) (f32.const 1.5))
  (global (export "gf64") (mut f64) (f64.const 2.25))
  (table (export "tab") 3 funcref)
  (func (export "_start")
    (i32.store8 (i32.const 0) (i32.add (i32.load8_u (i32.const 0)) (i32.const 1)))
    (global.set 0 (i32.add (global.get 0) (i32.const 100)))))
"#;

const SPIN: &str = r#"
(module
  (memory (export "memory") 1)
  (func (export "_start") (loop $l (br $l))))
"#;

const TRAP: &str = r#"
(module
  (memory (export "memory") 1)
  (func (export "_start") unreachable))
"#;

/// The engine `build_engine` makes, but with linear memories allocated as
/// they grow rather than reserved up front, as the test machine does not
/// grant large address-space reservations.
fn engine() -> Engine {
    let mut config = Config::new();
    config.target("pulley64").unwrap();
    config.consume_fuel(true);
    config.wasm_exceptions(true);
    config.cranelift_opt_level(OptLevel::Speed);
    config.memory_reservation(0);
    config.memory_guard_size(0);
    config.memory_reservation_for_growth(0);
    Engine::new(&config).unwrap()
}

fn computer(engine: &Engine, wat: &str) -> OcComputer {
    OcComputer::new(engine, wat.as_bytes(), 1 << 20).expect("computer")
}

fn signal(name: &str) -> Signal {
    Signal { name: name.to_string(), args: vec![1, 2] }
}

#[test]
fn engine_meters_fuel() {
    let engine = build_engine().expect("engine");
    let mut store = wasmtime::Store::new(&engine, ());
    assert_eq!(store.get_fuel().unwrap(), 0);
    store.set_fuel(10).unwrap();
    assert_eq!(store.get_fuel().unwrap(), 10);
}

#[test]
fn new_computer_collects_exports() {
    let engine = engine();
    let c = computer(&engine, COUNTER);
    assert_eq!(c.globals.len(), 4);
    assert_eq!(c.tables.len(), 1);
    assert_eq!(c.module_hash, module_hash(COUNTER.as_bytes()));
    assert!(c.last_snapshot.is_none());
    assert_eq!(c.store.data().memory_limit, 1 << 20);
    assert!(!c.store.data().snapshot_requested);
}

#[test]
fn module_without_memory_is_refused() {
    let engine = engine();
    let r = OcComputer::new(&engine, b"(module (func (export \"_start\")))", 0);
    assert!(matches!(r, Err(RuntimeError::MemoryNotFound)));
}

#[test]
fn invalid_module_is_refused() {
    let engine = engine();
    let r = OcComputer::new(&engine, b"\0asm\x01\0\0\0\xff", 0);
    assert!(matches!(r, Err(RuntimeError::Wasm(_))));
}

#[test]
fn unknown_import_is_refused() {
    let engine = engine();
    let r = OcComputer::new(
        &engine,
        b"(module (import \"oc\" \"nope\" (func)) (memory (export \"memory\") 1))",
        0,
    );
    assert!(matches!(r, Err(RuntimeError::Wasm(_))));
}

#[test]
fn all_oc_imports_link() {
    let engine = engine();
    let wat = r#"
(module
  (import "oc" "component_invoke" (func (param i32 i32 i32) (result i32)))
  (import "oc" "signal_count" (func (result i32)))
  (import "oc" "signal_pop" (func (param i32) (result i32)))
  (import "oc" "log" (func (param i32 i32)))
  (import "oc" "checkpoint_poll" (func))
  (import "oc" "memory_size" (func (result i32)))
  (memory (export "memory") 1))
"#;
    assert!(OcComputer::new(&engine, wat.as_bytes(), 0).is_ok());
}

#[test]
fn registering_twice_fails() {
    let engine = engine();
    let mut linker: Linker<HostState> = Linker::new(&engine);
    assert!(register_all(&mut linker).is_ok());
    assert!(register_all(&mut linker).is_err());
}

#[test]
fn step_runs_entry_point_to_completion() {
    let engine = engine();
    let mut c = computer(&engine, COUNTER);
    assert!(matches!(c.step(), StepResult::Completed));
    assert_eq!(c.memory.data(&c.store)[0], 1);
    assert!(matches!(c.resume_after_syscall(&[], 0), StepResult::Completed));
    assert_eq!(c.memory.data(&c.store)[0], 2);
    let used = FUEL_PER_TICK - c.store.get_fuel().unwrap();
    assert!(used > 0 && used < 100);
}

#[test]
fn endless_guest_yields_and_snapshots_on_request() {
    let engine = engine();
    let mut c = computer(&engine, SPIN);
    assert!(matches!(c.step(), StepResult::Yielded));
    c.request_snapshot();
    assert!(c.store.data().snapshot_requested);
    assert!(matches!(c.step(), StepResult::Snapshotted));
    assert!(!c.store.data().snapshot_requested);
    assert!(matches!(c.step(), StepResult::Yielded));
}

#[test]
fn trapping_guest_crashes() {
    let engine = engine();
    let mut c = computer(&engine, TRAP);
    assert!(matches!(c.step(), StepResult::Crashed(_)));
}

#[test]
fn main_is_the_second_choice_of_entry_point() {
    let engine = engine();
    let wat = r#"
(module
  (memory (export "memory") 1)
  (func (export "helper") (i32.store8 (i32.const 1) (i32.const 9)))
  (func (export "main") (i32.store8 (i32.const 0) (i32.const 5))))
"#;
    let mut c = computer(&engine, wat);
    assert!(matches!(c.step(), StepResult::Completed));
    assert_eq!(c.memory.data(&c.store)[0], 5);
    assert_eq!(c.memory.data(&c.store)[1], 0);
}

#[test]
fn first_export_is_the_last_choice_of_entry_point() {
    let engine = engine();
    let wat = r#"
(module
  (func (export "run") (i32.store8 (i32.const 2) (i32.const 3)))
  (memory (export "memory") 1))
"#;
    let mut c = computer(&engine, wat);
    assert!(matches!(c.step(), StepResult::Completed));
    assert_eq!(c.memory.data(&c.store)[2], 3);
}

#[test]
fn guest_without_entry_point_cannot_step() {
    let engine = engine();
    let wat = r#"
(module
  (memory (export "memory") 1)
  (func (export "helper")))
"#;
    let mut c = computer(&engine, wat);
    assert!(c.try_step().is_none());
    let mut d = computer(&engine, COUNTER);
    assert!(d.try_step().is_some());
}

#[test]
fn guest_sees_signal_count() {
    let engine = engine();
    let wat = r#"
(module
  (import "oc" "signal_count" (func $count (result i32)))
  (memory (export "memory") 1)
  (global (export "n") (mut i32) (i32.const -1))
  (func (export "_start") (global.set 0 (call $count))))
"#;
    let mut c = computer(&engine, wat);
    c.push_signal(signal("a"));
    c.push_signal(signal("b"));
    assert!(matches!(c.step(), StepResult::Completed));
    let snap = c.capture().unwrap();
    assert_eq!(snap.globals, vec![GlobalValue::I32(2)]);
}

#[test]
fn capture_records_the_guest() {
    let engine = engine();
    let mut c = computer(&engine, COUNTER);
    c.push_signal(signal("wake"));
    assert!(matches!(c.step(), StepResult::Completed));
    let fuel = c.store.get_fuel().unwrap();
    let snap = c.capture().unwrap();
    assert_eq!(snap.module_hash, c.module_hash);
    assert_eq!(snap.memory.len(), 65536);
    assert_eq!(snap.memory[0], 1);
    assert_eq!(snap.memory_size_pages, 1);
    assert_eq!(
        snap.globals,
        vec![
            GlobalValue::I32(107),
            GlobalValue::I64(-5),
            GlobalValue::F32(1.5f32.to_bits()),
            GlobalValue::F64(2.25f64.to_bits()),
        ]
    );
    assert_eq!(snap.tables.len(), 1);
    assert_eq!(snap.tables[0].elements, vec![None, None, None]);
    assert_eq!(snap.resume_fuel, fuel);
    assert_eq!(snap.pending_signals.len(), 1);
    assert_eq!(snap.pending_signals[0].name, "wake");
    assert!(snap.reg_snapshot.is_none());
    assert!(snap.resume_pc_offset.is_none());
    assert_eq!(c.store.data().signal_queue.len(), 1);
}

#[test]
fn restore_gives_back_the_captured_guest() {
    let engine = engine();
    let mut c = computer(&engine, COUNTER);
    c.push_signal(signal("one"));
    let before = c.capture().unwrap();
    assert!(matches!(c.step(), StepResult::Completed));
    assert!(matches!(c.step(), StepResult::Completed));
    c.push_signal(signal("two"));
    c.set_pending_exception(OcError { code: OcErrorCode::Unknown, message: "x".to_string() });
    assert_eq!(c.memory.data(&c.store)[0], 2);
    c.restore(&before).unwrap();
    let after = c.capture().unwrap();
    assert_eq!(after.memory, before.memory);
    assert_eq!(after.globals, before.globals);
    assert_eq!(after.resume_fuel, before.resume_fuel);
    assert_eq!(c.store.get_fuel().unwrap(), before.resume_fuel);
    assert_eq!(after.pending_signals.len(), 1);
    assert_eq!(after.pending_signals[0].name, "one");
    assert!(c.store.data().pending_exception.is_some());
}

#[test]
fn snapshot_of_another_module_is_refused() {
    let engine = engine();
    let mut c = computer(&engine, COUNTER);
    let mut snap = c.capture().unwrap();
    snap.module_hash[0] ^= 1;
    snap.memory[0] = 77;
    assert!(matches!(c.restore(&snap), Err(RuntimeError::ModuleHashMismatch)));
    assert_eq!(c.memory.data(&c.store)[0], 0);
}

#[test]
fn immutable_global_cannot_be_restored() {
    let engine = engine();
    let wat = r#"
(module
  (memory (export "memory") 1)
  (global (export "k") i32 (i32.const 3))
  (func (export "_start") (i32.store8 (i32.const 0) (i32.const 8))))
"#;
    let mut c = computer(&engine, wat);
    let snap = c.capture().unwrap();
    assert!(matches!(c.step(), StepResult::Completed));
    assert!(matches!(c.restore(&snap), Err(RuntimeError::GlobalRestore(_))));
    assert_eq!(c.memory.data(&c.store)[0], 0);
}

#[test]
fn vector_global_cannot_be_captured() {
    let engine = engine();
    let wat = r#"
(module
  (memory (export "memory") 1)
  (global (export "v") (mut v128) (v128.const i64x2 1 2)))
"#;
    let mut c = computer(&engine, wat);
    assert!(matches!(c.capture(), Err(RuntimeError::UnsupportedGlobalType)));
}

#[test]
fn snapshot_with_memory_of_another_length_is_not_restored() {
    let engine = engine();
    let mut c = computer(&engine, COUNTER);
    let mut snap = c.capture().unwrap();
    snap.memory.push(1);
    snap.memory[0] = 9;
    assert!(c.try_restore(&snap).is_none());
    assert_eq!(c.memory.data(&c.store)[0], 0);
    snap.memory.pop();
    assert!(matches!(c.try_restore(&snap), Some(Ok(()))));
    assert_eq!(c.memory.data(&c.store)[0], 9);
}

#[test]
fn from_instance_reports_a_missing_memory() {
    let engine = engine();
    let module = wasmtime::Module::new(&engine, "(module (global (export \"g\") (mut i32) (i32.const 1)))").unwrap();
    let mut store = wasmtime::Store::new(&engine, HostState::new(0));
    let mut linker: Linker<HostState> = Linker::new(&engine);
    register_all(&mut linker).unwrap();
    let instance = linker.instantiate(&mut store, &module).unwrap();
    let r = OcComputer::from_instance(store, instance, module, [0; 32]);
    assert!(matches!(r, Err(RuntimeError::MemoryNotFound)));
}

#[test]
fn from_instance_collects_memory_globals_and_tables() {
    let engine = engine();
    let module = wasmtime::Module::new(&engine, COUNTER).unwrap();
    let mut store = wasmtime::Store::new(&engine, HostState::new(7));
    let mut linker: Linker<HostState> = Linker::new(&engine);
    register_all(&mut linker).unwrap();
    let instance = linker.instantiate(&mut store, &module).unwrap();
    let c = OcComputer::from_instance(store, instance, module, [3; 32]).unwrap();
    assert_eq!(c.globals.len(), 4);
    assert_eq!(c.tables.len(), 1);
    assert_eq!(c.module_hash, [3; 32]);
    assert_eq!(c.memory.data(&c.store).len(), 65536);
    assert_eq!(c.store.data().memory_limit, 7);
}
