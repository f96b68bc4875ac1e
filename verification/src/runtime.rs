//! A guest instance and the host side of running it: fuel-sliced steps,
//! host requests, and capture and restore of snapshots.
use std::collections::VecDeque;
use vstd::prelude::*;
use wasmtime::{Engine, Func, Global, Instance, Memory, Module, Store, Table};

use crate::exception::OcError;
use crate::host::{
    signals_view, step_transition, with_snapshot_requested, CallOutcome, HostState, Signal,
    StepResult, FUEL_PER_TICK,
};
use crate::snapshot::{module_hash, sha256, Snapshot, TableSnapshot};
use crate::syscall::{oc_imports, register_all};
use crate::wasm::{
    call_outcome, called_store, engine_meters_fuel, error_message, func_is_export,
    global_accepts, global_mutable, instance_first_export, instance_module, module_bytes, module_valid,
    store_engine, store_fixed, store_keeps_host, store_with_fuel, linker_defines_library_only,
    linker_host_function, linker_imports, func_call, func_owner, global_contents, global_get, global_owner, global_set, host,
    host_mut, instance_exports_func, instance_first_export_is_func, instance_first_func,
    instance_get_func, instance_get_global, instance_get_memory, instance_get_table,
    instance_global, instance_memory, instance_owner, instance_table, linker_instantiate,
    linker_new, memory_contents, memory_data_size, memory_owner, memory_pages, memory_read, memory_size,
    memory_write, module_export_list, module_exports, module_new, store_fuel, store_get_fuel,
    store_host, store_identity, store_new, store_set_fuel, store_unchanged,
    store_unchanged_but_host, table_length, table_owner, table_size, ExportKind,
};

verus! {

/// The value of a WebAssembly global as a snapshot keeps it; floats by their
/// bits.
#[derive(Clone, Copy, Debug, PartialEq, Eq, Structural)]
pub enum GlobalValue {
    I32(i32),
    I64(i64),
    F32(u32),
    F64(u64),
}

/// Why creating, restoring or capturing a guest failed.
#[derive(Debug)]
pub enum RuntimeError {
    /// wasmtime refused; its message.
    Wasm(String),
    /// The module exports no memory named `memory`.
    MemoryNotFound,
    /// The snapshot was taken of another module.
    ModuleHashMismatch,
    /// A global could not be set to its snapshot value; wasmtime's message.
    GlobalRestore(String),
    /// A global holds a value of a type a snapshot cannot keep.
    UnsupportedGlobalType,
}

/// A guest module instantiated with its host state.
pub struct OcComputer {
    pub store: Store<HostState>,
    pub instance: Instance,
    pub module: Module,
    pub memory: Memory,
    pub globals: Vec<Global>,
    pub tables: Vec<Table>,
    pub module_hash: [u8; 32],
    pub last_snapshot: Option<Vec<u8>>,
}

/// The globals an instance exports, in the order of the module's exports.
pub open spec fn exported_globals(exports: Seq<(Seq<char>, ExportKind)>, instance: Instance) -> Seq<Global>
    decreases exports.len(),
{
    if exports.len() == 0 {
        Seq::empty()
    } else {
        let earlier = exported_globals(exports.drop_last(), instance);
        if exports.last().1 == ExportKind::Global {
            match instance_global(instance, exports.last().0) {
                Some(g) => earlier.push(g),
                None => earlier,
            }
        } else {
            earlier
        }
    }
}

/// The tables an instance exports, in the order of the module's exports.
pub open spec fn exported_tables(exports: Seq<(Seq<char>, ExportKind)>, instance: Instance) -> Seq<Table>
    decreases exports.len(),
{
    if exports.len() == 0 {
        Seq::empty()
    } else {
        let earlier = exported_tables(exports.drop_last(), instance);
        if exports.last().1 == ExportKind::Table {
            match instance_table(instance, exports.last().0) {
                Some(t) => earlier.push(t),
                None => earlier,
            }
        } else {
            earlier
        }
    }
}

/// The value the first `k` writes of `values` to `globals` leave in `g`:
/// that of the last write to `g`, if any.
pub open spec fn last_write(globals: Seq<Global>, values: Seq<GlobalValue>, k: int, g: Global) -> Option<GlobalValue>
    decreases k,
{
    if k <= 0 {
        None
    } else if globals[k - 1] == g {
        Some(values[k - 1])
    } else {
        last_write(globals, values, k - 1, g)
    }
}

/// Global `g` of `after` holds what the first `k` writes left in it, or, if
/// none wrote it, what it held in `before`.
pub open spec fn globals_written(
    before: Store<HostState>,
    after: Store<HostState>,
    globals: Seq<Global>,
    values: Seq<GlobalValue>,
    k: int,
) -> bool {
    forall|g: Global|
        #[trigger] global_contents(after, g) == match last_write(globals, values, k, g) {
            Some(v) => Some(v),
            None => global_contents(before, g),
        }
}

/// The number of globals a restore writes: as many as both the computer and
/// the snapshot have.
pub open spec fn restored_global_count(c: OcComputer, snap: Snapshot) -> int {
    if c.globals@.len() <= snap.globals@.len() {
        c.globals@.len() as int
    } else {
        snap.globals@.len() as int
    }
}

/// `snap` is what capturing `c` gives.
pub open spec fn captured(c: OcComputer, snap: Snapshot) -> bool {
    &&& snap.module_hash@ == c.module_hash@
    &&& snap.memory@ == memory_contents(c.store, c.memory)
    &&& snap.memory_size_pages == memory_pages(c.store, c.memory) as u32
    &&& snap.globals@.len() == c.globals@.len()
    &&& forall|i: int|
        0 <= i < c.globals@.len() ==> global_contents(c.store, #[trigger] c.globals@[i]) == Some(
            snap.globals@[i],
        )
    &&& forall|i: int|
        0 <= i < c.globals@.len() ==> global_accepts(c.store, #[trigger] c.globals@[i], snap.globals@[i])
            == global_mutable(c.store, c.globals@[i])
    &&& snap.tables@.len() == c.tables@.len()
    &&& forall|i: int|
        0 <= i < c.tables@.len() ==> (#[trigger] snap.tables@[i]).elements@.len() == table_length(
            c.store,
            c.tables@[i],
        )
    &&& forall|i: int, j: int|
        0 <= i < c.tables@.len() && 0 <= j < snap.tables@[i].elements@.len()
            ==> (#[trigger] snap.tables@[i].elements@[j]) is None
    &&& snap.resume_fuel == match store_fuel(c.store) {
        Some(f) => f,
        None => 0,
    }
    &&& signals_view(snap.pending_signals@) == signals_view(store_host(c.store).signal_queue@)
    &&& snap.reg_snapshot is None
    &&& snap.resume_pc_offset is None
}

/// The host state `before` with its signal queue replaced by `signals`.
pub open spec fn host_with_signals(before: HostState, after: HostState, signals: Seq<Signal>) -> bool {
    &&& signals_view(after.signal_queue@) == signals_view(signals)
    &&& after.snapshot_requested == before.snapshot_requested
    &&& after.pending_syscall == before.pending_syscall
    &&& after.pending_exception == before.pending_exception
    &&& after.memory_limit == before.memory_limit
}

/// `after` is `before` with `snap` restored onto it.
pub open spec fn restored(before: OcComputer, snap: Snapshot, after: OcComputer) -> bool {
    &&& memory_contents(after.store, after.memory) == snap.memory@
    &&& globals_written(
        before.store,
        after.store,
        before.globals@,
        snap.globals@,
        restored_global_count(before, snap),
    )
    &&& store_fuel(after.store) == match store_fuel(before.store) {
        Some(_) => Some(snap.resume_fuel),
        None => None,
    }
    &&& host_with_signals(store_host(before.store), store_host(after.store), snap.pending_signals@)
    &&& forall|m: Memory| #[trigger] memory_pages(after.store, m) == memory_pages(before.store, m)
    &&& forall|t: Table| #[trigger] table_length(after.store, t) == table_length(before.store, t)
    &&& store_fixed(before.store, after.store)
}

/// Every global a restore writes accepts its snapshot value.
pub open spec fn globals_accept(c: OcComputer, snap: Snapshot) -> bool {
    forall|i: int|
        0 <= i < restored_global_count(c, snap) ==> #[trigger] global_accepts(
            c.store,
            c.globals@[i],
            snap.globals@[i],
        )
}

/// A failed restore: memory written, the globals before the first that
/// refuses its value written, fuel and host state as they were.
pub open spec fn restore_stopped(before: OcComputer, snap: Snapshot, after: OcComputer) -> bool {
    &&& memory_contents(after.store, after.memory) == snap.memory@
    &&& exists|k: int|
        0 <= k < restored_global_count(before, snap) && !global_accepts(
            before.store,
            before.globals@[k],
            snap.globals@[k],
        ) && globals_written(before.store, after.store, before.globals@, snap.globals@, k)
    &&& store_fuel(after.store) == store_fuel(before.store)
    &&& store_host(after.store) == store_host(before.store)
}

/// The store before the call of a slice: refuelled with `FUEL_PER_TICK`
/// where its engine meters fuel.
pub open spec fn refuelled(store: Store<HostState>) -> Store<HostState> {
    if store_fuel(store) is Some {
        store_with_fuel(store, FUEL_PER_TICK)
    } else {
        store
    }
}

/// Whether two module digests are the same.
fn same_hash(a: &[u8; 32], b: &[u8; 32]) -> (same: bool)
    ensures
        same == (a@ == b@),
{
    let mut i: usize = 0;
    while i < 32
        invariant
            0 <= i <= 32,
            a@.len() == 32,
            b@.len() == 32,
            forall|j: int| 0 <= j < i ==> a@[j] == b@[j],
        decreases 32 - i,
    {
        if a[i] != b[i] {
            return false;
        }
        i = i + 1;
    }
    assert(a@ =~= b@);
    true
}

impl OcComputer {
    /// Every handle the computer keeps belongs to its store.
    pub open spec fn wf(&self) -> bool {
        let id = store_identity(self.store);
        &&& instance_owner(self.instance) == id
        &&& memory_owner(self.memory) == id
        &&& forall|i: int| 0 <= i < self.globals@.len() ==> global_owner(#[trigger] self.globals@[i]) == id
        &&& forall|i: int| 0 <= i < self.tables@.len() ==> table_owner(#[trigger] self.tables@[i]) == id
    }

    /// `other` keeps the same handles and records as `self`; only the store
    /// may differ.
    pub open spec fn same_handles(&self, other: OcComputer) -> bool {
        &&& other.instance == self.instance
        &&& other.module == self.module
        &&& other.memory == self.memory
        &&& other.globals == self.globals
        &&& other.tables == self.tables
        &&& other.module_hash == self.module_hash
        &&& other.last_snapshot == self.last_snapshot
    }

    /// The guest has a function to run: `_start`, else `main`, else its first
    /// export.
    pub open spec fn has_entry_point(&self) -> bool {
        ||| instance_exports_func(self.instance, "_start"@)
        ||| instance_exports_func(self.instance, "main"@)
        ||| instance_first_export_is_func(self.instance)
    }

    /// The export a slice runs: `_start`, else `main`, else the first export.
    pub open spec fn entry_name(&self) -> Seq<char> {
        if instance_exports_func(self.instance, "_start"@) {
            "_start"@
        } else if instance_exports_func(self.instance, "main"@) {
            "main"@
        } else {
            instance_first_export(self.instance)
        }
    }

    /// How the call of the next slice ends.
    pub open spec fn slice_outcome(&self) -> CallOutcome {
        call_outcome(refuelled(self.store), self.instance, self.entry_name())
    }

    /// The store after the call of the next slice.
    pub open spec fn slice_store(&self) -> Store<HostState> {
        called_store(refuelled(self.store), self.instance, self.entry_name())
    }

    /// What one slice does: the host state and result `step_transition`
    /// makes of the call's outcome; the rest of the store is as the call left
    /// it. Where the store's host functions keep the host data, the host state
    /// concluded from is the one before the slice.
    pub open spec fn stepped(&self, after: OcComputer, result: StepResult) -> bool {
        &&& (store_host(after.store), result) == step_transition(
            store_host(self.slice_store()),
            self.slice_outcome(),
        )
        &&& store_keeps_host(self.store) ==> (store_host(after.store), result) == step_transition(
            store_host(self.store),
            self.slice_outcome(),
        )
        &&& store_unchanged_but_host(self.slice_store(), after.store)
    }

    /// Compiles and instantiates a guest module against the `oc` imports, with
    /// a fresh host state.
    pub fn new(engine: &Engine, wasm_bytes: &[u8], memory_limit: usize) -> (r: Result<OcComputer, RuntimeError>)
        ensures
            r matches Ok(c) ==> {
                &&& c.wf()
                &&& instance_memory(c.instance, "memory"@) == Some(c.memory)
                &&& c.globals@ == exported_globals(module_exports(c.module), c.instance)
                &&& c.tables@ == exported_tables(module_exports(c.module), c.instance)
                &&& c.globals@ == module_exports(c.module).filter_map(
                    |e: (Seq<char>, ExportKind)|
                        if e.1 == ExportKind::Global {
                            instance_global(c.instance, e.0)
                        } else {
                            None
                        },
                )
                &&& forall|k: int|
                    0 <= k < module_exports(c.module).len() && #[trigger] module_exports(c.module)[k].1
                        == ExportKind::Global && instance_global(c.instance, module_exports(c.module)[k].0)
                        is Some ==> c.globals@.contains(
                        instance_global(c.instance, module_exports(c.module)[k].0)->0,
                    )
                &&& c.module_hash@ == sha256(wasm_bytes@)
                &&& c.last_snapshot is None
                &&& (store_fuel(c.store) is Some) == engine_meters_fuel(*engine)
                &&& module_valid(*engine, wasm_bytes@)
                &&& module_bytes(c.module) == wasm_bytes@
                &&& instance_module(c.instance) == c.module
                &&& store_engine(c.store) == *engine
                &&& store_keeps_host(c.store)
                &&& !store_host(c.store).snapshot_requested
                &&& store_host(c.store).pending_syscall is None
                &&& store_host(c.store).pending_exception is None
                &&& store_host(c.store).signal_queue@.len() == 0
                &&& store_host(c.store).memory_limit == memory_limit
            },
            r matches Err(e) ==> e is Wasm || e is MemoryNotFound,
            !module_valid(*engine, wasm_bytes@) ==> r matches Err(RuntimeError::Wasm(_)),
            r matches Err(RuntimeError::MemoryNotFound) ==> module_valid(*engine, wasm_bytes@)
                && exists|i: Instance|
                module_bytes(#[trigger] instance_module(i)) == wasm_bytes@ && instance_memory(i, "memory"@) is None,
    {
        let module = match module_new(engine, wasm_bytes) {
            Ok(m) => m,
            Err(e) => return Err(RuntimeError::Wasm(error_message(&e))),
        };
        let mut store = store_new(engine, HostState::new(memory_limit));
        let mut linker = linker_new(engine);
        if let Err(e) = register_all(&mut linker) {
            return Err(RuntimeError::Wasm(error_message(&e)));
        }
        assert(linker_defines_library_only(linker)) by {
            assert forall|k: (Seq<char>, Seq<char>)| #[trigger] linker_imports(linker).contains(k)
                implies linker_host_function(linker, k) is Some by {
                assert(oc_imports().contains(k));
            }
        }
        let instance = match linker_instantiate(&linker, &mut store, &module) {
            Ok(i) => i,
            Err(e) => return Err(RuntimeError::Wasm(error_message(&e))),
        };
        let hash = module_hash(wasm_bytes);
        OcComputer::from_instance(store, instance, module, hash)
    }

    /// Assembles a computer from an instance of a module in its store: its
    /// memory exported as `memory`, and the globals and tables it exports, in
    /// the order of the module's exports. Fails, with `MemoryNotFound`,
    /// exactly where the instance exports no memory named `memory`.
    pub fn from_instance(
        store: Store<HostState>,
        instance: Instance,
        module: Module,
        module_hash: [u8; 32],
    ) -> (r: Result<OcComputer, RuntimeError>)
        requires
            instance_owner(instance) == store_identity(store),
            instance_module(instance) == module,
        ensures
            r is Err <==> instance_memory(instance, "memory"@) is None,
            r matches Err(e) ==> e is MemoryNotFound,
            r matches Ok(c) ==> {
                &&& c.wf()
                &&& store_unchanged(store, c.store)
                &&& c.instance == instance
                &&& c.module == module
                &&& instance_memory(instance, "memory"@) == Some(c.memory)
                &&& c.globals@ == exported_globals(module_exports(module), instance)
                &&& c.tables@ == exported_tables(module_exports(module), instance)
                &&& c.globals@ == module_exports(module).filter_map(
                    |e: (Seq<char>, ExportKind)|
                        if e.1 == ExportKind::Global {
                            instance_global(instance, e.0)
                        } else {
                            None
                        },
                )
                &&& c.tables@ == module_exports(module).filter_map(
                    |e: (Seq<char>, ExportKind)|
                        if e.1 == ExportKind::Table {
                            instance_table(instance, e.0)
                        } else {
                            None
                        },
                )
                &&& forall|k: int|
                    0 <= k < module_exports(module).len() && #[trigger] module_exports(module)[k].1
                        == ExportKind::Global && instance_global(instance, module_exports(module)[k].0)
                        is Some ==> c.globals@.contains(
                        instance_global(instance, module_exports(module)[k].0)->0,
                    )
                &&& c.module_hash == module_hash
                &&& c.last_snapshot is None
            },
    {
        let mut store = store;
        let ghost start = store;
        let memory = match instance_get_memory(&instance, &mut store, "memory") {
            Some(m) => m,
            None => return Err(RuntimeError::MemoryNotFound),
        };
        let exports = module_export_list(&module);
        let ghost spec_exports = module_exports(module);
        let ghost id = store_identity(store);
        let mut globals: Vec<Global> = Vec::new();
        let mut tables: Vec<Table> = Vec::new();
        let mut i: usize = 0;
        while i < exports.len()
            invariant
                0 <= i <= exports@.len(),
                exports@.len() == spec_exports.len(),
                forall|j: int|
                    0 <= j < exports@.len() ==> (#[trigger] exports@[j]).0@ == spec_exports[j].0
                        && exports@[j].1 == spec_exports[j].1,
                store_identity(store) == id,
                store_unchanged(start, store),
                instance_owner(instance) == id,
                memory_owner(memory) == id,
                globals@ == exported_globals(spec_exports.take(i as int), instance),
                tables@ == exported_tables(spec_exports.take(i as int), instance),
                forall|j: int| 0 <= j < globals@.len() ==> global_owner(#[trigger] globals@[j]) == id,
                forall|j: int| 0 <= j < tables@.len() ==> table_owner(#[trigger] tables@[j]) == id,
            decreases exports@.len() - i,
        {
            assert(spec_exports.take(i + 1).drop_last() == spec_exports.take(i as int));
            let kind = exports[i].1;
            if kind == ExportKind::Global {
                if let Some(g) = instance_get_global(&instance, &mut store, exports[i].0.as_str()) {
                    globals.push(g);
                }
            } else if kind == ExportKind::Table {
                if let Some(t) = instance_get_table(&instance, &mut store, exports[i].0.as_str()) {
                    tables.push(t);
                }
            }
            i = i + 1;
        }
        assert(spec_exports.take(exports@.len() as int) == spec_exports);
        proof {
            exported_globals_are_the_global_exports(spec_exports, instance);
            exported_tables_are_the_table_exports(spec_exports, instance);
        }
        Ok(OcComputer {
            store,
            instance,
            module,
            memory,
            globals,
            tables,
            module_hash,
            last_snapshot: None,
        })
    }

    /// The function a step runs: `_start`, else `main`, else the first export
    /// where it is a function.
    fn entry_point(&mut self) -> (f: Option<Func>)
        requires
            old(self).wf(),
        ensures
            f is Some <==> old(self).has_entry_point(),
            f matches Some(func) ==> func_owner(func) == store_identity(final(self).store)
                && func_is_export(func, old(self).instance, old(self).entry_name()),
            final(self).store == old(self).store,
            old(self).same_handles(*final(self)),
    {
        match instance_get_func(&self.instance, &mut self.store, "_start") {
            Some(f) => Some(f),
            None => match instance_get_func(&self.instance, &mut self.store, "main") {
                Some(f) => Some(f),
                None => instance_first_func(&self.instance, &mut self.store),
            },
        }
    }

    /// Runs one time slice where the guest has an entry point: refuels the
    /// store with `FUEL_PER_TICK`, calls the entry point (`_start`, else
    /// `main`, else the first export) and reports how the slice ended,
    /// clearing the request or pending call the report consumes. `None`, with
    /// nothing changed, where the guest has no entry point.
    pub fn try_step(&mut self) -> (r: Option<StepResult>)
        requires
            old(self).wf(),
        ensures
            final(self).wf(),
            old(self).same_handles(*final(self)),
            (store_fuel(final(self).store) is Some) == (store_fuel(old(self).store) is Some),
            store_keeps_host(final(self).store) == store_keeps_host(old(self).store),
            r is None <==> !old(self).has_entry_point(),
            r is None ==> final(self).store == old(self).store,
            r matches Some(result) ==> old(self).stepped(*final(self), result),
            r is Some && store_fuel(old(self).store) is Some ==> store_fuel(refuelled(old(self).store))
                == Some(FUEL_PER_TICK),
            instance_exports_func(old(self).instance, "_start"@) ==> r is Some && (
                store_host(final(self).store),
                r->0,
            ) == step_transition(
                store_host(called_store(refuelled(old(self).store), old(self).instance, "_start"@)),
                call_outcome(refuelled(old(self).store), old(self).instance, "_start"@),
            ),
            !instance_exports_func(old(self).instance, "_start"@) && instance_exports_func(
                old(self).instance,
                "main"@,
            ) ==> r is Some && (store_host(final(self).store), r->0) == step_transition(
                store_host(called_store(refuelled(old(self).store), old(self).instance, "main"@)),
                call_outcome(refuelled(old(self).store), old(self).instance, "main"@),
            ),
    {
        proof {
            slice_calls_start_then_main(*old(self));
        }
        let func = match self.entry_point() {
            Some(f) => f,
            None => return None,
        };
        let ghost start = self.store;
        let _ = store_set_fuel(&mut self.store, FUEL_PER_TICK);
        assert(self.store == refuelled(start));
        let outcome = func_call(&func, &mut self.store);
        let ghost h = store_host(self.store);
        let result = host_mut(&mut self.store).conclude_step(outcome);
        assert(step_transition(h, outcome) == (store_host(self.store), result));
        Some(result)
    }

    /// Runs one time slice: refuels the store with `FUEL_PER_TICK`, calls the
    /// entry point (`_start`, else `main`, else the first export) and reports
    /// how the slice ended, clearing the request or pending call the report
    /// consumes.
    pub fn step(&mut self) -> (result: StepResult)
        requires
            old(self).wf(),
            old(self).has_entry_point(),
        ensures
            final(self).wf(),
            old(self).same_handles(*final(self)),
            (store_fuel(final(self).store) is Some) == (store_fuel(old(self).store) is Some),
            store_keeps_host(final(self).store) == store_keeps_host(old(self).store),
            old(self).stepped(*final(self), result),
            store_fuel(old(self).store) is Some ==> store_fuel(refuelled(old(self).store)) == Some(
                FUEL_PER_TICK,
            ),
            instance_exports_func(old(self).instance, "_start"@) ==> (
                store_host(final(self).store),
                result,
            ) == step_transition(
                store_host(called_store(refuelled(old(self).store), old(self).instance, "_start"@)),
                call_outcome(refuelled(old(self).store), old(self).instance, "_start"@),
            ),
            !instance_exports_func(old(self).instance, "_start"@) && instance_exports_func(
                old(self).instance,
                "main"@,
            ) ==> (store_host(final(self).store), result) == step_transition(
                store_host(called_store(refuelled(old(self).store), old(self).instance, "main"@)),
                call_outcome(refuelled(old(self).store), old(self).instance, "main"@),
            ),
    {
        proof {
            slice_calls_start_then_main(*old(self));
        }
        self.try_step().unwrap()
    }

    /// Continues the guest after a host call it was waiting on: one more
    /// slice, exactly as `step`; the call's result bytes and pointer are not
    /// used.
    pub fn resume_after_syscall(&mut self, _result_bytes: &[u8], _result_ptr: i32) -> (result: StepResult)
        requires
            old(self).wf(),
            old(self).has_entry_point(),
        ensures
            final(self).wf(),
            old(self).same_handles(*final(self)),
            (store_fuel(final(self).store) is Some) == (store_fuel(old(self).store) is Some),
            store_keeps_host(final(self).store) == store_keeps_host(old(self).store),
            old(self).stepped(*final(self), result),
            store_fuel(old(self).store) is Some ==> store_fuel(refuelled(old(self).store)) == Some(
                FUEL_PER_TICK,
            ),
            instance_exports_func(old(self).instance, "_start"@) ==> (
                store_host(final(self).store),
                result,
            ) == step_transition(
                store_host(called_store(refuelled(old(self).store), old(self).instance, "_start"@)),
                call_outcome(refuelled(old(self).store), old(self).instance, "_start"@),
            ),
            !instance_exports_func(old(self).instance, "_start"@) && instance_exports_func(
                old(self).instance,
                "main"@,
            ) ==> (store_host(final(self).store), result) == step_transition(
                store_host(called_store(refuelled(old(self).store), old(self).instance, "main"@)),
                call_outcome(refuelled(old(self).store), old(self).instance, "main"@),
            ),
    {
        proof {
            slice_calls_start_then_main(*old(self));
        }
        self.step()
    }

    /// Asks for a snapshot at the end of the next slice that runs out of fuel.
    pub fn request_snapshot(&mut self)
        ensures
            store_host(final(self).store) == with_snapshot_requested(store_host(old(self).store)),
            store_unchanged_but_host(old(self).store, final(self).store),
            old(self).same_handles(*final(self)),
    {
        host_mut(&mut self.store).request_snapshot();
    }

    /// Queues a signal for the guest behind those already waiting.
    pub fn push_signal(&mut self, signal: Signal)
        ensures
            store_host(final(self).store) == (HostState {
                signal_queue: store_host(final(self).store).signal_queue,
                ..store_host(old(self).store)
            }),
            store_host(final(self).store).signal_queue@ == store_host(old(self).store).signal_queue@.push(signal),
            store_unchanged_but_host(old(self).store, final(self).store),
            old(self).same_handles(*final(self)),
    {
        host_mut(&mut self.store).push_signal(signal);
    }

    /// Records the exception the guest is to see next.
    pub fn set_pending_exception(&mut self, err: OcError)
        ensures
            store_host(final(self).store) == (HostState {
                pending_exception: Some(err),
                ..store_host(old(self).store)
            }),
            store_unchanged_but_host(old(self).store, final(self).store),
            old(self).same_handles(*final(self)),
    {
        host_mut(&mut self.store).set_pending_exception(err);
    }

    /// Takes a snapshot of the guest: its memory, globals, table sizes, fuel
    /// and queued signals. Fails, reading only, where a global holds a type a
    /// snapshot cannot keep. The guest is left as it was.
    pub fn capture(&mut self) -> (r: Result<Snapshot, RuntimeError>)
        requires
            old(self).wf(),
        ensures
            final(self).wf(),
            old(self).same_handles(*final(self)),
            store_unchanged(old(self).store, final(self).store),
            r is Ok <==> forall|i: int|
                0 <= i < old(self).globals@.len() ==> (#[trigger] global_contents(
                    old(self).store,
                    old(self).globals@[i],
                )) is Some,
            r matches Err(e) ==> e is UnsupportedGlobalType,
            r matches Ok(snap) ==> captured(*old(self), snap),
            r matches Ok(snap) ==> memory_pages(old(self).store, old(self).memory) <= u32::MAX ==> (
            snap.memory@.len() == snap.memory_size_pages as int * 65536 || snap.memory@.len()
                == snap.memory_size_pages as int),
    {
        let ghost start = *self;
        let mut globals: Vec<GlobalValue> = Vec::new();
        let mut i: usize = 0;
        while i < self.globals.len()
            invariant
                start == *old(self),
                start.wf(),
                start.same_handles(*self),
                store_unchanged(start.store, self.store),
                0 <= i <= self.globals@.len(),
                globals@.len() == i,
                forall|j: int|
                    0 <= j < i ==> global_contents(start.store, #[trigger] start.globals@[j]) == Some(
                        globals@[j],
                    ),
                forall|j: int|
                    0 <= j < i ==> global_accepts(start.store, #[trigger] start.globals@[j], globals@[j])
                        == global_mutable(start.store, start.globals@[j]),
            decreases self.globals@.len() - i,
        {
            match global_get(&self.globals[i], &mut self.store) {
                Some(v) => globals.push(v),
                None => {
                    assert(global_contents(start.store, start.globals@[i as int]) is None);
                    return Err(RuntimeError::UnsupportedGlobalType);
                },
            }
            i = i + 1;
        }
        let mut tables: Vec<TableSnapshot> = Vec::new();
        let mut t: usize = 0;
        while t < self.tables.len()
            invariant
                start.wf(),
                start.same_handles(*self),
                store_unchanged(start.store, self.store),
                0 <= t <= self.tables@.len(),
                tables@.len() == t,
                forall|j: int|
                    0 <= j < t ==> (#[trigger] tables@[j]).elements@.len() == table_length(
                        start.store,
                        start.tables@[j],
                    ),
                forall|j: int, k: int|
                    0 <= j < t && 0 <= k < tables@[j].elements@.len()
                        ==> (#[trigger] tables@[j].elements@[k]) is None,
            decreases self.tables@.len() - t,
        {
            let size = table_size(&self.tables[t], &self.store);
            let mut elements: Vec<Option<u32>> = Vec::new();
            let mut k: u64 = 0;
            while k < size
                invariant
                    k <= size,
                    elements@.len() == k,
                    forall|m: int| 0 <= m < k ==> (#[trigger] elements@[m]) is None,
                decreases size - k,
            {
                elements.push(None);
                k = k + 1;
            }
            tables.push(TableSnapshot { elements });
            t = t + 1;
        }
        let memory = memory_read(&self.memory, &self.store);
        let pages = memory_size(&self.memory, &self.store);
        let resume_fuel = match store_get_fuel(&self.store) {
            Some(f) => f,
            None => 0,
        };
        let queue = &host(&self.store).signal_queue;
        let mut pending_signals: Vec<Signal> = Vec::new();
        let mut s: usize = 0;
        while s < queue.len()
            invariant
                0 <= s <= queue@.len(),
                pending_signals@.len() == s,
                forall|j: int| 0 <= j < s ==> (#[trigger] pending_signals@[j])@ == queue@[j]@,
            decreases queue@.len() - s,
        {
            pending_signals.push(queue[s].clone());
            s = s + 1;
        }
        assert(signals_view(pending_signals@) =~= signals_view(queue@));
        Ok(Snapshot {
            module_hash: self.module_hash,
            memory,
            memory_size_pages: #[verifier::truncate] (pages as u32),
            globals,
            tables,
            resume_fuel,
            pending_signals,
            reg_snapshot: None,
            resume_pc_offset: None,
        })
    }

    /// Puts the guest back to a snapshot of the same module: memory, globals
    /// (pairwise, as many as both have, in order), fuel and queued signals.
    /// A snapshot of another module is refused with nothing changed; where a
    /// global cannot be set the restore stops there, memory and the globals
    /// before it already restored.
    pub fn restore(&mut self, snap: &Snapshot) -> (r: Result<(), RuntimeError>)
        requires
            old(self).wf(),
            snap.module_hash@ == old(self).module_hash@ ==> snap.memory@.len() == memory_contents(
                old(self).store,
                old(self).memory,
            ).len(),
        ensures
            final(self).wf(),
            old(self).same_handles(*final(self)),
            snap.module_hash@ != old(self).module_hash@ ==> (r matches Err(
                RuntimeError::ModuleHashMismatch,
            )) && store_unchanged(old(self).store, final(self).store),
            snap.module_hash@ == old(self).module_hash@ ==> {
                &&& r is Ok <==> globals_accept(*old(self), *snap)
                &&& r matches Ok(()) ==> restored(*old(self), *snap, *final(self))
                &&& r matches Err(e) ==> e is GlobalRestore && restore_stopped(
                    *old(self),
                    *snap,
                    *final(self),
                )
            },
    {
        if !same_hash(&snap.module_hash, &self.module_hash) {
            return Err(RuntimeError::ModuleHashMismatch);
        }
        let ghost start = *self;
        memory_write(&self.memory, &mut self.store, snap.memory.as_slice());
        let n = if self.globals.len() <= snap.globals.len() {
            self.globals.len()
        } else {
            snap.globals.len()
        };
        let mut i: usize = 0;
        while i < n
            invariant
                start == *old(self),
                start.wf(),
                start.same_handles(*self),
                n == restored_global_count(start, *snap),
                snap.module_hash@ == start.module_hash@,
                n <= self.globals@.len(),
                n <= snap.globals@.len(),
                0 <= i <= n,
                store_identity(self.store) == store_identity(start.store),
                store_host(self.store) == store_host(start.store),
                store_fuel(self.store) == store_fuel(start.store),
                memory_contents(self.store, self.memory) == snap.memory@,
                store_fixed(start.store, self.store),
                forall|j: int|
                    0 <= j < i ==> #[trigger] global_accepts(start.store, start.globals@[j], snap.globals@[j]),
                forall|m: Memory| #[trigger] memory_pages(self.store, m) == memory_pages(start.store, m),
                forall|t: Table| #[trigger] table_length(self.store, t) == table_length(start.store, t),
                globals_written(start.store, self.store, start.globals@, snap.globals@, i as int),
            decreases n - i,
        {
            let ghost before = self.store;
            let g = self.globals[i];
            match global_set(&g, &mut self.store, snap.globals[i]) {
                Ok(()) => {},
                Err(e) => {
                    assert(!global_accepts(start.store, start.globals@[i as int], snap.globals@[i as int]));
                    assert(globals_written(start.store, self.store, start.globals@, snap.globals@, i as int));
                    return Err(RuntimeError::GlobalRestore(error_message(&e)));
                },
            }
            assert forall|h: Global|
                #[trigger] global_contents(self.store, h) == match last_write(
                    start.globals@,
                    snap.globals@,
                    i + 1,
                    h,
                ) {
                    Some(v) => Some(v),
                    None => global_contents(start.store, h),
                } by {
                if h != g {
                    assert(global_contents(self.store, h) == global_contents(before, h));
                }
            }
            i = i + 1;
        }
        let _ = store_set_fuel(&mut self.store, snap.resume_fuel);
        let mut queue: VecDeque<Signal> = VecDeque::new();
        let mut s: usize = 0;
        while s < snap.pending_signals.len()
            invariant
                0 <= s <= snap.pending_signals@.len(),
                queue@.len() == s,
                forall|j: int| 0 <= j < s ==> (#[trigger] queue@[j])@ == snap.pending_signals@[j]@,
            decreases snap.pending_signals@.len() - s,
        {
            queue.push_back(snap.pending_signals[s].clone());
            s = s + 1;
        }
        assert(signals_view(queue@) =~= signals_view(snap.pending_signals@));
        host_mut(&mut self.store).signal_queue = queue;
        Ok(())
    }

    /// Restores a snapshot where its memory fits: `None`, with nothing
    /// changed, where the snapshot is of this module but its memory is not as
    /// long as the guest's; otherwise what `restore` gives.
    pub fn try_restore(&mut self, snap: &Snapshot) -> (r: Option<Result<(), RuntimeError>>)
        requires
            old(self).wf(),
        ensures
            final(self).wf(),
            old(self).same_handles(*final(self)),
            r is None <==> (snap.module_hash@ == old(self).module_hash@ && snap.memory@.len()
                != memory_contents(old(self).store, old(self).memory).len()),
            r is None ==> store_unchanged(old(self).store, final(self).store),
            snap.module_hash@ != old(self).module_hash@ ==> (r matches Some(Err(
                RuntimeError::ModuleHashMismatch,
            ))) && store_unchanged(old(self).store, final(self).store),
            r matches Some(Ok(())) ==> restored(*old(self), *snap, *final(self)),
            r matches Some(Err(e)) ==> e is ModuleHashMismatch || e is GlobalRestore,
            snap.module_hash@ == old(self).module_hash@ && r is Some ==> {
                &&& (r matches Some(Ok(()))) <==> globals_accept(*old(self), *snap)
                &&& r matches Some(Err(e)) ==> e is GlobalRestore && restore_stopped(
                    *old(self),
                    *snap,
                    *final(self),
                )
            },
    {
        if same_hash(&snap.module_hash, &self.module_hash) && snap.memory.len() != memory_data_size(
            &self.memory,
            &self.store,
        ) {
            return None;
        }
        Some(self.restore(snap))
    }
}

proof fn lemma_last_write(gs: Seq<Global>, vs: Seq<GlobalValue>, k: int, g: Global)
    requires
        0 <= k,
    ensures
        (exists|j: int| 0 <= j < k && gs[j] == g) ==> last_write(gs, vs, k, g) is Some,
        last_write(gs, vs, k, g) matches Some(v) ==> exists|j: int|
            0 <= j < k && gs[j] == g && vs[j] == v,
    decreases k,
{
    if k > 0 {
        lemma_last_write(gs, vs, k - 1, g);
        if gs[k - 1] != g {
            assert forall|j: int| 0 <= j < k && gs[j] == g implies 0 <= j < k - 1 && gs[j] == g by {}
        }
    }
}

/// Restoring a snapshot onto the computer it was captured from (or any with
/// the same module, memory and globals, metering fuel alike) gives back the
/// captured memory, globals, fuel and queued signals. The snapshot's memory
/// fits the computer it was taken from, so the restore may be asked for.
pub proof fn restore_gives_back_captured_state(
    source: OcComputer,
    snap: Snapshot,
    target: OcComputer,
    after: OcComputer,
)
    requires
        captured(source, snap),
        target.memory == source.memory,
        target.globals@ == source.globals@,
        (store_fuel(target.store) is Some) == (store_fuel(source.store) is Some),
        target.same_handles(after),
        restored(target, snap, after),
    ensures
        memory_contents(after.store, after.memory) == memory_contents(source.store, source.memory),
        forall|i: int|
            0 <= i < after.globals@.len() ==> #[trigger] global_contents(after.store, after.globals@[i])
                == global_contents(source.store, source.globals@[i]),
        store_fuel(after.store) == store_fuel(source.store),
        signals_view(store_host(after.store).signal_queue@) == signals_view(
            store_host(source.store).signal_queue@,
        ),
        snap.memory@.len() == memory_contents(source.store, source.memory).len(),
{
    let gs = source.globals@;
    let vs = snap.globals@;
    let n = restored_global_count(target, snap);
    assert(n == gs.len());
    assert forall|i: int|
        0 <= i < after.globals@.len() implies #[trigger] global_contents(after.store, after.globals@[i])
        == global_contents(source.store, source.globals@[i]) by {
        let g = gs[i];
        lemma_last_write(gs, vs, n, g);
        assert(gs[i] == g);
        let v = last_write(gs, vs, n, g)->0;
        let j = choose|j: int| 0 <= j < n && gs[j] == g && vs[j] == v;
        assert(global_contents(source.store, gs[j]) == Some(vs[j]));
        assert(global_contents(after.store, g) == Some(v));
    }
}

/// On a computer whose host functions keep the host data, a snapshot request
/// is answered by the first slice that runs out of fuel and only by it: the
/// next such slice yields. Either slice keeps the signal queue, pending
/// exception and memory limit.
pub proof fn step_answers_snapshot_request_once(
    c0: OcComputer,
    r1: StepResult,
    c1: OcComputer,
    r2: StepResult,
    c2: OcComputer,
)
    requires
        store_keeps_host(c0.store),
        store_keeps_host(c1.store),
        store_host(c0.store).snapshot_requested,
        c0.slice_outcome() == CallOutcome::OutOfFuel,
        c0.stepped(c1, r1),
        c1.slice_outcome() == CallOutcome::OutOfFuel,
        c1.stepped(c2, r2),
    ensures
        r1 == StepResult::Snapshotted,
        r2 == StepResult::Yielded,
        !store_host(c1.store).snapshot_requested,
        !store_host(c2.store).snapshot_requested,
        store_host(c2.store).signal_queue == store_host(c0.store).signal_queue,
        store_host(c2.store).pending_exception == store_host(c0.store).pending_exception,
        store_host(c2.store).memory_limit == store_host(c0.store).memory_limit,
{
}

/// A snapshot captured from a computer whose globals are all mutable is
/// accepted in full when restored onto that computer, or onto any with the
/// same globals of the same types: the restore succeeds.
pub proof fn restore_of_capture_succeeds(source: OcComputer, snap: Snapshot, target: OcComputer)
    requires
        captured(source, snap),
        forall|i: int| 0 <= i < source.globals@.len() ==> #[trigger] global_mutable(source.store, source.globals@[i]),
        target.globals@ == source.globals@,
        forall|g: Global, v: GlobalValue| #[trigger] global_accepts(target.store, g, v) == global_accepts(source.store, g, v),
    ensures
        globals_accept(target, snap),
{
    assert forall|i: int| 0 <= i < restored_global_count(target, snap) implies #[trigger] global_accepts(
        target.store,
        target.globals@[i],
        snap.globals@[i],
    ) by {
        assert(global_mutable(source.store, source.globals@[i]));
        assert(global_accepts(source.store, source.globals@[i], snap.globals@[i]));
    }
}

/// The globals a computer keeps are those of the module's global exports, in
/// export order: each global export the instance resolves contributes its
/// global, and nothing else does.
pub proof fn exported_globals_are_the_global_exports(exports: Seq<(Seq<char>, ExportKind)>, instance: Instance)
    ensures
        exported_globals(exports, instance) == exports.filter_map(
            |e: (Seq<char>, ExportKind)|
                if e.1 == ExportKind::Global {
                    instance_global(instance, e.0)
                } else {
                    None
                },
        ),
        forall|k: int|
            0 <= k < exports.len() && #[trigger] exports[k].1 == ExportKind::Global && instance_global(
                instance,
                exports[k].0,
            ) is Some ==> exported_globals(exports, instance).contains(
                instance_global(instance, exports[k].0)->0,
            ),
    decreases exports.len(),
{
    if exports.len() > 0 {
        let rest = exports.drop_last();
        exported_globals_are_the_global_exports(rest, instance);
        let f = |e: (Seq<char>, ExportKind)|
            if e.1 == ExportKind::Global {
                instance_global(instance, e.0)
            } else {
                None
            };
        let earlier = exported_globals(rest, instance);
        assert(exported_globals(exports, instance) =~= exports.filter_map(f));
        assert forall|k: int|
            0 <= k < exports.len() && #[trigger] exports[k].1 == ExportKind::Global && instance_global(
                instance,
                exports[k].0,
            ) is Some implies exported_globals(exports, instance).contains(
                instance_global(instance, exports[k].0)->0,
            ) by {
            let g = instance_global(instance, exports[k].0)->0;
            if k == exports.len() - 1 {
                assert(exported_globals(exports, instance) == earlier.push(g));
                assert(earlier.push(g)[earlier.len() as int] == g);
            } else {
                assert(rest[k] == exports[k]);
                assert(earlier.contains(g));
                let j = choose|j: int| 0 <= j < earlier.len() && earlier[j] == g;
                assert(exported_globals(exports, instance)[j] == g);
            }
        }
    }
}

/// The tables a computer keeps are those of the module's table exports, in
/// export order.
pub proof fn exported_tables_are_the_table_exports(exports: Seq<(Seq<char>, ExportKind)>, instance: Instance)
    ensures
        exported_tables(exports, instance) == exports.filter_map(
            |e: (Seq<char>, ExportKind)|
                if e.1 == ExportKind::Table {
                    instance_table(instance, e.0)
                } else {
                    None
                },
        ),
    decreases exports.len(),
{
    if exports.len() > 0 {
        exported_tables_are_the_table_exports(exports.drop_last(), instance);
        let f = |e: (Seq<char>, ExportKind)|
            if e.1 == ExportKind::Table {
                instance_table(instance, e.0)
            } else {
                None
            };
        assert(exported_tables(exports, instance) =~= exports.filter_map(f));
    }
}

/// A slice calls `_start` wherever the instance exports it, `main` only where
/// it exports `main` and not `_start`, and otherwise the first export.
pub proof fn slice_calls_start_then_main(c: OcComputer)
    ensures
        instance_exports_func(c.instance, "_start"@) ==> c.entry_name() == "_start"@,
        !instance_exports_func(c.instance, "_start"@) && instance_exports_func(c.instance, "main"@)
            ==> c.entry_name() == "main"@,
        !instance_exports_func(c.instance, "_start"@) && !instance_exports_func(c.instance, "main"@)
            ==> c.entry_name() == instance_first_export(c.instance),
{
}

} // verus!
