//! The boundary to wasmtime: declarations of its types, names for what a
//! store and its instances hold, and one wrapper per wasmtime function that
//! the runtime calls.
use vstd::prelude::*;
use wasmtime::{
    Config, Engine, Error, ExternType, Func, Global, Instance, Linker, Memory, Module, OptLevel,
    Store, Table, Trap, Val,
};

use crate::host::{CallOutcome, HostState};
use crate::runtime::GlobalValue;
use crate::syscall::HostImport;

verus! {

#[verifier::external_type_specification]
#[verifier::external_body]
#[verifier::reject_recursive_types(T)]
pub struct ExStore<T: 'static>(Store<T>);

#[verifier::external_type_specification]
#[verifier::external_body]
#[verifier::reject_recursive_types(T)]
pub struct ExLinker<T>(Linker<T>);

#[verifier::external_type_specification]
#[verifier::external_body]
pub struct ExConfig(Config);

#[verifier::external_type_specification]
#[verifier::external_body]
pub struct ExEngine(Engine);

#[verifier::external_type_specification]
#[verifier::external_body]
pub struct ExError(Error);

#[verifier::external_type_specification]
#[verifier::external_body]
pub struct ExModule(Module);

#[verifier::external_type_specification]
#[verifier::external_body]
pub struct ExInstance(Instance);

#[verifier::external_type_specification]
#[verifier::external_body]
pub struct ExFunc(Func);

#[verifier::external_type_specification]
#[verifier::external_body]
pub struct ExMemory(Memory);

#[verifier::external_type_specification]
#[verifier::external_body]
pub struct ExGlobal(Global);

#[verifier::external_type_specification]
#[verifier::external_body]
pub struct ExTable(Table);

/// The kind of item a module exports.
#[derive(Clone, Copy, Debug, PartialEq, Eq, Structural)]
pub enum ExportKind {
    Func,
    Global,
    Table,
    Memory,
    Tag,
}

/// Cranelift's optimization levels.
#[derive(Clone, Copy, Debug, PartialEq, Eq, Structural)]
pub enum OptimizationLevel {
    Disabled,
    Speed,
    SpeedAndSize,
}

/// Whether a configuration turns on fuel metering.
pub uninterp spec fn config_meters_fuel(config: Config) -> bool;

/// The compilation target a configuration names, if it names one.
pub uninterp spec fn config_target_name(config: Config) -> Option<Seq<char>>;

/// Whether a configuration turns on the exception-handling proposal.
pub uninterp spec fn config_exceptions(config: Config) -> bool;

/// The Cranelift optimization level a configuration asks for, if it sets one.
pub uninterp spec fn config_opt_level(config: Config) -> Option<OptimizationLevel>;

/// Whether a name parses as a compilation target triple.
pub uninterp spec fn target_supported(name: Seq<char>) -> bool;

/// Whether an engine meters fuel.
pub uninterp spec fn engine_meters_fuel(engine: Engine) -> bool;

/// The compilation target an engine was configured with, if any.
pub uninterp spec fn engine_target_name(engine: Engine) -> Option<Seq<char>>;

/// Whether an engine accepts the exception-handling proposal.
pub uninterp spec fn engine_exceptions(engine: Engine) -> bool;

/// The Cranelift optimization level an engine was configured with, if any.
pub uninterp spec fn engine_opt_level(engine: Engine) -> Option<OptimizationLevel>;

/// Whether bytes form a valid module (binary, or text with the `wat`
/// feature) under the WebAssembly features an engine enables.
pub uninterp spec fn module_valid(engine: Engine, bytes: Seq<u8>) -> bool;

/// The bytes a module was compiled from.
pub uninterp spec fn module_bytes(module: Module) -> Seq<u8>;

/// The identity of a store, which the handles it owns carry.
pub uninterp spec fn store_identity(store: Store<HostState>) -> int;

/// The engine a store belongs to.
pub uninterp spec fn store_engine(store: Store<HostState>) -> Engine;

/// The host data a store holds.
pub uninterp spec fn store_host(store: Store<HostState>) -> HostState;

/// Whether every host function a store holds leaves the host data as it
/// found it.
pub uninterp spec fn store_keeps_host(store: Store<HostState>) -> bool;

/// The fuel left in a store; `None` where its engine does not meter fuel.
pub uninterp spec fn store_fuel(store: Store<HostState>) -> Option<u64>;

/// A store once its fuel has been set.
pub uninterp spec fn store_with_fuel(store: Store<HostState>, fuel: u64) -> Store<HostState>;

/// The bytes of a linear memory in a store.
pub uninterp spec fn memory_contents(store: Store<HostState>, memory: Memory) -> Seq<u8>;

/// The size of a linear memory in a store, in WebAssembly pages.
pub uninterp spec fn memory_pages(store: Store<HostState>, memory: Memory) -> u64;

/// The value of a global in a store, where it is one a snapshot can hold.
pub uninterp spec fn global_contents(store: Store<HostState>, global: Global) -> Option<GlobalValue>;

/// Whether a global can be set to a value: it is mutable and of the value's
/// type.
pub uninterp spec fn global_accepts(store: Store<HostState>, global: Global, value: GlobalValue) -> bool;

/// Whether a global is mutable.
pub uninterp spec fn global_mutable(store: Store<HostState>, global: Global) -> bool;

/// The number of elements of a table in a store.
pub uninterp spec fn table_length(store: Store<HostState>, table: Table) -> u64;

/// The store that owns an instance.
pub uninterp spec fn instance_owner(instance: Instance) -> int;

/// The module an instance was made from.
pub uninterp spec fn instance_module(instance: Instance) -> Module;

/// The store that owns a function.
pub uninterp spec fn func_owner(func: Func) -> int;

/// Whether a function is the export of an instance under a name.
pub uninterp spec fn func_is_export(func: Func, instance: Instance, name: Seq<char>) -> bool;

/// The store that owns a memory.
pub uninterp spec fn memory_owner(memory: Memory) -> int;

/// The store that owns a global.
pub uninterp spec fn global_owner(global: Global) -> int;

/// The store that owns a table.
pub uninterp spec fn table_owner(table: Table) -> int;

/// The exports of a module, in order: each name with the kind of item.
pub uninterp spec fn module_exports(module: Module) -> Seq<(Seq<char>, ExportKind)>;

/// The memory an instance exports under a name, if it exports one.
pub uninterp spec fn instance_memory(instance: Instance, name: Seq<char>) -> Option<Memory>;

/// The global an instance exports under a name, if it exports one.
pub uninterp spec fn instance_global(instance: Instance, name: Seq<char>) -> Option<Global>;

/// The table an instance exports under a name, if it exports one.
pub uninterp spec fn instance_table(instance: Instance, name: Seq<char>) -> Option<Table>;

/// Whether an instance exports a function under a name.
pub uninterp spec fn instance_exports_func(instance: Instance, name: Seq<char>) -> bool;

/// Whether the first export of an instance is a function.
pub uninterp spec fn instance_first_export_is_func(instance: Instance) -> bool;

/// The name of the first export of an instance.
pub uninterp spec fn instance_first_export(instance: Instance) -> Seq<char>;

/// How calling, with no arguments, the function an instance exports under a
/// name ends, run on a store.
pub uninterp spec fn call_outcome(store: Store<HostState>, instance: Instance, name: Seq<char>) -> CallOutcome;

/// The store after calling, with no arguments, the function an instance
/// exports under a name.
pub uninterp spec fn called_store(store: Store<HostState>, instance: Instance, name: Seq<char>) -> Store<HostState>;

/// The host imports a linker defines, as (module, name) pairs.
pub uninterp spec fn linker_imports(linker: Linker<HostState>) -> Set<(Seq<char>, Seq<char>)>;

/// The library host function a linker defines under a (module, name) pair;
/// `None` where the pair is undefined or defined otherwise.
pub uninterp spec fn linker_host_function(linker: Linker<HostState>, key: (Seq<char>, Seq<char>)) -> Option<HostImport>;

/// The engine a linker belongs to.
pub uninterp spec fn linker_engine(linker: Linker<HostState>) -> Engine;

/// Whether a linker lets a definition replace an earlier one of the same
/// module and name.
pub uninterp spec fn linker_allows_shadowing(linker: Linker<HostState>) -> bool;

/// Every import a linker defines is one of this library's host functions.
pub open spec fn linker_defines_library_only(linker: Linker<HostState>) -> bool {
    forall|k: (Seq<char>, Seq<char>)|
        #[trigger] linker_imports(linker).contains(k) ==> linker_host_function(linker, k) is Some
}

/// What never changes in a store: its identity, engine, the types of its
/// globals, and whether its host functions keep the host data.
pub open spec fn store_fixed(a: Store<HostState>, b: Store<HostState>) -> bool {
    &&& store_identity(b) == store_identity(a)
    &&& store_engine(b) == store_engine(a)
    &&& store_keeps_host(b) == store_keeps_host(a)
    &&& forall|g: Global, v: GlobalValue| #[trigger] global_accepts(b, g, v) == global_accepts(a, g, v)
    &&& forall|g: Global| #[trigger] global_mutable(b, g) == global_mutable(a, g)
}

/// Everything the runtime reads of a store is the same in `a` and `b`.
pub open spec fn store_unchanged(a: Store<HostState>, b: Store<HostState>) -> bool {
    &&& store_fixed(a, b)
    &&& store_host(b) == store_host(a)
    &&& store_fuel(b) == store_fuel(a)
    &&& forall|m: Memory| #[trigger] memory_contents(b, m) == memory_contents(a, m)
    &&& forall|m: Memory| #[trigger] memory_pages(b, m) == memory_pages(a, m)
    &&& forall|g: Global| #[trigger] global_contents(b, g) == global_contents(a, g)
    &&& forall|t: Table| #[trigger] table_length(b, t) == table_length(a, t)
}

/// `a` and `b` agree on everything the runtime reads of a store except the
/// host data.
pub open spec fn store_unchanged_but_host(a: Store<HostState>, b: Store<HostState>) -> bool {
    &&& store_fixed(a, b)
    &&& store_fuel(b) == store_fuel(a)
    &&& forall|m: Memory| #[trigger] memory_contents(b, m) == memory_contents(a, m)
    &&& forall|m: Memory| #[trigger] memory_pages(b, m) == memory_pages(a, m)
    &&& forall|g: Global| #[trigger] global_contents(b, g) == global_contents(a, g)
    &&& forall|t: Table| #[trigger] table_length(b, t) == table_length(a, t)
}

/// `Config::new`: a default configuration, which names no target and does
/// not meter fuel.
#[verifier::external_body]
pub(crate) fn config_new() -> (config: Config)
    ensures
        !config_meters_fuel(config),
        config_target_name(config) is None,
        config_opt_level(config) is None,
{
    Config::new()
}

/// `Config::target`: selects the compilation target by name; fails, changing
/// nothing, on a name that does not parse as a target triple. Other settings are kept.
#[verifier::external_body]
pub(crate) fn config_target(config: &mut Config, target: &str) -> (r: Result<(), Error>)
    ensures
        r is Ok <==> target_supported(target@),
        config_target_name(*final(config)) == if r is Ok {
            Some(target@)
        } else {
            config_target_name(*old(config))
        },
        config_meters_fuel(*final(config)) == config_meters_fuel(*old(config)),
        config_exceptions(*final(config)) == config_exceptions(*old(config)),
        config_opt_level(*final(config)) == config_opt_level(*old(config)),
{
    config.target(target).map(|_| ())
}

/// `Config::consume_fuel`: turns fuel metering on or off; other settings are
/// kept.
#[verifier::external_body]
pub(crate) fn config_consume_fuel(config: &mut Config, enable: bool)
    ensures
        config_meters_fuel(*final(config)) == enable,
        config_target_name(*final(config)) == config_target_name(*old(config)),
        config_exceptions(*final(config)) == config_exceptions(*old(config)),
        config_opt_level(*final(config)) == config_opt_level(*old(config)),
{
    config.consume_fuel(enable);
}

/// `Config::wasm_exceptions`: turns the exception-handling proposal on or
/// off; other settings are kept.
#[verifier::external_body]
pub(crate) fn config_wasm_exceptions(config: &mut Config, enable: bool)
    ensures
        config_exceptions(*final(config)) == enable,
        config_meters_fuel(*final(config)) == config_meters_fuel(*old(config)),
        config_target_name(*final(config)) == config_target_name(*old(config)),
        config_opt_level(*final(config)) == config_opt_level(*old(config)),
{
    config.wasm_exceptions(enable);
}

/// `Config::cranelift_opt_level`: sets Cranelift's optimization level; other
/// settings are kept.
#[verifier::external_body]
pub(crate) fn config_cranelift_opt_level(config: &mut Config, level: OptimizationLevel)
    ensures
        config_opt_level(*final(config)) == Some(level),
        config_meters_fuel(*final(config)) == config_meters_fuel(*old(config)),
        config_target_name(*final(config)) == config_target_name(*old(config)),
        config_exceptions(*final(config)) == config_exceptions(*old(config)),
{
    config.cranelift_opt_level(
        match level {
            OptimizationLevel::Disabled => OptLevel::None,
            OptimizationLevel::Speed => OptLevel::Speed,
            OptimizationLevel::SpeedAndSize => OptLevel::SpeedAndSize,
        },
    );
}

/// `Engine::new`: an engine for a configuration, with its settings. Whether
/// the configuration is accepted is not stated: it depends on the machine.
#[verifier::external_body]
pub(crate) fn engine_new(config: &Config) -> (r: Result<Engine, Error>)
    ensures
        r matches Ok(engine) ==> {
            &&& engine_meters_fuel(engine) == config_meters_fuel(*config)
            &&& engine_target_name(engine) == config_target_name(*config)
            &&& engine_exceptions(engine) == config_exceptions(*config)
            &&& engine_opt_level(engine) == config_opt_level(*config)
        },
{
    Engine::new(config)
}

/// `Module::new`: compiles a module from its binary (or, with the `wat`
/// feature, text) form; fails on bytes that are not a valid module. Whether a
/// valid module compiles is not stated: it depends on the host.
#[verifier::external_body]
pub(crate) fn module_new(engine: &Engine, bytes: &[u8]) -> (r: Result<Module, Error>)
    ensures
        !module_valid(*engine, bytes@) ==> r is Err,
        r matches Ok(m) ==> module_bytes(m) == bytes@,
{
    Module::new(engine, bytes)
}

/// `Module::exports`, each export taken as its name and kind, in order.
#[verifier::external_body]
pub(crate) fn module_export_list(module: &Module) -> (exports: Vec<(String, ExportKind)>)
    ensures
        exports@.len() == module_exports(*module).len(),
        forall|i: int|
            0 <= i < exports@.len() ==> (#[trigger] exports@[i]).0@ == module_exports(*module)[i].0
                && exports@[i].1 == module_exports(*module)[i].1,
{
    module.exports().map(|e| (e.name().to_string(), match e.ty() {
        ExternType::Func(_) => ExportKind::Func,
        ExternType::Global(_) => ExportKind::Global,
        ExternType::Table(_) => ExportKind::Table,
        ExternType::Memory(_) => ExportKind::Memory,
        ExternType::Tag(_) => ExportKind::Tag,
    })).collect()
}

/// `Store::new`: a store of the engine holding `data` and no host function;
/// it starts with no fuel where its engine meters fuel.
#[verifier::external_body]
pub(crate) fn store_new(engine: &Engine, data: HostState) -> (store: Store<HostState>)
    ensures
        store_host(store) == data,
        store_engine(store) == *engine,
        store_keeps_host(store),
        store_fuel(store) == if engine_meters_fuel(*engine) {
            Some(0u64)
        } else {
            None
        },
{
    Store::new(engine, data)
}

/// `Store::data`: the host data of a store.
#[verifier::external_body]
pub(crate) fn host(store: &Store<HostState>) -> (h: &HostState)
    ensures
        *h == store_host(*store),
{
    store.data()
}

/// `Store::data_mut`: exclusive access to the host data of a store; nothing
/// else in the store changes.
#[verifier::external_body]
pub(crate) fn host_mut(store: &mut Store<HostState>) -> (h: &mut HostState)
    ensures
        *h == store_host(*old(store)),
        store_host(*final(store)) == *final(h),
        store_unchanged_but_host(*old(store), *final(store)),
{
    store.data_mut()
}

/// `Store::get_fuel`, with its error (fuel not metered) taken as `None`.
#[verifier::external_body]
pub(crate) fn store_get_fuel(store: &Store<HostState>) -> (fuel: Option<u64>)
    ensures
        fuel == store_fuel(*store),
{
    store.get_fuel().ok()
}

/// `Store::set_fuel`: sets the fuel left; fails, changing nothing, where the
/// engine does not meter fuel.
#[verifier::external_body]
pub(crate) fn store_set_fuel(store: &mut Store<HostState>, fuel: u64) -> (r: Result<(), Error>)
    ensures
        r is Ok <==> store_fuel(*old(store)) is Some,
        r is Ok ==> *final(store) == store_with_fuel(*old(store), fuel),
        r is Err ==> *final(store) == *old(store),
        r is Ok ==> store_fuel(*final(store)) == Some(fuel),
        store_fixed(*old(store), *final(store)),
        store_host(*final(store)) == store_host(*old(store)),
        forall|m: Memory| #[trigger] memory_contents(*final(store), m) == memory_contents(*old(store), m),
        forall|m: Memory| #[trigger] memory_pages(*final(store), m) == memory_pages(*old(store), m),
        forall|g: Global| #[trigger] global_contents(*final(store), g) == global_contents(*old(store), g),
        forall|t: Table| #[trigger] table_length(*final(store), t) == table_length(*old(store), t),
{
    store.set_fuel(fuel)
}

/// `Linker::new`: a linker of the engine that defines no import yet and
/// refuses to define one twice.
#[verifier::external_body]
pub(crate) fn linker_new(engine: &Engine) -> (linker: Linker<HostState>)
    ensures
        linker_imports(linker) == Set::<(Seq<char>, Seq<char>)>::empty(),
        forall|k: (Seq<char>, Seq<char>)| #[trigger] linker_host_function(linker, k) is None,
        linker_engine(linker) == *engine,
        !linker_allows_shadowing(linker),
{
    Linker::new(engine)
}

/// `Linker::instantiate`: instantiates a module in a store of the linker's
/// engine, running its start function if it has one; the instance belongs to
/// the store and is made from the module. Where the store's and the linker's
/// host functions all keep the host data, the host data is kept and so is
/// that property. Else what the start function does to the store is not
/// stated; nor is whether instantiation succeeds, which depends on the
/// address space the environment grants.
#[verifier::external_body]
pub(crate) fn linker_instantiate(
    linker: &Linker<HostState>,
    store: &mut Store<HostState>,
    module: &Module,
) -> (r: Result<Instance, Error>)
    requires
        store_engine(*old(store)) == linker_engine(*linker),
    ensures
        store_identity(*final(store)) == store_identity(*old(store)),
        store_engine(*final(store)) == store_engine(*old(store)),
        (store_fuel(*final(store)) is Some) == (store_fuel(*old(store)) is Some),
        store_keeps_host(*old(store)) && linker_defines_library_only(*linker) ==> store_keeps_host(
            *final(store),
        ) && store_host(*final(store)) == store_host(*old(store)),
        r matches Ok(instance) ==> instance_owner(instance) == store_identity(*final(store))
            && instance_module(instance) == *module,
{
    linker.instantiate(store, module)
}

/// `Instance::get_memory`: the memory exported under `name`, if any.
#[verifier::external_body]
pub(crate) fn instance_get_memory(instance: &Instance, store: &mut Store<HostState>, name: &str) -> (r:
    Option<Memory>)
    requires
        instance_owner(*instance) == store_identity(*old(store)),
    ensures
        r == instance_memory(*instance, name@),
        r matches Some(m) ==> memory_owner(m) == store_identity(*old(store)),
        store_unchanged(*old(store), *final(store)),
{
    instance.get_memory(store, name)
}

/// `Instance::get_global`: the global exported under `name`, if any.
#[verifier::external_body]
pub(crate) fn instance_get_global(instance: &Instance, store: &mut Store<HostState>, name: &str) -> (r:
    Option<Global>)
    requires
        instance_owner(*instance) == store_identity(*old(store)),
    ensures
        r == instance_global(*instance, name@),
        r matches Some(g) ==> global_owner(g) == store_identity(*old(store)),
        store_unchanged(*old(store), *final(store)),
{
    instance.get_global(store, name)
}

/// `Instance::get_table`: the table exported under `name`, if any.
#[verifier::external_body]
pub(crate) fn instance_get_table(instance: &Instance, store: &mut Store<HostState>, name: &str) -> (r:
    Option<Table>)
    requires
        instance_owner(*instance) == store_identity(*old(store)),
    ensures
        r == instance_table(*instance, name@),
        r matches Some(t) ==> table_owner(t) == store_identity(*old(store)),
        store_unchanged(*old(store), *final(store)),
{
    instance.get_table(store, name)
}

/// `Instance::get_func`: the function exported under `name`, if any. The
/// store is as it was: the lookup only fills wasmtime's cache of exports.
#[verifier::external_body]
pub(crate) fn instance_get_func(instance: &Instance, store: &mut Store<HostState>, name: &str) -> (r:
    Option<Func>)
    requires
        instance_owner(*instance) == store_identity(*old(store)),
    ensures
        r is Some <==> instance_exports_func(*instance, name@),
        r matches Some(f) ==> func_owner(f) == store_identity(*old(store)) && func_is_export(
            f,
            *instance,
            name@,
        ),
        *final(store) == *old(store),
{
    instance.get_func(store, name)
}

/// `Instance::exports`: the first export, where it is a function. The store
/// is as it was: the lookup only fills wasmtime's cache of exports.
#[verifier::external_body]
pub(crate) fn instance_first_func(instance: &Instance, store: &mut Store<HostState>) -> (r: Option<Func>)
    requires
        instance_owner(*instance) == store_identity(*old(store)),
    ensures
        r is Some <==> instance_first_export_is_func(*instance),
        r matches Some(f) ==> func_owner(f) == store_identity(*old(store)) && func_is_export(
            f,
            *instance,
            instance_first_export(*instance),
        ),
        *final(store) == *old(store),
{
    instance.exports(store).next().and_then(|e| e.into_func())
}

/// `Func::call` with no parameters and no results, its error told apart as
/// running out of fuel or anything else (with its message). The outcome and
/// the store after it are those of calling the export the function is.
/// Where the store's host functions keep the host data, the host data is
/// kept; whether the store meters fuel stays as it was.
#[verifier::external_body]
pub(crate) fn func_call(func: &Func, store: &mut Store<HostState>) -> (outcome: CallOutcome)
    requires
        func_owner(*func) == store_identity(*old(store)),
    ensures
        forall|i: Instance, n: Seq<char>|
            #[trigger] func_is_export(*func, i, n) ==> outcome == call_outcome(*old(store), i, n)
                && *final(store) == called_store(*old(store), i, n),
        store_identity(*final(store)) == store_identity(*old(store)),
        store_engine(*final(store)) == store_engine(*old(store)),
        store_keeps_host(*final(store)) == store_keeps_host(*old(store)),
        forall|g: Global, v: GlobalValue| #[trigger] global_accepts(*final(store), g, v) == global_accepts(*old(store), g, v),
        forall|g: Global| #[trigger] global_mutable(*final(store), g) == global_mutable(*old(store), g),
        store_keeps_host(*old(store)) ==> store_host(*final(store)) == store_host(*old(store)),
        (store_fuel(*final(store)) is Some) == (store_fuel(*old(store)) is Some),
{
    match func.call(&mut *store, &[], &mut []) {
        Ok(()) => CallOutcome::Returned,
        Err(e) => match e.downcast_ref::<Trap>() {
            Some(Trap::OutOfFuel) => CallOutcome::OutOfFuel,
            _ => CallOutcome::Failed(e.to_string()),
        },
    }
}

/// `Memory::data`, copied out.
#[verifier::external_body]
pub(crate) fn memory_read(memory: &Memory, store: &Store<HostState>) -> (bytes: Vec<u8>)
    requires
        memory_owner(*memory) == store_identity(*store),
    ensures
        bytes@ == memory_contents(*store, *memory),
{
    memory.data(store).to_vec()
}

/// `Memory::data_mut`, overwritten with `bytes` of the same length; nothing
/// else in the store changes.
#[verifier::external_body]
pub(crate) fn memory_write(memory: &Memory, store: &mut Store<HostState>, bytes: &[u8])
    requires
        memory_owner(*memory) == store_identity(*old(store)),
        bytes@.len() == memory_contents(*old(store), *memory).len(),
    ensures
        memory_contents(*final(store), *memory) == bytes@,
        forall|m: Memory| m != *memory ==> #[trigger] memory_contents(*final(store), m) == memory_contents(*old(store), m),
        forall|m: Memory| #[trigger] memory_pages(*final(store), m) == memory_pages(*old(store), m),
        store_fixed(*old(store), *final(store)),
        store_host(*final(store)) == store_host(*old(store)),
        store_fuel(*final(store)) == store_fuel(*old(store)),
        forall|g: Global| #[trigger] global_contents(*final(store), g) == global_contents(*old(store), g),
        forall|t: Table| #[trigger] table_length(*final(store), t) == table_length(*old(store), t),
{
    memory.data_mut(store).copy_from_slice(bytes)
}

/// `Memory::data_size`: the length of the memory in bytes.
#[verifier::external_body]
pub(crate) fn memory_data_size(memory: &Memory, store: &Store<HostState>) -> (len: usize)
    requires
        memory_owner(*memory) == store_identity(*store),
    ensures
        len == memory_contents(*store, *memory).len(),
{
    memory.data_size(store)
}

/// `Memory::size`: the size in WebAssembly pages; the memory's bytes are
/// that many pages of 64 KiB, or of one byte under the custom-page-sizes
/// proposal.
#[verifier::external_body]
pub(crate) fn memory_size(memory: &Memory, store: &Store<HostState>) -> (pages: u64)
    requires
        memory_owner(*memory) == store_identity(*store),
    ensures
        pages == memory_pages(*store, *memory),
        memory_contents(*store, *memory).len() == pages * 65536 || memory_contents(*store, *memory).len()
            == pages,
{
    memory.size(store)
}

/// `Global::get`, taken as a snapshot value where it is an `i32`, `i64`,
/// `f32` or `f64` (the floats by their bits), `None` for any other type. The
/// value read is of the global's type, so the global accepts it back exactly
/// where it is mutable.
#[verifier::external_body]
pub(crate) fn global_get(global: &Global, store: &mut Store<HostState>) -> (value: Option<GlobalValue>)
    requires
        global_owner(*global) == store_identity(*old(store)),
    ensures
        value == global_contents(*old(store), *global),
        value matches Some(v) ==> global_accepts(*old(store), *global, v) == global_mutable(
            *old(store),
            *global,
        ),
        store_unchanged(*old(store), *final(store)),
{
    match global.get(store) {
        Val::I32(v) => Some(GlobalValue::I32(v)),
        Val::I64(v) => Some(GlobalValue::I64(v)),
        Val::F32(v) => Some(GlobalValue::F32(v)),
        Val::F64(v) => Some(GlobalValue::F64(v)),
        _ => None,
    }
}

/// `Global::set`: succeeds exactly where the global is mutable and of the
/// value's type; fails otherwise, changing nothing; only this global changes.
#[verifier::external_body]
pub(crate) fn global_set(global: &Global, store: &mut Store<HostState>, value: GlobalValue) -> (r: Result<
    (),
    Error,
>)
    requires
        global_owner(*global) == store_identity(*old(store)),
    ensures
        r is Ok <==> global_accepts(*old(store), *global, value),
        r is Ok ==> global_contents(*final(store), *global) == Some(value),
        r is Err ==> global_contents(*final(store), *global) == global_contents(*old(store), *global),
        forall|g: Global| g != *global ==> #[trigger] global_contents(*final(store), g) == global_contents(*old(store), g),
        store_fixed(*old(store), *final(store)),
        store_host(*final(store)) == store_host(*old(store)),
        store_fuel(*final(store)) == store_fuel(*old(store)),
        forall|m: Memory| #[trigger] memory_contents(*final(store), m) == memory_contents(*old(store), m),
        forall|m: Memory| #[trigger] memory_pages(*final(store), m) == memory_pages(*old(store), m),
        forall|t: Table| #[trigger] table_length(*final(store), t) == table_length(*old(store), t),
{
    global.set(store, match value {
        GlobalValue::I32(v) => Val::I32(v),
        GlobalValue::I64(v) => Val::I64(v),
        GlobalValue::F32(v) => Val::F32(v),
        GlobalValue::F64(v) => Val::F64(v),
    })
}

/// `Table::size`: the number of elements.
#[verifier::external_body]
pub(crate) fn table_size(table: &Table, store: &Store<HostState>) -> (len: u64)
    requires
        table_owner(*table) == store_identity(*store),
    ensures
        len == table_length(*store, *table),
{
    table.size(store)
}

/// The message of a wasmtime error (its `Display`).
#[verifier::external_body]
pub(crate) fn error_message(error: &Error) -> String {
    error.to_string()
}

} // verus!
