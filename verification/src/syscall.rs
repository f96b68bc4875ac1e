//! The host imports a guest links against, all in the `oc` module.
use vstd::prelude::*;
use wasmtime::{Caller, Error, Linker};

use crate::host::HostState;
use crate::wasm::{linker_allows_shadowing, linker_engine, linker_host_function, linker_imports};

verus! {

/// The host functions this library defines for guests, each with its
/// signature and behaviour: the `HostState` method that answers it, or
/// nothing.
#[derive(Clone, Copy, Debug, PartialEq, Eq, Structural)]
pub enum HostImport {
    /// `(i32, i32, i32) -> i32`, answered by `HostState::component_invoke`.
    ComponentInvoke,
    /// `() -> i32`, answered by `HostState::signal_count`.
    SignalCount,
    /// `(i32) -> i32`, answered by `HostState::signal_pop`.
    SignalPop,
    /// `(i32, i32) -> ()`, doing nothing.
    Log,
    /// `() -> ()`, doing nothing.
    CheckpointPoll,
    /// `() -> i32`, answered by `HostState::memory_size`.
    MemorySize,
}

/// The imports `register_all` defines, as (module, name) pairs.
pub open spec fn oc_imports() -> Set<(Seq<char>, Seq<char>)> {
    set![
        ("oc"@, "component_invoke"@),
        ("oc"@, "signal_count"@),
        ("oc"@, "signal_pop"@),
        ("oc"@, "log"@),
        ("oc"@, "checkpoint_poll"@),
        ("oc"@, "memory_size"@),
    ]
}

/// `Linker::func_wrap` (refused exactly where the name is already defined
/// and the linker does not allow shadowing) of `(i32, i32, i32) -> i32` answered by
/// `HostState::component_invoke`; on failure the linker is left as it was.
#[verifier::external_body]
fn define_component_invoke(linker: &mut Linker<HostState>, module: &str, name: &str) -> (r: Result<(), Error>)
    ensures
        r is Ok ==> linker_imports(*final(linker)) == linker_imports(*old(linker)).insert((module@, name@)),
        r is Ok ==> linker_host_function(*final(linker), (module@, name@)) == Some(HostImport::ComponentInvoke),
        r is Ok ==> forall|k: (Seq<char>, Seq<char>)|
            k != (module@, name@) ==> #[trigger] linker_host_function(*final(linker), k)
                == linker_host_function(*old(linker), k),
        r is Err ==> linker_imports(*final(linker)) == linker_imports(*old(linker)),
        r is Err ==> forall|k: (Seq<char>, Seq<char>)|
            #[trigger] linker_host_function(*final(linker), k) == linker_host_function(*old(linker), k),
        linker_engine(*final(linker)) == linker_engine(*old(linker)),
        r is Ok <==> (linker_allows_shadowing(*old(linker)) || !linker_imports(*old(linker)).contains(
            (module@, name@),
        )),
        linker_allows_shadowing(*final(linker)) == linker_allows_shadowing(*old(linker)),
{
    linker.func_wrap(module, name, |caller: Caller<'_, HostState>, method_ptr: i32, args_ptr: i32, result_ptr: i32| -> i32 {
        caller.data().component_invoke(method_ptr, args_ptr, result_ptr)
    }).map(|_| ())
}

/// `Linker::func_wrap` (refused exactly where the name is already defined
/// and the linker does not allow shadowing) of `() -> i32` answered by `HostState::signal_count`;
/// on failure the linker is left as it was.
#[verifier::external_body]
fn define_signal_count(linker: &mut Linker<HostState>, module: &str, name: &str) -> (r: Result<(), Error>)
    ensures
        r is Ok ==> linker_imports(*final(linker)) == linker_imports(*old(linker)).insert((module@, name@)),
        r is Ok ==> linker_host_function(*final(linker), (module@, name@)) == Some(HostImport::SignalCount),
        r is Ok ==> forall|k: (Seq<char>, Seq<char>)|
            k != (module@, name@) ==> #[trigger] linker_host_function(*final(linker), k)
                == linker_host_function(*old(linker), k),
        r is Err ==> linker_imports(*final(linker)) == linker_imports(*old(linker)),
        r is Err ==> forall|k: (Seq<char>, Seq<char>)|
            #[trigger] linker_host_function(*final(linker), k) == linker_host_function(*old(linker), k),
        linker_engine(*final(linker)) == linker_engine(*old(linker)),
        r is Ok <==> (linker_allows_shadowing(*old(linker)) || !linker_imports(*old(linker)).contains(
            (module@, name@),
        )),
        linker_allows_shadowing(*final(linker)) == linker_allows_shadowing(*old(linker)),
{
    linker.func_wrap(module, name, |caller: Caller<'_, HostState>| -> i32 {
        caller.data().signal_count()
    }).map(|_| ())
}

/// `Linker::func_wrap` (refused exactly where the name is already defined
/// and the linker does not allow shadowing) of `(i32) -> i32` answered by `HostState::signal_pop`;
/// on failure the linker is left as it was.
#[verifier::external_body]
fn define_signal_pop(linker: &mut Linker<HostState>, module: &str, name: &str) -> (r: Result<(), Error>)
    ensures
        r is Ok ==> linker_imports(*final(linker)) == linker_imports(*old(linker)).insert((module@, name@)),
        r is Ok ==> linker_host_function(*final(linker), (module@, name@)) == Some(HostImport::SignalPop),
        r is Ok ==> forall|k: (Seq<char>, Seq<char>)|
            k != (module@, name@) ==> #[trigger] linker_host_function(*final(linker), k)
                == linker_host_function(*old(linker), k),
        r is Err ==> linker_imports(*final(linker)) == linker_imports(*old(linker)),
        r is Err ==> forall|k: (Seq<char>, Seq<char>)|
            #[trigger] linker_host_function(*final(linker), k) == linker_host_function(*old(linker), k),
        linker_engine(*final(linker)) == linker_engine(*old(linker)),
        r is Ok <==> (linker_allows_shadowing(*old(linker)) || !linker_imports(*old(linker)).contains(
            (module@, name@),
        )),
        linker_allows_shadowing(*final(linker)) == linker_allows_shadowing(*old(linker)),
{
    linker.func_wrap(module, name, |caller: Caller<'_, HostState>, buf_ptr: i32| -> i32 {
        caller.data().signal_pop(buf_ptr)
    }).map(|_| ())
}

/// `Linker::func_wrap` (refused exactly where the name is already defined
/// and the linker does not allow shadowing) of `(i32, i32) -> ()` that does nothing; on failure
/// the linker is left as it was.
#[verifier::external_body]
fn define_log(linker: &mut Linker<HostState>, module: &str, name: &str) -> (r: Result<(), Error>)
    ensures
        r is Ok ==> linker_imports(*final(linker)) == linker_imports(*old(linker)).insert((module@, name@)),
        r is Ok ==> linker_host_function(*final(linker), (module@, name@)) == Some(HostImport::Log),
        r is Ok ==> forall|k: (Seq<char>, Seq<char>)|
            k != (module@, name@) ==> #[trigger] linker_host_function(*final(linker), k)
                == linker_host_function(*old(linker), k),
        r is Err ==> linker_imports(*final(linker)) == linker_imports(*old(linker)),
        r is Err ==> forall|k: (Seq<char>, Seq<char>)|
            #[trigger] linker_host_function(*final(linker), k) == linker_host_function(*old(linker), k),
        linker_engine(*final(linker)) == linker_engine(*old(linker)),
        r is Ok <==> (linker_allows_shadowing(*old(linker)) || !linker_imports(*old(linker)).contains(
            (module@, name@),
        )),
        linker_allows_shadowing(*final(linker)) == linker_allows_shadowing(*old(linker)),
{
    linker.func_wrap(module, name, |_caller: Caller<'_, HostState>, _msg_ptr: i32, _msg_len: i32| {}).map(|_| ())
}

/// `Linker::func_wrap` (refused exactly where the name is already defined
/// and the linker does not allow shadowing) of `() -> ()` that does nothing; on failure the linker
/// is left as it was.
#[verifier::external_body]
fn define_checkpoint_poll(linker: &mut Linker<HostState>, module: &str, name: &str) -> (r: Result<(), Error>)
    ensures
        r is Ok ==> linker_imports(*final(linker)) == linker_imports(*old(linker)).insert((module@, name@)),
        r is Ok ==> linker_host_function(*final(linker), (module@, name@)) == Some(HostImport::CheckpointPoll),
        r is Ok ==> forall|k: (Seq<char>, Seq<char>)|
            k != (module@, name@) ==> #[trigger] linker_host_function(*final(linker), k)
                == linker_host_function(*old(linker), k),
        r is Err ==> linker_imports(*final(linker)) == linker_imports(*old(linker)),
        r is Err ==> forall|k: (Seq<char>, Seq<char>)|
            #[trigger] linker_host_function(*final(linker), k) == linker_host_function(*old(linker), k),
        linker_engine(*final(linker)) == linker_engine(*old(linker)),
        r is Ok <==> (linker_allows_shadowing(*old(linker)) || !linker_imports(*old(linker)).contains(
            (module@, name@),
        )),
        linker_allows_shadowing(*final(linker)) == linker_allows_shadowing(*old(linker)),
{
    linker.func_wrap(module, name, |_caller: Caller<'_, HostState>| {}).map(|_| ())
}

/// `Linker::func_wrap` (refused exactly where the name is already defined
/// and the linker does not allow shadowing) of `() -> i32` answered by `HostState::memory_size`;
/// on failure the linker is left as it was.
#[verifier::external_body]
fn define_memory_size(linker: &mut Linker<HostState>, module: &str, name: &str) -> (r: Result<(), Error>)
    ensures
        r is Ok ==> linker_imports(*final(linker)) == linker_imports(*old(linker)).insert((module@, name@)),
        r is Ok ==> linker_host_function(*final(linker), (module@, name@)) == Some(HostImport::MemorySize),
        r is Ok ==> forall|k: (Seq<char>, Seq<char>)|
            k != (module@, name@) ==> #[trigger] linker_host_function(*final(linker), k)
                == linker_host_function(*old(linker), k),
        r is Err ==> linker_imports(*final(linker)) == linker_imports(*old(linker)),
        r is Err ==> forall|k: (Seq<char>, Seq<char>)|
            #[trigger] linker_host_function(*final(linker), k) == linker_host_function(*old(linker), k),
        linker_engine(*final(linker)) == linker_engine(*old(linker)),
        r is Ok <==> (linker_allows_shadowing(*old(linker)) || !linker_imports(*old(linker)).contains(
            (module@, name@),
        )),
        linker_allows_shadowing(*final(linker)) == linker_allows_shadowing(*old(linker)),
{
    linker.func_wrap(module, name, |caller: Caller<'_, HostState>| -> i32 {
        caller.data().memory_size()
    }).map(|_| ())
}

/// Each `oc` import is defined by the library host function of its name.
pub open spec fn oc_definitions(linker: Linker<HostState>) -> bool {
    &&& linker_host_function(linker, ("oc"@, "component_invoke"@)) == Some(HostImport::ComponentInvoke)
    &&& linker_host_function(linker, ("oc"@, "signal_count"@)) == Some(HostImport::SignalCount)
    &&& linker_host_function(linker, ("oc"@, "signal_pop"@)) == Some(HostImport::SignalPop)
    &&& linker_host_function(linker, ("oc"@, "log"@)) == Some(HostImport::Log)
    &&& linker_host_function(linker, ("oc"@, "checkpoint_poll"@)) == Some(HostImport::CheckpointPoll)
    &&& linker_host_function(linker, ("oc"@, "memory_size"@)) == Some(HostImport::MemorySize)
}

/// Defines the `oc` host imports in a linker; where it succeeds the linker
/// defines exactly those imports on top of what it had. It fails exactly
/// where the linker already defines one of them and does not allow
/// shadowing.
pub fn register_all(linker: &mut Linker<HostState>) -> (r: Result<(), Error>)
    ensures
        r is Ok ==> linker_imports(*final(linker)) == linker_imports(*old(linker)).union(oc_imports()),
        r is Ok <==> (linker_allows_shadowing(*old(linker)) || forall|i: (Seq<char>, Seq<char>)|
            #[trigger] oc_imports().contains(i) ==> !linker_imports(*old(linker)).contains(i)),
        linker_allows_shadowing(*final(linker)) == linker_allows_shadowing(*old(linker)),
        linker_engine(*final(linker)) == linker_engine(*old(linker)),
        r is Ok ==> oc_definitions(*final(linker)),
        r is Ok ==> forall|k: (Seq<char>, Seq<char>)|
            !oc_imports().contains(k) ==> #[trigger] linker_host_function(*final(linker), k)
                == linker_host_function(*old(linker), k),
        !linker_allows_shadowing(*old(linker)) && linker_imports(*old(linker)).contains(
            ("oc"@, "component_invoke"@),
        ) ==> linker_imports(*final(linker)) == linker_imports(*old(linker)) && forall|
            k: (Seq<char>, Seq<char>),
        | #[trigger] linker_host_function(*final(linker), k) == linker_host_function(*old(linker), k),
{
    proof {
        reveal_strlit("component_invoke");
        reveal_strlit("signal_count");
        reveal_strlit("signal_pop");
        reveal_strlit("log");
        reveal_strlit("checkpoint_poll");
        reveal_strlit("memory_size");
        assert("component_invoke"@.len() == 16);
        assert("signal_count"@.len() == 12);
        assert("signal_pop"@.len() == 10);
        assert("log"@.len() == 3);
        assert("checkpoint_poll"@.len() == 15);
        assert("memory_size"@.len() == 11);
    }
    let ghost before = linker_imports(*linker);
    let ghost shadow = linker_allows_shadowing(*linker);
    assert(linker_imports(*linker) == before);
    let r0 = define_component_invoke(linker, "oc", "component_invoke");
    if r0.is_err() {
        assert(!shadow && before.contains(("oc"@, "component_invoke"@)) && oc_imports().contains(("oc"@, "component_invoke"@)));
        return r0;
    }
    assert(linker_imports(*linker) == before.insert(("oc"@, "component_invoke"@)));
    let r1 = define_signal_count(linker, "oc", "signal_count");
    if r1.is_err() {
        assert(!shadow && before.contains(("oc"@, "signal_count"@)) && oc_imports().contains(("oc"@, "signal_count"@)));
        return r1;
    }
    assert(linker_imports(*linker) == before.insert(("oc"@, "component_invoke"@)) .insert(("oc"@, "signal_count"@)));
    let r2 = define_signal_pop(linker, "oc", "signal_pop");
    if r2.is_err() {
        assert(!shadow && before.contains(("oc"@, "signal_pop"@)) && oc_imports().contains(("oc"@, "signal_pop"@)));
        return r2;
    }
    assert(linker_imports(*linker) == before.insert(("oc"@, "component_invoke"@)) .insert(("oc"@, "signal_count"@)) .insert(("oc"@, "signal_pop"@)));
    let r3 = define_log(linker, "oc", "log");
    if r3.is_err() {
        assert(!shadow && before.contains(("oc"@, "log"@)) && oc_imports().contains(("oc"@, "log"@)));
        return r3;
    }
    assert(linker_imports(*linker) == before.insert(("oc"@, "component_invoke"@)) .insert(("oc"@, "signal_count"@)) .insert(("oc"@, "signal_pop"@)) .insert(("oc"@, "log"@)));
    let r4 = define_checkpoint_poll(linker, "oc", "checkpoint_poll");
    if r4.is_err() {
        assert(!shadow && before.contains(("oc"@, "checkpoint_poll"@)) && oc_imports().contains(("oc"@, "checkpoint_poll"@)));
        return r4;
    }
    assert(linker_imports(*linker) == before.insert(("oc"@, "component_invoke"@)) .insert(("oc"@, "signal_count"@)) .insert(("oc"@, "signal_pop"@)) .insert(("oc"@, "log"@)) .insert(("oc"@, "checkpoint_poll"@)));
    let r5 = define_memory_size(linker, "oc", "memory_size");
    if r5.is_err() {
        assert(!shadow && before.contains(("oc"@, "memory_size"@)) && oc_imports().contains(("oc"@, "memory_size"@)));
        return r5;
    }
    assert(linker_imports(*linker) =~= before.union(oc_imports()));
    assert forall|i: (Seq<char>, Seq<char>)|
        !shadow && #[trigger] oc_imports().contains(i) implies !before.contains(i) by {
        if i == ("oc"@, "component_invoke"@) {
        } else if i == ("oc"@, "signal_count"@) {
        } else if i == ("oc"@, "signal_pop"@) {
        } else if i == ("oc"@, "log"@) {
        } else if i == ("oc"@, "checkpoint_poll"@) {
        } else {
        }
    }
    Ok(())
}

} // verus!
