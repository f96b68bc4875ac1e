use wasmtime_oc::exception::{OcError, OcErrorCode};
use wasmtime_oc::host::{CallOutcome, HostState, PendingSyscall, Signal, StepResult, FUEL_PER_TICK};

fn signal(name: &str, args: &[u8]) -> Signal {
    Signal { name: name.to_string(), args: args.to_vec() }
}

fn syscall(method: &str) -> PendingSyscall {
    PendingSyscall { method: method.to_string(), args_ptr: 16, result_ptr: 32 }
}

#[test]
fn new_host_state_has_nothing_pending() {
    let h = HostState::new(4096);
    assert!(!h.snapshot_requested);
    assert!(h.pending_syscall.is_none());
    assert!(h.pending_exception.is_none());
    assert_eq!(h.signal_queue.len(), 0);
    assert_eq!(h.memory_limit, 4096);
    assert_eq!(h.signal_count(), 0);
}

#[test]
fn fuel_per_tick_is_one_million() {
    assert_eq!(FUEL_PER_TICK, 1_000_000);
}

#[test]
fn signals_queue_in_order() {
    let mut h = HostState::new(0);
    h.push_signal(signal("first", &[1]));
    h.push_signal(signal("second", &[2, 3]));
    assert_eq!(h.signal_count(), 2);
    assert_eq!(h.signal_queue[0].name, "first");
    assert_eq!(h.signal_queue[1].name, "second");
    assert_eq!(h.signal_queue[1].args, vec![2, 3]);
}

#[test]
fn clone_of_signal_keeps_name_and_args() {
    let s = signal("tick", &[9, 8, 7]);
    let c = s.clone();
    assert_eq!(c.name, "tick");
    assert_eq!(c.args, vec![9, 8, 7]);
}

#[test]
fn pending_exception_is_replaced() {
    let mut h = HostState::new(0);
    h.set_pending_exception(OcError { code: OcErrorCode::InvalidArg, message: "bad".to_string() });
    h.set_pending_exception(OcError { code: OcErrorCode::IoError, message: "io".to_string() });
    let e = h.pending_exception.as_ref().unwrap();
    assert_eq!(e.code, OcErrorCode::IoError);
    assert_eq!(e.message, "io");
}

#[test]
fn error_code_numbers() {
    assert_eq!(OcErrorCode::NoComponent.number(), 1);
    assert_eq!(OcErrorCode::MethodNotFound.number(), 2);
    assert_eq!(OcErrorCode::OutOfMemory.number(), 3);
    assert_eq!(OcErrorCode::InvalidArg.number(), 4);
    assert_eq!(OcErrorCode::IoError.number(), 5);
    assert_eq!(OcErrorCode::Unknown.number(), 99);
}

#[test]
fn returned_call_completes_and_changes_nothing() {
    let mut h = HostState::new(0);
    h.request_snapshot();
    h.pending_syscall = Some(syscall("read"));
    let r = h.conclude_step(CallOutcome::Returned);
    assert!(matches!(r, StepResult::Completed));
    assert!(h.snapshot_requested);
    assert!(h.pending_syscall.is_some());
}

#[test]
fn out_of_fuel_without_request_yields() {
    let mut h = HostState::new(0);
    let r = h.conclude_step(CallOutcome::OutOfFuel);
    assert!(matches!(r, StepResult::Yielded));
    assert!(!h.snapshot_requested);
}

#[test]
fn snapshot_request_is_answered_once() {
    let mut h = HostState::new(0);
    h.request_snapshot();
    assert!(h.snapshot_requested);
    assert!(matches!(h.conclude_step(CallOutcome::OutOfFuel), StepResult::Snapshotted));
    assert!(!h.snapshot_requested);
    assert!(matches!(h.conclude_step(CallOutcome::OutOfFuel), StepResult::Yielded));
}

#[test]
fn pending_syscall_is_reported_once() {
    let mut h = HostState::new(0);
    h.pending_syscall = Some(syscall("open"));
    match h.conclude_step(CallOutcome::Failed("trap one".to_string())) {
        StepResult::SyscallPending(call) => {
            assert_eq!(call.method, "open");
            assert_eq!(call.args_ptr, 16);
            assert_eq!(call.result_ptr, 32);
        }
        _ => panic!("expected the pending call"),
    }
    assert!(h.pending_syscall.is_none());
    match h.conclude_step(CallOutcome::Failed("trap two".to_string())) {
        StepResult::Crashed(message) => assert_eq!(message, "trap two"),
        _ => panic!("expected a crash"),
    }
}

#[test]
fn failure_without_pending_call_crashes_with_its_message() {
    let mut h = HostState::new(0);
    h.request_snapshot();
    match h.conclude_step(CallOutcome::Failed("unreachable".to_string())) {
        StepResult::Crashed(message) => assert_eq!(message, "unreachable"),
        _ => panic!("expected a crash"),
    }
    assert!(h.snapshot_requested);
}

#[test]
fn placeholder_imports_answer_zero() {
    let mut h = HostState::new(0);
    h.push_signal(signal("s", &[]));
    assert_eq!(h.component_invoke(1, 2, 3), 0);
    assert_eq!(h.signal_pop(64), 0);
    assert_eq!(h.memory_size(), 0);
    assert_eq!(h.signal_count(), 1);
}
