use std::collections::VecDeque;
use vstd::prelude::*;

use crate::exception::OcError;

verus! {

/// Fuel handed to the guest for one time slice.
pub const FUEL_PER_TICK: u64 = 1_000_000;

/// A host call the guest issued and is waiting on.
#[derive(Debug)]
pub struct PendingSyscall {
    pub method: String,
    pub args_ptr: i32,
    pub result_ptr: i32,
}

impl Clone for PendingSyscall {
    fn clone(&self) -> (copy: Self)
        ensures
            copy == *self,
    {
        PendingSyscall { method: self.method.clone(), args_ptr: self.args_ptr, result_ptr: self.result_ptr }
    }
}

/// A signal queued for delivery to the guest.
#[derive(Debug)]
pub struct Signal {
    pub name: String,
    pub args: Vec<u8>,
}

/// What a signal carries, as plain values.
pub struct SignalView {
    pub name: Seq<char>,
    pub args: Seq<u8>,
}

impl View for Signal {
    type V = SignalView;

    open spec fn view(&self) -> SignalView {
        SignalView { name: self.name@, args: self.args@ }
    }
}

impl Clone for Signal {
    fn clone(&self) -> (copy: Self)
        ensures
            copy@ == self@,
    {
        Signal { name: self.name.clone(), args: self.args.clone() }
    }
}

/// The queue of signals, as the sequence of what they carry, oldest first.
pub open spec fn signals_view(q: Seq<Signal>) -> Seq<SignalView> {
    q.map_values(|s: Signal| s@)
}

/// State the host keeps for one guest, shared with the host imports.
pub struct HostState {
    pub snapshot_requested: bool,
    pub pending_syscall: Option<PendingSyscall>,
    pub pending_exception: Option<OcError>,
    pub signal_queue: VecDeque<Signal>,
    pub memory_limit: usize,
}

/// How a call into the guest's entry point ended, as far as the step logic
/// needs to know.
pub enum CallOutcome {
    /// The entry point returned.
    Returned,
    /// The guest used up the fuel of its slice.
    OutOfFuel,
    /// Any other failure, with its message.
    Failed(String),
}

/// What one time slice of the guest came to.
#[derive(Debug)]
pub enum StepResult {
    Yielded,
    Snapshotted,
    SyscallPending(PendingSyscall),
    Halted,
    Crashed(String),
    Completed,
}

/// The host state once a snapshot has been asked for.
pub open spec fn with_snapshot_requested(h: HostState) -> HostState {
    HostState { snapshot_requested: true, ..h }
}

/// The end of a time slice: the result it reports and the host state after it.
pub open spec fn step_transition(h: HostState, outcome: CallOutcome) -> (HostState, StepResult) {
    match outcome {
        CallOutcome::Returned => (h, StepResult::Completed),
        CallOutcome::OutOfFuel => if h.snapshot_requested {
            (HostState { snapshot_requested: false, ..h }, StepResult::Snapshotted)
        } else {
            (h, StepResult::Yielded)
        },
        CallOutcome::Failed(message) => match h.pending_syscall {
            Some(call) => (HostState { pending_syscall: None, ..h }, StepResult::SyscallPending(call)),
            None => (h, StepResult::Crashed(message)),
        },
    }
}

impl HostState {
    /// A host state with nothing pending and no signal queued.
    pub fn new(memory_limit: usize) -> (h: HostState)
        ensures
            h.snapshot_requested == false,
            h.pending_syscall is None,
            h.pending_exception is None,
            h.signal_queue@.len() == 0,
            h.memory_limit == memory_limit,
    {
        HostState {
            snapshot_requested: false,
            pending_syscall: None,
            pending_exception: None,
            signal_queue: VecDeque::new(),
            memory_limit,
        }
    }

    /// Asks for a snapshot at the end of the next slice that runs out of fuel.
    pub fn request_snapshot(&mut self)
        ensures
            *final(self) == with_snapshot_requested(*old(self)),
    {
        self.snapshot_requested = true;
    }

    /// Queues a signal behind those already waiting.
    pub fn push_signal(&mut self, signal: Signal)
        ensures
            final(self).signal_queue@ == old(self).signal_queue@.push(signal),
            final(self).snapshot_requested == old(self).snapshot_requested,
            final(self).pending_syscall == old(self).pending_syscall,
            final(self).pending_exception == old(self).pending_exception,
            final(self).memory_limit == old(self).memory_limit,
    {
        self.signal_queue.push_back(signal);
    }

    /// Records the exception the guest is to see next, replacing any earlier one.
    pub fn set_pending_exception(&mut self, err: OcError)
        ensures
            *final(self) == (HostState { pending_exception: Some(err), ..*old(self) }),
    {
        self.pending_exception = Some(err);
    }

    /// The number of queued signals, as the guest's `i32` sees it.
    pub fn signal_count(&self) -> (n: i32)
        ensures
            n == self.signal_queue@.len() as i32,
    {
        self.signal_queue.len() as i32
    }

    /// The host import `oc.component_invoke`: answers 0, component calls not
    /// being served yet.
    pub fn component_invoke(&self, method_ptr: i32, args_ptr: i32, result_ptr: i32) -> (status: i32)
        ensures
            status == 0,
    {
        0
    }

    /// The host import `oc.signal_pop`: answers 0 and leaves the queue as it
    /// is, signal delivery not being served yet.
    pub fn signal_pop(&self, buf_ptr: i32) -> (status: i32)
        ensures
            status == 0,
    {
        0
    }

    /// The host import `oc.memory_size`: answers 0.
    pub fn memory_size(&self) -> (size: i32)
        ensures
            size == 0,
    {
        0
    }

    /// Ends a time slice: reports what the call into the guest came to and
    /// clears the request or the pending call that the report consumes.
    pub fn conclude_step(&mut self, outcome: CallOutcome) -> (r: StepResult)
        ensures
            (*final(self), r) == step_transition(*old(self), outcome),
    {
        match outcome {
            CallOutcome::Returned => StepResult::Completed,
            CallOutcome::OutOfFuel => {
                if self.snapshot_requested {
                    self.snapshot_requested = false;
                    StepResult::Snapshotted
                } else {
                    StepResult::Yielded
                }
            },
            CallOutcome::Failed(message) => {
                match self.pending_syscall.take() {
                    Some(call) => StepResult::SyscallPending(call),
                    None => StepResult::Crashed(message),
                }
            },
        }
    }
}

/// A snapshot request is answered by the first slice that runs out of fuel,
/// and only by that one: the next such slice just yields.
pub proof fn snapshot_request_answered_once(h: HostState)
    ensures
        step_transition(with_snapshot_requested(h), CallOutcome::OutOfFuel).1 == StepResult::Snapshotted,
        !step_transition(with_snapshot_requested(h), CallOutcome::OutOfFuel).0.snapshot_requested,
        step_transition(
            step_transition(with_snapshot_requested(h), CallOutcome::OutOfFuel).0,
            CallOutcome::OutOfFuel,
        ).1 == StepResult::Yielded,
{
}

/// A pending host call is reported by the first failing slice, and only by
/// that one: a later failure is a crash with its own message.
pub proof fn pending_syscall_reported_once(h: HostState, first: String, second: String)
    requires
        h.pending_syscall is Some,
    ensures
        step_transition(h, CallOutcome::Failed(first)).1 == StepResult::SyscallPending(
            h.pending_syscall->0,
        ),
        step_transition(step_transition(h, CallOutcome::Failed(first)).0, CallOutcome::Failed(second)).1
            == StepResult::Crashed(second),
{
}

/// A slice whose entry point returns completes and leaves the host state as
/// it was; so does one that yields.
pub proof fn quiet_slices_leave_host_state(h: HostState)
    ensures
        step_transition(h, CallOutcome::Returned) == (h, StepResult::Completed),
        !h.snapshot_requested ==> step_transition(h, CallOutcome::OutOfFuel) == (
            h,
            StepResult::Yielded,
        ),
{
}

/// The results of a run of slices from host state `h`, one per outcome, in
/// order.
pub open spec fn run_slices(h: HostState, outcomes: Seq<CallOutcome>) -> Seq<StepResult>
    decreases outcomes.len(),
{
    if outcomes.len() == 0 {
        Seq::empty()
    } else {
        seq![step_transition(h, outcomes[0]).1] + run_slices(
            step_transition(h, outcomes[0]).0,
            outcomes.drop_first(),
        )
    }
}

proof fn lemma_run_slices_shift(h: HostState, outcomes: Seq<CallOutcome>)
    requires
        outcomes.len() > 0,
    ensures
        run_slices(h, outcomes).len() == outcomes.len(),
        run_slices(h, outcomes)[0] == step_transition(h, outcomes[0]).1,
        forall|k: int|
            1 <= k < outcomes.len() ==> #[trigger] run_slices(h, outcomes)[k] == run_slices(
                step_transition(h, outcomes[0]).0,
                outcomes.drop_first(),
            )[k - 1],
        forall|k: int| 1 <= k < outcomes.len() ==> #[trigger] outcomes.drop_first()[k - 1] == outcomes[k],
    decreases outcomes.len(),
{
    lemma_run_slices_len(step_transition(h, outcomes[0]).0, outcomes.drop_first());
}

proof fn lemma_run_slices_len(h: HostState, outcomes: Seq<CallOutcome>)
    ensures
        run_slices(h, outcomes).len() == outcomes.len(),
    decreases outcomes.len(),
{
    if outcomes.len() > 0 {
        lemma_run_slices_len(step_transition(h, outcomes[0]).0, outcomes.drop_first());
    }
}

proof fn lemma_unrequested_run_yields(h: HostState, outcomes: Seq<CallOutcome>)
    requires
        !h.snapshot_requested,
    ensures
        forall|k: int|
            0 <= k < outcomes.len() && outcomes[k] is OutOfFuel ==> #[trigger] run_slices(h, outcomes)[k]
                == StepResult::Yielded,
    decreases outcomes.len(),
{
    if outcomes.len() > 0 {
        let h1 = step_transition(h, outcomes[0]).0;
        lemma_unrequested_run_yields(h1, outcomes.drop_first());
        lemma_run_slices_shift(h, outcomes);
        assert forall|k: int|
            0 <= k < outcomes.len() && outcomes[k] is OutOfFuel implies #[trigger] run_slices(h, outcomes)[k]
            == StepResult::Yielded by {
            if k > 0 {
                assert(outcomes.drop_first()[k - 1] == outcomes[k]);
            }
        }
    }
}

/// Over any run of slices, a snapshot request is answered by the first
/// slice that runs out of fuel, and only by it: no slice before it reports a
/// snapshot, and every later slice that runs out of fuel yields.
pub proof fn snapshot_request_answered_once_per_run(h: HostState, outcomes: Seq<CallOutcome>, j: int)
    requires
        h.snapshot_requested,
        0 <= j < outcomes.len(),
        outcomes[j] is OutOfFuel,
        forall|k: int| 0 <= k < j ==> !(#[trigger] outcomes[k] is OutOfFuel),
    ensures
        run_slices(h, outcomes)[j] == StepResult::Snapshotted,
        forall|k: int| 0 <= k < j ==> #[trigger] run_slices(h, outcomes)[k] != StepResult::Snapshotted,
        forall|k: int|
            j < k < outcomes.len() && outcomes[k] is OutOfFuel ==> #[trigger] run_slices(h, outcomes)[k]
                == StepResult::Yielded,
    decreases j,
{
    lemma_run_slices_shift(h, outcomes);
    let h1 = step_transition(h, outcomes[0]).0;
    let rest = outcomes.drop_first();
    if j == 0 {
        assert(!h1.snapshot_requested);
        lemma_unrequested_run_yields(h1, rest);
        assert forall|k: int|
            j < k < outcomes.len() && outcomes[k] is OutOfFuel implies #[trigger] run_slices(h, outcomes)[k]
            == StepResult::Yielded by {
            assert(rest[k - 1] == outcomes[k]);
        }
    } else {
        assert(!(outcomes[0] is OutOfFuel));
        assert(h1.snapshot_requested);
        assert forall|k: int| 0 <= k < j - 1 implies !(#[trigger] rest[k] is OutOfFuel) by {
            assert(rest[k] == outcomes[k + 1]);
        }
        assert(rest[j - 1] == outcomes[j]);
        snapshot_request_answered_once_per_run(h1, rest, j - 1);
        assert forall|k: int| 0 <= k < j implies #[trigger] run_slices(h, outcomes)[k] != StepResult::Snapshotted by {
            if k > 0 {
                assert(run_slices(h, outcomes)[k] == run_slices(h1, rest)[k - 1]);
            }
        }
        assert forall|k: int|
            j < k < outcomes.len() && outcomes[k] is OutOfFuel implies #[trigger] run_slices(h, outcomes)[k]
            == StepResult::Yielded by {
            assert(rest[k - 1] == outcomes[k]);
            assert(run_slices(h, outcomes)[k] == run_slices(h1, rest)[k - 1]);
        }
    }
}

} // verus!
