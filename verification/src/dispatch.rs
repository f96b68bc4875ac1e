//! Decisions of the interpreter's dispatch loop: jumping to a requested
//! program counter before the next instruction, and running the dispatch hook
//! once every `interval + 1` instructions.
use vstd::prelude::*;

verus! {

/// What the dispatch hook asks the loop to do.
#[derive(Clone, Copy, Debug, PartialEq, Eq, Structural)]
pub enum HookAction {
    Continue,
    Suspend,
}

/// Why the loop stopped on its own account.
#[derive(Clone, Copy, Debug, PartialEq, Eq, Structural)]
pub enum DoneReason {
    /// The hook suspended the guest; it resumes at `resume`.
    SuspendedByHook { resume: usize },
}

/// The countdown that decides when the dispatch hook runs.
#[derive(Clone, Copy, Debug, PartialEq, Eq, Structural)]
pub struct HookSchedule {
    /// Whether a hook is installed at all.
    pub installed: bool,
    /// Instructions still to retire before the hook runs.
    pub countdown: u64,
    /// The value the countdown restarts from after the hook has run.
    pub interval: u64,
}

impl HookSchedule {
    /// The schedule after one more instruction, and whether the hook runs now.
    pub open spec fn ticked(self) -> (HookSchedule, bool) {
        if !self.installed {
            (self, false)
        } else if self.countdown == 0 {
            (HookSchedule { countdown: self.interval, ..self }, true)
        } else {
            (HookSchedule { countdown: (self.countdown - 1) as u64, ..self }, false)
        }
    }

    /// The schedule after `n` more instructions.
    pub open spec fn after(self, n: nat) -> HookSchedule
        decreases n,
    {
        if n == 0 {
            self
        } else {
            self.after((n - 1) as nat).ticked().0
        }
    }

    /// Whether the hook runs on the instruction that follows the first `n`.
    pub open spec fn runs_at(self, n: nat) -> bool {
        self.after(n).ticked().1
    }

    /// Accounts for one retired instruction; returns whether the hook is due
    /// now, in which case the countdown restarts from the interval.
    pub fn tick(&mut self) -> (due: bool)
        ensures
            (*final(self), due) == old(self).ticked(),
    {
        if !self.installed {
            false
        } else if self.countdown == 0 {
            self.countdown = self.interval;
            true
        } else {
            self.countdown = self.countdown - 1;
            false
        }
    }
}

/// What the loop does with the hook's answer: stop with the resume point, or
/// carry on.
pub fn hook_verdict(action: HookAction, resume: usize) -> (done: Option<DoneReason>)
    ensures
        done == match action {
            HookAction::Suspend => Some(DoneReason::SuspendedByHook { resume }),
            HookAction::Continue => None,
        },
{
    match action {
        HookAction::Suspend => Some(DoneReason::SuspendedByHook { resume }),
        HookAction::Continue => None,
    }
}

/// The program counter to dispatch from next: a requested jump target, which
/// is consumed, or the current one.
pub fn next_pc(jump_target: &mut Option<usize>, pc: usize) -> (next: usize)
    ensures
        *final(jump_target) is None,
        next == match *old(jump_target) {
            Some(target) => target,
            None => pc,
        },
{
    match jump_target.take() {
        Some(target) => target,
        None => pc,
    }
}

proof fn lemma_after_uninstalled(s: HookSchedule, n: nat)
    requires
        !s.installed,
    ensures
        s.after(n) == s,
    decreases n,
{
    if n > 0 {
        lemma_after_uninstalled(s, (n - 1) as nat);
    }
}

/// The countdown after `n` instructions of an installed schedule.
proof fn lemma_countdown_after(s: HookSchedule, n: nat)
    requires
        s.installed,
    ensures
        s.after(n).installed,
        s.after(n).interval == s.interval,
        n < s.countdown ==> s.after(n).countdown == s.countdown - n,
        n >= s.countdown ==> {
            let k = (n - s.countdown) % (s.interval + 1);
            s.after(n).countdown == if k == 0 { 0 } else { s.interval + 1 - k }
        },
    decreases n,
{
    if n == 0 {
        vstd::arithmetic::div_mod::lemma_small_mod(0, (s.interval + 1) as nat);
    } else {
        let m = (n - 1) as nat;
        lemma_countdown_after(s, m);
        let i = s.interval + 1;
        if m >= s.countdown {
            let k = (m - s.countdown) % i;
            let k2 = (n - s.countdown) % i;
            vstd::arithmetic::div_mod::lemma_mod_bound(m - s.countdown, i);
            vstd::arithmetic::div_mod::lemma_mod_bound(n - s.countdown, i);
            assert(k2 == if k + 1 == i { 0 } else { k + 1 }) by {
                vstd::arithmetic::div_mod::lemma_fundamental_div_mod(m - s.countdown, i);
                let q = (m - s.countdown) / i;
                vstd::arithmetic::div_mod::lemma_mod_bound(m - s.countdown, i);
                if k + 1 == i {
                    assert(n - s.countdown == i * (q + 1)) by (nonlinear_arith)
                        requires
                            m - s.countdown == i * q + k,
                            k + 1 == i,
                            n == m + 1,
                    ;
                    vstd::arithmetic::div_mod::lemma_mod_multiples_vanish(q + 1, 0, i);
                    vstd::arithmetic::div_mod::lemma_small_mod(0, i as nat);
                } else {
                    assert(n - s.countdown == i * q + (k + 1));
                    vstd::arithmetic::div_mod::lemma_mod_multiples_vanish(q, k + 1, i);
                    vstd::arithmetic::div_mod::lemma_small_mod((k + 1) as nat, i as nat);
                }
            };
            let prev = s.after(m);
            assert(s.after(n) == prev.ticked().0);
            if k == 0 {
                assert(prev.countdown == 0);
                assert(s.after(n).countdown == s.interval);
            } else {
                assert(prev.countdown == i - k);
                assert(s.after(n).countdown == i - k - 1);
            }
        } else if n == s.countdown {
            assert((n - s.countdown) % (s.interval + 1) == 0) by {
                vstd::arithmetic::div_mod::lemma_small_mod(0, (s.interval + 1) as nat);
            };
        }
    }
}

/// With the hook installed, the hook runs on the instruction after the first
/// `countdown` ones and from then on once every `interval + 1` instructions,
/// and on no other; once it has run, the countdown stays within the interval.
pub proof fn hook_runs_periodically(s: HookSchedule, n: nat)
    requires
        s.installed,
    ensures
        s.runs_at(n) <==> (n >= s.countdown && (n - s.countdown) % (s.interval + 1) == 0),
        n >= s.countdown ==> s.after(n).countdown <= s.interval,
{
    lemma_countdown_after(s, n);
    if n >= s.countdown {
        vstd::arithmetic::div_mod::lemma_mod_bound(n - s.countdown, s.interval + 1);
    }
}

/// Without a hook the schedule never changes and the hook never runs.
pub proof fn uninstalled_hook_never_runs(s: HookSchedule, n: nat)
    requires
        !s.installed,
    ensures
        !s.runs_at(n),
        s.after(n) == s,
{
    lemma_after_uninstalled(s, n);
}

} // verus!
