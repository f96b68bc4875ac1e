use wasmtime_oc::dispatch::{hook_verdict, next_pc, DoneReason, HookAction, HookSchedule};

fn due_ticks(mut s: HookSchedule, n: usize) -> Vec<usize> {
    let mut due = Vec::new();
    for i in 0..n {
        if s.tick() {
            due.push(i);
        }
    }
    due
}

#[test]
fn hook_runs_every_interval_plus_one_instructions() {
    let s = HookSchedule { installed: true, countdown: 2, interval: 3 };
    assert_eq!(due_ticks(s, 15), vec![2, 6, 10, 14]);
}

#[test]
fn hook_with_zero_interval_runs_on_every_instruction() {
    let s = HookSchedule { installed: true, countdown: 0, interval: 0 };
    assert_eq!(due_ticks(s, 4), vec![0, 1, 2, 3]);
}

#[test]
fn tick_restarts_the_countdown_from_the_interval() {
    let mut s = HookSchedule { installed: true, countdown: 0, interval: 5 };
    assert!(s.tick());
    assert_eq!(s.countdown, 5);
    assert!(!s.tick());
    assert_eq!(s.countdown, 4);
}

#[test]
fn uninstalled_hook_never_runs() {
    let mut s = HookSchedule { installed: false, countdown: 0, interval: 0 };
    for _ in 0..10 {
        assert!(!s.tick());
    }
    assert_eq!(s, HookSchedule { installed: false, countdown: 0, interval: 0 });
}

#[test]
fn suspend_stops_at_the_resume_point() {
    assert_eq!(
        hook_verdict(HookAction::Suspend, 0x40),
        Some(DoneReason::SuspendedByHook { resume: 0x40 })
    );
    assert_eq!(hook_verdict(HookAction::Continue, 0x40), None);
}

#[test]
fn jump_target_is_taken_once() {
    let mut target = Some(200usize);
    assert_eq!(next_pc(&mut target, 100), 200);
    assert_eq!(target, None);
    assert_eq!(next_pc(&mut target, 100), 100);
}
