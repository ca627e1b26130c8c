use dlsm_greenthread::{
    Hint, JoinHandle, Register, ResumeOutcome, ResumeStep, Scheduler, Stack, StackLayout,
    DEFAULT_STACK_SIZE,
};

fn stack() -> Stack {
    Stack::from_mapping(StackLayout::new(DEFAULT_STACK_SIZE, 4096).unwrap(), 0x7f00_0000_0000)
}

/// Drives `sched` until idle. A coroutine is told apart by its closure
/// address; `steps(closure, n)` says whether its body yields (`true`) or
/// returns (`false`) on its `n`-th run. Returns the closure addresses in the
/// order they ran.
fn run_until_idle(sched: &mut Scheduler, steps: &mut dyn FnMut(usize, usize) -> bool) -> Vec<usize> {
    let mut order = Vec::new();
    while let Some(mut co) = sched.next_ready() {
        let closure = co.contexts_mut().1.get(Register::R12);
        let runs = order.iter().filter(|c| **c == closure).count();
        order.push(closure);
        assert_eq!(co.begin_resume(), ResumeStep::Switch);
        if steps(closure, runs) {
            co.suspend();
        } else {
            co.finish(false);
        }
        match co.end_resume() {
            ResumeOutcome::Yielded => assert!(!co.is_done()),
            ResumeOutcome::Done => assert!(co.is_done()),
        }
        let yielded = !co.is_done();
        let finished = sched.reschedule(co);
        assert_eq!(finished.is_none(), yielded);
    }
    assert!(sched.is_idle());
    order
}

#[test]
fn spawn_and_run_returns_value() {
    let mut sched = Scheduler::new();
    let mut h = JoinHandle::new();
    sched.spawn(stack(), 1, 100);
    assert!(!h.is_finished());
    // The body computes its value and leaves it in the handle when it runs.
    run_until_idle(&mut sched, &mut |_, _| {
        h.set_result(6 * 7);
        false
    });
    assert_eq!(h.join(), Some(42));
}

#[test]
fn join_before_run_is_none() {
    let mut sched: Scheduler = Scheduler::new();
    let h: JoinHandle<i32> = JoinHandle::new();
    sched.spawn(stack(), 1, 100);
    assert!(!h.is_finished());
    assert_eq!(h.join(), None::<i32>);
    assert_eq!(sched.len(), 1);
}

#[test]
fn finished_handle_reports_finished() {
    let mut h = JoinHandle::new();
    h.set_result("x");
    assert!(h.is_finished());
    assert_eq!(h.join(), Some("x"));
}

#[test]
fn multiple_coroutines_all_complete() {
    let mut sched = Scheduler::new();
    for i in 0..5 {
        sched.spawn(stack(), 1, 100 + i);
    }
    assert_eq!(sched.len(), 5);
    let order = run_until_idle(&mut sched, &mut |_, _| false);
    assert_eq!(order, vec![100, 101, 102, 103, 104]);
    assert_eq!(sched.len(), 0);
}

#[test]
fn yield_round_robins_between_coroutines() {
    // a = 0xa, b = 0xb: each yields once, then returns.
    let mut sched = Scheduler::new();
    sched.spawn(stack(), 1, 0xa);
    sched.spawn(stack(), 1, 0xb);
    let order = run_until_idle(&mut sched, &mut |_, n| n == 0);
    assert_eq!(order, vec![0xa, 0xb, 0xa, 0xb]);
}

#[test]
fn scheduler_spawn_with_compute_hint_runs() {
    let mut sched = Scheduler::new();
    let mut h = JoinHandle::new();
    sched.spawn_with(Hint::Compute, stack(), 1, 9);
    let mut hint = None;
    while let Some(mut co) = sched.next_ready() {
        hint = Some(co.hint());
        assert_eq!(co.begin_resume(), ResumeStep::Switch);
        h.set_result(9 * 9);
        co.finish(false);
        assert_eq!(co.end_resume(), ResumeOutcome::Done);
        assert!(sched.reschedule(co).is_some());
    }
    assert_eq!(hint, Some(Hint::Compute));
    assert_eq!(h.join(), Some(81));
}

#[test]
fn yielded_coroutine_goes_behind_the_others() {
    let mut sched: Scheduler = Scheduler::new();
    sched.spawn(stack(), 1, 1);
    sched.spawn(stack(), 1, 2);
    sched.spawn(stack(), 1, 3);
    let order = run_until_idle(&mut sched, &mut |c, n| c == 1 && n < 2);
    assert_eq!(order, vec![1, 2, 3, 1, 1]);
}

#[test]
fn spawn_from_within_coroutine() {
    let mut sched: Scheduler = Scheduler::new();
    let mut counter = 0;
    sched.spawn(stack(), 1, 1);
    while let Some(mut co) = sched.next_ready() {
        assert_eq!(co.begin_resume(), ResumeStep::Switch);
        counter += 1;
        // The first coroutine spawns a child while it runs.
        if co.contexts_mut().1.get(Register::R12) == 1 {
            sched.spawn(stack(), 1, 2);
        }
        co.finish(false);
        assert_eq!(co.end_resume(), ResumeOutcome::Done);
        assert!(sched.reschedule(co).is_some());
    }
    assert_eq!(counter, 2);
}
