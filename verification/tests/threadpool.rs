use dlsm_greenthread::{
    pop_or_park, worker_count, Hint, Pop, PoolState, ResumeOutcome, ResumeStep, Stack, StackLayout,
};

fn stack() -> Stack {
    Stack::from_mapping(StackLayout::new(64 * 1024, 4096).unwrap(), 0x7f00_0000_0000)
}

/// A worker step: take a coroutine and resume it; its body yields when `yields`.
/// Returns whether the pool became idle, or `None` when the worker parks or exits.
fn work_once(state: &mut PoolState, shutdown: bool, yields: bool) -> Option<bool> {
    match pop_or_park(state, shutdown) {
        Pop::Run(mut co) => {
            assert_eq!(co.begin_resume(), ResumeStep::Switch);
            if yields {
                co.suspend();
            } else {
                co.finish(false);
            }
            co.end_resume();
            let (idle, finished) = state.complete_resume(co);
            assert_eq!(finished.is_some(), !yields);
            Some(idle)
        }
        Pop::Park | Pop::Exit => None,
    }
}

#[test]
fn pool_has_at_least_one_worker() {
    assert_eq!(worker_count(0), 1);
    assert_eq!(worker_count(1), 1);
    assert_eq!(worker_count(4), 4);
}

#[test]
fn pool_runs_all_spawned_tasks() {
    let mut state = PoolState::new();
    for i in 0..100 {
        state.enqueue(stack(), 1, i);
    }
    assert_eq!(state.outstanding(), 100);
    let mut finished = 0;
    let mut became_idle = 0;
    while let Some(idle) = work_once(&mut state, false, false) {
        finished += 1;
        if idle {
            became_idle += 1;
        }
    }
    assert_eq!(finished, 100);
    assert_eq!(became_idle, 1);
    assert!(state.is_idle());
}

#[test]
fn pooled_coroutine_yields_and_completes() {
    let mut state = PoolState::new();
    for i in 0..10 {
        state.enqueue(stack(), 1, i);
    }
    for _ in 0..10 {
        assert_eq!(work_once(&mut state, false, true), Some(false));
    }
    assert_eq!(state.outstanding(), 10);
    for i in 0..10 {
        assert_eq!(work_once(&mut state, false, false), Some(i == 9));
    }
    assert!(state.is_idle());
}

#[test]
fn empty_pool_parks_until_shutdown_then_exits() {
    let mut state: PoolState = PoolState::new();
    assert!(matches!(pop_or_park(&mut state, false), Pop::Park));
    assert!(matches!(pop_or_park(&mut state, true), Pop::Exit));
}

#[test]
fn shutdown_drains_queue_before_exit() {
    let mut state = PoolState::new();
    state.enqueue(stack(), 1, 1);
    state.enqueue_with(Hint::Compute, stack(), 1, 2);
    assert_eq!(work_once(&mut state, true, false), Some(false));
    match pop_or_park(&mut state, true) {
        Pop::Run(co) => assert_eq!(co.hint(), Hint::Compute),
        _ => panic!("queued coroutine must run before exit"),
    }
}

#[test]
fn spawn_from_within_pool_via_spawner() {
    let mut state: PoolState = PoolState::new();
    state.enqueue(stack(), 1, 1);
    let mut counter = 0;
    while let Pop::Run(mut co) = pop_or_park(&mut state, false) {
        assert_eq!(co.begin_resume(), ResumeStep::Switch);
        counter += 1;
        if counter == 1 {
            state.enqueue(stack(), 1, 2);
            assert_eq!(state.outstanding(), 2);
        }
        co.finish(false);
        co.end_resume();
        let (idle, finished) = state.complete_resume(co);
        assert!(finished.is_some());
        assert_eq!(idle, counter == 2);
    }
    assert_eq!(counter, 2);
    assert!(state.is_idle());
}

#[test]
fn pool_spawn_with_compute_hint_runs() {
    let mut state = PoolState::new();
    let mut counter = 0u64;
    state.enqueue_with(Hint::Compute, stack(), 1, 7);
    while let Pop::Run(mut co) = pop_or_park(&mut state, false) {
        assert_eq!(co.hint(), Hint::Compute);
        assert_eq!(co.begin_resume(), ResumeStep::Switch);
        counter += 7;
        co.finish(false);
        assert_eq!(co.end_resume(), ResumeOutcome::Done);
        state.complete_resume(co);
    }
    assert!(state.is_idle());
    assert_eq!(counter, 7);
}
