//! Single-threaded coroutine scheduler: a FIFO ready queue driven round-robin.
//!
//! `run_until_idle` repeatedly takes the coroutine at the front of the ready
//! queue (`next_ready`), resumes it, and hands it back (`reschedule`): one that
//! yielded goes to the back of the queue, one that finished is dropped. It
//! stops when the queue is empty (`is_idle`).
use vstd::prelude::*;
use crate::coroutine::{is_fresh, Coroutine, Hint, State};
use crate::stack::Stack;
use std::collections::VecDeque;

verus! {

/// Default stack size of a spawned coroutine (128 KiB).
pub const DEFAULT_STACK_SIZE: usize = 128 * 1024;

/// The slot where a spawned coroutine leaves its return value, read back by
/// the spawner.
#[derive(Debug)]
pub struct JoinHandle<T> {
    slot: Option<T>,
}

impl<T> JoinHandle<T> {
    /// The value left in the slot, if the coroutine has finished.
    pub closed spec fn result_spec(&self) -> Option<T> {
        self.slot
    }

    /// An empty slot: the coroutine has not finished.
    pub fn new() -> (h: JoinHandle<T>)
        ensures
            h.result_spec() is None,
    {
        JoinHandle { slot: None }
    }

    /// The coroutine leaves its return value.
    pub fn set_result(&mut self, value: T)
        ensures
            final(self).result_spec() == Some(value),
    {
        self.slot = Some(value);
    }

    /// Whether the coroutine has finished (its result is ready).
    pub fn is_finished(&self) -> (b: bool)
        ensures
            b == self.result_spec() is Some,
    {
        self.slot.is_some()
    }

    /// The return value; `None` if the coroutine has not finished.
    pub fn join(self) -> (r: Option<T>)
        ensures
            r == self.result_spec(),
    {
        self.slot
    }
}

/// A coroutine that can be resumed: not yet started, or yielded.
pub open spec fn is_resumable(c: Coroutine) -> bool {
    c.state_spec() == State::Ready || c.state_spec() == State::Yielded
}

/// A single-threaded scheduler: the FIFO queue of ready coroutines.
#[derive(Debug)]
pub struct Scheduler {
    ready: VecDeque<Coroutine>,
}

impl Scheduler {
    #[verifier::type_invariant]
    spec fn only_resumable(self) -> bool {
        forall|i: int| 0 <= i < self.ready@.len() ==> is_resumable(#[trigger] self.ready@[i])
    }

    /// The ready queue, front first.
    pub closed spec fn queue(&self) -> Seq<Coroutine> {
        self.ready@
    }

    /// An empty scheduler.
    pub fn new() -> (s: Scheduler)
        ensures
            s.queue() == Seq::<Coroutine>::empty(),
    {
        Scheduler { ready: VecDeque::new() }
    }

    /// Spawns a coroutine with hint `Normal`; see `spawn_with`.
    pub fn spawn(&mut self, stack: Stack, entry: usize, closure: usize)
        ensures
            final(self).queue().len() == old(self).queue().len() + 1,
            final(self).queue().drop_last() == old(self).queue(),
            is_fresh(final(self).queue().last(), &stack, Hint::Normal, entry, closure),
    {
        self.spawn_with(Hint::Normal, stack, entry, closure)
    }

    /// Spawns a coroutine with the given hint: a new coroutine on `stack`
    /// that starts at `entry` with closure address `closure` joins the back of
    /// the ready queue and runs in a later `run_until_idle`.
    pub fn spawn_with(&mut self, hint: Hint, stack: Stack, entry: usize, closure: usize)
        ensures
            final(self).queue().len() == old(self).queue().len() + 1,
            final(self).queue().drop_last() == old(self).queue(),
            is_fresh(final(self).queue().last(), &stack, hint, entry, closure),
    {
        proof {
            use_type_invariant(&*self);
        }
        let coro = Coroutine::new_with_hint(stack, hint, entry, closure);
        let mut q = VecDeque::new();
        std::mem::swap(&mut q, &mut self.ready);
        q.push_back(coro);
        proof {
            assert(q@.drop_last() =~= old(self).ready@);
        }
        self.ready = q;
    }

    /// Takes the coroutine at the front of the ready queue, if any.
    pub fn next_ready(&mut self) -> (c: Option<Coroutine>)
        ensures
            old(self).queue().len() == 0 ==> c is None && final(self).queue() == old(self).queue(),
            old(self).queue().len() > 0 ==> c == Some(old(self).queue()[0])
                && final(self).queue() == old(self).queue().drop_first(),
            c matches Some(co) ==> is_resumable(co),
    {
        proof {
            use_type_invariant(&*self);
        }
        let mut q = VecDeque::new();
        std::mem::swap(&mut q, &mut self.ready);
        let c = q.pop_front();
        proof {
            if old(self).ready@.len() > 0 {
                assert(q@ =~= old(self).ready@.drop_first());
                assert(is_resumable(old(self).ready@[0]));
            }
        }
        self.ready = q;
        c
    }

    /// Hands back a coroutine after its resume: one that yielded joins the
    /// back of the ready queue; one that finished leaves the scheduler and is
    /// returned, for its stack to be released.
    pub fn reschedule(&mut self, coro: Coroutine) -> (finished: Option<Coroutine>)
        requires
            coro.state_spec() == State::Yielded || coro.state_spec() == State::Done,
        ensures
            coro.state_spec() == State::Yielded ==> final(self).queue() == old(self).queue().push(coro)
                && finished is None,
            coro.state_spec() == State::Done ==> final(self).queue() == old(self).queue()
                && finished == Some(coro),
    {
        proof {
            use_type_invariant(&*self);
        }
        if coro.is_done() {
            Some(coro)
        } else {
            let mut q = VecDeque::new();
            std::mem::swap(&mut q, &mut self.ready);
            q.push_back(coro);
            self.ready = q;
            None
        }
    }

    /// Whether no coroutine is ready (`run_until_idle` stops here).
    pub fn is_idle(&self) -> (b: bool)
        ensures
            b == (self.queue().len() == 0),
    {
        self.ready.len() == 0
    }

    /// Number of ready coroutines.
    pub fn len(&self) -> (n: usize)
        ensures
            n == self.queue().len(),
    {
        self.ready.len()
    }
}

/// `n` scheduling steps on queue `q` in which each resumed coroutine yields
/// and becomes `f` of itself: the front is taken and its successor joins the
/// back.
pub open spec fn rounds<A>(q: Seq<A>, f: spec_fn(A) -> A, n: nat) -> Seq<A>
    decreases n,
{
    if n == 0 || q.len() == 0 {
        q
    } else {
        rounds(q.drop_first().push(f(q[0])), f, (n - 1) as nat)
    }
}

/// One scheduling step is one round: `next_ready` takes the front `q[0]`
/// and leaves `q.drop_first()`; `reschedule` of the yielded `f(q[0])` then
/// appends it, which is `rounds(q, f, 1)`; `n + 1` rounds are one round
/// followed by `n`.
pub proof fn lemma_step_is_round<A>(q: Seq<A>, f: spec_fn(A) -> A, n: nat)
    requires
        q.len() > 0,
    ensures
        q.drop_first().push(f(q[0])) == rounds(q, f, 1),
        rounds(q, f, n + 1) == rounds(rounds(q, f, 1), f, n),
{
    let q1 = q.drop_first().push(f(q[0]));
    assert(rounds(q, f, 1) == rounds(q1, f, 0));
    assert(rounds(q, f, n + 1) == rounds(q1, f, n));
}

/// Round robin: when every coroutine yields, after `k` steps the first `k`
/// coroutines have each run once and wait, in their original order, behind
/// the ones not yet run.
pub proof fn lemma_rounds_prefix<A>(q: Seq<A>, f: spec_fn(A) -> A, k: nat)
    requires
        k <= q.len(),
    ensures
        rounds(q, f, k) == q.skip(k as int) + q.take(k as int).map_values(f),
    decreases k,
{
    if k == 0 {
        assert(q.skip(0) =~= q);
        assert(q.take(0).map_values(f) =~= Seq::<A>::empty());
        assert(q.skip(0) + Seq::<A>::empty() =~= q);
    } else {
        let q1 = q.drop_first().push(f(q[0]));
        lemma_rounds_prefix(q1, f, (k - 1) as nat);
        assert(rounds(q, f, k) == rounds(q1, f, (k - 1) as nat));
        assert(q1.skip(k - 1) + q1.take(k - 1).map_values(f) =~= q.skip(k as int) + q.take(
            k as int,
        ).map_values(f));
    }
}

/// Round robin: when every coroutine yields, one full round over the queue
/// resumes each exactly once and leaves the queue in the same order.
pub proof fn lemma_round_robin<A>(q: Seq<A>, f: spec_fn(A) -> A)
    ensures
        rounds(q, f, q.len()) == q.map_values(f),
{
    lemma_rounds_prefix(q, f, q.len());
    assert(q.skip(q.len() as int) + q.take(q.len() as int).map_values(f) =~= q.map_values(f));
}

} // verus!
