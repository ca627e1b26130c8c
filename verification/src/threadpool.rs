//! Bookkeeping of the M:N coroutine thread pool.
//!
//! Worker threads share one ready queue and a count of outstanding coroutines
//! (spawned, not yet finished). A worker takes the front coroutine
//! (`pop_or_park`), resumes it, and hands it back (`complete_resume`): one that
//! yielded rejoins the back of the queue, one that finished lowers the count;
//! when the count reaches zero the pool is idle and `wait_idle` returns. After
//! shutdown, workers still drain the queue and exit only once it is empty.
use vstd::prelude::*;
use crate::coroutine::{is_fresh, Coroutine, Hint, State};
use crate::scheduler::is_resumable;
use crate::stack::Stack;
use std::collections::VecDeque;

verus! {

/// Number of worker threads of a pool asked for `num_workers`: at least one.
pub fn worker_count(num_workers: usize) -> (n: usize)
    ensures
        n == (if num_workers == 0 { 1 } else { num_workers }),
        n >= 1,
{
    if num_workers == 0 {
        1
    } else {
        num_workers
    }
}

/// What a worker does next.
#[derive(Debug)]
pub enum Pop {
    /// Resume this coroutine, then hand it back with `complete_resume`.
    Run(Coroutine),
    /// Nothing to run yet: wait for work (or shutdown), then ask again.
    Park,
    /// The pool shut down and the queue is drained: the worker exits.
    Exit,
}

/// The shared state of a pool: the ready queue and the number of outstanding
/// coroutines (queued or being resumed by a worker).
pub struct PoolState {
    queue: VecDeque<Coroutine>,
    outstanding: usize,
    running: Ghost<nat>,
}

impl PoolState {
    /// The ready queue, front first.
    pub closed spec fn queue_spec(&self) -> Seq<Coroutine> {
        self.queue@
    }

    /// Spawned coroutines not yet finished.
    pub closed spec fn outstanding_spec(&self) -> nat {
        self.outstanding as nat
    }

    /// Coroutines taken by workers and not yet handed back.
    pub closed spec fn running_spec(&self) -> nat {
        self.running@
    }

    /// Every outstanding coroutine is either queued or being resumed, and
    /// every queued coroutine can be resumed.
    pub open spec fn wf(&self) -> bool {
        &&& self.outstanding_spec() == self.queue_spec().len() + self.running_spec()
        &&& forall|i: int|
            0 <= i < self.queue_spec().len() ==> is_resumable(#[trigger] self.queue_spec()[i])
    }

    /// An empty pool state.
    pub fn new() -> (s: PoolState)
        ensures
            s.wf(),
            s.queue_spec() == Seq::<Coroutine>::empty(),
            s.outstanding_spec() == 0,
            s.running_spec() == 0,
    {
        PoolState { queue: VecDeque::new(), outstanding: 0, running: Ghost(0) }
    }

    /// Spawns a coroutine with hint `Normal`; see `enqueue_with`.
    pub fn enqueue(&mut self, stack: Stack, entry: usize, closure: usize)
        requires
            old(self).wf(),
            old(self).outstanding_spec() < usize::MAX,
        ensures
            final(self).wf(),
            final(self).outstanding_spec() == old(self).outstanding_spec() + 1,
            final(self).running_spec() == old(self).running_spec(),
            final(self).queue_spec().len() == old(self).queue_spec().len() + 1,
            final(self).queue_spec().drop_last() == old(self).queue_spec(),
            is_fresh(final(self).queue_spec().last(), &stack, Hint::Normal, entry, closure),
    {
        self.enqueue_with(Hint::Normal, stack, entry, closure)
    }

    /// Spawns a coroutine with the given hint on `stack`, starting at `entry`
    /// with closure address `closure`: it joins the back of the queue and
    /// counts as outstanding.
    pub fn enqueue_with(&mut self, hint: Hint, stack: Stack, entry: usize, closure: usize)
        requires
            old(self).wf(),
            old(self).outstanding_spec() < usize::MAX,
        ensures
            final(self).wf(),
            final(self).outstanding_spec() == old(self).outstanding_spec() + 1,
            final(self).running_spec() == old(self).running_spec(),
            final(self).queue_spec().len() == old(self).queue_spec().len() + 1,
            final(self).queue_spec().drop_last() == old(self).queue_spec(),
            is_fresh(final(self).queue_spec().last(), &stack, hint, entry, closure),
    {
        let coro = Coroutine::new_with_hint(stack, hint, entry, closure);
        self.outstanding = self.outstanding + 1;
        self.queue.push_back(coro);
        proof {
            assert(self.queue@.drop_last() =~= old(self).queue@);
            assert forall|i: int| 0 <= i < self.queue_spec().len() implies is_resumable(
                #[trigger] self.queue_spec()[i],
            ) by {
                if i < old(self).queue_spec().len() {
                    assert(self.queue_spec()[i] == old(self).queue_spec()[i]);
                }
            }
        }
    }

    /// Hands back a coroutine after a worker resumed it: one that yielded
    /// rejoins the back of the queue; one that finished no longer counts and
    /// is returned, for its stack to be released. Also returns whether the
    /// pool just became idle (the last outstanding coroutine finished), when
    /// waiters of `wait_idle` are woken.
    pub fn complete_resume(&mut self, coro: Coroutine) -> (r: (bool, Option<Coroutine>))
        requires
            old(self).wf(),
            old(self).running_spec() > 0,
            coro.state_spec() == State::Yielded || coro.state_spec() == State::Done,
        ensures
            final(self).wf(),
            final(self).running_spec() == old(self).running_spec() - 1,
            coro.state_spec() == State::Yielded ==> {
                &&& final(self).queue_spec() == old(self).queue_spec().push(coro)
                &&& final(self).outstanding_spec() == old(self).outstanding_spec()
                &&& !r.0
                &&& r.1 is None
            },
            coro.state_spec() == State::Done ==> {
                &&& final(self).queue_spec() == old(self).queue_spec()
                &&& final(self).outstanding_spec() == old(self).outstanding_spec() - 1
                &&& r.0 == (final(self).outstanding_spec() == 0)
                &&& r.1 == Some(coro)
            },
    {
        proof {
            self.running@ = (self.running@ - 1) as nat;
        }
        if coro.is_done() {
            self.outstanding = self.outstanding - 1;
            (self.outstanding == 0, Some(coro))
        } else {
            self.queue.push_back(coro);
            proof {
                assert forall|i: int| 0 <= i < self.queue_spec().len() implies is_resumable(
                    #[trigger] self.queue_spec()[i],
                ) by {
                    if i < old(self).queue_spec().len() {
                        assert(self.queue_spec()[i] == old(self).queue_spec()[i]);
                    }
                }
            }
            (false, None)
        }
    }

    /// Whether no coroutine is outstanding (`wait_idle` returns once this holds).
    pub fn is_idle(&self) -> (b: bool)
        ensures
            b == (self.outstanding_spec() == 0),
    {
        self.outstanding == 0
    }

    /// Number of outstanding coroutines.
    pub fn outstanding(&self) -> (n: usize)
        ensures
            n == self.outstanding_spec(),
    {
        self.outstanding
    }
}

/// A worker's next step: take the front coroutine if there is one (it then
/// counts as being resumed); otherwise exit if the pool is shutting down, or
/// park until woken.
pub fn pop_or_park(state: &mut PoolState, shutdown: bool) -> (p: Pop)
    requires
        old(state).wf(),
    ensures
        final(state).wf(),
        final(state).outstanding_spec() == old(state).outstanding_spec(),
        old(state).queue_spec().len() > 0 ==> {
            &&& p == Pop::Run(old(state).queue_spec()[0])
            &&& is_resumable(old(state).queue_spec()[0])
            &&& final(state).queue_spec() == old(state).queue_spec().drop_first()
            &&& final(state).running_spec() == old(state).running_spec() + 1
        },
        old(state).queue_spec().len() == 0 ==> {
            &&& p == (if shutdown { Pop::Exit } else { Pop::Park })
            &&& final(state).queue_spec() == old(state).queue_spec()
            &&& final(state).running_spec() == old(state).running_spec()
        },
{
    match state.queue.pop_front() {
        Some(coro) => {
            proof {
                state.running@ = state.running@ + 1;
                assert(state.queue@ =~= old(state).queue@.drop_first());
                assert(is_resumable(old(state).queue_spec()[0]));
                assert forall|i: int| 0 <= i < state.queue_spec().len() implies is_resumable(
                    #[trigger] state.queue_spec()[i],
                ) by {
                    assert(state.queue_spec()[i] == old(state).queue_spec()[i + 1]);
                }
            }
            Pop::Run(coro)
        },
        None => {
            if shutdown {
                Pop::Exit
            } else {
                Pop::Park
            }
        },
    }
}

/// When the pool is idle, nothing is queued and no worker is resuming a
/// coroutine.
pub proof fn lemma_idle_means_drained(s: PoolState)
    requires
        s.wf(),
        s.outstanding_spec() == 0,
    ensures
        s.queue_spec().len() == 0,
        s.running_spec() == 0,
{
}

} // verus!
