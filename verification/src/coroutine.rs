//! The coroutine state machine behind `resume` and `yield_now`.
//!
//! A coroutine is `Ready` until its first resume, `Running` while it holds the
//! CPU, `Yielded` after it gave the CPU back with `yield_now`, and `Done` once
//! its closure returned or panicked. The context switch itself is done by the
//! caller between `begin_resume` and `end_resume`; inside the coroutine,
//! `suspend` precedes the switch back of a yield and `finish` the final one.
use vstd::prelude::*;
use crate::context::{Context, Register};
use crate::stack::Stack;

verus! {

/// Scheduling class of a coroutine, for placing it on a kind of worker.
#[derive(Debug, Clone, Copy, PartialEq, Eq)]
pub enum Hint {
    /// Ordinary coroutine.
    Normal,
    /// Compute-heavy coroutine.
    Compute,
}

/// Result of one `resume`.
#[derive(Debug, Clone, Copy, PartialEq, Eq)]
pub enum ResumeOutcome {
    /// The coroutine called `yield_now`; it can be resumed again.
    Yielded,
    /// The coroutine has finished (its closure returned or panicked).
    Done,
}

/// Execution state of a coroutine.
#[derive(Debug, Clone, Copy, PartialEq, Eq)]
pub enum State {
    /// Created, never resumed.
    Ready,
    /// Holding the CPU.
    Running,
    /// Gave the CPU back with `yield_now`.
    Yielded,
    /// Finished.
    Done,
}

/// What the caller of `begin_resume` does next.
#[derive(Debug, Clone, Copy, PartialEq, Eq)]
pub enum ResumeStep {
    /// The coroutine had already finished: the resume returns `Done` without
    /// switching.
    Finished,
    /// Switch into the coroutine, then call `end_resume`.
    Switch,
}

/// State after `begin_resume`: a finished coroutine stays finished, any other
/// starts running.
pub open spec fn begun(s: State) -> State {
    if s == State::Done {
        State::Done
    } else {
        State::Running
    }
}

/// State once a running coroutine's body reaches its next `yield_now`
/// (`yields`, then `suspend`) or returns or panics (`finish`); a coroutine
/// that is not running does not run.
pub open spec fn ran(s: State, yields: bool) -> State {
    if s == State::Running {
        if yields {
            State::Yielded
        } else {
            State::Done
        }
    } else {
        s
    }
}

/// The outcome a resume gives for the state the coroutine is left in.
pub open spec fn outcome_of(s: State) -> ResumeOutcome {
    if s == State::Yielded {
        ResumeOutcome::Yielded
    } else {
        ResumeOutcome::Done
    }
}

/// State after one whole resume in which the body, if it runs, yields
/// (`yields`) or returns.
pub open spec fn resumed(s: State, yields: bool) -> State {
    ran(begun(s), yields)
}

/// State after the first `i` resumes of a coroutine whose body calls
/// `yield_now` `k` times and then returns (or panics).
pub open spec fn after_resumes(k: nat, i: nat) -> State
    decreases i,
{
    if i == 0 {
        State::Ready
    } else {
        resumed(after_resumes(k, (i - 1) as nat), ((i - 1) as nat) < k)
    }
}

/// A whole run of resumes: a coroutine whose body calls `yield_now` `k` times
/// and then returns is started by its first resume only; its resumes give
/// `Yielded` exactly `k` times, then `Done`, and `Done` for ever after.
pub proof fn lemma_resume_sequence(k: nat, i: nat)
    ensures
        after_resumes(k, i) == (if i == 0 {
            State::Ready
        } else if i <= k {
            State::Yielded
        } else {
            State::Done
        }),
        outcome_of(resumed(after_resumes(k, i), i < k)) == (if i < k {
            ResumeOutcome::Yielded
        } else {
            ResumeOutcome::Done
        }),
        begun(after_resumes(k, i)) == State::Running <==> i <= k,
    decreases i,
{
    if i > 0 {
        lemma_resume_sequence(k, (i - 1) as nat);
    }
}

/// State changes a coroutine can make in one operation: none, starting or
/// continuing to run, yielding, or finishing.
pub open spec fn may_follow(before: State, after: State) -> bool {
    ||| before == after
    ||| (before == State::Ready && after == State::Running)
    ||| (before == State::Yielded && after == State::Running)
    ||| (before == State::Running && after == State::Yielded)
    ||| (before == State::Running && after == State::Done)
}

/// A finished coroutine stays finished, and no coroutine becomes `Ready`
/// again once it has left that state.
pub proof fn lemma_done_is_final(before: State, after: State)
    requires
        may_follow(before, after),
    ensures
        before == State::Done ==> after == State::Done,
        after == State::Ready ==> before == State::Ready,
{
}

/// `c` is a coroutine just made on `stack` with `hint`, whose first resume
/// enters `entry` with closure address `closure` in R12 and the stack pointer
/// 8 bytes below the stack top (so 8 modulo 16); every other saved register is
/// zero.
pub open spec fn is_fresh(c: Coroutine, stack: &Stack, hint: Hint, entry: usize, closure: usize) -> bool {
    &&& c.state_spec() == State::Ready
    &&& c.hint_spec() == hint
    &&& !c.panicked_spec()
    &&& c.stack_spec() == stack
    &&& c.coro_ctx_spec().reg(Register::Rip) == entry
    &&& c.coro_ctx_spec().reg(Register::Rsp) == stack.base_spec() + stack.total_spec() - 8
    &&& c.coro_ctx_spec().reg(Register::Rsp) % 16 == 8
    &&& c.coro_ctx_spec().reg(Register::R12) == closure
    &&& c.coro_ctx_spec().reg(Register::Rbx) == 0
    &&& c.coro_ctx_spec().reg(Register::Rbp) == 0
    &&& c.coro_ctx_spec().reg(Register::R13) == 0
    &&& c.coro_ctx_spec().reg(Register::R14) == 0
    &&& c.coro_ctx_spec().reg(Register::R15) == 0
    &&& forall|i: int| 0 <= i < 8 ==> c.scheduler_ctx_spec().regs@[i] == 0
}

/// A user-space coroutine: its stack, its saved contexts, its state, its
/// scheduling hint, and whether its closure panicked.
#[derive(Debug)]
pub struct Coroutine {
    scheduler_ctx: Context,
    coro_ctx: Context,
    stack: Stack,
    state: State,
    hint: Hint,
    panicked: bool,
}

impl Coroutine {
    /// Current state.
    pub closed spec fn state_spec(&self) -> State {
        self.state
    }

    /// Scheduling hint.
    pub closed spec fn hint_spec(&self) -> Hint {
        self.hint
    }

    /// Whether the closure finished by panicking.
    pub closed spec fn panicked_spec(&self) -> bool {
        self.panicked
    }

    /// Registers of the resumer, saved while the coroutine runs.
    pub closed spec fn scheduler_ctx_spec(&self) -> Context {
        self.scheduler_ctx
    }

    /// Registers of the coroutine, saved while it does not run.
    pub closed spec fn coro_ctx_spec(&self) -> Context {
        self.coro_ctx
    }

    /// The coroutine's stack.
    pub closed spec fn stack_spec(&self) -> &Stack {
        &self.stack
    }

    /// A new coroutine with hint `Normal`; see `new_with_hint`.
    pub fn new(stack: Stack, entry: usize, closure: usize) -> (c: Coroutine)
        ensures
            is_fresh(c, &stack, Hint::Normal, entry, closure),
    {
        Self::new_with_hint(stack, Hint::Normal, entry, closure)
    }

    /// A new coroutine on `stack` that, at its first resume, starts at `entry`
    /// with the closure address `closure` in R12 and the stack pointer 8 bytes
    /// below the stack top.
    pub fn new_with_hint(stack: Stack, hint: Hint, entry: usize, closure: usize) -> (c: Coroutine)
        ensures
            is_fresh(c, &stack, hint, entry, closure),
    {
        let top: usize = stack.top();
        let coro_ctx = Context::for_entry(entry, top, closure);
        Coroutine {
            scheduler_ctx: Context::default(),
            coro_ctx,
            stack,
            state: State::Ready,
            hint,
            panicked: false,
        }
    }

    /// The two saved contexts, (resumer, coroutine), for the context switch
    /// to save registers into and load them from. Nothing else changes.
    pub fn contexts_mut(&mut self) -> (r: (&mut Context, &mut Context))
        ensures
            *r.0 == old(self).scheduler_ctx_spec(),
            *r.1 == old(self).coro_ctx_spec(),
            final(self).scheduler_ctx_spec() == *final(r.0),
            final(self).coro_ctx_spec() == *final(r.1),
            final(self).state_spec() == old(self).state_spec(),
            final(self).hint_spec() == old(self).hint_spec(),
            final(self).panicked_spec() == old(self).panicked_spec(),
            final(self).stack_spec() == old(self).stack_spec(),
    {
        (&mut self.scheduler_ctx, &mut self.coro_ctx)
    }

    /// Scheduling hint.
    pub fn hint(&self) -> (h: Hint)
        ensures
            h == self.hint_spec(),
    {
        self.hint
    }

    /// Current state.
    pub fn state(&self) -> (s: State)
        ensures
            s == self.state_spec(),
    {
        self.state
    }

    /// Whether the coroutine has finished.
    pub fn is_done(&self) -> (b: bool)
        ensures
            b == (self.state_spec() == State::Done),
    {
        match self.state {
            State::Done => true,
            _ => false,
        }
    }

    /// Whether the closure finished by panicking.
    pub fn panicked(&self) -> (b: bool)
        ensures
            b == self.panicked_spec(),
    {
        self.panicked
    }

    /// The coroutine's stack.
    pub fn stack(&self) -> (s: &Stack)
        ensures
            s == self.stack_spec(),
    {
        &self.stack
    }

    /// First half of a resume. A finished coroutine is left as it is and the
    /// resume returns `Done` without switching; any other coroutine becomes
    /// `Running` and the caller switches into it.
    pub fn begin_resume(&mut self) -> (step: ResumeStep)
        ensures
            old(self).state_spec() == State::Done ==> step == ResumeStep::Finished
                && *final(self) == *old(self),
            old(self).state_spec() != State::Done ==> step == ResumeStep::Switch,
            final(self).state_spec() == begun(old(self).state_spec()),
            final(self).hint_spec() == old(self).hint_spec(),
            final(self).panicked_spec() == old(self).panicked_spec(),
            final(self).stack_spec() == old(self).stack_spec(),
            final(self).coro_ctx_spec() == old(self).coro_ctx_spec(),
            final(self).scheduler_ctx_spec() == old(self).scheduler_ctx_spec(),
            may_follow(old(self).state_spec(), final(self).state_spec()),
    {
        match self.state {
            State::Done => ResumeStep::Finished,
            _ => {
                self.state = State::Running;
                ResumeStep::Switch
            },
        }
    }

    /// Second half of a resume, once the coroutine has switched back: a yield
    /// gives `Yielded`, a finish gives `Done`, whether the closure returned or
    /// panicked. Nothing changes.
    pub fn end_resume(&self) -> (r: ResumeOutcome)
        requires
            self.state_spec() == State::Yielded || self.state_spec() == State::Done,
        ensures
            r == outcome_of(self.state_spec()),
    {
        match self.state {
            State::Yielded => ResumeOutcome::Yielded,
            _ => ResumeOutcome::Done,
        }
    }

    /// Inside the coroutine, before switching back on `yield_now`.
    pub fn suspend(&mut self)
        requires
            old(self).state_spec() == State::Running,
        ensures
            final(self).state_spec() == ran(old(self).state_spec(), true),
            final(self).hint_spec() == old(self).hint_spec(),
            final(self).panicked_spec() == old(self).panicked_spec(),
            final(self).stack_spec() == old(self).stack_spec(),
            final(self).coro_ctx_spec() == old(self).coro_ctx_spec(),
            final(self).scheduler_ctx_spec() == old(self).scheduler_ctx_spec(),
            may_follow(old(self).state_spec(), final(self).state_spec()),
    {
        self.state = State::Yielded;
    }

    /// Inside the coroutine, once its closure has returned (`panicked` is
    /// false) or panicked (`panicked` is true), before the final switch back.
    pub fn finish(&mut self, panicked: bool)
        requires
            old(self).state_spec() == State::Running,
        ensures
            final(self).state_spec() == ran(old(self).state_spec(), false),
            final(self).panicked_spec() == panicked,
            final(self).hint_spec() == old(self).hint_spec(),
            final(self).stack_spec() == old(self).stack_spec(),
            final(self).coro_ctx_spec() == old(self).coro_ctx_spec(),
            final(self).scheduler_ctx_spec() == old(self).scheduler_ctx_spec(),
            may_follow(old(self).state_spec(), final(self).state_spec()),
    {
        self.state = State::Done;
        self.panicked = panicked;
    }
}

} // verus!
