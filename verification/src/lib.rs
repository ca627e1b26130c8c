//! User-space coroutine runtime: the verified core.
//!
//! The library states and proves the decisions of the runtime: the layout of
//! a coroutine stack (whole pages, a guard page below, a 16-byte aligned top),
//! the layout and first value of a saved register context, the coroutine state
//! machine behind `resume` and `yield_now`, the FIFO round-robin ready queue of
//! the single-threaded scheduler, the result slot of a spawned coroutine, and
//! the shared bookkeeping of the M:N thread pool. The context switch, the
//! memory mappings and the threads are driven by the caller.
pub mod context;
pub mod coroutine;
pub mod scheduler;
pub mod stack;
pub mod threadpool;

pub use context::{Context, Register, CONTEXT_SIZE};
pub use coroutine::{Coroutine, Hint, ResumeOutcome, ResumeStep, State};
pub use scheduler::{JoinHandle, Scheduler, DEFAULT_STACK_SIZE};
pub use stack::{Stack, StackError, StackLayout, StackStep};
pub use threadpool::{pop_or_park, worker_count, PoolState, Pop};
