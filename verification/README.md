# dlsm_greenthread

A user-space coroutine runtime (x86_64): coroutines with their own stacks,
a single-threaded round-robin scheduler, and an M:N thread pool.

- `src/` is the verified core (Verus): stack layout, register context layout,
  the coroutine state machine, the scheduler's ready queue and join slots, and
  the thread pool's shared bookkeeping, each with its contract.
- `app/` is the runtime around it: the assembly context switch, `mmap` /
  `mprotect` / `munmap`, thread-local current coroutine and scheduler, panic
  propagation, worker threads and condition variables.
- `tests/` exercises the verified core on concrete values.
