# systrace

Bookkeeping of a ptrace-based tracer, verified with Verus.

- `src/consts.rs`: addresses, sizes and names shared between the tracer and its
  tracees, with a proof that the thread-local slots are packed `u64` slots inside
  the tracer's private pages.
- `src/task.rs`: a traced task as the scheduler sees it (thread id, process id,
  parent, state, pending signal) and the signal and ptrace event numbers it
  decides on.
- `src/sched_wait.rs`: the `waitpid`-driven scheduler. Its state is a map of
  tasks, a run queue, a blocked queue and a parent map; each operation is
  specified as a transition of that state. Waiting on a task is split into
  steps: the caller makes the system calls (`waitpid`, `PTRACE_GETEVENTMSG`,
  `PTRACE_GETREGS`, `PTRACE_GETSIGINFO`) and hands each result to the next
  step, which says what to do next.
- `src/laws.rs`: properties that span operations.
- `app/lib.rs`: the system calls and the async event loop around the library.
