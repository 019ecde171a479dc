//! Bookkeeping of a ptrace-based tracer: the addresses of the tracer's private
//! pages, and a `waitpid`-driven scheduler of traced tasks.

pub mod consts;
pub mod task;
pub mod sched_wait;
pub mod laws;
pub mod step_laws;
