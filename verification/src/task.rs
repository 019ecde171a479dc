//! The traced task as the scheduler sees it, and the kernel numbers the
//! scheduler decides on.
use vstd::prelude::*;

verus! {

/// `SIGILL`: illegal instruction.
pub const SIGILL: i32 = 4;
/// `SIGTRAP`: the signal that accompanies every ptrace event stop.
pub const SIGTRAP: i32 = 5;
/// `SIGSEGV`: invalid memory reference.
pub const SIGSEGV: i32 = 11;
/// `SIGSTOP`: stop, cannot be caught.
pub const SIGSTOP: i32 = 19;
/// `SIGTSTP`: stop typed at the terminal.
pub const SIGTSTP: i32 = 20;
/// `SIGTTIN`: terminal input for a background process.
pub const SIGTTIN: i32 = 21;
/// `SIGTTOU`: terminal output for a background process.
pub const SIGTTOU: i32 = 22;

/// `PTRACE_EVENT_FORK`.
pub const PTRACE_EVENT_FORK: i32 = 1;
/// `PTRACE_EVENT_VFORK`.
pub const PTRACE_EVENT_VFORK: i32 = 2;
/// `PTRACE_EVENT_CLONE`.
pub const PTRACE_EVENT_CLONE: i32 = 3;
/// `PTRACE_EVENT_EXEC`.
pub const PTRACE_EVENT_EXEC: i32 = 4;
/// `PTRACE_EVENT_VFORK_DONE`.
pub const PTRACE_EVENT_VFORK_DONE: i32 = 5;
/// `PTRACE_EVENT_EXIT`.
pub const PTRACE_EVENT_EXIT: i32 = 6;
/// `PTRACE_EVENT_SECCOMP`.
pub const PTRACE_EVENT_SECCOMP: i32 = 7;

/// Event message of a seccomp stop for a system call that the filter did not
/// mean to trap.
pub const UNFILTERED_SYSCALL: i32 = 0x7fff;

/// Why a traced task stopped last, as the scheduler recorded it.
#[derive(Clone, Copy, Debug, PartialEq, Eq, Structural)]
pub enum TaskState {
    /// Not yet run, waiting for its first stop.
    Ready,
    /// Stopped by the signal with this number.
    Stopped(i32),
    /// Killed by the signal with this number.
    Signaled(i32),
    /// In a system call stop.
    Syscall,
    /// Just performed an `execve`.
    Exec,
    /// Just created the thread with this id.
    Clone(i32),
    /// Just created (by `fork` or `vfork`) the process with this id.
    Fork(i32),
    /// Trapped by the seccomp filter on the system call with this number.
    Seccomp(i32),
    /// About to exit with this code.
    Exited(i32),
}

/// A traced task: its thread id, process id, parent's process id, its state,
/// and the signal that is to be delivered to it when it is resumed.
#[derive(Clone, Copy, Debug, PartialEq, Eq)]
pub struct TracedTask {
    pub tid: i32,
    pub pid: i32,
    pub ppid: i32,
    pub state: TaskState,
    pub signal_to_deliver: Option<i32>,
}

impl TracedTask {
    /// Thread id.
    pub fn gettid(&self) -> (r: i32)
        ensures
            r == self.tid,
    {
        self.tid
    }

    /// Process (thread group) id.
    pub fn getpid(&self) -> (r: i32)
        ensures
            r == self.pid,
    {
        self.pid
    }

    /// Process id of the parent.
    pub fn getppid(&self) -> (r: i32)
        ensures
            r == self.ppid,
    {
        self.ppid
    }

    /// Whether the task stopped in a seccomp trap (`PTRACE_EVENT_SECCOMP`).
    pub fn task_state_is_seccomp(&self) -> (r: bool)
        ensures
            r == (self.state is Seccomp),
    {
        match self.state {
            TaskState::Seccomp(_) => true,
            _ => false,
        }
    }

    /// The same task in another state.
    pub open spec fn with_state(self, state: TaskState) -> TracedTask {
        TracedTask { state, ..self }
    }

    /// The same task with another pending signal.
    pub open spec fn with_signal(self, signal: Option<i32>) -> TracedTask {
        TracedTask { signal_to_deliver: signal, ..self }
    }
}

/// What running a task until its next stop came to.
pub enum RunTask {
    /// The task exited with this code.
    Exited(i32),
    /// The task blocked and is not to be waited on.
    Blocked(TracedTask),
    /// The task can go on running.
    Runnable(TracedTask),
    /// The task (first) created a new task (second).
    Forked(TracedTask, TracedTask),
}

} // verus!
