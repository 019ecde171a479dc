//! A simple scheduler of traced tasks, driven by `waitpid`.
//!
//! The scheduler keeps the tasks it knows of by thread id, a run queue and a
//! blocked queue of thread ids, and the parent of each task it runs. The
//! system calls around it (`waitpid`, `ptrace`) are made by its caller: each
//! step below takes what the kernel reported and says what to do next.
use std::collections::HashMap;
use std::collections::VecDeque;
use vstd::prelude::*;
use crate::laws::{
    lemma_adds_keep_inv, lemma_empty_inv, lemma_next_wait, lemma_remove_keeps_inv,
    lemma_run_result_keeps_inv, lemma_wait_steps_settle,
};
use crate::task::{
    RunTask, TaskState, TracedTask, PTRACE_EVENT_CLONE, PTRACE_EVENT_EXEC, PTRACE_EVENT_EXIT,
    PTRACE_EVENT_FORK, PTRACE_EVENT_SECCOMP, PTRACE_EVENT_VFORK, PTRACE_EVENT_VFORK_DONE, SIGILL,
    SIGSEGV, SIGSTOP, SIGTRAP, SIGTSTP, SIGTTIN, SIGTTOU, UNFILTERED_SYSCALL,
};

verus! {

broadcast use {
    vstd::std_specs::hash::group_hash_axioms,
    vstd::std_specs::vecdeque::group_vec_dequeue_axioms,
};

/// The scheduler's contents, which `SchedWait` owns.
struct SchedState {
    tasks: HashMap<i32, TracedTask>,
    run_queue: VecDeque<i32>,
    blocked_queue: VecDeque<i32>,
    task_tree: HashMap<i32, i32>,
}

/// The scheduler's contents: the tasks by thread id, the run queue (front
/// first), the blocked queue, and the parent of each task by thread id.
pub ghost struct SchedView {
    pub tasks: Map<i32, TracedTask>,
    pub run_queue: Seq<i32>,
    pub blocked_queue: Seq<i32>,
    pub task_tree: Map<i32, i32>,
}

/// How a task that has just been queued at the front is to be resumed.
#[derive(Clone, Copy, Debug, PartialEq, Eq)]
pub enum Resume {
    /// `PTRACE_SYSCALL`: run it to its next system call stop.
    Syscall,
    /// `PTRACE_CONT`, delivering this signal if there is one.
    Continue(Option<i32>),
}

/// What the caller of `add_and_schedule` is to do.
#[derive(Clone, Copy, Debug, PartialEq, Eq)]
pub struct ScheduleAction {
    /// The task to resume.
    pub tid: i32,
    /// How to resume it.
    pub resume: Resume,
    /// The fault signal (`SIGSEGV` or `SIGILL`) whose context is to be shown
    /// first, if the signal to be delivered is one.
    pub fault_signal: Option<i32>,
}

/// What `waitpid` reported for the task that was waited on.
#[derive(Clone, Copy, Debug, PartialEq, Eq)]
pub enum WaitEvent {
    /// `WNOHANG` and no change yet.
    StillAlive,
    /// Killed by a signal.
    Signaled { sig: i32 },
    /// Resumed by `SIGCONT`.
    Continued,
    /// A ptrace event stop.
    PtraceEvent { sig: i32, event: i32 },
    /// A system call stop of the task with this pid.
    PtraceSyscall { pid: i32 },
    /// A signal stop of the task with this pid.
    Stopped { pid: i32, sig: i32 },
    /// The task with this pid exited.
    Exited { pid: i32, code: i32 },
    /// `ECHILD`: the task is not a child that can be waited on.
    NoChild,
    /// Any other status or error.
    Unrecognized,
}

/// Why the scheduler cannot take a report: the caller is to stop there.
#[derive(Clone, Copy, Debug, PartialEq, Eq)]
pub enum Fault {
    /// The scheduler holds no task with this thread id.
    UnknownPid(i32),
    /// A ptrace event with this number, which the scheduler does not handle.
    UnknownEvent(i32),
    /// A seccomp stop with this event message, for a system call that the
    /// filter did not mean to trap.
    UnfilteredSyscall(i32),
    /// A system call stop was reported for another task than the one waited on.
    PidMismatch { waited: i32, reported: i32 },
    /// A status the scheduler does not handle.
    UnknownStatus,
}

/// The next step of waiting on one task.
#[derive(Clone, Copy, Debug, PartialEq, Eq)]
pub enum PollStep {
    /// The task has stopped: here it is, taken out of the scheduler.
    Ready(TracedTask),
    /// Nothing to hand out this time.
    Pending,
    /// Read the ptrace event message of the task (`PTRACE_GETEVENTMSG`) and
    /// hand it to `on_event_msg`.
    FetchEventMsg,
    /// Read the registers of the task (`PTRACE_GETREGS`) and hand `orig_rax`
    /// to `on_seccomp_regs`.
    FetchRegs,
    /// Read the signal information of the stopped task (`PTRACE_GETSIGINFO`)
    /// and hand whether that failed to `on_stop_siginfo`.
    FetchSigInfo,
}

impl View for SchedState {
    type V = SchedView;

    closed spec fn view(&self) -> SchedView {
        SchedView {
            tasks: self.tasks@,
            run_queue: self.run_queue@,
            blocked_queue: self.blocked_queue@,
            task_tree: self.task_tree@,
        }
    }
}

/// The task as it is kept when it is scheduled: a task that is not in a
/// seccomp stop is resumed with its pending signal, which it no longer holds.
pub open spec fn scheduled_task(t: TracedTask) -> TracedTask {
    if t.state is Seccomp {
        t
    } else {
        t.with_signal(None)
    }
}

/// What the caller of `add_and_schedule` is to do for the task `t`.
pub open spec fn schedule_action(t: TracedTask) -> ScheduleAction {
    ScheduleAction {
        tid: t.tid,
        resume: if t.state is Seccomp {
            Resume::Syscall
        } else {
            Resume::Continue(t.signal_to_deliver)
        },
        fault_signal: match t.signal_to_deliver {
            Some(s) => if s == SIGSEGV || s == SIGILL {
                Some(s)
            } else {
                None
            },
            None => None,
        },
    }
}

/// The signals whose stop may be a group-stop.
pub open spec fn is_stop_signal(sig: i32) -> bool {
    sig == SIGSTOP || sig == SIGTSTP || sig == SIGTTIN || sig == SIGTTOU
}

/// The ptrace events whose event message the scheduler reads.
pub open spec fn needs_event_msg(event: i32) -> bool {
    event == PTRACE_EVENT_CLONE || event == PTRACE_EVENT_FORK || event == PTRACE_EVENT_VFORK
        || event == PTRACE_EVENT_EXIT || event == PTRACE_EVENT_SECCOMP
}

impl SchedView {
    /// No tasks, empty queues.
    pub open spec fn empty() -> SchedView {
        SchedView {
            tasks: Map::empty(),
            run_queue: Seq::empty(),
            blocked_queue: Seq::empty(),
            task_tree: Map::empty(),
        }
    }

    /// Every task is kept under its own thread id.
    pub open spec fn wf(self) -> bool {
        forall|k: i32| #[trigger] self.tasks.contains_key(k) ==> self.tasks[k].tid == k
    }

    /// The same contents with other tasks.
    pub open spec fn with_tasks(self, tasks: Map<i32, TracedTask>) -> SchedView {
        SchedView { tasks, ..self }
    }

    /// `add`: kept, its parent recorded, queued at the back of the run queue.
    pub open spec fn added(self, t: TracedTask) -> SchedView {
        SchedView {
            tasks: self.tasks.insert(t.tid, t),
            run_queue: self.run_queue.push(t.tid),
            task_tree: self.task_tree.insert(t.tid, t.ppid),
            ..self
        }
    }

    /// `add_blocked`: kept and queued at the back of the blocked queue.
    pub open spec fn added_blocked(self, t: TracedTask) -> SchedView {
        SchedView {
            tasks: self.tasks.insert(t.tid, t),
            blocked_queue: self.blocked_queue.push(t.tid),
            ..self
        }
    }

    /// `add_and_schedule`: kept as `scheduled_task(t)`, its parent recorded,
    /// queued at the front of the run queue.
    pub open spec fn scheduled(self, t: TracedTask) -> SchedView {
        SchedView {
            tasks: self.tasks.insert(t.tid, scheduled_task(t)),
            run_queue: seq![t.tid] + self.run_queue,
            task_tree: self.task_tree.insert(t.tid, t.ppid),
            ..self
        }
    }

    /// `remove`: the task `t` is forgotten: its entry and its parent (kept
    /// under its thread id) go, and its thread id is taken off both queues,
    /// the rest of each queue keeping its order.
    pub open spec fn removed(self, t: TracedTask) -> SchedView {
        SchedView {
            tasks: self.tasks.remove(t.tid),
            run_queue: self.run_queue.filter(other_than(t.tid)),
            blocked_queue: self.blocked_queue.filter(other_than(t.tid)),
            task_tree: self.task_tree.remove(t.tid),
        }
    }

    /// The task to wait on next: the front of the run queue. When no task is
    /// runnable, the blocked tasks are waited on in turn: the blocked queue
    /// becomes the run queue, and its front is taken. Only when both queues
    /// are empty is there none.
    pub open spec fn next_wait(self) -> (SchedView, Option<i32>) {
        if self.run_queue.len() > 0 {
            (
                SchedView { run_queue: self.run_queue.drop_first(), ..self },
                Some(self.run_queue[0]),
            )
        } else if self.blocked_queue.len() > 0 {
            (
                SchedView {
                    run_queue: self.blocked_queue.drop_first(),
                    blocked_queue: Seq::empty(),
                    ..self
                },
                Some(self.blocked_queue[0]),
            )
        } else {
            (self, None)
        }
    }

    /// The task `tid` put back at the end of the run queue, to be waited on
    /// again.
    pub open spec fn requeued(self, tid: i32) -> SchedView {
        SchedView { run_queue: self.run_queue.push(tid), ..self }
    }

    /// Between operations: every task is kept under its own thread id, and
    /// every queued thread id is that of a held task, queued once, on one
    /// queue.
    pub open spec fn inv(self) -> bool {
        &&& self.wf()
        &&& self.run_queue.no_duplicates()
        &&& self.blocked_queue.no_duplicates()
        &&& forall|k: i32|
            !(#[trigger] self.run_queue.contains(k) && #[trigger] self.blocked_queue.contains(k))
        &&& forall|k: i32|
            #![trigger self.run_queue.contains(k)]
            #![trigger self.blocked_queue.contains(k)]
            (self.run_queue.contains(k) || self.blocked_queue.contains(k))
                ==> self.tasks.contains_key(k)
    }

    /// Every held task is queued.
    pub open spec fn complete(self) -> bool {
        forall|k: i32| #[trigger]
            self.tasks.contains_key(k) ==> (self.run_queue.contains(k)
                || self.blocked_queue.contains(k))
    }

    /// The scheduler with `tid` put back at the front of the run queue.
    pub open spec fn with_front(self, tid: i32) -> SchedView {
        SchedView { run_queue: seq![tid] + self.run_queue, ..self }
    }

    /// While the task `tid` is being waited on: the scheduler is as between
    /// operations, except that `tid` has been taken off the front of the run
    /// queue.
    pub open spec fn in_flight(self, tid: i32) -> bool {
        self.with_front(tid).inv()
    }
}

/// A step of waiting on `tid` that ends (`Pending` or `Ready`) leaves the
/// scheduler `n` as between operations; one that asks for more leaves it as
/// it was, `s`.
pub open spec fn settles(s: SchedView, n: SchedView, step: PollStep) -> bool {
    if step is Pending || step is Ready {
        n.inv()
    } else {
        n == s
    }
}

/// A step that ends leaves every held task queued.
pub open spec fn settles_complete(n: SchedView, step: PollStep) -> bool {
    (step is Pending || step is Ready) ==> n.complete()
}

/// The tasks that running gave back are not held, and a fork's two tasks
/// differ.
pub open spec fn fresh(s: SchedView, result: RunTask) -> bool {
    match result {
        RunTask::Exited(code) => true,
        RunTask::Blocked(t) => !s.tasks.contains_key(t.tid),
        RunTask::Runnable(t) => !s.tasks.contains_key(t.tid),
        RunTask::Forked(parent, child) => !s.tasks.contains_key(parent.tid)
            && !s.tasks.contains_key(child.tid) && parent.tid != child.tid,
    }
}

/// What handling the outcome `result` of running a task does, given the
/// exit code so far: the scheduler after it, the exit code from then on, and
/// the resumptions to make, in order.
pub open spec fn run_result_step(s: SchedView, exit_code: i32, result: RunTask) -> (
    SchedView,
    i32,
    Seq<ScheduleAction>,
) {
    match result {
        RunTask::Exited(code) => (s, code, Seq::empty()),
        RunTask::Blocked(t) => (s.added_blocked(t), exit_code, Seq::empty()),
        RunTask::Runnable(t) => (s.scheduled(t), exit_code, seq![schedule_action(t)]),
        RunTask::Forked(parent, child) => (
            s.scheduled(child).scheduled(parent),
            exit_code,
            seq![schedule_action(child), schedule_action(parent)],
        ),
    }
}

/// Keeps every thread id but `tid`.
pub open spec fn other_than(tid: i32) -> spec_fn(i32) -> bool {
    |x: i32| x != tid
}

/// Hands out the task `tid` with the given state.
pub open spec fn release_with_state(s: SchedView, tid: i32, state: TaskState) -> (
    SchedView,
    PollStep,
) {
    (s.with_tasks(s.tasks.remove(tid)), PollStep::Ready(s.tasks[tid].with_state(state)))
}

/// Hands out the task `tid` as it is.
pub open spec fn release_unchanged(s: SchedView, tid: i32) -> (SchedView, PollStep) {
    (s.with_tasks(s.tasks.remove(tid)), PollStep::Ready(s.tasks[tid]))
}

/// Hands out the task `tid`, stopped by `sig`: a task still in its initial
/// `Ready` state stays so, any other is marked stopped; `sig` is to be
/// delivered to it.
pub open spec fn release_stopped(s: SchedView, tid: i32, sig: i32) -> (SchedView, PollStep) {
    let t = s.tasks[tid];
    let state = if t.state == TaskState::Ready {
        TaskState::Ready
    } else {
        TaskState::Stopped(sig)
    };
    (s.with_tasks(s.tasks.remove(tid)), PollStep::Ready(t.with_state(state).with_signal(Some(sig))))
}

/// `UnknownPid` unless the scheduler holds the task `tid`.
pub open spec fn unknown_pid(s: SchedView, tid: i32) -> Option<Fault> {
    if s.tasks.contains_key(tid) {
        None
    } else {
        Some(Fault::UnknownPid(tid))
    }
}

/// Why `waitpid` reporting `ev` for the task `tid` cannot be taken, if it
/// cannot: a report that would hand out a task the scheduler does not hold,
/// a ptrace event stop without `SIGTRAP` or with an event the scheduler does
/// not handle, a system call stop of another task, or a status the scheduler
/// does not handle.
pub open spec fn wait_fault(s: SchedView, tid: i32, ev: WaitEvent) -> Option<Fault> {
    match ev {
        WaitEvent::Signaled { sig } => unknown_pid(s, tid),
        WaitEvent::Continued => unknown_pid(s, tid),
        WaitEvent::PtraceEvent { sig, event } => {
            if sig != SIGTRAP {
                Some(Fault::UnknownStatus)
            } else if !s.tasks.contains_key(tid) {
                Some(Fault::UnknownPid(tid))
            } else if event == PTRACE_EVENT_EXEC || event == PTRACE_EVENT_VFORK_DONE
                || needs_event_msg(event) {
                None
            } else {
                Some(Fault::UnknownEvent(event))
            }
        },
        WaitEvent::PtraceSyscall { pid } => {
            if pid != tid {
                Some(Fault::PidMismatch { waited: tid, reported: pid })
            } else {
                unknown_pid(s, tid)
            }
        },
        WaitEvent::Stopped { pid, sig } => {
            if is_stop_signal(sig) {
                None
            } else {
                unknown_pid(s, tid)
            }
        },
        WaitEvent::Unrecognized => Some(Fault::UnknownStatus),
        _ => None,
    }
}

/// Why the event message `msg` of the ptrace event `event` of task `tid`
/// cannot be taken, if it cannot: the task is not held, the event is not one
/// whose message the scheduler reads, or it is a seccomp stop for a system
/// call that the filter did not mean to trap.
pub open spec fn event_msg_fault(s: SchedView, tid: i32, event: i32, msg: i64) -> Option<Fault> {
    if !s.tasks.contains_key(tid) {
        Some(Fault::UnknownPid(tid))
    } else if event == PTRACE_EVENT_CLONE || event == PTRACE_EVENT_FORK || event
        == PTRACE_EVENT_VFORK || event == PTRACE_EVENT_EXIT {
        None
    } else if event == PTRACE_EVENT_SECCOMP {
        if msg as i32 == UNFILTERED_SYSCALL {
            Some(Fault::UnfilteredSyscall(msg as i32))
        } else {
            None
        }
    } else {
        Some(Fault::UnknownEvent(event))
    }
}

/// Why the signal information outcome for task `tid`, stopped by `sig`,
/// cannot be taken, if it cannot: it is no group-stop, and the task is not
/// held.
pub open spec fn siginfo_fault(s: SchedView, tid: i32, sig: i32, siginfo_failed: bool) -> Option<
    Fault,
> {
    if group_stop(sig, siginfo_failed) {
        None
    } else {
        unknown_pid(s, tid)
    }
}

/// What `waitpid` reporting `ev` for the task `tid` does, where
/// `wait_fault` finds nothing wrong with the report. A task that is still
/// running is put back at the end of the run queue; one that cannot be
/// waited on (`ECHILD`) stays held but is not queued again; one that exited
/// is forgotten.
pub open spec fn wait_step(s: SchedView, tid: i32, ev: WaitEvent) -> (SchedView, PollStep) {
    match ev {
        WaitEvent::StillAlive => (s.requeued(tid), PollStep::Pending),
        WaitEvent::Signaled { sig } => release_with_state(s, tid, TaskState::Signaled(sig)),
        WaitEvent::Continued => release_unchanged(s, tid),
        WaitEvent::PtraceEvent { sig, event } => {
            if event == PTRACE_EVENT_EXEC {
                release_with_state(s, tid, TaskState::Exec)
            } else if event == PTRACE_EVENT_VFORK_DONE {
                release_unchanged(s, tid)
            } else {
                (s, PollStep::FetchEventMsg)
            }
        },
        WaitEvent::PtraceSyscall { pid } => release_with_state(s, tid, TaskState::Syscall),
        WaitEvent::Stopped { pid, sig } => {
            if is_stop_signal(sig) {
                (s, PollStep::FetchSigInfo)
            } else {
                release_stopped(s, tid, sig)
            }
        },
        WaitEvent::Exited { pid, code } => (s.with_tasks(s.tasks.remove(pid)), PollStep::Pending),
        WaitEvent::NoChild => (s, PollStep::Pending),
        WaitEvent::Unrecognized => (s, PollStep::Pending),
    }
}

/// What the event message `msg` of the ptrace event `event` of task `tid`
/// does, where `event_msg_fault` finds nothing wrong with it.
pub open spec fn event_msg_step(s: SchedView, tid: i32, event: i32, msg: i64) -> (
    SchedView,
    PollStep,
) {
    if event == PTRACE_EVENT_CLONE {
        release_with_state(s, tid, TaskState::Clone(msg as i32))
    } else if event == PTRACE_EVENT_FORK || event == PTRACE_EVENT_VFORK {
        release_with_state(s, tid, TaskState::Fork(msg as i32))
    } else if event == PTRACE_EVENT_EXIT {
        release_with_state(s, tid, TaskState::Exited(msg as i32))
    } else {
        (s, PollStep::FetchRegs)
    }
}

/// Whether a stop by `sig` is a group-stop, given whether reading the
/// stopped task's signal information failed: it is so exactly for the stop
/// signals on which that read fails.
pub open spec fn group_stop(sig: i32, siginfo_failed: bool) -> bool {
    is_stop_signal(sig) && siginfo_failed
}

/// What the outcome of reading the signal information of task `tid`, stopped
/// by `sig`, does: a task in a group-stop is not handed out, but put back at
/// the end of the run queue.
pub open spec fn siginfo_step(s: SchedView, tid: i32, sig: i32, siginfo_failed: bool) -> (
    SchedView,
    PollStep,
) {
    if group_stop(sig, siginfo_failed) {
        (s.requeued(tid), PollStep::Pending)
    } else {
        release_stopped(s, tid, sig)
    }
}

/// Whether a stop by `sig` is a ptrace group-stop (see `man ptrace`,
/// "Group-stop"), given whether `PTRACE_GETSIGINFO` on the stopped task
/// failed. Only meaningful right after `waitpid` reported a stop.
pub fn is_ptrace_group_stop(sig: i32, siginfo_failed: bool) -> (r: bool)
    ensures
        r == group_stop(sig, siginfo_failed),
{
    if sig == SIGSTOP || sig == SIGTSTP || sig == SIGTTIN || sig == SIGTTOU {
        siginfo_failed
    } else {
        false
    }
}

/// The thread ids of `q` other than `tid`, in their order.
fn without(q: &VecDeque<i32>, tid: i32) -> (r: VecDeque<i32>)
    ensures
        r@ == q@.filter(other_than(tid)),
{
    let mut r: VecDeque<i32> = VecDeque::new();
    let mut i: usize = 0;
    while i < q.len()
        invariant
            i <= q@.len(),
            r@ == q@.take(i as int).filter(other_than(tid)),
        decreases q@.len() - i,
    {
        let x = q[i];
        proof {
            reveal(Seq::filter);
            assert(q@.take(i as int + 1).drop_last() =~= q@.take(i as int));
            assert(q@.take(i as int + 1).last() == x);
        }
        if x != tid {
            r.push_back(x);
        }
        i = i + 1;
    }
    assert(q@.take(q@.len() as int) =~= q@);
    r
}

impl SchedState {
    /// A scheduler with no tasks.
    fn new() -> (r: Self)
        ensures
            r@ == SchedView::empty(),
    {
        SchedState {
            tasks: HashMap::new(),
            run_queue: VecDeque::new(),
            blocked_queue: VecDeque::new(),
            task_tree: HashMap::new(),
        }
    }

    /// Adds a task to the run (ready) queue.
    fn add(&mut self, task: TracedTask)
        ensures
            final(self)@ == old(self)@.added(task),
    {
        let tid = task.gettid();
        self.task_tree.insert(task.gettid(), task.getppid());
        self.tasks.insert(tid, task);
        self.run_queue.push_back(tid);
    }

    /// Adds a task to the blocked queue.
    fn add_blocked(&mut self, task: TracedTask)
        ensures
            final(self)@ == old(self)@.added_blocked(task),
    {
        let tid = task.gettid();
        self.tasks.insert(tid, task);
        self.blocked_queue.push_back(tid);
    }

    /// Adds a task at the front of the run queue, to be waited on next, and
    /// says how to resume it: a task in a seccomp stop runs to its next system
    /// call stop; any other is continued with its pending signal, which it
    /// then no longer holds.
    fn add_and_schedule(&mut self, task: TracedTask) -> (r: ScheduleAction)
        ensures
            final(self)@ == old(self)@.scheduled(task),
            r == schedule_action(task),
    {
        let mut task = task;
        let tid = task.gettid();
        let sig = task.signal_to_deliver;
        let is_seccomp = task.task_state_is_seccomp();
        if !is_seccomp {
            task.signal_to_deliver = None;
        }
        let fault_signal = match sig {
            Some(signo) => if signo == SIGSEGV || signo == SIGILL {
                Some(signo)
            } else {
                None
            },
            None => None,
        };
        self.task_tree.insert(tid, task.getppid());
        self.tasks.insert(tid, task);
        self.run_queue.push_front(tid);
        let resume = if is_seccomp {
            Resume::Syscall
        } else {
            Resume::Continue(sig)
        };
        ScheduleAction { tid, resume, fault_signal }
    }

    /// Forgets a task: its entry and its parent go, and its thread id is
    /// taken off both queues, which otherwise keep their order.
    fn remove(&mut self, task: &mut TracedTask)
        ensures
            final(self)@ == old(self)@.removed(*old(task)),
            *final(task) == *old(task),
    {
        let tid = task.gettid();
        self.task_tree.remove(&tid);
        self.tasks.remove(&tid);
        let run_queue = without(&self.run_queue, tid);
        self.run_queue = run_queue;
        let blocked_queue = without(&self.blocked_queue, tid);
        self.blocked_queue = blocked_queue;
    }

    /// The number of tasks the scheduler holds.
    fn size(&self) -> (r: usize)
        ensures
            r == self@.tasks.len(),
    {
        self.tasks.len()
    }

    /// The task to wait on next (see `SchedView::next_wait`), or `None` when
    /// both queues are empty and the scheduler is done.
    fn next_to_wait(&mut self) -> (r: Option<i32>)
        ensures
            final(self)@ == old(self)@.next_wait().0,
            r == old(self)@.next_wait().1,
    {
        if self.run_queue.len() == 0 {
            let mut blocked: VecDeque<i32> = VecDeque::new();
            std::mem::swap(&mut blocked, &mut self.blocked_queue);
            self.run_queue = blocked;
        }
        let r = self.run_queue.pop_front();
        proof {
            let q = if old(self)@.run_queue.len() > 0 {
                old(self)@.run_queue
            } else {
                old(self)@.blocked_queue
            };
            if q.len() > 0 {
                assert(q.drop_first() =~= q.subrange(1, q.len() as int));
            } else {
                assert(old(self)@.blocked_queue =~= Seq::<i32>::empty());
                assert(old(self)@.run_queue =~= Seq::<i32>::empty());
            }
        }
        r
    }

    fn release_with_state(&mut self, tid: i32, state: TaskState) -> (r: PollStep)
        requires
            old(self)@.tasks.contains_key(tid),
        ensures
            final(self)@ == release_with_state(old(self)@, tid, state).0,
            r == release_with_state(old(self)@, tid, state).1,
    {
        let mut task = self.tasks.remove(&tid).unwrap();
        task.state = state;
        PollStep::Ready(task)
    }

    fn release_unchanged(&mut self, tid: i32) -> (r: PollStep)
        requires
            old(self)@.tasks.contains_key(tid),
        ensures
            final(self)@ == release_unchanged(old(self)@, tid).0,
            r == release_unchanged(old(self)@, tid).1,
    {
        PollStep::Ready(self.tasks.remove(&tid).unwrap())
    }

    fn release_stopped(&mut self, tid: i32, sig: i32) -> (r: PollStep)
        requires
            old(self)@.tasks.contains_key(tid),
        ensures
            final(self)@ == release_stopped(old(self)@, tid, sig).0,
            r == release_stopped(old(self)@, tid, sig).1,
    {
        let mut task = self.tasks.remove(&tid).unwrap();
        if task.state != TaskState::Ready {
            task.state = TaskState::Stopped(sig);
        }
        task.signal_to_deliver = Some(sig);
        PollStep::Ready(task)
    }

    fn check_unknown_pid(&self, tid: i32) -> (r: Option<Fault>)
        ensures
            r == unknown_pid(self@, tid),
    {
        if self.tasks.contains_key(&tid) {
            None
        } else {
            Some(Fault::UnknownPid(tid))
        }
    }

    fn check_wait_status(&self, tid: i32, status: WaitEvent) -> (r: Option<Fault>)
        ensures
            r == wait_fault(self@, tid, status),
    {
        match status {
            WaitEvent::Signaled { sig } => self.check_unknown_pid(tid),
            WaitEvent::Continued => self.check_unknown_pid(tid),
            WaitEvent::PtraceEvent { sig, event } => {
                if sig != SIGTRAP {
                    Some(Fault::UnknownStatus)
                } else if !self.tasks.contains_key(&tid) {
                    Some(Fault::UnknownPid(tid))
                } else if event == PTRACE_EVENT_EXEC || event == PTRACE_EVENT_VFORK_DONE || event
                    == PTRACE_EVENT_CLONE || event == PTRACE_EVENT_FORK || event
                    == PTRACE_EVENT_VFORK || event == PTRACE_EVENT_EXIT || event
                    == PTRACE_EVENT_SECCOMP {
                    None
                } else {
                    Some(Fault::UnknownEvent(event))
                }
            },
            WaitEvent::PtraceSyscall { pid } => {
                if pid != tid {
                    Some(Fault::PidMismatch { waited: tid, reported: pid })
                } else {
                    self.check_unknown_pid(tid)
                }
            },
            WaitEvent::Stopped { pid, sig } => {
                if sig == SIGSTOP || sig == SIGTSTP || sig == SIGTTIN || sig == SIGTTOU {
                    None
                } else {
                    self.check_unknown_pid(tid)
                }
            },
            WaitEvent::Unrecognized => Some(Fault::UnknownStatus),
            _ => None,
        }
    }

    fn check_event_msg(&self, tid: i32, event: i32, msg: i64) -> (r: Option<Fault>)
        ensures
            r == event_msg_fault(self@, tid, event, msg),
    {
        if !self.tasks.contains_key(&tid) {
            Some(Fault::UnknownPid(tid))
        } else if event == PTRACE_EVENT_CLONE || event == PTRACE_EVENT_FORK || event
            == PTRACE_EVENT_VFORK || event == PTRACE_EVENT_EXIT {
            None
        } else if event == PTRACE_EVENT_SECCOMP {
            let nr = msg as i32;
            if nr == UNFILTERED_SYSCALL {
                Some(Fault::UnfilteredSyscall(nr))
            } else {
                None
            }
        } else {
            Some(Fault::UnknownEvent(event))
        }
    }

    fn check_stop_siginfo(&self, tid: i32, sig: i32, siginfo_failed: bool) -> (r: Option<Fault>)
        ensures
            r == siginfo_fault(self@, tid, sig, siginfo_failed),
    {
        if is_ptrace_group_stop(sig, siginfo_failed) {
            None
        } else {
            self.check_unknown_pid(tid)
        }
    }

    fn on_wait_status(&mut self, tid: i32, status: WaitEvent) -> (r: PollStep)
        requires
            wait_fault(old(self)@, tid, status) is None,
        ensures
            final(self)@ == wait_step(old(self)@, tid, status).0,
            r == wait_step(old(self)@, tid, status).1,
    {
        match status {
            WaitEvent::StillAlive => {
                self.run_queue.push_back(tid);
                PollStep::Pending
            },
            WaitEvent::Signaled { sig } => self.release_with_state(tid, TaskState::Signaled(sig)),
            WaitEvent::Continued => self.release_unchanged(tid),
            WaitEvent::PtraceEvent { sig, event } => {
                if event == PTRACE_EVENT_EXEC {
                    self.release_with_state(tid, TaskState::Exec)
                } else if event == PTRACE_EVENT_VFORK_DONE {
                    self.release_unchanged(tid)
                } else {
                    PollStep::FetchEventMsg
                }
            },
            WaitEvent::PtraceSyscall { pid } => self.release_with_state(tid, TaskState::Syscall),
            WaitEvent::Stopped { pid, sig } => {
                if sig == SIGSTOP || sig == SIGTSTP || sig == SIGTTIN || sig == SIGTTOU {
                    PollStep::FetchSigInfo
                } else {
                    self.release_stopped(tid, sig)
                }
            },
            WaitEvent::Exited { pid, code } => {
                self.tasks.remove(&pid);
                PollStep::Pending
            },
            WaitEvent::NoChild => PollStep::Pending,
            WaitEvent::Unrecognized => PollStep::Pending,
        }
    }

    fn on_event_msg(&mut self, tid: i32, event: i32, msg: i64) -> (r: PollStep)
        requires
            event_msg_fault(old(self)@, tid, event, msg) is None,
        ensures
            final(self)@ == event_msg_step(old(self)@, tid, event, msg).0,
            r == event_msg_step(old(self)@, tid, event, msg).1,
    {
        if event == PTRACE_EVENT_CLONE {
            self.release_with_state(tid, TaskState::Clone(msg as i32))
        } else if event == PTRACE_EVENT_FORK || event == PTRACE_EVENT_VFORK {
            self.release_with_state(tid, TaskState::Fork(msg as i32))
        } else if event == PTRACE_EVENT_EXIT {
            self.release_with_state(tid, TaskState::Exited(msg as i32))
        } else {
            PollStep::FetchRegs
        }
    }

    fn on_seccomp_regs(&mut self, tid: i32, orig_rax: u64) -> (r: PollStep)
        requires
            old(self)@.tasks.contains_key(tid),
        ensures
            final(self)@ == release_with_state(old(self)@, tid, TaskState::Seccomp(orig_rax as i32)).0,
            r == release_with_state(old(self)@, tid, TaskState::Seccomp(orig_rax as i32)).1,
    {
        self.release_with_state(tid, TaskState::Seccomp(orig_rax as i32))
    }

    fn on_stop_siginfo(&mut self, tid: i32, sig: i32, siginfo_failed: bool) -> (r: PollStep)
        requires
            siginfo_fault(old(self)@, tid, sig, siginfo_failed) is None,
        ensures
            final(self)@ == siginfo_step(old(self)@, tid, sig, siginfo_failed).0,
            r == siginfo_step(old(self)@, tid, sig, siginfo_failed).1,
    {
        if is_ptrace_group_stop(sig, siginfo_failed) {
            self.run_queue.push_back(tid);
            PollStep::Pending
        } else {
            self.release_stopped(tid, sig)
        }
    }

    /// Takes what running a task came to, and the exit code so far; gives the
    /// exit code from now on and the resumptions to make, in order. A blocked
    /// task goes to the blocked queue; a runnable one is scheduled; of a fork,
    /// the child is scheduled first and the parent after it, so that the
    /// parent is waited on first.
    fn on_run_result(&mut self, exit_code: i32, result: RunTask) -> (r: (i32, Vec<ScheduleAction>))
        ensures
            match result {
                RunTask::Exited(code) => {
                    &&& r.0 == code
                    &&& r.1@ == Seq::<ScheduleAction>::empty()
                    &&& final(self)@ == old(self)@
                },
                RunTask::Blocked(t) => {
                    &&& r.0 == exit_code
                    &&& r.1@ == Seq::<ScheduleAction>::empty()
                    &&& final(self)@ == old(self)@.added_blocked(t)
                },
                RunTask::Runnable(t) => {
                    &&& r.0 == exit_code
                    &&& r.1@ == seq![schedule_action(t)]
                    &&& final(self)@ == old(self)@.scheduled(t)
                },
                RunTask::Forked(parent, child) => {
                    &&& r.0 == exit_code
                    &&& r.1@ == seq![schedule_action(child), schedule_action(parent)]
                    &&& final(self)@ == old(self)@.scheduled(child).scheduled(parent)
                },
            },
            final(self)@ == run_result_step(old(self)@, exit_code, result).0,
            r.0 == run_result_step(old(self)@, exit_code, result).1,
            r.1@ == run_result_step(old(self)@, exit_code, result).2,
    {
        let mut actions: Vec<ScheduleAction> = Vec::new();
        match result {
            RunTask::Exited(code) => (code, actions),
            RunTask::Blocked(task) => {
                self.add_blocked(task);
                (exit_code, actions)
            },
            RunTask::Runnable(task) => {
                let a = self.add_and_schedule(task);
                actions.push(a);
                (exit_code, actions)
            },
            RunTask::Forked(parent, child) => {
                let a = self.add_and_schedule(child);
                actions.push(a);
                let b = self.add_and_schedule(parent);
                actions.push(b);
                (exit_code, actions)
            },
        }
    }
}


/// The scheduler.
pub struct SchedWait {
    state: SchedState,
}

impl View for SchedWait {
    type V = SchedView;

    closed spec fn view(&self) -> SchedView {
        self.state@
    }
}

impl SchedWait {
    /// Every task is kept under its own thread id.
    #[verifier::type_invariant]
    spec fn keyed_by_tid(self) -> bool {
        self@.wf()
    }

    /// Takes the contents out, leaving no tasks behind.
    fn take_state(&mut self) -> (st: SchedState)
        ensures
            st@ == old(self)@,
            final(self)@ == SchedView::empty(),
    {
        let mut st = SchedState::new();
        std::mem::swap(&mut st, &mut self.state);
        st
    }

    /// A scheduler with no tasks.
    pub fn new() -> (r: Self)
        ensures
            r@ == SchedView::empty(),
            r@.wf(),
            r@.tasks.dom().finite(),
            r@.inv(),
            r@.complete(),
    {
        proof {
            lemma_empty_inv();
        }
        SchedWait { state: SchedState::new() }
    }

    /// Adds a task to the run (ready) queue.
    pub fn add(&mut self, task: TracedTask)
        ensures
            final(self)@ == old(self)@.added(task),
            final(self)@.wf(),
            final(self)@.tasks.dom().finite(),
            old(self)@.inv() && !old(self)@.tasks.contains_key(task.tid) ==> final(self)@.inv(),
            old(self)@.complete() ==> final(self)@.complete(),
    {
        proof {
            use_type_invariant(&*self);
            lemma_adds_keep_inv(self@, task);
        }
        let mut st = self.take_state();
        st.add(task);
        self.state = st;
    }

    /// Adds a task to the blocked queue.
    pub fn add_blocked(&mut self, task: TracedTask)
        ensures
            final(self)@ == old(self)@.added_blocked(task),
            final(self)@.wf(),
            final(self)@.tasks.dom().finite(),
            old(self)@.inv() && !old(self)@.tasks.contains_key(task.tid) ==> final(self)@.inv(),
            old(self)@.complete() ==> final(self)@.complete(),
    {
        proof {
            use_type_invariant(&*self);
            lemma_adds_keep_inv(self@, task);
        }
        let mut st = self.take_state();
        st.add_blocked(task);
        self.state = st;
    }

    /// Adds a task at the front of the run queue, to be waited on next, and
    /// says how to resume it: a task in a seccomp stop runs to its next system
    /// call stop; any other is continued with its pending signal, which it
    /// then no longer holds.
    pub fn add_and_schedule(&mut self, task: TracedTask) -> (r: ScheduleAction)
        ensures
            final(self)@ == old(self)@.scheduled(task),
            r == schedule_action(task),
            final(self)@.wf(),
            final(self)@.tasks.dom().finite(),
            old(self)@.inv() && !old(self)@.tasks.contains_key(task.tid) ==> final(self)@.inv(),
            old(self)@.complete() ==> final(self)@.complete(),
    {
        proof {
            use_type_invariant(&*self);
            lemma_adds_keep_inv(self@, task);
        }
        let mut st = self.take_state();
        let r = st.add_and_schedule(task);
        self.state = st;
        r
    }

    /// Forgets a task: its entry and its parent go, and its thread id is
    /// taken off both queues, which otherwise keep their order.
    pub fn remove(&mut self, task: &mut TracedTask)
        ensures
            final(self)@ == old(self)@.removed(*old(task)),
            *final(task) == *old(task),
            final(self)@.wf(),
            final(self)@.tasks.dom().finite(),
            old(self)@.inv() ==> final(self)@.inv(),
            old(self)@.complete() ==> final(self)@.complete(),
    {
        proof {
            use_type_invariant(&*self);
            lemma_remove_keeps_inv(self@, *task);
        }
        let mut st = self.take_state();
        st.remove(task);
        self.state = st;
    }

    /// The number of tasks the scheduler holds.
    pub fn size(&self) -> (r: usize)
        ensures
            r == self@.tasks.len(),
            self@.wf(),
            self@.tasks.dom().finite(),
    {
        proof {
            use_type_invariant(self);
        }
        self.state.size()
    }

    /// The task to wait on next (see `SchedView::next_wait`), or `None` when
    /// both queues are empty and the scheduler is done. Between operations,
    /// the task given is held and is then in flight; when every held task was
    /// queued, `None` comes exactly when no task is left.
    pub fn next_to_wait(&mut self) -> (r: Option<i32>)
        ensures
            final(self)@ == old(self)@.next_wait().0,
            r == old(self)@.next_wait().1,
            final(self)@.wf(),
            final(self)@.tasks.dom().finite(),
            old(self)@.inv() ==> (r matches Some(tid) ==> old(self)@.tasks.contains_key(tid)
                && final(self)@.in_flight(tid)),
            old(self)@.complete() ==> (r matches Some(tid) ==> final(self)@.with_front(
                tid,
            ).complete()),
            old(self)@.inv() && old(self)@.complete() ==> (r is None <==> old(self)@.tasks
                == Map::<i32, TracedTask>::empty()),
    {
        proof {
            use_type_invariant(&*self);
            lemma_next_wait(self@);
        }
        let mut st = self.take_state();
        let r = st.next_to_wait();
        self.state = st;
        r
    }

    /// Why what `waitpid` reported for the task `tid` cannot be taken, if it
    /// cannot.
    pub fn check_wait_status(&self, tid: i32, status: WaitEvent) -> (r: Option<Fault>)
        ensures
            r == wait_fault(self@, tid, status),
    {
        self.state.check_wait_status(tid, status)
    }

    /// Takes what `waitpid` reported for the task `tid` that `next_to_wait`
    /// gave, and says what comes next. With `tid` in flight, a step that ends
    /// leaves the scheduler as between operations, and one that asks for more
    /// changes nothing.
    pub fn on_wait_status(&mut self, tid: i32, status: WaitEvent) -> (r: PollStep)
        requires
            wait_fault(old(self)@, tid, status) is None,
        ensures
            final(self)@ == wait_step(old(self)@, tid, status).0,
            r == wait_step(old(self)@, tid, status).1,
            final(self)@.wf(),
            final(self)@.tasks.dom().finite(),
            old(self)@.in_flight(tid) && (status matches WaitEvent::Exited { pid, code } ==> pid
                == tid) ==> settles(old(self)@, final(self)@, r),
            old(self)@.in_flight(tid) && old(self)@.with_front(tid).complete() && !(
            status is NoChild) && (status matches WaitEvent::Exited { pid, code } ==> pid == tid)
                ==> settles_complete(final(self)@, r),
    {
        proof {
            use_type_invariant(&*self);
            if self@.in_flight(tid) && (status matches WaitEvent::Exited { pid, code } ==> pid
                == tid) {
                lemma_wait_steps_settle(self@, tid, status, 0, 0, 0, 0, false);
            }
        }
        let mut st = self.take_state();
        let r = st.on_wait_status(tid, status);
        self.state = st;
        r
    }

    /// Why the event message `msg` of the ptrace event `event` of task `tid`
    /// cannot be taken, if it cannot.
    pub fn check_event_msg(&self, tid: i32, event: i32, msg: i64) -> (r: Option<Fault>)
        ensures
            r == event_msg_fault(self@, tid, event, msg),
    {
        self.state.check_event_msg(tid, event, msg)
    }

    /// Takes the event message `msg` of the ptrace event `event` of task `tid`
    /// (after `FetchEventMsg`), and says what comes next.
    pub fn on_event_msg(&mut self, tid: i32, event: i32, msg: i64) -> (r: PollStep)
        requires
            event_msg_fault(old(self)@, tid, event, msg) is None,
        ensures
            final(self)@ == event_msg_step(old(self)@, tid, event, msg).0,
            r == event_msg_step(old(self)@, tid, event, msg).1,
            final(self)@.wf(),
            final(self)@.tasks.dom().finite(),
            old(self)@.in_flight(tid) ==> settles(old(self)@, final(self)@, r),
            old(self)@.in_flight(tid) && old(self)@.with_front(tid).complete() ==> settles_complete(
                final(self)@,
                r,
            ),
    {
        proof {
            use_type_invariant(&*self);
            if self@.in_flight(tid) {
                lemma_wait_steps_settle(self@, tid, WaitEvent::StillAlive, event, msg, 0, 0, false);
            }
        }
        let mut st = self.take_state();
        let r = st.on_event_msg(tid, event, msg);
        self.state = st;
        r
    }

    /// Why the registers of task `tid` cannot be taken, if they cannot: the
    /// task is not held.
    pub fn check_seccomp_regs(&self, tid: i32) -> (r: Option<Fault>)
        ensures
            r == unknown_pid(self@, tid),
    {
        self.state.check_unknown_pid(tid)
    }

    /// Takes `orig_rax` of the registers of task `tid` in a seccomp stop (after
    /// `FetchRegs`): the task is handed out trapped on that system call.
    pub fn on_seccomp_regs(&mut self, tid: i32, orig_rax: u64) -> (r: PollStep)
        requires
            unknown_pid(old(self)@, tid) is None,
        ensures
            final(self)@ == release_with_state(old(self)@, tid, TaskState::Seccomp(orig_rax as i32)).0,
            r == release_with_state(old(self)@, tid, TaskState::Seccomp(orig_rax as i32)).1,
            final(self)@.wf(),
            final(self)@.tasks.dom().finite(),
            old(self)@.in_flight(tid) ==> settles(old(self)@, final(self)@, r),
            old(self)@.in_flight(tid) && old(self)@.with_front(tid).complete() ==> settles_complete(
                final(self)@,
                r,
            ),
    {
        proof {
            use_type_invariant(&*self);
            if self@.in_flight(tid) {
                lemma_wait_steps_settle(self@, tid, WaitEvent::StillAlive, 0, 0, orig_rax, 0, false);
            }
        }
        let mut st = self.take_state();
        let r = st.on_seccomp_regs(tid, orig_rax);
        self.state = st;
        r
    }

    /// Why the outcome of reading the signal information of task `tid`,
    /// stopped by `sig`, cannot be taken, if it cannot.
    pub fn check_stop_siginfo(&self, tid: i32, sig: i32, siginfo_failed: bool) -> (r: Option<
        Fault,
    >)
        ensures
            r == siginfo_fault(self@, tid, sig, siginfo_failed),
    {
        self.state.check_stop_siginfo(tid, sig, siginfo_failed)
    }

    /// Takes whether reading the signal information of task `tid`, stopped by
    /// `sig`, failed (after `FetchSigInfo`), and says what comes next.
    pub fn on_stop_siginfo(&mut self, tid: i32, sig: i32, siginfo_failed: bool) -> (r: PollStep)
        requires
            siginfo_fault(old(self)@, tid, sig, siginfo_failed) is None,
        ensures
            final(self)@ == siginfo_step(old(self)@, tid, sig, siginfo_failed).0,
            r == siginfo_step(old(self)@, tid, sig, siginfo_failed).1,
            final(self)@.wf(),
            final(self)@.tasks.dom().finite(),
            old(self)@.in_flight(tid) ==> settles(old(self)@, final(self)@, r),
            old(self)@.in_flight(tid) && old(self)@.with_front(tid).complete() ==> settles_complete(
                final(self)@,
                r,
            ),
    {
        proof {
            use_type_invariant(&*self);
            if self@.in_flight(tid) {
                lemma_wait_steps_settle(self@, tid, WaitEvent::StillAlive, 0, 0, 0, sig, siginfo_failed);
            }
        }
        let mut st = self.take_state();
        let r = st.on_stop_siginfo(tid, sig, siginfo_failed);
        self.state = st;
        r
    }

    /// Takes what running a task came to, and the exit code so far; gives the
    /// exit code from now on and the resumptions to make, in order. A blocked
    /// task goes to the blocked queue; a runnable one is scheduled; of a fork,
    /// the child is scheduled first and the parent after it, so that the
    /// parent is waited on first.
    pub fn on_run_result(&mut self, exit_code: i32, result: RunTask) -> (r: (i32, Vec<ScheduleAction>))
        ensures
            match result {
                RunTask::Exited(code) => {
                    &&& r.0 == code
                    &&& r.1@ == Seq::<ScheduleAction>::empty()
                    &&& final(self)@ == old(self)@
                },
                RunTask::Blocked(t) => {
                    &&& r.0 == exit_code
                    &&& r.1@ == Seq::<ScheduleAction>::empty()
                    &&& final(self)@ == old(self)@.added_blocked(t)
                },
                RunTask::Runnable(t) => {
                    &&& r.0 == exit_code
                    &&& r.1@ == seq![schedule_action(t)]
                    &&& final(self)@ == old(self)@.scheduled(t)
                },
                RunTask::Forked(parent, child) => {
                    &&& r.0 == exit_code
                    &&& r.1@ == seq![schedule_action(child), schedule_action(parent)]
                    &&& final(self)@ == old(self)@.scheduled(child).scheduled(parent)
                },
            },
            final(self)@ == run_result_step(old(self)@, exit_code, result).0,
            r.0 == run_result_step(old(self)@, exit_code, result).1,
            r.1@ == run_result_step(old(self)@, exit_code, result).2,
            final(self)@.wf(),
            final(self)@.tasks.dom().finite(),
            old(self)@.inv() && fresh(old(self)@, result) ==> final(self)@.inv(),
            old(self)@.complete() ==> final(self)@.complete(),
    {
        proof {
            use_type_invariant(&*self);
            lemma_run_result_keeps_inv(self@, result);
        }
        let mut st = self.take_state();
        let r = st.on_run_result(exit_code, result);
        self.state = st;
        r
    }
}

} // verus!
