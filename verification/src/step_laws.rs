//! What each operation of the scheduler does, stated in terms of its inputs
//! and results: the tasks, the queues, the signal numbers (`SIGILL` 4,
//! `SIGTRAP` 5, `SIGSEGV` 11, and the stop signals `SIGSTOP` 19, `SIGTSTP` 20,
//! `SIGTTIN` 21, `SIGTTOU` 22) and the ptrace events (`FORK` 1, `VFORK` 2,
//! `CLONE` 3, `EXEC` 4, `VFORK_DONE` 5, `EXIT` 6, `SECCOMP` 7).
use vstd::prelude::*;
use crate::laws::lemma_filter_other_than;
use crate::sched_wait::{
    event_msg_fault, event_msg_step, group_stop, release_with_state, run_result_step,
    schedule_action,
    siginfo_fault, siginfo_step, unknown_pid, wait_fault, wait_step, Fault, PollStep, Resume,
    SchedView, WaitEvent,
};
use crate::task::{RunTask, TaskState, TracedTask};

verus! {

/// `add` keeps the task under its thread id, records its parent, queues it
/// at the back of the run queue, and leaves the blocked queue alone.
pub proof fn lemma_add_effect(s: SchedView, t: TracedTask)
    ensures
        s.added(t).tasks == s.tasks.insert(t.tid, t),
        s.added(t).task_tree == s.task_tree.insert(t.tid, t.ppid),
        s.added(t).run_queue == s.run_queue.push(t.tid),
        s.added(t).blocked_queue == s.blocked_queue,
{
}

/// `add_blocked` keeps the task under its thread id and queues it at the back
/// of the blocked queue; the run queue and the parents are left alone, so a
/// blocked task is never waited on ahead of a runnable one.
pub proof fn lemma_add_blocked_effect(s: SchedView, t: TracedTask)
    ensures
        s.added_blocked(t).tasks == s.tasks.insert(t.tid, t),
        s.added_blocked(t).task_tree == s.task_tree,
        s.added_blocked(t).run_queue == s.run_queue,
        s.added_blocked(t).blocked_queue == s.blocked_queue.push(t.tid),
        s.run_queue.len() > 0 ==> s.added_blocked(t).next_wait().1 == Some(s.run_queue[0]),
        s.run_queue.len() > 0 ==> s.added_blocked(t).next_wait().1 == s.next_wait().1,
{
}

/// `add_and_schedule` queues the task's thread id at the front of the run
/// queue, records its parent, and keeps the task: with its pending signal
/// dropped unless it is in a seccomp stop. The action it gives resumes that
/// same thread: by `PTRACE_SYSCALL` from a seccomp stop, and otherwise by
/// `PTRACE_CONT` with the signal the task held; it asks for the fault context
/// exactly when that signal is `SIGSEGV` or `SIGILL`.
pub proof fn lemma_schedule_effect(s: SchedView, t: TracedTask)
    ensures
        schedule_action(t).tid == t.tid,
        s.scheduled(t).next_wait().1 == Some(schedule_action(t).tid),
        s.scheduled(t).run_queue == seq![t.tid] + s.run_queue,
        s.scheduled(t).blocked_queue == s.blocked_queue,
        s.scheduled(t).task_tree == s.task_tree.insert(t.tid, t.ppid),
        s.scheduled(t).tasks == s.tasks.insert(
            t.tid,
            TracedTask {
                tid: t.tid,
                pid: t.pid,
                ppid: t.ppid,
                state: t.state,
                signal_to_deliver: if t.state is Seccomp {
                    t.signal_to_deliver
                } else {
                    None
                },
            },
        ),
        t.state is Seccomp ==> schedule_action(t).resume == Resume::Syscall,
        !(t.state is Seccomp) ==> schedule_action(t).resume == Resume::Continue(
            t.signal_to_deliver,
        ),
        forall|sig: i32|
            schedule_action(t).fault_signal == Some(sig) <==> (t.signal_to_deliver == Some(sig)
                && (sig == 11 || sig == 4)),
{
    assert(s.scheduled(t).run_queue.drop_first() =~= s.run_queue);
}

/// `remove` forgets the task and its parent under its thread id, and takes
/// exactly that thread id off both queues; a queue that did not hold it is
/// left as it was.
pub proof fn lemma_remove_effect(s: SchedView, t: TracedTask)
    ensures
        s.removed(t).tasks == s.tasks.remove(t.tid),
        s.removed(t).task_tree == s.task_tree.remove(t.tid),
        forall|y: i32| #[trigger]
            s.removed(t).run_queue.contains(y) <==> (s.run_queue.contains(y) && y != t.tid),
        forall|y: i32| #[trigger]
            s.removed(t).blocked_queue.contains(y) <==> (s.blocked_queue.contains(y) && y
                != t.tid),
        !s.run_queue.contains(t.tid) ==> s.removed(t).run_queue == s.run_queue,
        !s.blocked_queue.contains(t.tid) ==> s.removed(t).blocked_queue == s.blocked_queue,
{
    lemma_filter_other_than(s.run_queue, t.tid);
    lemma_filter_other_than(s.blocked_queue, t.tid);
}

/// The task waited on next is the front of the run queue, which is then the
/// rest; with an empty run queue it is the front of the blocked queue, the
/// rest of which becomes the run queue. The tasks are left as they are.
pub proof fn lemma_next_wait_effect(s: SchedView)
    ensures
        s.next_wait().0.tasks == s.tasks,
        s.run_queue.len() > 0 ==> s.next_wait().1 == Some(s.run_queue[0])
            && s.next_wait().0.run_queue == s.run_queue.subrange(1, s.run_queue.len() as int)
            && s.next_wait().0.blocked_queue == s.blocked_queue,
        s.run_queue.len() == 0 && s.blocked_queue.len() > 0 ==> s.next_wait().1 == Some(
            s.blocked_queue[0],
        ) && s.next_wait().0.run_queue == s.blocked_queue.subrange(
            1,
            s.blocked_queue.len() as int,
        ) && s.next_wait().0.blocked_queue.len() == 0,
{
}

/// The task `tid`, taken out of the scheduler, with the given state and
/// pending signal.
pub open spec fn handed_out(s: SchedView, tid: i32, state: TaskState, signal: Option<i32>) -> (
    SchedView,
    PollStep,
) {
    (
        SchedView { tasks: s.tasks.remove(tid), ..s },
        PollStep::Ready(
            TracedTask {
                tid: s.tasks[tid].tid,
                pid: s.tasks[tid].pid,
                ppid: s.tasks[tid].ppid,
                state,
                signal_to_deliver: signal,
            },
        ),
    )
}

/// A group-stop is a stop by one of the four stop signals on which reading
/// the signal information failed.
pub proof fn lemma_group_stop(sig: i32, siginfo_failed: bool)
    ensures
        group_stop(sig, siginfo_failed) <==> ((sig == 19 || sig == 20 || sig == 21 || sig == 22)
            && siginfo_failed),
{
}

/// A stop by a signal: a stop signal asks for the signal information first;
/// any other signal hands the task out, in state `Stopped(sig)` unless it is
/// still in its initial `Ready` state, with `sig` to be delivered. After the
/// signal information, a group-stop queues the task again at the back of the
/// run queue, and any other stop hands it out in the same way.
pub proof fn lemma_signal_stop(s: SchedView, tid: i32, pid: i32, sig: i32, siginfo_failed: bool)
    ensures
        (sig == 19 || sig == 20 || sig == 21 || sig == 22) ==> wait_step(
            s,
            tid,
            WaitEvent::Stopped { pid, sig },
        ) == (s, PollStep::FetchSigInfo),
        !(sig == 19 || sig == 20 || sig == 21 || sig == 22) ==> wait_step(
            s,
            tid,
            WaitEvent::Stopped { pid, sig },
        ) == handed_out(
            s,
            tid,
            if s.tasks[tid].state == TaskState::Ready {
                TaskState::Ready
            } else {
                TaskState::Stopped(sig)
            },
            Some(sig),
        ),
        (sig == 19 || sig == 20 || sig == 21 || sig == 22) && siginfo_failed ==> siginfo_step(
            s,
            tid,
            sig,
            siginfo_failed,
        ) == (SchedView { run_queue: s.run_queue.push(tid), ..s }, PollStep::Pending),
        !((sig == 19 || sig == 20 || sig == 21 || sig == 22) && siginfo_failed) ==> siginfo_step(
            s,
            tid,
            sig,
            siginfo_failed,
        ) == handed_out(
            s,
            tid,
            if s.tasks[tid].state == TaskState::Ready {
                TaskState::Ready
            } else {
                TaskState::Stopped(sig)
            },
            Some(sig),
        ),
{
}

/// What the other reports of `waitpid` do: a killed task is handed out as
/// `Signaled`, a continued one as it is, a system call stop as `Syscall`; a
/// running task is queued again at the back; an exit forgets the task that
/// exited; `ECHILD` and an unhandled status change nothing.
pub proof fn lemma_other_reports(s: SchedView, tid: i32, sig: i32, pid: i32, code: i32)
    ensures
        wait_step(s, tid, WaitEvent::Signaled { sig }) == handed_out(
            s,
            tid,
            TaskState::Signaled(sig),
            s.tasks[tid].signal_to_deliver,
        ),
        wait_step(s, tid, WaitEvent::Continued) == handed_out(
            s,
            tid,
            s.tasks[tid].state,
            s.tasks[tid].signal_to_deliver,
        ),
        wait_step(s, tid, WaitEvent::PtraceSyscall { pid }) == handed_out(
            s,
            tid,
            TaskState::Syscall,
            s.tasks[tid].signal_to_deliver,
        ),
        wait_step(s, tid, WaitEvent::StillAlive) == (
            SchedView { run_queue: s.run_queue.push(tid), ..s },
            PollStep::Pending,
        ),
        wait_step(s, tid, WaitEvent::Exited { pid, code }) == (
            SchedView { tasks: s.tasks.remove(pid), ..s },
            PollStep::Pending,
        ),
        wait_step(s, tid, WaitEvent::NoChild) == (s, PollStep::Pending),
{
}

/// A ptrace event stop (with `SIGTRAP`): `EXEC` hands the task out as `Exec`,
/// `VFORK_DONE` as it is, and `FORK`, `VFORK`, `CLONE`, `EXIT` and `SECCOMP`
/// ask for the event message. Each of these seven can be taken for a held
/// task; any other event is `UnknownEvent`, a stop without `SIGTRAP` is
/// `UnknownStatus`, and a task not held is `UnknownPid`.
pub proof fn lemma_ptrace_event(s: SchedView, tid: i32, sig: i32, event: i32)
    ensures
        sig == 5 && event == 4 ==> wait_step(s, tid, WaitEvent::PtraceEvent { sig, event })
            == handed_out(s, tid, TaskState::Exec, s.tasks[tid].signal_to_deliver),
        sig == 5 && event == 5 ==> wait_step(s, tid, WaitEvent::PtraceEvent { sig, event })
            == handed_out(s, tid, s.tasks[tid].state, s.tasks[tid].signal_to_deliver),
        sig == 5 && (event == 1 || event == 2 || event == 3 || event == 6 || event == 7)
            ==> wait_step(s, tid, WaitEvent::PtraceEvent { sig, event }) == (
            s,
            PollStep::FetchEventMsg,
        ),
        sig != 5 ==> wait_fault(s, tid, WaitEvent::PtraceEvent { sig, event }) == Some(
            Fault::UnknownStatus,
        ),
        sig == 5 && !s.tasks.contains_key(tid) ==> wait_fault(
            s,
            tid,
            WaitEvent::PtraceEvent { sig, event },
        ) == Some(Fault::UnknownPid(tid)),
        sig == 5 && s.tasks.contains_key(tid) ==> wait_fault(
            s,
            tid,
            WaitEvent::PtraceEvent { sig, event },
        ) == if 1 <= event <= 7 {
            None::<Fault>
        } else {
            Some(Fault::UnknownEvent(event))
        },
{
}

/// Which other reports cannot be taken: one that would hand out a task that
/// is not held, a system call stop of another task, and an unhandled status.
pub proof fn lemma_report_faults(
    s: SchedView,
    tid: i32,
    sig: i32,
    pid: i32,
    code: i32,
    siginfo_failed: bool,
)
    ensures
        wait_fault(s, tid, WaitEvent::Signaled { sig }) == if s.tasks.contains_key(tid) {
            None::<Fault>
        } else {
            Some(Fault::UnknownPid(tid))
        },
        wait_fault(s, tid, WaitEvent::Continued) == if s.tasks.contains_key(tid) {
            None::<Fault>
        } else {
            Some(Fault::UnknownPid(tid))
        },
        wait_fault(s, tid, WaitEvent::PtraceSyscall { pid }) == if pid != tid {
            Some(Fault::PidMismatch { waited: tid, reported: pid })
        } else if s.tasks.contains_key(tid) {
            None::<Fault>
        } else {
            Some(Fault::UnknownPid(tid))
        },
        wait_fault(s, tid, WaitEvent::Stopped { pid, sig }) == if sig == 19 || sig == 20 || sig
            == 21 || sig == 22 || s.tasks.contains_key(tid) {
            None::<Fault>
        } else {
            Some(Fault::UnknownPid(tid))
        },
        wait_fault(s, tid, WaitEvent::StillAlive) == None::<Fault>,
        wait_fault(s, tid, WaitEvent::Exited { pid, code }) == None::<Fault>,
        wait_fault(s, tid, WaitEvent::NoChild) == None::<Fault>,
        wait_fault(s, tid, WaitEvent::Unrecognized) == Some(Fault::UnknownStatus),
        unknown_pid(s, tid) == if s.tasks.contains_key(tid) {
            None::<Fault>
        } else {
            Some(Fault::UnknownPid(tid))
        },
        siginfo_fault(s, tid, sig, siginfo_failed) == if ((sig == 19 || sig == 20 || sig == 21
            || sig == 22) && siginfo_failed) || s.tasks.contains_key(tid) {
            None::<Fault>
        } else {
            Some(Fault::UnknownPid(tid))
        },
{
}

/// The event message: of `CLONE` it is the new thread, of `FORK` and `VFORK`
/// the new process, of `EXIT` the exit code (each cut to 32 bits), and the
/// task is handed out so; of `SECCOMP` it asks for the registers, unless it
/// is the unfiltered system call `0x7fff`. Any other event is `UnknownEvent`,
/// and a task not held is `UnknownPid`. With the registers, the task is handed
/// out trapped on the system call numbered `orig_rax` (cut to 32 bits).
pub proof fn lemma_event_msg(s: SchedView, tid: i32, event: i32, msg: i64, orig_rax: u64)
    ensures
        event == 3 ==> event_msg_step(s, tid, event, msg) == handed_out(
            s,
            tid,
            TaskState::Clone(msg as i32),
            s.tasks[tid].signal_to_deliver,
        ),
        event == 1 || event == 2 ==> event_msg_step(s, tid, event, msg) == handed_out(
            s,
            tid,
            TaskState::Fork(msg as i32),
            s.tasks[tid].signal_to_deliver,
        ),
        event == 6 ==> event_msg_step(s, tid, event, msg) == handed_out(
            s,
            tid,
            TaskState::Exited(msg as i32),
            s.tasks[tid].signal_to_deliver,
        ),
        event == 7 ==> event_msg_step(s, tid, event, msg) == (s, PollStep::FetchRegs),
        !s.tasks.contains_key(tid) ==> event_msg_fault(s, tid, event, msg) == Some(
            Fault::UnknownPid(tid),
        ),
        s.tasks.contains_key(tid) ==> event_msg_fault(s, tid, event, msg) == if event == 1
            || event == 2 || event == 3 || event == 6 {
            None::<Fault>
        } else if event == 7 {
            if msg as i32 == 0x7fff {
                Some(Fault::UnfilteredSyscall(0x7fff))
            } else {
                None::<Fault>
            }
        } else {
            Some(Fault::UnknownEvent(event))
        },
        release_with_state(s, tid, TaskState::Seccomp(orig_rax as i32)) == handed_out(
            s,
            tid,
            TaskState::Seccomp(orig_rax as i32),
            s.tasks[tid].signal_to_deliver,
        ),
{
}

/// Handling what running a task came to: an exit sets the exit code and
/// changes nothing else; any other outcome keeps the exit code. A blocked task
/// is held and queued at the back of the blocked queue, not resumed. A
/// runnable task is queued at the front of the run queue and resumed. Of a
/// fork, both tasks are held and resumed, the child first; the parent is
/// waited on first and the child right after it.
pub proof fn lemma_run_result_effect(s: SchedView, exit_code: i32, result: RunTask)
    ensures
        ({
            let (n, code, actions) = run_result_step(s, exit_code, result);
            match result {
                RunTask::Exited(c) => n == s && code == c && actions.len() == 0,
                RunTask::Blocked(t) => {
                    &&& code == exit_code
                    &&& actions.len() == 0
                    &&& n.tasks == s.tasks.insert(t.tid, t)
                    &&& n.run_queue == s.run_queue
                    &&& n.blocked_queue == s.blocked_queue.push(t.tid)
                },
                RunTask::Runnable(t) => {
                    &&& code == exit_code
                    &&& actions.len() == 1
                    &&& actions[0].tid == t.tid
                    &&& n.tasks.contains_key(t.tid)
                    &&& n.run_queue == seq![t.tid] + s.run_queue
                    &&& n.blocked_queue == s.blocked_queue
                },
                RunTask::Forked(parent, child) => {
                    &&& code == exit_code
                    &&& actions.len() == 2
                    &&& actions[0].tid == child.tid
                    &&& actions[1].tid == parent.tid
                    &&& n.tasks.contains_key(parent.tid)
                    &&& n.tasks.contains_key(child.tid)
                    &&& n.run_queue == seq![parent.tid, child.tid] + s.run_queue
                    &&& n.blocked_queue == s.blocked_queue
                },
            }
        }),
{
    match result {
        RunTask::Forked(parent, child) => {
            assert(seq![parent.tid] + (seq![child.tid] + s.run_queue) =~= seq![
                parent.tid,
                child.tid,
            ] + s.run_queue);
        },
        _ => {},
    }
}

} // verus!
