use nix::libc;
use nix::sys::ptrace::Event;
use systrace::sched_wait::{
    is_ptrace_group_stop, Fault, PollStep, Resume, ScheduleAction, SchedWait, WaitEvent,
};
use systrace::task::{
    RunTask, TaskState, TracedTask, PTRACE_EVENT_CLONE, PTRACE_EVENT_EXEC, PTRACE_EVENT_EXIT,
    PTRACE_EVENT_FORK, PTRACE_EVENT_SECCOMP, PTRACE_EVENT_VFORK, PTRACE_EVENT_VFORK_DONE, SIGILL,
    SIGSEGV, SIGSTOP, SIGTRAP, SIGTSTP, SIGTTIN, SIGTTOU,
};

fn task(tid: i32, pid: i32, ppid: i32, state: TaskState, sig: Option<i32>) -> TracedTask {
    TracedTask { tid, pid, ppid, state, signal_to_deliver: sig }
}

#[test]
fn new_is_empty() {
    let mut s = SchedWait::new();
    assert_eq!(s.size(), 0);
    assert_eq!(s.next_to_wait(), None);
}

#[test]
fn add_is_fifo() {
    let mut s = SchedWait::new();
    s.add(task(10, 10, 1, TaskState::Ready, None));
    s.add(task(11, 11, 1, TaskState::Ready, None));
    s.add_blocked(task(12, 12, 1, TaskState::Ready, None));
    assert_eq!(s.size(), 3);
    assert_eq!(s.next_to_wait(), Some(10));
    assert_eq!(s.next_to_wait(), Some(11));
    // no task is runnable: the blocked one is waited on
    assert_eq!(s.next_to_wait(), Some(12));
    assert_eq!(s.next_to_wait(), None);
    assert_eq!(s.size(), 3);
}

#[test]
fn done_only_when_no_task_is_left() {
    let mut s = SchedWait::new();
    s.add_blocked(task(12, 12, 1, TaskState::Ready, None));
    s.add_blocked(task(13, 13, 1, TaskState::Ready, None));
    assert_eq!(s.next_to_wait(), Some(12));
    assert_eq!(s.on_wait_status(12, WaitEvent::StillAlive), PollStep::Pending);
    assert_eq!(s.next_to_wait(), Some(13));
    assert_eq!(s.on_wait_status(13, WaitEvent::Exited { pid: 13, code: 0 }), PollStep::Pending);
    assert_eq!(s.next_to_wait(), Some(12));
    assert_eq!(s.on_wait_status(12, WaitEvent::Continued), PollStep::Ready(task(12, 12, 1, TaskState::Ready, None)));
    assert_eq!(s.size(), 0);
    assert_eq!(s.next_to_wait(), None);
}

#[test]
fn still_alive_is_waited_again() {
    let mut s = SchedWait::new();
    s.add(task(10, 10, 1, TaskState::Ready, None));
    s.add(task(11, 11, 1, TaskState::Ready, None));
    assert_eq!(s.next_to_wait(), Some(10));
    assert_eq!(s.on_wait_status(10, WaitEvent::StillAlive), PollStep::Pending);
    assert_eq!(s.size(), 2);
    assert_eq!(s.next_to_wait(), Some(11));
    assert_eq!(s.next_to_wait(), Some(10));
}

#[test]
fn no_child_stays_held_but_unqueued() {
    let mut s = SchedWait::new();
    s.add(task(10, 10, 1, TaskState::Ready, None));
    assert_eq!(s.next_to_wait(), Some(10));
    assert_eq!(s.on_wait_status(10, WaitEvent::NoChild), PollStep::Pending);
    assert_eq!(s.size(), 1);
    assert_eq!(s.next_to_wait(), None);
    // a later exit report still finds it
    assert_eq!(s.on_wait_status(10, WaitEvent::Exited { pid: 10, code: 0 }), PollStep::Pending);
    assert_eq!(s.size(), 0);
}

#[test]
fn add_then_remove_restores() {
    let mut s = SchedWait::new();
    s.add(task(10, 10, 1, TaskState::Ready, None));
    let mut t = task(20, 20, 10, TaskState::Ready, None);
    s.add(t);
    assert_eq!(s.size(), 2);
    s.remove(&mut t);
    assert_eq!(s.size(), 1);
    assert_eq!(t, task(20, 20, 10, TaskState::Ready, None));
    assert_eq!(s.next_to_wait(), Some(10));
    assert_eq!(s.next_to_wait(), None);
}

#[test]
fn remove_goes_by_thread_id_and_clears_queues() {
    let mut s = SchedWait::new();
    s.add(task(30, 30, 1, TaskState::Ready, None));
    s.add(task(31, 30, 1, TaskState::Ready, None));
    s.add(task(32, 30, 1, TaskState::Ready, None));
    s.add_blocked(task(33, 30, 1, TaskState::Ready, None));
    let mut thread = task(31, 30, 1, TaskState::Ready, None);
    s.remove(&mut thread);
    s.remove(&mut thread);
    let mut blocked = task(33, 30, 1, TaskState::Ready, None);
    s.remove(&mut blocked);
    assert_eq!(s.size(), 2);
    assert_eq!(s.next_to_wait(), Some(30));
    assert_eq!(s.next_to_wait(), Some(32));
    assert_eq!(s.next_to_wait(), None);
}

#[test]
fn scheduled_runs_next_and_consumes_signal() {
    let mut s = SchedWait::new();
    s.add(task(10, 10, 1, TaskState::Ready, None));
    let a = s.add_and_schedule(task(11, 11, 1, TaskState::Stopped(10), Some(10)));
    assert_eq!(a, ScheduleAction { tid: 11, resume: Resume::Continue(Some(10)), fault_signal: None });
    assert_eq!(s.next_to_wait(), Some(11));
    assert_eq!(s.on_wait_status(11, WaitEvent::Continued), PollStep::Ready(task(11, 11, 1, TaskState::Stopped(10), None)));
    assert_eq!(s.next_to_wait(), Some(10));
}

#[test]
fn seccomp_task_runs_to_syscall_and_keeps_signal() {
    let mut s = SchedWait::new();
    let a = s.add_and_schedule(task(5, 5, 1, TaskState::Seccomp(39), Some(SIGSEGV)));
    assert_eq!(a, ScheduleAction { tid: 5, resume: Resume::Syscall, fault_signal: Some(SIGSEGV) });
    assert_eq!(s.next_to_wait(), Some(5));
    assert_eq!(s.on_wait_status(5, WaitEvent::Continued), PollStep::Ready(task(5, 5, 1, TaskState::Seccomp(39), Some(SIGSEGV))));
}

#[test]
fn fault_signal_is_reported() {
    let mut s = SchedWait::new();
    let a = s.add_and_schedule(task(5, 5, 1, TaskState::Stopped(SIGILL), Some(SIGILL)));
    assert_eq!(a.fault_signal, Some(SIGILL));
    assert_eq!(a.resume, Resume::Continue(Some(SIGILL)));
}

#[test]
fn signaled_and_syscall() {
    let mut s = SchedWait::new();
    s.add(task(7, 7, 1, TaskState::Ready, None));
    s.add(task(8, 8, 1, TaskState::Ready, None));
    assert_eq!(s.on_wait_status(7, WaitEvent::Signaled { sig: 9 }), PollStep::Ready(task(7, 7, 1, TaskState::Signaled(9), None)));
    assert_eq!(s.on_wait_status(8, WaitEvent::PtraceSyscall { pid: 8 }), PollStep::Ready(task(8, 8, 1, TaskState::Syscall, None)));
    assert_eq!(s.size(), 0);
}

#[test]
fn pid_mismatch_is_a_fault() {
    let mut s = SchedWait::new();
    s.add(task(8, 8, 1, TaskState::Ready, None));
    assert_eq!(s.check_wait_status(8, WaitEvent::PtraceSyscall { pid: 9 }), Some(Fault::PidMismatch { waited: 8, reported: 9 }));
    assert_eq!(s.check_wait_status(8, WaitEvent::PtraceSyscall { pid: 8 }), None);
    assert_eq!(s.size(), 1);
}

#[test]
fn unknown_status_is_a_fault() {
    let mut s = SchedWait::new();
    s.add(task(8, 8, 1, TaskState::Ready, None));
    assert_eq!(s.check_wait_status(8, WaitEvent::Unrecognized), Some(Fault::UnknownStatus));
    assert_eq!(s.check_wait_status(8, WaitEvent::PtraceEvent { sig: 11, event: PTRACE_EVENT_EXEC }), Some(Fault::UnknownStatus));
}

#[test]
fn pending_statuses() {
    let mut s = SchedWait::new();
    s.add(task(8, 8, 1, TaskState::Ready, None));
    s.add(task(9, 9, 1, TaskState::Ready, None));
    assert_eq!(s.next_to_wait(), Some(8));
    assert_eq!(s.on_wait_status(8, WaitEvent::StillAlive), PollStep::Pending);
    assert_eq!(s.size(), 2);
    assert_eq!(s.next_to_wait(), Some(9));
    assert_eq!(s.on_wait_status(9, WaitEvent::NoChild), PollStep::Pending);
    assert_eq!(s.size(), 2);
    assert_eq!(s.next_to_wait(), Some(8));
    assert_eq!(s.on_wait_status(8, WaitEvent::Exited { pid: 8, code: 0 }), PollStep::Pending);
    assert_eq!(s.size(), 1);
    assert_eq!(s.next_to_wait(), None);
}

#[test]
fn exec_and_vfork_done() {
    let mut s = SchedWait::new();
    s.add(task(8, 8, 1, TaskState::Ready, None));
    s.add(task(9, 9, 1, TaskState::Syscall, None));
    assert_eq!(s.on_wait_status(8, WaitEvent::PtraceEvent { sig: SIGTRAP, event: PTRACE_EVENT_EXEC }), PollStep::Ready(task(8, 8, 1, TaskState::Exec, None)));
    assert_eq!(s.on_wait_status(9, WaitEvent::PtraceEvent { sig: SIGTRAP, event: PTRACE_EVENT_VFORK_DONE }), PollStep::Ready(task(9, 9, 1, TaskState::Syscall, None)));
}

#[test]
fn event_messages() {
    let mut s = SchedWait::new();
    for tid in 1..5 {
        s.add(task(tid, tid, 0, TaskState::Ready, None));
    }
    assert_eq!(s.on_wait_status(1, WaitEvent::PtraceEvent { sig: SIGTRAP, event: PTRACE_EVENT_CLONE }), PollStep::FetchEventMsg);
    assert_eq!(s.on_event_msg(1, PTRACE_EVENT_CLONE, 100), PollStep::Ready(task(1, 1, 0, TaskState::Clone(100), None)));
    assert_eq!(s.on_event_msg(2, PTRACE_EVENT_FORK, 101), PollStep::Ready(task(2, 2, 0, TaskState::Fork(101), None)));
    assert_eq!(s.on_event_msg(3, PTRACE_EVENT_VFORK, 102), PollStep::Ready(task(3, 3, 0, TaskState::Fork(102), None)));
    // the message is cut to 32 bits, as `as i32` does
    assert_eq!(s.on_event_msg(4, PTRACE_EVENT_EXIT, 0x1_0000_0003), PollStep::Ready(task(4, 4, 0, TaskState::Exited(3), None)));
    assert_eq!(s.size(), 0);
}

#[test]
fn seccomp_stop() {
    let mut s = SchedWait::new();
    s.add(task(3, 3, 1, TaskState::Ready, None));
    assert_eq!(s.on_wait_status(3, WaitEvent::PtraceEvent { sig: SIGTRAP, event: PTRACE_EVENT_SECCOMP }), PollStep::FetchEventMsg);
    assert_eq!(s.check_event_msg(3, PTRACE_EVENT_SECCOMP, 0x7fff), Some(Fault::UnfilteredSyscall(0x7fff)));
    assert_eq!(s.check_event_msg(3, PTRACE_EVENT_SECCOMP, 1), None);
    assert_eq!(s.on_event_msg(3, PTRACE_EVENT_SECCOMP, 1), PollStep::FetchRegs);
    assert_eq!(s.size(), 1);
    assert_eq!(s.on_seccomp_regs(3, 0xffff_ffff_0000_0027), PollStep::Ready(task(3, 3, 1, TaskState::Seccomp(39), None)));
    assert_eq!(s.size(), 0);
}

#[test]
fn unknown_event_and_pid() {
    let mut s = SchedWait::new();
    s.add(task(3, 3, 1, TaskState::Ready, None));
    assert_eq!(s.check_wait_status(3, WaitEvent::PtraceEvent { sig: SIGTRAP, event: 42 }), Some(Fault::UnknownEvent(42)));
    assert_eq!(s.check_event_msg(3, 42, 0), Some(Fault::UnknownEvent(42)));
    assert_eq!(s.check_wait_status(4, WaitEvent::PtraceEvent { sig: SIGTRAP, event: PTRACE_EVENT_EXEC }), Some(Fault::UnknownPid(4)));
    assert_eq!(s.check_wait_status(4, WaitEvent::Signaled { sig: 9 }), Some(Fault::UnknownPid(4)));
    assert_eq!(s.check_wait_status(4, WaitEvent::Stopped { pid: 4, sig: 10 }), Some(Fault::UnknownPid(4)));
    assert_eq!(s.check_wait_status(4, WaitEvent::StillAlive), None);
    assert_eq!(s.check_stop_siginfo(4, SIGSTOP, false), Some(Fault::UnknownPid(4)));
    assert_eq!(s.check_stop_siginfo(4, SIGSTOP, true), None);
    assert_eq!(s.check_event_msg(4, PTRACE_EVENT_CLONE, 0), Some(Fault::UnknownPid(4)));
    assert_eq!(s.check_seccomp_regs(4), Some(Fault::UnknownPid(4)));
    assert_eq!(s.check_seccomp_regs(3), None);
    assert_eq!(s.size(), 1);
}

#[test]
fn stops() {
    let mut s = SchedWait::new();
    s.add(task(1, 1, 0, TaskState::Ready, None));
    s.add(task(2, 2, 0, TaskState::Syscall, None));
    s.add(task(3, 3, 0, TaskState::Syscall, None));
    // the initial stop keeps the task Ready
    assert_eq!(s.on_wait_status(1, WaitEvent::Stopped { pid: 1, sig: 10 }), PollStep::Ready(task(1, 1, 0, TaskState::Ready, Some(10))));
    assert_eq!(s.on_wait_status(2, WaitEvent::Stopped { pid: 2, sig: 10 }), PollStep::Ready(task(2, 2, 0, TaskState::Stopped(10), Some(10))));
    // a stop signal needs the signal information first
    assert_eq!(s.on_wait_status(3, WaitEvent::Stopped { pid: 3, sig: SIGSTOP }), PollStep::FetchSigInfo);
    assert_eq!(s.next_to_wait(), Some(1));
    assert_eq!(s.next_to_wait(), Some(2));
    assert_eq!(s.next_to_wait(), Some(3));
    assert_eq!(s.on_stop_siginfo(3, SIGSTOP, true), PollStep::Pending);
    assert_eq!(s.size(), 1);
    // a group-stopped task is waited on again
    assert_eq!(s.next_to_wait(), Some(3));
    assert_eq!(s.on_stop_siginfo(3, SIGSTOP, false), PollStep::Ready(task(3, 3, 0, TaskState::Stopped(SIGSTOP), Some(SIGSTOP))));
}

#[test]
fn group_stop() {
    assert!(is_ptrace_group_stop(SIGSTOP, true));
    assert!(is_ptrace_group_stop(SIGTTOU, true));
    assert!(!is_ptrace_group_stop(SIGSTOP, false));
    assert!(!is_ptrace_group_stop(SIGSEGV, true));
}

#[test]
fn run_results() {
    let mut s = SchedWait::new();
    let (code, actions) = s.on_run_result(0, RunTask::Exited(3));
    assert_eq!(code, 3);
    assert!(actions.is_empty());
    let (code, actions) = s.on_run_result(code, RunTask::Blocked(task(1, 1, 0, TaskState::Ready, None)));
    assert_eq!(code, 3);
    assert!(actions.is_empty());
    let (code, actions) = s.on_run_result(code, RunTask::Runnable(task(2, 2, 0, TaskState::Syscall, Some(SIGSEGV))));
    assert_eq!(code, 3);
    assert_eq!(actions, vec![ScheduleAction { tid: 2, resume: Resume::Continue(Some(SIGSEGV)), fault_signal: Some(SIGSEGV) }]);
    let (_, actions) = s.on_run_result(code, RunTask::Forked(task(4, 4, 0, TaskState::Fork(5), None), task(5, 5, 4, TaskState::Ready, None)));
    assert_eq!(actions.len(), 2);
    assert_eq!(actions[0].tid, 5);
    assert_eq!(actions[1].tid, 4);
    assert_eq!(s.size(), 4);
    assert_eq!(s.next_to_wait(), Some(4));
    assert_eq!(s.next_to_wait(), Some(5));
    assert_eq!(s.next_to_wait(), Some(2));
    // then the blocked task
    assert_eq!(s.next_to_wait(), Some(1));
    assert_eq!(s.next_to_wait(), None);
}

#[test]
fn kernel_numbers_match_the_system() {
    assert_eq!(SIGILL, libc::SIGILL);
    assert_eq!(SIGTRAP, libc::SIGTRAP);
    assert_eq!(SIGSEGV, libc::SIGSEGV);
    assert_eq!(SIGSTOP, libc::SIGSTOP);
    assert_eq!(SIGTSTP, libc::SIGTSTP);
    assert_eq!(SIGTTIN, libc::SIGTTIN);
    assert_eq!(SIGTTOU, libc::SIGTTOU);
    assert_eq!(PTRACE_EVENT_FORK, Event::PTRACE_EVENT_FORK as i32);
    assert_eq!(PTRACE_EVENT_VFORK, Event::PTRACE_EVENT_VFORK as i32);
    assert_eq!(PTRACE_EVENT_CLONE, Event::PTRACE_EVENT_CLONE as i32);
    assert_eq!(PTRACE_EVENT_EXEC, Event::PTRACE_EVENT_EXEC as i32);
    assert_eq!(PTRACE_EVENT_VFORK_DONE, Event::PTRACE_EVENT_VFORK_DONE as i32);
    assert_eq!(PTRACE_EVENT_EXIT, Event::PTRACE_EVENT_EXIT as i32);
    assert_eq!(PTRACE_EVENT_SECCOMP, Event::PTRACE_EVENT_SECCOMP as i32);
}
