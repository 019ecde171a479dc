//! What holds of the scheduler across its operations.
use vstd::prelude::*;
use crate::sched_wait::{
    event_msg_fault, event_msg_step, fresh, other_than, release_with_state, schedule_action,
    scheduled_task, settles, settles_complete, siginfo_fault, siginfo_step, unknown_pid,
    wait_fault, wait_step, PollStep, Resume, SchedView, WaitEvent,
};
use crate::task::{RunTask, TaskState, TracedTask};

verus! {

proof fn lemma_seq_push(q: Seq<i32>, x: i32)
    ensures
        forall|y: i32| #[trigger] q.push(x).contains(y) <==> (q.contains(y) || y == x),
        q.push(x).no_duplicates() <==> (q.no_duplicates() && !q.contains(x)),
{
    let p = q.push(x);
    assert forall|y: i32| #[trigger] p.contains(y) implies (q.contains(y) || y == x) by {
        let i = choose|i: int| 0 <= i < p.len() && p[i] == y;
        if i < q.len() {
            assert(q[i] == y);
        }
    }
    assert forall|y: i32| (q.contains(y) || y == x) implies #[trigger] p.contains(y) by {
        if q.contains(y) {
            let i = choose|i: int| 0 <= i < q.len() && q[i] == y;
            assert(p[i] == y);
        } else {
            assert(p[q.len() as int] == y);
        }
    }
    if p.no_duplicates() {
        assert forall|i: int, j: int| 0 <= i < q.len() && 0 <= j < q.len() && i != j implies q[i]
            != q[j] by {
            assert(p[i] == q[i] && p[j] == q[j]);
        }
        if q.contains(x) {
            let i = choose|i: int| 0 <= i < q.len() && q[i] == x;
            assert(p[i] == p[q.len() as int]);
        }
    }
    if q.no_duplicates() && !q.contains(x) {
        assert forall|i: int, j: int| 0 <= i < p.len() && 0 <= j < p.len() && i != j implies p[i]
            != p[j] by {
            if i < q.len() && j < q.len() {
                assert(p[i] == q[i] && p[j] == q[j]);
            } else if i < q.len() {
                assert(p[i] == q[i]);
            } else {
                assert(p[j] == q[j]);
            }
        }
    }
}

proof fn lemma_seq_prepend(q: Seq<i32>, x: i32)
    ensures
        forall|y: i32| #[trigger] (seq![x] + q).contains(y) <==> (q.contains(y) || y == x),
        (seq![x] + q).no_duplicates() <==> (q.no_duplicates() && !q.contains(x)),
        (seq![x] + q)[0] == x,
        (seq![x] + q).drop_first() == q,
{
    let p = seq![x] + q;
    assert(p.drop_first() =~= q);
    assert forall|y: i32| #[trigger] p.contains(y) implies (q.contains(y) || y == x) by {
        let i = choose|i: int| 0 <= i < p.len() && p[i] == y;
        if i > 0 {
            assert(q[i - 1] == y);
        }
    }
    assert forall|y: i32| (q.contains(y) || y == x) implies #[trigger] p.contains(y) by {
        if q.contains(y) {
            let i = choose|i: int| 0 <= i < q.len() && q[i] == y;
            assert(p[i + 1] == y);
        } else {
            assert(p[0] == y);
        }
    }
    if p.no_duplicates() {
        assert forall|i: int, j: int| 0 <= i < q.len() && 0 <= j < q.len() && i != j implies q[i]
            != q[j] by {
            assert(p[i + 1] == q[i] && p[j + 1] == q[j]);
        }
        if q.contains(x) {
            let i = choose|i: int| 0 <= i < q.len() && q[i] == x;
            assert(p[i + 1] == p[0]);
        }
    }
    if q.no_duplicates() && !q.contains(x) {
        assert forall|i: int, j: int| 0 <= i < p.len() && 0 <= j < p.len() && i != j implies p[i]
            != p[j] by {
            if i > 0 && j > 0 {
                assert(p[i] == q[i - 1] && p[j] == q[j - 1]);
            } else if i > 0 {
                assert(p[i] == q[i - 1]);
            } else {
                assert(p[j] == q[j - 1]);
            }
        }
    }
}

pub proof fn lemma_filter_other_than(q: Seq<i32>, tid: i32)
    ensures
        forall|y: i32| #[trigger] q.filter(other_than(tid)).contains(y) <==> (q.contains(y) && y
            != tid),
        q.no_duplicates() ==> q.filter(other_than(tid)).no_duplicates(),
        !q.contains(tid) ==> q.filter(other_than(tid)) == q,
    decreases q.len(),
{
    reveal(Seq::filter);
    if q.len() == 0 {
        assert forall|y: i32| !#[trigger] q.contains(y) by {}
    } else {
        let p = q.drop_last();
        let l = q.last();
        assert(q =~= p.push(l));
        lemma_filter_other_than(p, tid);
        lemma_seq_push(p, l);
        let fp = p.filter(other_than(tid));
        lemma_seq_push(fp, l);
        assert(q.filter(other_than(tid)) == if l != tid {
            fp.push(l)
        } else {
            fp
        });
        if !q.contains(tid) {
            assert(q[q.len() - 1] == l);
        }
    }
}

proof fn lemma_drop_first(q: Seq<i32>)
    requires
        q.len() > 0,
    ensures
        forall|y: i32| #[trigger] q.contains(y) <==> (q.drop_first().contains(y) || y == q[0]),
        q.no_duplicates() ==> q.drop_first().no_duplicates() && !q.drop_first().contains(q[0]),
{
    assert(q =~= seq![q[0]] + q.drop_first());
    lemma_seq_prepend(q.drop_first(), q[0]);
}

/// Every operation on the queues keeps each task under its own thread id.
pub proof fn lemma_queue_operations_keep_wf(s: SchedView, t: TracedTask)
    requires
        s.wf(),
    ensures
        s.added(t).wf(),
        s.added_blocked(t).wf(),
        s.scheduled(t).wf(),
        s.removed(t).wf(),
        s.next_wait().0.wf(),
{
}

/// Every step of waiting keeps each task under its own thread id, and a task
/// that a step hands out is the task that was waited on, which the scheduler
/// then no longer holds: it holds one task fewer.
pub proof fn lemma_wait_steps_keep_wf(
    s: SchedView,
    tid: i32,
    ev: WaitEvent,
    event: i32,
    msg: i64,
    orig_rax: u64,
    sig: i32,
    siginfo_failed: bool,
)
    requires
        s.wf(),
        s.tasks.dom().finite(),
    ensures
        wait_step(s, tid, ev).0.wf(),
        event_msg_step(s, tid, event, msg).0.wf(),
        release_with_state(s, tid, TaskState::Seccomp(orig_rax as i32)).0.wf(),
        siginfo_step(s, tid, sig, siginfo_failed).0.wf(),
        wait_fault(s, tid, ev) is None ==> (wait_step(s, tid, ev).1 matches PollStep::Ready(r) ==> {
            &&& r.tid == tid
            &&& s.tasks.contains_key(tid)
            &&& wait_step(s, tid, ev).0.tasks == s.tasks.remove(tid)
            &&& wait_step(s, tid, ev).0.tasks.len() == s.tasks.len() - 1
        }),
        event_msg_fault(s, tid, event, msg) is None ==> (event_msg_step(s, tid, event, msg).1 matches PollStep::Ready(r) ==> {
            &&& r.tid == tid
            &&& s.tasks.contains_key(tid)
            &&& event_msg_step(s, tid, event, msg).0.tasks == s.tasks.remove(tid)
            &&& event_msg_step(s, tid, event, msg).0.tasks.len() == s.tasks.len() - 1
        }),
        unknown_pid(s, tid) is None ==> (release_with_state(s, tid, TaskState::Seccomp(orig_rax as i32)).1 matches PollStep::Ready(
            r,
        ) ==> {
            &&& r.tid == tid
            &&& s.tasks.contains_key(tid)
            &&& release_with_state(s, tid, TaskState::Seccomp(orig_rax as i32)).0.tasks
                == s.tasks.remove(tid)
            &&& release_with_state(s, tid, TaskState::Seccomp(orig_rax as i32)).0.tasks.len()
                == s.tasks.len() - 1
        }),
        siginfo_fault(s, tid, sig, siginfo_failed) is None ==> (siginfo_step(s, tid, sig, siginfo_failed).1 matches PollStep::Ready(r) ==> {
            &&& r.tid == tid
            &&& s.tasks.contains_key(tid)
            &&& siginfo_step(s, tid, sig, siginfo_failed).0.tasks == s.tasks.remove(tid)
            &&& siginfo_step(s, tid, sig, siginfo_failed).0.tasks.len() == s.tasks.len() - 1
        }),
{
}

/// `add`, `add_blocked` and `add_and_schedule` hold one task more, unless a
/// task with that thread id was held, which is then replaced; `remove` holds
/// one task fewer if the task was held, and as many otherwise.
pub proof fn lemma_size_changes(s: SchedView, t: TracedTask)
    requires
        s.tasks.dom().finite(),
    ensures
        s.added(t).tasks.len() == s.tasks.len() + (if s.tasks.contains_key(t.tid) {
            0int
        } else {
            1int
        }),
        s.added_blocked(t).tasks.len() == s.tasks.len() + (if s.tasks.contains_key(t.tid) {
            0int
        } else {
            1int
        }),
        s.scheduled(t).tasks.len() == s.tasks.len() + (if s.tasks.contains_key(t.tid) {
            0int
        } else {
            1int
        }),
        s.removed(t).tasks.len() == s.tasks.len() - (if s.tasks.contains_key(t.tid) {
            1int
        } else {
            0int
        }),
{
    if !s.tasks.contains_key(t.tid) {
        assert(s.tasks.remove(t.tid) =~= s.tasks);
    }
}

/// A scheduler with no tasks is as it should be between operations, and
/// every task it holds (none) is queued.
pub proof fn lemma_empty_inv()
    ensures
        SchedView::empty().inv(),
        SchedView::empty().complete(),
{
}

/// Adding a task that the scheduler does not hold, in any of the three ways,
/// keeps it as it should be between operations; adding any task keeps every
/// held task queued.
pub proof fn lemma_adds_keep_inv(s: SchedView, t: TracedTask)
    ensures
        s.inv() && !s.tasks.contains_key(t.tid) ==> s.added(t).inv() && s.added_blocked(t).inv()
            && s.scheduled(t).inv(),
        s.complete() ==> s.added(t).complete() && s.added_blocked(t).complete()
            && s.scheduled(t).complete(),
{
    lemma_seq_push(s.run_queue, t.tid);
    lemma_seq_push(s.blocked_queue, t.tid);
    lemma_seq_prepend(s.run_queue, t.tid);
}

/// Removing a task keeps the scheduler as it should be between operations,
/// and keeps every held task queued.
pub proof fn lemma_remove_keeps_inv(s: SchedView, t: TracedTask)
    ensures
        s.inv() ==> s.removed(t).inv(),
        s.complete() ==> s.removed(t).complete(),
{
    lemma_filter_other_than(s.run_queue, t.tid);
    lemma_filter_other_than(s.blocked_queue, t.tid);
}

/// Handling what running a task came to keeps the scheduler as it should be
/// between operations, when the tasks given back are not held; and it keeps
/// every held task queued.
pub proof fn lemma_run_result_keeps_inv(s: SchedView, result: RunTask)
    ensures
        match result {
            RunTask::Exited(code) => true,
            RunTask::Blocked(t) => (s.inv() && fresh(s, result) ==> s.added_blocked(t).inv())
                && (s.complete() ==> s.added_blocked(t).complete()),
            RunTask::Runnable(t) => (s.inv() && fresh(s, result) ==> s.scheduled(t).inv())
                && (s.complete() ==> s.scheduled(t).complete()),
            RunTask::Forked(parent, child) => (s.inv() && fresh(s, result) ==> s.scheduled(
                child,
            ).scheduled(parent).inv()) && (s.complete() ==> s.scheduled(child).scheduled(
                parent,
            ).complete()),
        },
{
    match result {
        RunTask::Exited(code) => {},
        RunTask::Blocked(t) => lemma_adds_keep_inv(s, t),
        RunTask::Runnable(t) => lemma_adds_keep_inv(s, t),
        RunTask::Forked(parent, child) => {
            lemma_adds_keep_inv(s, child);
            lemma_adds_keep_inv(s.scheduled(child), parent);
        },
    }
}

/// Removing a task twice is removing it once.
pub proof fn lemma_remove_idempotent(s: SchedView, t: TracedTask)
    ensures
        s.removed(t).removed(t) == s.removed(t),
{
    lemma_filter_other_than(s.run_queue, t.tid);
    lemma_filter_other_than(s.blocked_queue, t.tid);
    lemma_filter_other_than(s.run_queue.filter(other_than(t.tid)), t.tid);
    lemma_filter_other_than(s.blocked_queue.filter(other_than(t.tid)), t.tid);
    assert(s.removed(t).removed(t).tasks =~= s.removed(t).tasks);
    assert(s.removed(t).removed(t).task_tree =~= s.removed(t).task_tree);
}

/// Adding a task that the scheduler does not hold, and then removing it,
/// gives back the scheduler as it was.
pub proof fn lemma_add_then_remove(s: SchedView, t: TracedTask)
    requires
        s.inv(),
        !s.tasks.contains_key(t.tid),
        !s.task_tree.contains_key(t.tid),
    ensures
        s.added(t).removed(t) == s,
        s.added_blocked(t).removed(t) == s.removed(t),
{
    lemma_seq_push(s.run_queue, t.tid);
    lemma_seq_push(s.blocked_queue, t.tid);
    lemma_filter_other_than(s.run_queue, t.tid);
    lemma_filter_other_than(s.blocked_queue, t.tid);
    lemma_filter_other_than(s.run_queue.push(t.tid), t.tid);
    lemma_filter_other_than(s.blocked_queue.push(t.tid), t.tid);
    reveal(Seq::filter);
    assert(s.run_queue.push(t.tid).drop_last() =~= s.run_queue);
    assert(s.blocked_queue.push(t.tid).drop_last() =~= s.blocked_queue);
    assert(s.added(t).removed(t).tasks =~= s.tasks);
    assert(s.added(t).removed(t).task_tree =~= s.task_tree);
    assert(s.added_blocked(t).removed(t).tasks =~= s.removed(t).tasks);
}

/// `next_to_wait` gives `None` exactly when no task is queued. Between
/// operations, a task it gives is held and is then in flight; when every held
/// task is queued, the task stays accounted for as in flight, and `None`
/// comes exactly when no task is left.
pub proof fn lemma_next_wait(s: SchedView)
    ensures
        s.next_wait().1 is None <==> s.run_queue.len() == 0 && s.blocked_queue.len() == 0,
        s.inv() ==> (s.next_wait().1 matches Some(tid) ==> s.tasks.contains_key(tid)
            && s.next_wait().0.in_flight(tid)),
        s.complete() ==> (s.next_wait().1 matches Some(tid) ==> s.next_wait().0.with_front(
            tid,
        ).complete()),
        s.inv() && s.complete() ==> (s.next_wait().1 is None <==> s.tasks == Map::<
            i32,
            TracedTask,
        >::empty()),
{
    if s.run_queue.len() > 0 {
        lemma_drop_first(s.run_queue);
        assert(s.run_queue.contains(s.run_queue[0]));
        let n = s.next_wait().0;
        assert(seq![s.run_queue[0]] + n.run_queue =~= s.run_queue);
        assert(n.with_front(s.run_queue[0]) == s);
    } else if s.blocked_queue.len() > 0 {
        lemma_drop_first(s.blocked_queue);
        assert(s.blocked_queue.contains(s.blocked_queue[0]));
        let n = s.next_wait().0;
        assert(seq![s.blocked_queue[0]] + n.run_queue =~= s.blocked_queue);
        let m = n.with_front(s.blocked_queue[0]);
        assert(m.run_queue == s.blocked_queue);
        assert(m.blocked_queue == Seq::<i32>::empty());
        assert forall|k: i32| !#[trigger] m.blocked_queue.contains(k) by {}
        assert forall|k: i32| !#[trigger] s.run_queue.contains(k) by {}
        if s.inv() {
            assert(m.inv());
        }
        if s.complete() {
            assert(m.complete());
        }
    } else {
        assert forall|k: i32| !#[trigger] s.run_queue.contains(k) by {}
        assert forall|k: i32| !#[trigger] s.blocked_queue.contains(k) by {}
        if s.inv() && s.complete() {
            assert(s.tasks =~= Map::<i32, TracedTask>::empty());
        }
    }
}

proof fn lemma_in_flight_facts(s: SchedView, tid: i32)
    requires
        s.in_flight(tid),
    ensures
        s.inv(),
        s.tasks.contains_key(tid),
        !s.run_queue.contains(tid),
        !s.blocked_queue.contains(tid),
        s.requeued(tid).inv(),
        s.with_tasks(s.tasks.remove(tid)).inv(),
        s.with_front(tid).complete() ==> s.requeued(tid).complete() && s.with_tasks(
            s.tasks.remove(tid),
        ).complete(),
{
    let m = s.with_front(tid);
    lemma_seq_prepend(s.run_queue, tid);
    lemma_seq_push(s.run_queue, tid);
    assert(m.run_queue.contains(tid)) by {
        assert(m.run_queue[0] == tid);
    }
    assert forall|k: i32|
        #![trigger s.run_queue.contains(k)]
        #![trigger s.blocked_queue.contains(k)]
        (s.run_queue.contains(k) || s.blocked_queue.contains(k)) ==> s.tasks.contains_key(k) by {
        assert(m.run_queue.contains(k) <==> (s.run_queue.contains(k) || k == tid));
    }
    assert forall|k: i32|
        !(#[trigger] s.run_queue.contains(k) && #[trigger] s.blocked_queue.contains(k)) by {
        assert(m.run_queue.contains(k) <==> (s.run_queue.contains(k) || k == tid));
    }
    assert(s.inv());
    let gone = s.with_tasks(s.tasks.remove(tid));
    assert(gone.inv());
    assert(s.requeued(tid).inv());
    if m.complete() {
        assert forall|k: i32| #[trigger] gone.tasks.contains_key(k) implies (
        gone.run_queue.contains(k) || gone.blocked_queue.contains(k)) by {
            assert(m.tasks.contains_key(k));
            assert(m.run_queue.contains(k) <==> (s.run_queue.contains(k) || k == tid));
        }
        assert forall|k: i32| #[trigger] s.requeued(tid).tasks.contains_key(k) implies (
        s.requeued(tid).run_queue.contains(k) || s.requeued(tid).blocked_queue.contains(k)) by {
            assert(m.tasks.contains_key(k));
            assert(m.run_queue.contains(k) <==> (s.run_queue.contains(k) || k == tid));
        }
    }
}

/// With a task in flight, each step of waiting on it either asks for more
/// (and changes nothing), or ends (`Pending` or `Ready`) with the scheduler
/// as it should be between operations: a task handed out is no longer held,
/// a running or group-stopped task is queued again, a task that exited is
/// forgotten, and one that cannot be waited on stays held. Where every other
/// held task was queued and the report could be taken, every held task is
/// queued again at the end, except after a task that cannot be waited on.
/// (`waitpid` on one task reports an exit of that task only.)
pub proof fn lemma_wait_steps_settle(
    s: SchedView,
    tid: i32,
    ev: WaitEvent,
    event: i32,
    msg: i64,
    orig_rax: u64,
    sig: i32,
    siginfo_failed: bool,
)
    requires
        s.in_flight(tid),
        ev matches WaitEvent::Exited { pid, code } ==> pid == tid,
    ensures
        settles(s, wait_step(s, tid, ev).0, wait_step(s, tid, ev).1),
        settles(s, event_msg_step(s, tid, event, msg).0, event_msg_step(s, tid, event, msg).1),
        settles(
            s,
            release_with_state(s, tid, TaskState::Seccomp(orig_rax as i32)).0,
            release_with_state(s, tid, TaskState::Seccomp(orig_rax as i32)).1,
        ),
        settles(
            s,
            siginfo_step(s, tid, sig, siginfo_failed).0,
            siginfo_step(s, tid, sig, siginfo_failed).1,
        ),
        s.with_front(tid).complete() && wait_fault(s, tid, ev) is None && !(ev is NoChild)
            ==> settles_complete(wait_step(s, tid, ev).0, wait_step(s, tid, ev).1),
        s.with_front(tid).complete() ==> settles_complete(
            event_msg_step(s, tid, event, msg).0,
            event_msg_step(s, tid, event, msg).1,
        ),
        s.with_front(tid).complete() ==> settles_complete(
            release_with_state(s, tid, TaskState::Seccomp(orig_rax as i32)).0,
            release_with_state(s, tid, TaskState::Seccomp(orig_rax as i32)).1,
        ),
        s.with_front(tid).complete() ==> settles_complete(
            siginfo_step(s, tid, sig, siginfo_failed).0,
            siginfo_step(s, tid, sig, siginfo_failed).1,
        ),
{
    lemma_in_flight_facts(s, tid);
}

/// A task added with `add_and_schedule` is the next one waited on, and the
/// rest of the run queue is left as it was.
pub proof fn lemma_scheduled_is_waited_next(s: SchedView, t: TracedTask)
    ensures
        s.scheduled(t).next_wait().1 == Some(t.tid),
        s.scheduled(t).next_wait().0.run_queue == s.run_queue,
{
    assert(s.scheduled(t).run_queue.drop_first() =~= s.run_queue);
}

/// The run queue is first in, first out: `add` queues behind every task
/// already runnable, and a task added to an idle scheduler is the next one
/// waited on.
pub proof fn lemma_add_is_fifo(s: SchedView, t: TracedTask)
    ensures
        s.run_queue.len() > 0 ==> s.added(t).next_wait() == (
            s.next_wait().0.added(t),
            s.next_wait().1,
        ),
        s.run_queue.len() == 0 && s.blocked_queue.len() == 0 ==> s.added(t).next_wait().1 == Some(
            t.tid,
        ),
{
    if s.run_queue.len() > 0 {
        assert(s.added(t).run_queue.drop_first() =~= s.run_queue.drop_first().push(t.tid));
    }
}

/// A task that was added and is then reported as continued is handed back
/// as it was added, and the scheduler holds the tasks it held before.
pub proof fn lemma_continued_gives_back_added(s: SchedView, t: TracedTask)
    requires
        !s.tasks.contains_key(t.tid),
    ensures
        wait_step(s.added(t), t.tid, WaitEvent::Continued).1 == PollStep::Ready(t),
        wait_step(s.added(t), t.tid, WaitEvent::Continued).0.tasks == s.tasks,
{
    assert(s.added(t).tasks.remove(t.tid) =~= s.tasks);
}

/// A task that is still running when waited on stays held and is waited on
/// again after the tasks queued behind it.
pub proof fn lemma_still_alive_is_waited_again(s: SchedView, tid: i32)
    ensures
        wait_step(s, tid, WaitEvent::StillAlive).1 == PollStep::Pending,
        wait_step(s, tid, WaitEvent::StillAlive).0.tasks == s.tasks,
        wait_step(s, tid, WaitEvent::StillAlive).0.run_queue == s.run_queue.push(tid),
{
}

/// A scheduled task that is not in a seccomp stop is continued with the
/// signal it held, and no longer holds it; one in a seccomp stop is run to
/// its next system call stop and keeps it.
pub proof fn lemma_schedule_consumes_signal(t: TracedTask)
    ensures
        !(t.state is Seccomp) ==> schedule_action(t).resume == Resume::Continue(t.signal_to_deliver)
            && scheduled_task(t).signal_to_deliver == None::<i32>,
        t.state is Seccomp ==> schedule_action(t).resume == Resume::Syscall && scheduled_task(t) == t,
{
}

} // verus!
