//! Task records and their status machine.
use vstd::prelude::*;

use crate::config::MAX_SYSCALL_NUM;

verus! {

/// Where a task stands in its life cycle.
#[derive(Clone, Copy, Debug, PartialEq, Eq, Structural)]
pub enum TaskStatus {
    UnInit,
    Ready,
    Running,
    Exited,
}

/// The callee-saved registers that the context switch saves and restores.
#[derive(Clone, Copy, Debug)]
pub struct TaskContext {
    /// Return address.
    pub ra: usize,
    /// Stack pointer.
    pub sp: usize,
    /// Saved registers s0..s11.
    pub s: [usize; 12],
}

impl TaskContext {
    /// A context with every register zero.
    pub fn zero_init() -> (r: TaskContext)
        ensures
            r.ra == 0,
            r.sp == 0,
            forall|i: int| 0 <= i < 12 ==> r.s@[i] == 0,
    {
        TaskContext { ra: 0, sp: 0, s: [0usize; 12] }
    }
}

/// The model of a task record: what the scheduler reads and writes of it.
pub struct TaskView {
    pub id: usize,
    pub status: TaskStatus,
    pub start_time: Option<usize>,
    pub syscall_times: Seq<u32>,
    pub user_token: usize,
    pub trap_cx_ppn: usize,
}

/// One task's record.
pub struct TaskControlBlock {
    /// Identity of the task, unique among live tasks.
    pub id: usize,
    /// Where the task stands in its life cycle.
    pub status: TaskStatus,
    /// Registers saved when the task last left the processor.
    pub task_cx: TaskContext,
    /// Time in milliseconds at which the task first ran; `None` until then.
    pub start_time: Option<usize>,
    /// Number of calls of each syscall made by the task, by identifier.
    pub syscall_times: [u32; MAX_SYSCALL_NUM],
    /// Handle of the task's address space (its page-table token).
    pub user_token: usize,
    /// Physical page that holds the task's trap context.
    pub trap_cx_ppn: usize,
}

impl View for TaskControlBlock {
    type V = TaskView;

    open spec fn view(&self) -> TaskView {
        TaskView {
            id: self.id,
            status: self.status,
            start_time: self.start_time,
            syscall_times: self.syscall_times@,
            user_token: self.user_token,
            trap_cx_ppn: self.trap_cx_ppn,
        }
    }
}

/// The value of a counter after one more count; a counter at the largest
/// `u32` stays there.
pub open spec fn bumped(c: u32) -> u32 {
    if c < u32::MAX {
        (c + 1) as u32
    } else {
        c
    }
}

impl TaskView {
    /// The record after the task made syscall `id` once.
    pub open spec fn count_syscall(self, id: usize) -> TaskView {
        TaskView {
            syscall_times: self.syscall_times.update(id as int, bumped(self.syscall_times[id as int])),
            ..self
        }
    }

    /// The record after the task took the processor at time `now`: it is
    /// running, and its start time is stamped if it had none.
    pub open spec fn mark_running(self, now: usize) -> TaskView {
        TaskView {
            status: TaskStatus::Running,
            start_time: if self.start_time is None {
                Some(now)
            } else {
                self.start_time
            },
            ..self
        }
    }

    /// The record with a new status.
    pub open spec fn with_status(self, status: TaskStatus) -> TaskView {
        TaskView { status, ..self }
    }
}

/// Milliseconds from `start` to `now`: zero for a task that has not run, and
/// zero where `now` reads earlier than `start`.
pub open spec fn elapsed(start: Option<usize>, now: usize) -> usize {
    match start {
        Some(s) => if now >= s {
            (now - s) as usize
        } else {
            0
        },
        None => 0,
    }
}

impl TaskControlBlock {
    /// A task that has not been scheduled yet, with every counter zero.
    pub fn new(id: usize, task_cx: TaskContext, user_token: usize, trap_cx_ppn: usize) -> (r:
        TaskControlBlock)
        ensures
            r@.id == id,
            r@.status == TaskStatus::UnInit,
            r@.start_time is None,
            r@.syscall_times == Seq::new(MAX_SYSCALL_NUM as nat, |i: int| 0u32),
            r@.user_token == user_token,
            r@.trap_cx_ppn == trap_cx_ppn,
            r.task_cx == task_cx,
    {
        let syscall_times = [0u32; MAX_SYSCALL_NUM];
        assert(syscall_times@ =~= Seq::new(MAX_SYSCALL_NUM as nat, |i: int| 0u32));
        TaskControlBlock { id, status: TaskStatus::UnInit, task_cx, start_time: None, syscall_times, user_token, trap_cx_ppn }
    }
}

/// The record after it took the processor at each time of `nows`, in order.
pub open spec fn run_at(t: TaskView, nows: Seq<usize>) -> TaskView
    decreases nows.len(),
{
    if nows.len() == 0 {
        t
    } else {
        run_at(t, nows.drop_last()).mark_running(nows.last())
    }
}

/// A task's start time is stamped once, at its first entry to running, and
/// stays as it is over any number of later runs.
pub proof fn lemma_start_time_set_once(t: TaskView, nows: Seq<usize>)
    ensures
        t.start_time is Some ==> run_at(t, nows).start_time == t.start_time,
        t.start_time is None && nows.len() > 0 ==> run_at(t, nows).start_time == Some(nows[0]),
        t.start_time is None && nows.len() == 0 ==> run_at(t, nows).start_time is None,
    decreases nows.len(),
{
    if nows.len() > 0 {
        lemma_start_time_set_once(t, nows.drop_last());
        if nows.len() > 1 {
            assert(nows.drop_last()[0] == nows[0]);
        }
    }
}

/// The record `t` after the syscalls of `calls`, each a pair of the calling
/// task's identity and the syscall's identifier: only the calls that `t`
/// made count.
pub open spec fn apply_calls(t: TaskView, calls: Seq<(usize, usize)>) -> TaskView
    decreases calls.len(),
{
    if calls.len() == 0 {
        t
    } else {
        let prev = apply_calls(t, calls.drop_last());
        let (who, id) = calls.last();
        if who == t.id && id < MAX_SYSCALL_NUM {
            prev.count_syscall(id)
        } else {
            prev
        }
    }
}

/// How many of `calls` are calls of syscall `id` by task `who`.
pub open spec fn calls_of(calls: Seq<(usize, usize)>, who: usize, id: usize) -> nat
    decreases calls.len(),
{
    if calls.len() == 0 {
        0
    } else {
        calls_of(calls.drop_last(), who, id) + if calls.last() == (who, id) {
            1nat
        } else {
            0nat
        }
    }
}

/// After `m` calls of syscall `k` by a task, however they interleave with
/// other tasks' syscalls, the task's counter for `k` has grown by `m`
/// (while it fits in a `u32`).
pub proof fn lemma_syscall_count(t: TaskView, calls: Seq<(usize, usize)>, k: usize)
    requires
        k < MAX_SYSCALL_NUM,
        t.syscall_times.len() == MAX_SYSCALL_NUM,
        t.syscall_times[k as int] + calls_of(calls, t.id, k) <= u32::MAX,
    ensures
        apply_calls(t, calls).syscall_times[k as int] == t.syscall_times[k as int] + calls_of(
            calls,
            t.id,
            k,
        ),
        apply_calls(t, calls).syscall_times.len() == MAX_SYSCALL_NUM,
        apply_calls(t, calls).id == t.id,
    decreases calls.len(),
{
    if calls.len() > 0 {
        lemma_syscall_count(t, calls.drop_last(), k);
    }
}

} // verus!
