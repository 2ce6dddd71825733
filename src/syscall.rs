//! The process-control syscalls: exit, yield, get_time and task_info.
//!
//! Each call counts itself in the calling task's counters on entry. The
//! values that cross into user space are returned; the caller writes them to
//! the destination once the memory manager has found it mapped.
use vstd::prelude::*;

use crate::config::{
    MAX_SYSCALL_NUM, SYSCALL_EXIT, SYSCALL_GET_TIME, SYSCALL_TASK_INFO, SYSCALL_YIELD, USEC_PER_SEC,
};
use crate::manager::{ids_of, lemma_never_taken, pushed, run_ops, ReadyQueue};
use crate::processor::{seated, Processor};
use crate::task::{elapsed, TaskControlBlock, TaskStatus, TaskView};

verus! {

/// Result of a syscall whose destination in user space is not mapped.
pub const ERR_BAD_ADDRESS: isize = -1;

/// A time of day, split in seconds and microseconds.
#[derive(Clone, Copy, Debug, PartialEq, Eq, Structural)]
pub struct TimeVal {
    pub sec: usize,
    pub usec: usize,
}

/// What `task_info` reports of the calling task.
#[derive(Clone, Copy, Debug)]
pub struct TaskInfo {
    /// Task status in its life cycle.
    pub status: TaskStatus,
    /// Number of calls of each syscall made by the task.
    pub syscall_times: [u32; MAX_SYSCALL_NUM],
    /// Milliseconds since the task first ran.
    pub time: usize,
}

/// `us` microseconds as seconds and microseconds.
pub open spec fn time_val_of(us: usize) -> TimeVal {
    TimeVal { sec: us / USEC_PER_SEC, usec: us % USEC_PER_SEC }
}

/// Exits the current task: counts the call, marks the task exited and takes
/// it out of the seat for good. The record is handed back for teardown; the
/// caller then switches to the idle loop and never resumes the task.
pub fn sys_exit(processor: &mut Processor, exit_code: i32) -> (r: TaskControlBlock)
    requires
        old(processor).current is Some,
    ensures
        r@ == old(processor).cur()->0.count_syscall(SYSCALL_EXIT).with_status(TaskStatus::Exited),
        final(processor).current is None,
        final(processor).idle_task_cx == old(processor).idle_task_cx,
{
    processor.increase_syscall_time(SYSCALL_EXIT);
    let task = processor.take_current();
    let mut task = task.unwrap();
    task.status = TaskStatus::Exited;
    task
}

/// Yields the processor: counts the call, marks the current task ready and
/// puts it at the tail of the ready queue. The caller then switches to the
/// idle loop; once the task runs again the call returns 0.
pub fn sys_yield(processor: &mut Processor, queue: &mut ReadyQueue) -> (r: isize)
    requires
        seated(old(processor), old(queue)),
        old(processor).current is Some,
    ensures
        r == 0,
        final(queue)@ == old(queue)@.push(
            old(processor).cur()->0.count_syscall(SYSCALL_YIELD).with_status(TaskStatus::Ready),
        ),
        final(processor).current is None,
        final(processor).idle_task_cx == old(processor).idle_task_cx,
        seated(final(processor), final(queue)),
{
    processor.increase_syscall_time(SYSCALL_YIELD);
    let task = processor.take_current();
    let task = task.unwrap();
    queue.push(task);
    0
}

/// The time `us` (microseconds since boot) as a `TimeVal`, counting the call
/// for the current task. `dest_mapped` says whether the destination in user
/// space is mapped; where it is not, nothing is to be written and the call
/// fails with `ERR_BAD_ADDRESS`. The second argument carries nothing.
pub fn sys_get_time(processor: &mut Processor, dest_mapped: bool, us: usize, _tz: usize) -> (r:
    Result<TimeVal, isize>)
    ensures
        r == if dest_mapped {
            Ok::<TimeVal, isize>(time_val_of(us))
        } else {
            Err::<TimeVal, isize>(ERR_BAD_ADDRESS)
        },
        final(processor).cur() == match old(processor).cur() {
            Some(t) => Some(t.count_syscall(SYSCALL_GET_TIME)),
            None => None,
        },
        final(processor).idle_task_cx == old(processor).idle_task_cx,
{
    processor.increase_syscall_time(SYSCALL_GET_TIME);
    if !dest_mapped {
        return Err(ERR_BAD_ADDRESS);
    }
    Ok(TimeVal { sec: us / USEC_PER_SEC, usec: us % USEC_PER_SEC })
}

/// What the current task's record reports at time `now`.
pub open spec fn info_of(t: TaskView, now: usize) -> (TaskStatus, Seq<u32>, usize) {
    (t.status, t.syscall_times, elapsed(t.start_time, now))
}

/// The current task's status, counters (this call included) and
/// milliseconds since it first ran, at time `now`. `dest_mapped` says
/// whether the destination in user space is mapped; where it is not, the
/// call fails with `ERR_BAD_ADDRESS`.
pub fn sys_task_info(processor: &mut Processor, dest_mapped: bool, now: usize) -> (r: Result<
    TaskInfo,
    isize,
>)
    requires
        old(processor).current is Some,
    ensures
        final(processor).cur() == Some(old(processor).cur()->0.count_syscall(SYSCALL_TASK_INFO)),
        final(processor).idle_task_cx == old(processor).idle_task_cx,
        !dest_mapped ==> r == Err::<TaskInfo, isize>(ERR_BAD_ADDRESS),
        dest_mapped ==> r is Ok && (r->Ok_0.status, r->Ok_0.syscall_times@, r->Ok_0.time)
            == info_of(final(processor).cur()->0, now),
{
    processor.increase_syscall_time(SYSCALL_TASK_INFO);
    if !dest_mapped {
        return Err(ERR_BAD_ADDRESS);
    }
    let time = processor.get_task_time(now);
    let syscall_times = processor.get_syscall_times();
    let status = match processor.current() {
        Some(t) => t.status,
        None => TaskStatus::Running,
    };
    Ok(TaskInfo { status, syscall_times: syscall_times.unwrap(), time: time.unwrap() })
}

/// A task that exits is never picked again: when it leaves its seat it is
/// in no queue, and as long as no record of its identity is put in again
/// (its own record, being exited, cannot be), no later run of the queue
/// takes it.
pub proof fn lemma_exited_never_runs(
    processor: Processor,
    queue: ReadyQueue,
    ops: Seq<Option<usize>>,
)
    requires
        seated(&processor, &queue),
        processor.current is Some,
        !pushed(ops).contains(processor.cur()->0.id),
    ensures
        !run_ops(ids_of(queue@), ops).1.contains(processor.cur()->0.id),
{
    lemma_never_taken(ids_of(queue@), ops, processor.cur()->0.id);
}

/// The time a task reports equals the time now less its start time, and
/// does not go down as the clock goes on.
pub proof fn lemma_task_time(start: usize, now1: usize, now2: usize)
    requires
        start <= now1 <= now2,
    ensures
        elapsed(Some(start), now1) == now1 - start,
        elapsed(Some(start), now1) <= elapsed(Some(start), now2),
{
}

/// Later clock readings never give an earlier `TimeVal`: seconds do not go
/// down, and within one second microseconds do not either.
pub proof fn lemma_time_val_monotone(us1: usize, us2: usize)
    requires
        us1 <= us2,
    ensures
        time_val_of(us1).sec <= time_val_of(us2).sec,
        time_val_of(us1).sec == time_val_of(us2).sec ==> time_val_of(us1).usec <= time_val_of(
            us2,
        ).usec,
        time_val_of(us1).sec * USEC_PER_SEC + time_val_of(us1).usec == us1,
{
    let d: int = USEC_PER_SEC as int;
    assert((us1 as int) / d <= (us2 as int) / d) by (nonlinear_arith)
        requires
            us1 <= us2,
            d == 1000000,
    ;
    assert((us1 as int) == ((us1 as int) / d) * d + (us1 as int) % d) by (nonlinear_arith)
        requires
            d == 1000000,
    ;
    assert((us2 as int) == ((us2 as int) / d) * d + (us2 as int) % d) by (nonlinear_arith)
        requires
            d == 1000000,
    ;
}

} // verus!
