//! The single-core processor seat: the current task, the idle loop's own
//! context, the hand-off between the two, and the accessors that the syscall
//! layer uses.
//!
//! The processor is an ordinary value that the kernel builds once and passes
//! to each operation. The register swap itself is machine code outside this
//! crate: the operations here say which context to switch to, and the caller
//! performs the switch after they return, so that no record is borrowed
//! across it.
use vstd::prelude::*;

use crate::config::MAX_SYSCALL_NUM;
use crate::manager::ReadyQueue;
use crate::task::{bumped, elapsed, TaskContext, TaskControlBlock, TaskStatus, TaskView};

verus! {

/// An operation on the current task's address space, addressed by the
/// address space's token, for the memory manager to carry out.
#[derive(Clone, Copy, Debug, PartialEq, Eq, Structural)]
pub enum MemoryRequest {
    /// Map `len` bytes from `start` with permission bits `port`.
    Mmap { token: usize, start: usize, len: usize, port: usize },
    /// Unmap `len` bytes from `start`.
    Munmap { token: usize, start: usize, len: usize },
    /// Translate the user address `ptr` to a physical address.
    Translate { token: usize, ptr: usize },
}

/// The processor seat.
pub struct Processor {
    /// The task that holds the processor, if any.
    pub current: Option<TaskControlBlock>,
    /// The idle loop's saved context.
    pub idle_task_cx: TaskContext,
}

/// The model of an optional record.
pub open spec fn view_of(t: Option<TaskControlBlock>) -> Option<TaskView> {
    match t {
        Some(t) => Some(t@),
        None => None,
    }
}

/// The seat and the queue agree: the queue is well formed, and a seated
/// task is running and not queued, so that each live task has one home.
pub open spec fn seated(processor: &Processor, queue: &ReadyQueue) -> bool {
    &&& queue.wf()
    &&& processor.current matches Some(t) ==> t.status == TaskStatus::Running && !queue.holds(
        t.id,
    )
}

impl Processor {
    /// The model of the current task, if any.
    pub open spec fn cur(&self) -> Option<TaskView> {
        view_of(self.current)
    }

    /// An empty seat, with a zeroed idle context.
    pub fn new() -> (r: Processor)
        ensures
            r.current is None,
            r.idle_task_cx.ra == 0,
            r.idle_task_cx.sp == 0,
    {
        Processor { current: None, idle_task_cx: TaskContext::zero_init() }
    }

    /// Takes the current task out of the seat, leaving it empty.
    pub fn take_current(&mut self) -> (r: Option<TaskControlBlock>)
        ensures
            view_of(r) == old(self).cur(),
            final(self).current is None,
            final(self).idle_task_cx == old(self).idle_task_cx,
    {
        self.current.take()
    }

    /// The current task, left in its seat.
    pub fn current(&self) -> (r: Option<&TaskControlBlock>)
        ensures
            r is Some == self.current is Some,
            r matches Some(t) ==> t@ == self.cur()->0 && t.task_cx == self.current->0.task_cx,
    {
        self.current.as_ref()
    }

    /// The request that maps memory in the current task's address space;
    /// `None` when no task holds the processor.
    pub fn mmap(&self, start: usize, len: usize, port: usize) -> (r: Option<MemoryRequest>)
        ensures
            r == match self.cur() {
                Some(t) => Some(MemoryRequest::Mmap { token: t.user_token, start, len, port }),
                None => None,
            },
    {
        match &self.current {
            Some(t) => Some(MemoryRequest::Mmap { token: t.user_token, start, len, port }),
            None => None,
        }
    }

    /// The request that unmaps memory in the current task's address space;
    /// `None` when no task holds the processor.
    pub fn unmmap(&self, start: usize, len: usize) -> (r: Option<MemoryRequest>)
        ensures
            r == match self.cur() {
                Some(t) => Some(MemoryRequest::Munmap { token: t.user_token, start, len }),
                None => None,
            },
    {
        match &self.current {
            Some(t) => Some(MemoryRequest::Munmap { token: t.user_token, start, len }),
            None => None,
        }
    }

    /// The request that translates a user address of the current task;
    /// `None` when no task holds the processor.
    pub fn translate_useraddr(&self, ptr: usize) -> (r: Option<MemoryRequest>)
        ensures
            r == match self.cur() {
                Some(t) => Some(MemoryRequest::Translate { token: t.user_token, ptr }),
                None => None,
            },
    {
        match &self.current {
            Some(t) => Some(MemoryRequest::Translate { token: t.user_token, ptr }),
            None => None,
        }
    }

    /// Milliseconds since the current task first ran, at time `now`;
    /// `None` when no task holds the processor.
    pub fn get_task_time(&self, now: usize) -> (r: Option<usize>)
        ensures
            r == match self.cur() {
                Some(t) => Some(elapsed(t.start_time, now)),
                None => None,
            },
    {
        match &self.current {
            Some(t) => {
                let time = match t.start_time {
                    Some(s) => if now >= s {
                        now - s
                    } else {
                        0
                    },
                    None => 0,
                };
                Some(time)
            },
            None => None,
        }
    }

    /// The current task's syscall counters; `None` when no task holds the
    /// processor.
    pub fn get_syscall_times(&self) -> (r: Option<[u32; MAX_SYSCALL_NUM]>)
        ensures
            r is Some == self.current is Some,
            r matches Some(a) ==> a@ == self.cur()->0.syscall_times,
    {
        match &self.current {
            Some(t) => Some(t.syscall_times),
            None => None,
        }
    }

    /// Counts one call of syscall `id` by the current task, if any.
    pub fn increase_syscall_time(&mut self, id: usize)
        requires
            id < MAX_SYSCALL_NUM,
        ensures
            final(self).cur() == match old(self).cur() {
                Some(t) => Some(t.count_syscall(id)),
                None => None,
            },
            final(self).current is Some ==> final(self).current->0.task_cx == old(
                self,
            ).current->0.task_cx,
            final(self).idle_task_cx == old(self).idle_task_cx,
    {
        let cur = self.current.take();
        match cur {
            Some(t) => {
                let mut t = t;
                let c = t.syscall_times[id];
                if c < u32::MAX {
                    t.syscall_times[id] = c + 1;
                }
                assert(t.syscall_times@ =~= old(self).cur()->0.syscall_times.update(
                    id as int,
                    bumped(c),
                ));
                self.current = Some(t);
            },
            None => {},
        }
    }
}

/// Counts one call of syscall `id` by the current task, if any.
pub fn increase_syscall_time(processor: &mut Processor, id: usize)
    requires
        id < MAX_SYSCALL_NUM,
    ensures
        final(processor).cur() == match old(processor).cur() {
            Some(t) => Some(t.count_syscall(id)),
            None => None,
        },
        final(processor).idle_task_cx == old(processor).idle_task_cx,
{
    processor.increase_syscall_time(id)
}

/// The current task's syscall counters; `None` when no task holds the
/// processor.
pub fn get_syscall_times(processor: &Processor) -> (r: Option<[u32; MAX_SYSCALL_NUM]>)
    ensures
        r is Some == processor.current is Some,
        r matches Some(a) ==> a@ == processor.cur()->0.syscall_times,
{
    processor.get_syscall_times()
}

/// Milliseconds since the current task first ran, at time `now`; `None`
/// when no task holds the processor.
pub fn get_task_time(processor: &Processor, now: usize) -> (r: Option<usize>)
    ensures
        r == match processor.cur() {
            Some(t) => Some(elapsed(t.start_time, now)),
            None => None,
        },
{
    processor.get_task_time(now)
}

/// The request that translates a user address of the current task.
pub fn translate_useraddr(processor: &Processor, ptr: usize) -> (r: Option<MemoryRequest>)
    ensures
        r == match processor.cur() {
            Some(t) => Some(MemoryRequest::Translate { token: t.user_token, ptr }),
            None => None,
        },
{
    processor.translate_useraddr(ptr)
}

/// The request that unmaps memory in the current task's address space.
pub fn unmmap(processor: &Processor, start: usize, len: usize) -> (r: Option<MemoryRequest>)
    ensures
        r == match processor.cur() {
            Some(t) => Some(MemoryRequest::Munmap { token: t.user_token, start, len }),
            None => None,
        },
{
    processor.unmmap(start, len)
}

/// The request that maps memory in the current task's address space.
pub fn mmap(processor: &Processor, start: usize, len: usize, port: usize) -> (r: Option<
    MemoryRequest,
>)
    ensures
        r == match processor.cur() {
            Some(t) => Some(MemoryRequest::Mmap { token: t.user_token, start, len, port }),
            None => None,
        },
{
    processor.mmap(start, len, port)
}

/// One pass of the idle loop, at time `now`. It takes the task at the head
/// of the ready queue, marks it running, stamps its start time if it has
/// never run, seats it, and gives the context to switch into. With no ready
/// task it gives `None`, and the loop tries again later.
///
/// The seat is empty when control is back in the idle loop: a task leaves
/// it (to the queue or for good) before it switches to the idle context.
pub fn run_tasks(processor: &mut Processor, queue: &mut ReadyQueue, now: usize) -> (r: Option<
    TaskContext,
>)
    requires
        old(queue).wf(),
        old(processor).current is None,
    ensures
        old(queue)@.len() == 0 ==> r is None && final(queue)@ == old(queue)@
            && final(processor).current is None,
        old(queue)@.len() > 0 ==> {
            &&& r == Some(old(queue).tasks@[0].task_cx)
            &&& final(queue)@ == old(queue)@.drop_first()
            &&& final(processor).cur() == Some(old(queue)@[0].mark_running(now))
            &&& final(processor).current->0.task_cx == old(queue).tasks@[0].task_cx
            &&& !final(queue).holds(final(processor).cur()->0.id)
        },
        seated(final(processor), final(queue)),
        final(processor).idle_task_cx == old(processor).idle_task_cx,
{
    match queue.fetch_task() {
        Some(task) => {
            let mut task = task;
            task.status = TaskStatus::Running;
            if task.start_time.is_none() {
                task.start_time = Some(now);
            }
            let next_task_cx = task.task_cx;
            proof {
                let ids = crate::manager::ids_of(old(queue)@);
                assert(crate::manager::ids_of(queue@) =~= ids.drop_first());
                if crate::manager::ids_of(queue@).contains(task.id) {
                    let k = choose|k: int|
                        0 <= k < ids.drop_first().len() && ids.drop_first()[k] == task.id;
                    assert(ids[k + 1] == ids[0]);
                }
            }
            processor.current = Some(task);
            Some(next_task_cx)
        },
        None => None,
    }
}

/// The current task, taken out of the seat.
pub fn take_current_task(processor: &mut Processor) -> (r: Option<TaskControlBlock>)
    ensures
        view_of(r) == old(processor).cur(),
        final(processor).current is None,
        final(processor).idle_task_cx == old(processor).idle_task_cx,
{
    processor.take_current()
}

/// The current task, left in its seat.
pub fn current_task(processor: &Processor) -> (r: Option<&TaskControlBlock>)
    ensures
        r is Some == processor.current is Some,
        r matches Some(t) ==> t@ == processor.cur()->0,
{
    processor.current()
}

/// The token of the current task's address space.
pub fn current_user_token(processor: &Processor) -> (r: Option<usize>)
    ensures
        r == match processor.cur() {
            Some(t) => Some(t.user_token),
            None => None,
        },
{
    match processor.current() {
        Some(t) => Some(t.user_token),
        None => None,
    }
}

/// The physical page of the current task's trap context.
pub fn current_trap_cx(processor: &Processor) -> (r: Option<usize>)
    ensures
        r == match processor.cur() {
            Some(t) => Some(t.trap_cx_ppn),
            None => None,
        },
{
    match processor.current() {
        Some(t) => Some(t.trap_cx_ppn),
        None => None,
    }
}

/// The context that a task leaving the processor switches into: the idle
/// loop's.
pub fn schedule(processor: &Processor) -> (r: TaskContext)
    ensures
        r == processor.idle_task_cx,
{
    processor.idle_task_cx
}

} // verus!
