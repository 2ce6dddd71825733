//! The ready queue: a FIFO of the records of runnable tasks.
use vstd::prelude::*;

use crate::task::{TaskControlBlock, TaskStatus, TaskView};

verus! {

/// Runnable tasks in the order in which they are to run.
pub struct ReadyQueue {
    pub tasks: Vec<TaskControlBlock>,
}

/// The identities of a sequence of records, in order.
pub open spec fn ids_of(s: Seq<TaskView>) -> Seq<usize> {
    s.map_values(|t: TaskView| t.id)
}

impl View for ReadyQueue {
    type V = Seq<TaskView>;

    open spec fn view(&self) -> Seq<TaskView> {
        self.tasks@.map_values(|t: TaskControlBlock| t@)
    }
}

impl ReadyQueue {
    /// Every queued task is ready, and no identity is queued twice.
    pub open spec fn wf(&self) -> bool {
        &&& forall|i: int| 0 <= i < self@.len() ==> (#[trigger] self@[i]).status == TaskStatus::Ready
        &&& ids_of(self@).no_duplicates()
    }

    /// Whether a task of identity `id` is queued.
    pub open spec fn holds(&self, id: usize) -> bool {
        ids_of(self@).contains(id)
    }

    /// An empty queue.
    pub fn new() -> (r: ReadyQueue)
        ensures
            r@ == Seq::<TaskView>::empty(),
            r.wf(),
    {
        ReadyQueue { tasks: Vec::new() }
    }

    /// Number of queued tasks.
    pub fn len(&self) -> (r: usize)
        ensures
            r == self@.len(),
    {
        self.tasks.len()
    }

    /// Whether a task of identity `id` is queued.
    pub fn contains(&self, id: usize) -> (r: bool)
        ensures
            r == self.holds(id),
    {
        let mut i: usize = 0;
        while i < self.tasks.len()
            invariant
                0 <= i <= self.tasks@.len(),
                forall|j: int| 0 <= j < i ==> self@[j].id != id,
            decreases self.tasks@.len() - i,
        {
            if self.tasks[i].id == id {
                assert(ids_of(self@)[i as int] == id);
                return true;
            }
            i = i + 1;
        }
        proof {
            if ids_of(self@).contains(id) {
                let k = choose|k: int| 0 <= k < ids_of(self@).len() && ids_of(self@)[k] == id;
                assert(self@[k].id == id);
            }
        }
        false
    }

    /// Puts a task at the tail of the queue, marked ready. A task that has
    /// exited cannot be queued again.
    pub fn push(&mut self, task: TaskControlBlock)
        requires
            old(self).wf(),
            task@.status != TaskStatus::Exited,
            !old(self).holds(task@.id),
        ensures
            final(self)@ == old(self)@.push(task@.with_status(TaskStatus::Ready)),
            final(self).wf(),
    {
        let mut task = task;
        task.status = TaskStatus::Ready;
        self.tasks.push(task);
        proof {
            assert(self@ =~= old(self)@.push(task@));
            assert(ids_of(self@) =~= ids_of(old(self)@).push(task@.id));
        }
    }

    /// Takes the task at the head of the queue; `None` when it is empty.
    pub fn fetch_task(&mut self) -> (r: Option<TaskControlBlock>)
        requires
            old(self).wf(),
        ensures
            old(self)@.len() == 0 ==> r is None && final(self)@ == old(self)@,
            old(self)@.len() > 0 ==> r is Some && r->0@ == old(self)@[0] && final(self)@
                == old(self)@.drop_first() && r->0.task_cx == old(self).tasks@[0].task_cx,
            r matches Some(t) ==> t@.status == TaskStatus::Ready,
            final(self).wf(),
    {
        if self.tasks.len() == 0 {
            return None;
        }
        let t = self.tasks.remove(0);
        proof {
            assert(self@ =~= old(self)@.drop_first());
            assert(ids_of(self@) =~= ids_of(old(self)@).drop_first());
            assert(old(self)@[0].status == TaskStatus::Ready);
        }
        Some(t)
    }
}

/// Runs queue operations on a queue of identities, oldest first:
/// `Some(id)` puts `id` at the tail, `None` takes the head (nothing when the
/// queue is empty). Gives the queue afterwards and the identities taken, in
/// the order in which they were taken.
pub open spec fn run_ops(q: Seq<usize>, ops: Seq<Option<usize>>) -> (Seq<usize>, Seq<usize>)
    decreases ops.len(),
{
    if ops.len() == 0 {
        (q, Seq::empty())
    } else {
        let (q1, out1) = run_ops(q, ops.drop_last());
        match ops.last() {
            Some(x) => (q1.push(x), out1),
            None => if q1.len() > 0 {
                (q1.drop_first(), out1.push(q1[0]))
            } else {
                (q1, out1)
            },
        }
    }
}

/// The identities that `ops` puts in, in order.
pub open spec fn pushed(ops: Seq<Option<usize>>) -> Seq<usize>
    decreases ops.len(),
{
    if ops.len() == 0 {
        Seq::empty()
    } else {
        match ops.last() {
            Some(x) => pushed(ops.drop_last()).push(x),
            None => pushed(ops.drop_last()),
        }
    }
}

/// First in, first out: whatever the operations, the tasks taken followed by
/// the tasks still queued are the tasks queued at first followed by those
/// put in, in the same order. So the tasks taken are always a prefix of that
/// sequence: a task runs only after every task queued before it has run.
pub proof fn lemma_fifo(q: Seq<usize>, ops: Seq<Option<usize>>)
    ensures
        run_ops(q, ops).1 + run_ops(q, ops).0 == q + pushed(ops),
        run_ops(q, ops).1 == (q + pushed(ops)).take(run_ops(q, ops).1.len() as int),
    decreases ops.len(),
{
    if ops.len() > 0 {
        lemma_fifo(q, ops.drop_last());
        let (q1, out1) = run_ops(q, ops.drop_last());
        match ops.last() {
            Some(x) => {
                assert(out1 + q1.push(x) =~= (out1 + q1).push(x));
            },
            None => {
                if q1.len() > 0 {
                    assert(out1.push(q1[0]) + q1.drop_first() =~= out1 + q1);
                }
            },
        }
    }
    let (qn, outn) = run_ops(q, ops);
    assert(outn =~= (outn + qn).take(outn.len() as int));
}

/// A task that is neither queued nor put in again is never taken from the
/// queue: once a task has left for good, no later run picks it.
pub proof fn lemma_never_taken(q: Seq<usize>, ops: Seq<Option<usize>>, id: usize)
    requires
        !q.contains(id),
        !pushed(ops).contains(id),
    ensures
        !run_ops(q, ops).1.contains(id),
{
    lemma_fifo(q, ops);
    let all = q + pushed(ops);
    let out = run_ops(q, ops).1;
    if out.contains(id) {
        let k = choose|k: int| 0 <= k < out.len() && out[k] == id;
        assert((out + run_ops(q, ops).0).len() == out.len() + run_ops(q, ops).0.len());
        assert(k < all.len());
        assert((out + run_ops(q, ops).0)[k] == out[k]);
        assert(all[k] == id);
        if k < q.len() {
            assert(q[k] == id);
        } else {
            assert(pushed(ops)[k - q.len()] == id);
            assert(pushed(ops).contains(id));
        }
    }
}

} // verus!
