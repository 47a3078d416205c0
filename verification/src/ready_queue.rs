//! The ready queue kept in a task control block.
use vstd::prelude::*;
use crate::queue_mem::QueueMem;
use crate::task::TaskId;

verus! {

/// The in-memory part of a ready queue: the number of tasks the controller
/// holds for it, and the memory it dumps them into.
pub struct ReadyQueue {
    pub count: usize,
    pub inner: QueueMem<TaskId>,
}

impl ReadyQueue {
    /// The queue with no task.
    pub fn empty() -> (q: ReadyQueue)
        ensures
            q.count == 0,
            q.inner@ == Seq::<TaskId>::empty(),
            q.inner.room() == 0,
    {
        ReadyQueue { count: 0, inner: QueueMem::new() }
    }
}

} // verus!
