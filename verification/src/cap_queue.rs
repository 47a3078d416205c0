//! Capability queues kept in a task control block.
use vstd::prelude::*;
use crate::queue_mem::QueueMem;
use crate::task::TaskId;

verus! {

/// An IPC capability: a task and the operating system, process and task at
/// the other end.
#[derive(Debug, Clone, Copy, PartialEq, Eq, Structural)]
pub struct Capability {
    pub task_id: TaskId,
    pub target_os_id: TaskId,
    pub target_proc_id: TaskId,
    pub target_task_id: TaskId,
}

/// The in-memory part of a capability queue: the number of entries the
/// controller holds for it, and the memory it dumps them into.
pub struct CapQueue {
    pub count: usize,
    pub inner: QueueMem<Capability>,
}

impl CapQueue {
    /// The queue with no entries.
    pub fn empty() -> (q: CapQueue)
        ensures
            q.count == 0,
            q.inner@ == Seq::<Capability>::empty(),
            q.inner.room() == 0,
    {
        CapQueue { count: 0, inner: QueueMem::new() }
    }
}

/// The device interrupt handlers of a context: the handler task registered
/// for each device.
#[derive(Debug)]
pub struct DeviceCapTable {
    pub inner: Vec<TaskId>,
}

impl DeviceCapTable {
    /// The table with no handler.
    pub fn empty() -> (t: DeviceCapTable)
        ensures
            t.inner@ == Seq::<TaskId>::empty(),
    {
        DeviceCapTable { inner: Vec::new() }
    }
}

} // verus!
