//! Task identities and task control blocks.
use vstd::prelude::*;
use crate::cap_queue::{Capability, CapQueue, DeviceCapTable};
use crate::lock::new_unit_lock;
use crate::ready_queue::ReadyQueue;

verus! {

/// Log2 of the alignment of a task control block: the low bits of its address
/// are free to carry the priority and the preemption flag.
pub const TASK_META_ALIGN: usize = 6;

/// Number of distinct priorities that fit in a task identity.
pub const MAX_PRIORITY: usize = 32;

/// The identity of a task: the address of its control block, with the priority
/// in bits 1..=5 and the preemption flag in bit 0.
#[derive(Debug, Clone, Copy, PartialEq, Eq, Structural, PartialOrd, Ord, Hash)]
pub struct TaskId(pub(crate) usize);

/// The identity made from a control block at `addr`, of the given priority and
/// preemption flag.
pub open spec fn tagged_id(addr: usize, priority: usize, is_preempt: bool) -> usize {
    addr | (((priority % 32) << 1usize) as usize) | (if is_preempt { 1usize } else { 0usize })
}

/// The address of the control block that an identity names.
pub open spec fn meta_addr_of(raw: usize) -> usize {
    raw & !0x3fusize
}

/// The priority that an identity carries.
pub open spec fn priority_of(raw: usize) -> usize {
    (raw >> 1usize) & 0x1fusize
}

/// The preemption flag that an identity carries.
pub open spec fn preempt_of(raw: usize) -> bool {
    raw & 1usize == 1usize
}

impl TaskId {
    /// The raw value of the identity.
    pub closed spec fn raw(self) -> usize {
        self.0
    }

    /// The identity whose raw value is `raw`.
    pub closed spec fn spec_virt(raw: usize) -> TaskId {
        TaskId(raw)
    }

    /// The identity whose raw value is `val`; the caller vouches that it names a task.
    pub fn virt(val: usize) -> (r: TaskId)
        ensures
            r.raw() == val,
            r == TaskId::spec_virt(val),
    {
        TaskId(val)
    }

    /// The identity that names no task.
    pub fn empty() -> (r: TaskId)
        ensures
            r.raw() == 0,
            r == TaskId::spec_virt(0),
    {
        TaskId(0)
    }

    /// The raw value of the identity, as written to the controller.
    pub fn value(&self) -> (r: usize)
        ensures
            r == self.raw(),
    {
        self.0
    }

    /// The identity of the control block at `addr`: the priority, taken modulo
    /// `MAX_PRIORITY`, is or-ed in at bit 1 and the preemption flag at bit 0.
    pub fn from_meta_addr(addr: usize, priority: usize, is_preempt: bool) -> (r: TaskId)
        ensures
            r.raw() == tagged_id(addr, priority, is_preempt),
    {
        let mut raw = addr;
        raw = raw | ((priority % MAX_PRIORITY) << 1usize);
        if is_preempt {
            raw = raw | 1;
        } else {
            assert(raw | 0usize == raw) by (bit_vector);
        }
        TaskId(raw)
    }

    /// The address of the control block that this identity names: the identity
    /// with its tag bits cleared.
    pub fn meta_addr(&self) -> (r: usize)
        ensures
            r == meta_addr_of(self.raw()),
    {
        self.0 & !0x3fusize
    }
}

/// The raw value of the identity made from `v` is `v`.
pub proof fn lemma_raw_virt(v: usize)
    ensures
        TaskId::spec_virt(v).raw() == v,
{
}

/// An identity is determined by its raw value.
pub proof fn lemma_virt_raw(t: TaskId)
    ensures
        TaskId::spec_virt(t.raw()) == t,
{
}

/// The `current` register's `tcb` field holds an identity shifted right by
/// `TASK_META_ALIGN`; shifting it back gives the control block address that
/// the identity names.
pub proof fn lemma_current_field_names_meta(raw: usize)
    ensures
        ((raw >> 6usize) << 6usize) == meta_addr_of(raw),
{
    assert(((raw >> 6usize) << 6usize) == raw & !0x3fusize) by (bit_vector);
}

/// Tagging a 64-byte aligned control block address and clearing the tag again
/// gives back the address; the tag holds the priority modulo `MAX_PRIORITY` and
/// the preemption flag.
pub proof fn lemma_tag_round_trip(addr: usize, priority: usize, is_preempt: bool)
    requires
        addr % 64 == 0,
    ensures
        meta_addr_of(tagged_id(addr, priority, is_preempt)) == addr,
        priority_of(tagged_id(addr, priority, is_preempt)) == priority % 32,
        preempt_of(tagged_id(addr, priority, is_preempt)) == is_preempt,
{
    let p: usize = priority % 32;
    let e: usize = if is_preempt { 1usize } else { 0usize };
    assert(addr & 0x3f == 0) by (bit_vector)
        requires addr % 64 == 0;
    assert(((addr | ((p << 1usize) as usize) | e) & !0x3fusize) == addr) by (bit_vector)
        requires addr & 0x3f == 0, p < 32, e <= 1;
    assert((((addr | ((p << 1usize) as usize) | e) >> 1usize) & 0x1fusize) == p) by (bit_vector)
        requires addr & 0x3f == 0, p < 32, e <= 1;
    assert(((addr | ((p << 1usize) as usize) | e) & 1usize == 1usize) == (e == 1)) by (bit_vector)
        requires addr & 0x3f == 0, p < 32, e <= 1;
}

/// The state of a task.
#[derive(Debug, Clone, Copy, PartialEq, Eq, Structural)]
pub enum Status {
    Inited,
    Ready,
}

/// A task control block.  The controller reads and writes its queues when it
/// switches the context that the block describes.
pub struct TaskMeta {
    pub ready_queue: ReadyQueue,
    pub device_cap_table: DeviceCapTable,
    pub send_cap_queue: CapQueue,
    pub recv_cap_queue: CapQueue,
    pub status: Status,
    pub priority: usize,
    pub is_preempt: bool,
    pub lock: spin::Mutex<()>,
}

/// How much room was asked of each queue before the context is left.
#[derive(Debug, Clone, Copy, PartialEq, Eq, Structural)]
pub struct Reservation {
    pub ready: usize,
    pub recv_cap: usize,
    pub send_cap: usize,
}

impl TaskMeta {
    /// Whether the block is freshly made: all queues empty, status `Inited`.
    pub open spec fn is_fresh(&self) -> bool {
        &&& self.ready_queue.count == 0
        &&& self.ready_queue.inner@ == Seq::<TaskId>::empty()
        &&& self.device_cap_table.inner@ == Seq::<TaskId>::empty()
        &&& self.send_cap_queue.count == 0
        &&& self.send_cap_queue.inner@ == Seq::<Capability>::empty()
        &&& self.recv_cap_queue.count == 0
        &&& self.recv_cap_queue.inner@ == Seq::<Capability>::empty()
        &&& self.status == Status::Inited
    }

    /// A fresh control block of priority 0, not preemptive.
    pub fn init() -> (m: TaskMeta)
        ensures
            m.is_fresh(),
            m.priority == 0,
            !m.is_preempt,
    {
        TaskMeta::with_priority(0, false)
    }

    /// A fresh control block of the given priority and preemption flag.
    pub fn with_priority(priority: usize, is_preempt: bool) -> (m: TaskMeta)
        ensures
            m.is_fresh(),
            m.priority == priority,
            m.is_preempt == is_preempt,
    {
        TaskMeta {
            ready_queue: ReadyQueue::empty(),
            device_cap_table: DeviceCapTable::empty(),
            send_cap_queue: CapQueue::empty(),
            recv_cap_queue: CapQueue::empty(),
            status: Status::Inited,
            priority,
            is_preempt,
            lock: new_unit_lock(),
        }
    }

    /// Makes a fresh control block of the given priority and preemption flag
    /// on the heap and returns the identity that names it: the block's address
    /// tagged by `TaskId::from_meta_addr`.  When the allocator places the block
    /// 64-byte aligned, the identity's tag is exactly the priority modulo
    /// `MAX_PRIORITY` and the flag (see `lemma_tag_round_trip`).
    pub fn new(priority: usize, is_preempt: bool) -> (t: TaskId)
        ensures
            exists|addr: usize|
                addr != 0 && addr % 4 == 0 && #[trigger] tagged_id(addr, priority, is_preempt)
                    == t.raw(),
            t.raw() != 0,
            preempt_of(t.raw()) == is_preempt,
            (t.raw() >> 1usize) & 1usize == priority % 2,
    {
        let meta = Box::new(TaskMeta::with_priority(priority, is_preempt));
        let addr = leak_block(meta);
        let t = TaskId::from_meta_addr(addr, priority, is_preempt);
        proof {
            let x: usize = ((priority % 32) << 1usize) as usize;
            let e: usize = if is_preempt { 1usize } else { 0usize };
            let p: usize = priority % 32;
            assert(p % 2 == priority % 2);
            assert(addr & 3 == 0) by (bit_vector)
                requires addr % 4 == 0;
            assert((addr | x | e) != 0) by (bit_vector)
                requires addr != 0;
            assert(((addr | ((p << 1usize) as usize) | e) & 1usize == 1usize) == (e == 1)) by (bit_vector)
                requires addr & 3 == 0, p < 32, e <= 1;
            assert((((addr | ((p << 1usize) as usize) | e) >> 1usize) & 1usize) == p % 2) by (bit_vector)
                requires addr & 3 == 0, p < 32, e <= 1;
            assert(tagged_id(addr, priority, is_preempt) == t.raw());
        }
        t
    }

    /// The device interrupt handler table.
    pub fn device_cap(&self) -> (t: &DeviceCapTable)
        ensures
            t == &self.device_cap_table,
    {
        &self.device_cap_table
    }

    /// A copy of the IPC send capabilities, in queue order.
    pub fn send_cap(&self) -> (v: Vec<Capability>)
        ensures
            v@ == self.send_cap_queue.inner@,
    {
        copy_caps(&self.send_cap_queue)
    }

    /// A copy of the IPC receive capabilities, in queue order.
    pub fn recv_cap(&self) -> (v: Vec<Capability>)
        ensures
            v@ == self.recv_cap_queue.inner@,
    {
        copy_caps(&self.recv_cap_queue)
    }
}

/// Calls `Box::into_raw` on the block and takes the address of the
/// allocation.  The documentation promises a non-null pointer aligned for
/// `TaskMeta`, whose `usize` fields make it at least 4-byte aligned on every
/// target; that is all that is stated: which address the allocator chose is
/// not, nor that the block is found there afterwards.
#[verifier::external_body]
fn leak_block(b: Box<TaskMeta>) -> (addr: usize)
    ensures
        addr != 0,
        addr % 4 == 0,
{
    Box::into_raw(b) as usize
}

/// The entries of a capability queue, copied in order.
fn copy_caps(q: &CapQueue) -> (v: Vec<Capability>)
    ensures
        v@ == q.inner@,
{
    let n = q.inner.len();
    let mut v: Vec<Capability> = Vec::new();
    let mut i: usize = 0;
    while i < n
        invariant
            n == q.inner@.len(),
            i <= n,
            v@ == q.inner@.subrange(0, i as int),
        decreases n - i,
    {
        let c: Capability = *q.inner.get(i);
        v.push(c);
        i = i + 1;
        assert(v@ == q.inner@.subrange(0, i as int));
    }
    assert(q.inner@.subrange(0, n as int) == q.inner@);
    v
}

/// Prepares the queues of the context being left.  When at most one hart is
/// online in that context (`online_count <= 1`), the controller will dump
/// the context's queues into memory, so room for `count` more entries is
/// reserved in each of them (ready queue, then receive, then send
/// capabilities): afterwards each has room for its old length plus its
/// count.  Otherwise nothing is done and the queues are left as they were.
/// The contents and counts are unchanged either way; the result reports the
/// amounts asked of each queue.
pub fn prepare_switch_out(
    ready: &mut ReadyQueue,
    recv_caps: &mut CapQueue,
    send_caps: &mut CapQueue,
    online_count: u64,
) -> (r: Option<Reservation>)
    requires
        online_count <= 1 ==> old(ready).inner@.len() + old(ready).count <= usize::MAX,
        online_count <= 1 ==> old(recv_caps).inner@.len() + old(recv_caps).count <= usize::MAX,
        online_count <= 1 ==> old(send_caps).inner@.len() + old(send_caps).count <= usize::MAX,
    ensures
        r == (if online_count <= 1 {
            Some(Reservation {
                ready: old(ready).count,
                recv_cap: old(recv_caps).count,
                send_cap: old(send_caps).count,
            })
        } else {
            None::<Reservation>
        }),
        final(ready).count == old(ready).count,
        final(ready).inner@ == old(ready).inner@,
        final(recv_caps).count == old(recv_caps).count,
        final(recv_caps).inner@ == old(recv_caps).inner@,
        final(send_caps).count == old(send_caps).count,
        final(send_caps).inner@ == old(send_caps).inner@,
        online_count <= 1 ==> final(ready).inner.room() == old(ready).inner@.len() + old(ready).count,
        online_count <= 1 ==> final(recv_caps).inner.room() == old(recv_caps).inner@.len()
            + old(recv_caps).count,
        online_count <= 1 ==> final(send_caps).inner.room() == old(send_caps).inner@.len()
            + old(send_caps).count,
        online_count > 1 ==> *final(ready) == *old(ready) && *final(recv_caps) == *old(recv_caps)
            && *final(send_caps) == *old(send_caps),
{
    if online_count <= 1 {
        let rq_count = ready.count;
        ready.inner.reserve(rq_count);
        let recv_cap_count = recv_caps.count;
        recv_caps.inner.reserve(recv_cap_count);
        let send_cap_count = send_caps.count;
        send_caps.inner.reserve(send_cap_count);
        Some(Reservation { ready: rq_count, recv_cap: recv_cap_count, send_cap: send_cap_count })
    } else {
        None
    }
}

} // verus!
