use moic_driver::task::{prepare_switch_out, Reservation, Status, TaskId, TaskMeta};
use moic_driver::cap_queue::{CapQueue, Capability};
use moic_driver::ready_queue::ReadyQueue;

#[test]
fn tag_packs_priority_and_preempt() {
    let id = TaskId::from_meta_addr(0x8020_0040, 5, true);
    assert_eq!(id.value(), 0x8020_004b);
    assert_eq!(id.meta_addr(), 0x8020_0040);
}

#[test]
fn tag_takes_priority_modulo_32() {
    let id = TaskId::from_meta_addr(0x1000, 33, false);
    assert_eq!(id.value(), 0x1002);
    assert_eq!(id.meta_addr(), 0x1000);
}

#[test]
fn tag_round_trip_on_aligned_addresses() {
    for addr in [0usize, 0x40, 0x8000_0000, 0xffc0] {
        for priority in [0usize, 1, 4, 31, 32, 63] {
            for preempt in [false, true] {
                let id = TaskId::from_meta_addr(addr, priority, preempt);
                assert_eq!(id.meta_addr(), addr);
                assert_eq!((id.value() >> 1) & 0x1f, priority % 32);
                assert_eq!(id.value() & 1 == 1, preempt);
            }
        }
    }
}

#[test]
fn meta_addr_clears_low_six_bits() {
    assert_eq!(TaskId::virt(0x19990109).meta_addr(), 0x19990100);
    assert_eq!(TaskId::virt(0x3f).meta_addr(), 0);
}

#[test]
fn virt_and_empty() {
    assert_eq!(TaskId::virt(0x2899).value(), 0x2899);
    assert_eq!(TaskId::empty().value(), 0);
    assert_eq!(TaskId::empty(), TaskId::virt(0));
}

#[test]
fn new_meta_is_fresh() {
    let m = TaskMeta::with_priority(4, true);
    assert_eq!(m.priority, 4);
    assert!(m.is_preempt);
    assert_eq!(m.status, Status::Inited);
    assert_eq!(m.ready_queue.count, 0);
    assert!(m.ready_queue.inner.items.is_empty());
    assert!(m.send_cap().is_empty());
    assert!(m.recv_cap().is_empty());
    assert!(m.device_cap().inner.is_empty());
    let guard = m.lock.lock();
    drop(guard);
}

#[test]
fn init_meta_is_fresh() {
    let m = TaskMeta::init();
    assert_eq!(m.priority, 0);
    assert!(!m.is_preempt);
    assert_eq!(m.status, Status::Inited);
}

fn cap(a: usize, b: usize) -> Capability {
    Capability {
        task_id: TaskId::virt(a),
        target_os_id: TaskId::virt(b),
        target_proc_id: TaskId::empty(),
        target_task_id: TaskId::virt(a + b),
    }
}

#[test]
fn cap_copies_keep_order() {
    let mut m = TaskMeta::with_priority(1, false);
    m.send_cap_queue.inner.items.push_back(cap(1, 2));
    m.send_cap_queue.inner.items.push_back(cap(3, 4));
    m.recv_cap_queue.inner.items.push_back(cap(5, 6));
    assert_eq!(m.send_cap(), vec![cap(1, 2), cap(3, 4)]);
    assert_eq!(m.recv_cap(), vec![cap(5, 6)]);
}

fn queues() -> (ReadyQueue, CapQueue, CapQueue) {
    let mut ready = ReadyQueue::empty();
    ready.count = 3;
    ready.inner.items.push_back(TaskId::virt(0x40));
    let mut recv = CapQueue::empty();
    recv.count = 2;
    let mut send = CapQueue::empty();
    send.count = 1;
    send.inner.items.push_back(cap(7, 8));
    (ready, recv, send)
}

#[test]
fn last_hart_out_reserves_room() {
    for online in [0u64, 1] {
        let (mut ready, mut recv, mut send) = queues();
        let r = prepare_switch_out(&mut ready, &mut recv, &mut send, online);
        assert_eq!(r, Some(Reservation { ready: 3, recv_cap: 2, send_cap: 1 }));
        assert!(ready.inner.items.capacity() >= 1 + 3);
        assert!(recv.inner.items.capacity() >= 2);
        assert!(send.inner.items.capacity() >= 1 + 1);
        assert_eq!(ready.inner.items.iter().copied().collect::<Vec<_>>(), vec![TaskId::virt(0x40)]);
        assert_eq!(send.inner.items.iter().copied().collect::<Vec<_>>(), vec![cap(7, 8)]);
        assert_eq!((ready.count, recv.count, send.count), (3, 2, 1));
    }
}

#[test]
fn other_harts_online_reserve_nothing() {
    let (mut ready, mut recv, mut send) = queues();
    let r = prepare_switch_out(&mut ready, &mut recv, &mut send, 2);
    assert_eq!(r, None);
    assert_eq!(ready.inner.items.len(), 1);
    assert_eq!(send.inner.items.len(), 1);
    assert_eq!(recv.inner.items.len(), 0);
}

#[test]
fn new_task_is_named_by_tagged_address() {
    let t = TaskMeta::new(4, true);
    assert_ne!(t.value(), 0);
    // The heap places the block at least 16-byte aligned, so the low four
    // bits are the tag alone: (4 << 1) | 1.
    assert_eq!(t.value() & 0xf, 0x9);
    assert_eq!((t.value() >> 1) & 1, 0);
    let u = TaskMeta::new(0, false);
    assert_eq!(u.value() & 0xf, 0);
    let p = TaskMeta::new(3, true);
    assert_eq!(p.value() & 1, 1);
    assert_eq!((p.value() >> 1) & 1, 1);
    assert_ne!(u.meta_addr(), t.meta_addr());
}

#[test]
fn leaving_last_reserves_count_beyond_length() {
    let mut m = TaskMeta::init();
    m.ready_queue.count = 3;
    m.recv_cap_queue.count = 2;
    m.send_cap_queue.count = 1;
    let r = prepare_switch_out(&mut m.ready_queue, &mut m.recv_cap_queue, &mut m.send_cap_queue, 1);
    assert_eq!(r, Some(Reservation { ready: 3, recv_cap: 2, send_cap: 1 }));
    assert!(m.ready_queue.inner.items.capacity() >= 3);
    assert!(m.recv_cap_queue.inner.items.capacity() >= 2);
    assert!(m.send_cap_queue.inner.items.capacity() >= 1);
}
