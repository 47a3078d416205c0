use moic_driver::error::MoicErr;
use moic_driver::moic::{Moic, SwitchPlan};
use moic_driver::regs::{RegWrite, Register, RegisterRecvTargetProcSpec, RegisterSendTaskSpec, RemoveSpec};
use moic_driver::task::TaskId;

fn w(reg: Register, bits: u64) -> RegWrite {
    RegWrite { reg, bits }
}

#[test]
fn new_keeps_base() {
    assert_eq!(Moic::new(0x1001000).base_addr(), 0x1001000);
}

#[test]
fn fetch_positive_is_task() {
    let m = Moic::new(0x1000000);
    assert_eq!(m.fetch(5), Ok(TaskId::virt(5)));
    assert_eq!(m.fetch(0x7fff_ffff_ffff_ffff), Ok(TaskId::virt(0x7fff_ffff_ffff_ffffu64 as usize)));
}

#[test]
fn fetch_zero_is_no_task() {
    assert_eq!(Moic::new(0).fetch(0), Err(MoicErr::NoTask));
}

#[test]
fn fetch_negative_is_error() {
    let m = Moic::new(0);
    assert_eq!(m.fetch(0x8000_0000_0000_0000), Err(MoicErr::FetchErr));
    assert_eq!(m.fetch(u64::MAX), Err(MoicErr::FetchErr));
}

#[test]
fn added_task_is_fetched_back() {
    let m = Moic::new(0x1000000);
    let t = TaskId::from_meta_addr(0x8040_0000, 3, true);
    let add = m.add(t);
    assert_eq!(add.reg, Register::Add);
    assert_eq!(m.fetch(add.bits), Ok(t));
}

#[test]
fn single_register_writes() {
    let m = Moic::new(0x1000000);
    let t = TaskId::virt(0x2899);
    assert_eq!(m.add(t), w(Register::Add, 0x2899));
    assert_eq!(m.remove_task(t), w(Register::Remove, 0x2899));
    assert_eq!(m.switch_hypervisor(t), w(Register::SwitchHypervisor, 0x2899));
}

#[test]
fn switch_os_into_and_out_of() {
    let m = Moic::new(0x1000000);
    assert_eq!(
        m.switch_os(Some(TaskId::virt(0x8000_0040))),
        SwitchPlan { saves_current: false, write: w(Register::SwitchOs, 0x8000_0040) }
    );
    assert_eq!(m.switch_os(None), SwitchPlan { saves_current: true, write: w(Register::SwitchOs, 0) });
}

#[test]
fn switch_process_always_saves() {
    let m = Moic::new(0x1000000);
    assert_eq!(
        m.switch_process(Some(TaskId::virt(0x80))),
        SwitchPlan { saves_current: true, write: w(Register::SwitchProcess, 0x80) }
    );
    assert_eq!(m.switch_process(None), SwitchPlan { saves_current: true, write: w(Register::SwitchProcess, 0) });
}

#[test]
fn register_sender_order() {
    let m = Moic::new(0x1000000);
    let v = m.register_sender(TaskId::virt(1), TaskId::virt(2), TaskId::virt(3), TaskId::virt(4));
    assert_eq!(
        v,
        vec![
            w(Register::RegisterSendTask, 1),
            w(Register::RegisterSendTargetOs, 2),
            w(Register::RegisterSendTargetProc, 3),
            w(Register::RegisterSendTargetTask, 4),
        ]
    );
}

#[test]
fn register_receiver_order() {
    let m = Moic::new(0x1000000);
    let v = m.register_receiver(TaskId::virt(0x19990109), TaskId::empty(), TaskId::empty(), TaskId::virt(5));
    assert_eq!(
        v,
        vec![
            w(Register::RegisterRecvTask, 0x19990109),
            w(Register::RegisterRecvTargetOs, 0),
            w(Register::RegisterRecvTargetProc, 0),
            w(Register::RegisterRecvTargetTask, 5),
        ]
    );
}

#[test]
fn send_intr_order() {
    let m = Moic::new(0x1000000);
    let v = m.send_intr(TaskId::virt(7), TaskId::empty(), TaskId::virt(9));
    assert_eq!(v, vec![w(Register::SendIntrOs, 7), w(Register::SendIntrProc, 0), w(Register::SendIntrTask, 9)]);
}

#[test]
fn current_field_shifted_back() {
    assert_eq!(Moic::current_meta_addr(0x200801), 0x200801usize << 6);
    assert_eq!(Moic::current_meta_addr(0), 0);
    let t = TaskId::from_meta_addr(0x8765_4300, 7, true);
    assert_eq!(Moic::current_meta_addr((t.value() >> 6) as u64), t.meta_addr());
}

#[test]
fn polling_settles_on_task_or_error() {
    assert!(!Moic::fetch_settled(&Err(MoicErr::NoTask)));
    assert!(Moic::fetch_settled(&Err(MoicErr::FetchErr)));
    assert!(Moic::fetch_settled(&Ok(TaskId::virt(3))));
}

#[test]
fn register_spec_entries() {
    assert_eq!(RegisterSendTaskSpec.register(), Register::RegisterSendTask);
    assert_eq!(RegisterRecvTargetProcSpec.register(), Register::RegisterRecvTargetProc);
    assert_eq!(RemoveSpec.register(), Register::Remove);
    assert_eq!(RegisterSendTaskSpec::RESET_VALUE, 0);
    assert_eq!(RegisterRecvTargetProcSpec::RESET_VALUE, 0);
    assert_eq!(RemoveSpec::RESET_VALUE, 0);
}

#[test]
fn register_addresses() {
    let m = Moic::new(0x1001000);
    assert_eq!(m.reg_addr(Register::Add), 0x1001000);
    assert_eq!(m.reg_addr(Register::Fetch), 0x1001008);
    assert_eq!(m.reg_addr(Register::Status), 0x1001000 + 144);
    assert_eq!(Register::Remove.offset(), 128);
}
