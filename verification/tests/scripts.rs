use moic_driver::boot::{harts_to_start, SMP};
use moic_driver::scenario::{self, MoicOp, Step, TestTasks};
use moic_driver::task::TaskId;

fn tasks() -> TestTasks {
    TestTasks {
        os: TaskId::virt(0x100),
        process: TaskId::virt(0x200),
        process2: TaskId::virt(0x300),
        sender: TaskId::virt(0x404),
        receiver: TaskId::virt(0x505),
    }
}

#[test]
fn boot_hart_starts_the_others() {
    assert_eq!(SMP, 4);
    assert_eq!(harts_to_start(0), vec![1, 2, 3]);
    assert_eq!(harts_to_start(2), vec![0, 1, 3]);
    assert_eq!(harts_to_start(3), vec![0, 1, 2]);
    assert_eq!(harts_to_start(7), vec![0, 1, 2, 3]);
}

#[test]
fn os_to_os_scripts() {
    let t = tasks();
    assert_eq!(
        scenario::os_send_intr_os_main(&t),
        vec![
            Step::Op(MoicOp::SwitchOs(Some(t.os))),
            Step::Op(MoicOp::RegisterSender(t.sender, t.os, TaskId::empty(), t.receiver)),
            Step::Op(MoicOp::Add(t.sender)),
            Step::FetchExpect,
            Step::Op(MoicOp::SendIntr(t.os, TaskId::empty(), t.receiver)),
        ]
    );
    assert_eq!(
        scenario::os_send_intr_os_secondary(&t),
        vec![
            Step::Op(MoicOp::SwitchOs(Some(t.os))),
            Step::Op(MoicOp::RegisterReceiver(t.receiver, t.os, TaskId::empty(), t.sender)),
            Step::PollAndRelease,
        ]
    );
}

#[test]
fn process_scripts_target_the_right_process() {
    let t = tasks();
    let s = scenario::os_send_intr_process_main(&t);
    assert_eq!(s[1], Step::Op(MoicOp::RegisterSender(t.sender, t.os, t.process, t.receiver)));
    assert_eq!(s[4], Step::Op(MoicOp::SendIntr(t.os, t.process, t.receiver)));
    let s = scenario::process_send_intr_os_main(&t);
    assert_eq!(s[1], Step::Op(MoicOp::SwitchProcess(Some(t.process))));
    assert_eq!(s[5], Step::Op(MoicOp::SendIntr(t.os, TaskId::empty(), t.receiver)));
    let s = scenario::process_send_intr_process_main(&t);
    assert_eq!(s[5], Step::Op(MoicOp::SendIntr(t.os, t.process2, t.receiver)));
    assert_eq!(s, scenario::process_send_intr_process_not_online_main(&t));
    let s = scenario::process_send_intr_os_secondary(&t);
    assert_eq!(s[0], Step::EnableSupervisorSoftIntr);
    assert_eq!(s[2], Step::Op(MoicOp::RegisterReceiver(t.receiver, t.os, t.process, t.sender)));
    let s = scenario::os_send_intr_process_secondary(&t);
    assert_eq!(s.len(), 6);
    assert_eq!(s[0], Step::EnableUserSoftIntr);
    let s = scenario::process_send_intr_process_secondary(&t);
    assert_eq!(s[2], Step::Op(MoicOp::SwitchProcess(Some(t.process2))));
    let s = scenario::process_send_intr_process_not_online_secondary(&t);
    assert_eq!(s.len(), 9);
    assert_eq!(s[6], Step::PollAndEnterProcess);
    assert_eq!(s[8], Step::PollAndRelease);
}

#[test]
fn ready_queue_scripts() {
    let t = tasks();
    let s = scenario::moic_test_rq_main(&t);
    assert_eq!(s.len(), 46);
    assert_eq!(s[0], Step::Op(MoicOp::SwitchOs(Some(t.os))));
    assert_eq!(s[4], Step::Op(MoicOp::SwitchOs(None)));
    assert!(s[5..14].iter().all(|x| *x == Step::Poll));
    assert_eq!(s[14], Step::ReportMeta(t.os));
    assert!(s[17..24].iter().all(|x| *x == Step::PollAndRelease));
    assert_eq!(s[24], Step::Op(MoicOp::SwitchProcess(Some(t.process))));
    assert_eq!(s[28..40].len(), 12);
    assert!(s[44..46].iter().all(|x| *x == Step::PollAndRelease));
    let s = scenario::moic_test_rq_secondary(&t);
    assert_eq!(s.len(), 11);
    assert_eq!(s[4], Step::FetchAndRelease);
    assert_eq!(s[1], Step::AddNewTask { priority: 1, is_preempt: false });
}

#[test]
fn device_cap_scripts() {
    let t = tasks();
    let s = scenario::moic_test_device_cap_main(&t);
    assert_eq!(s.len(), 18);
    assert_eq!(
        s[3],
        Step::Op(MoicOp::RegisterReceiver(TaskId::virt(0x19990109), TaskId::empty(), TaskId::empty(), TaskId::virt(2)))
    );
    assert_eq!(
        s[13],
        Step::Op(MoicOp::RegisterReceiver(TaskId::virt(0x1999), TaskId::empty(), TaskId::empty(), TaskId::virt(5)))
    );
    assert_eq!(s[15], Step::ReportMeta(t.process));
    assert_eq!(scenario::moic_test_device_cap_secondary(&t).len(), 16);
}

#[test]
fn capability_scripts() {
    let t = tasks();
    let r = scenario::moic_test_recv_cap_main(&t);
    let s = scenario::moic_test_send_cap_main(&t);
    assert_eq!(r.len(), 11);
    assert_eq!(r[1], Step::Op(MoicOp::RegisterReceiver(TaskId::virt(0x19990109), t.os, TaskId::empty(), TaskId::virt(0x2899))));
    assert_eq!(s[4], Step::Op(MoicOp::RegisterSender(TaskId::virt(0x1999), t.os, TaskId::empty(), TaskId::virt(0x8979))));
    let r = scenario::moic_test_recv_cap_secondary(&t);
    let s = scenario::moic_test_send_cap_secondary(&t);
    assert_eq!(r[3], Step::Op(MoicOp::RegisterReceiver(TaskId::virt(0x8976), t.os, TaskId::empty(), TaskId::virt(0x98545))));
    assert_eq!(s[3], Step::Op(MoicOp::RegisterSender(TaskId::virt(0x8976), t.os, TaskId::empty(), TaskId::virt(0x98545))));
    assert_eq!(s.len(), 6);
}
