//! The controller's on-board test programs, as scripts of driver steps.
//!
//! Each test runs on one hart and drives that hart's controller through a
//! fixed sequence of operations.  Some steps poll the fetch register until it
//! settles (see `Moic::fetch_settled`); whoever runs a script performs each
//! step in order on the hart's controller.
use vstd::prelude::*;
use crate::task::TaskId;

verus! {

/// A driver operation whose result the script does not look at.
#[derive(Debug, Clone, Copy, PartialEq, Eq, Structural)]
pub enum MoicOp {
    Add(TaskId),
    SwitchOs(Option<TaskId>),
    SwitchProcess(Option<TaskId>),
    RegisterSender(TaskId, TaskId, TaskId, TaskId),
    RegisterReceiver(TaskId, TaskId, TaskId, TaskId),
    SendIntr(TaskId, TaskId, TaskId),
}

/// One step of a test script.
#[derive(Debug, Clone, Copy, PartialEq, Eq, Structural)]
pub enum Step {
    /// Perform the operation.
    Op(MoicOp),
    /// Make a new control block of this priority and preemption flag and add its task.
    AddNewTask { priority: usize, is_preempt: bool },
    /// Fetch once; the test fails unless a task comes back.  The task is kept.
    FetchExpect,
    /// Fetch once; the test fails unless a task comes back; release the task.
    FetchAndRelease,
    /// Poll the fetch register until it settles, and report the answer.
    Poll,
    /// Poll and report as `Poll`; the test fails unless a task came back; release it.
    PollAndRelease,
    /// Poll and report as `Poll`; the test fails unless a task came back; switch
    /// into it as a process.
    PollAndEnterProcess,
    /// Report the control block that the identity names.
    ReportMeta(TaskId),
    /// Report the identity itself.
    ReportId(TaskId),
    /// Deliver software interrupts to user mode (previous privilege user,
    /// user software interrupts delegated and enabled).
    EnableUserSoftIntr,
    /// Enable supervisor software interrupts.
    EnableSupervisorSoftIntr,
}

/// The tasks shared by the test programs.
#[derive(Debug, Clone, Copy)]
pub struct TestTasks {
    /// The operating system's control block.
    pub os: TaskId,
    /// A process's control block.
    pub process: TaskId,
    /// A second process's control block.
    pub process2: TaskId,
    /// The task that sends interrupts.
    pub sender: TaskId,
    /// The task that receives them.
    pub receiver: TaskId,
}

/// The empty identity.
pub open spec fn none_id() -> TaskId {
    TaskId::spec_virt(0)
}

/// `n` copies of a step.
pub open spec fn repeat(s: Step, n: nat) -> Seq<Step> {
    Seq::new(n, |_i: int| s)
}

/// Device handler registrations for devices `0..n`, all handled by `handler`.
pub open spec fn device_handlers(handler: TaskId, n: nat) -> Seq<Step> {
    Seq::new(
        n,
        |i: int| Step::Op(MoicOp::RegisterReceiver(handler, none_id(), none_id(), TaskId::spec_virt(i as usize))),
    )
}

fn push_repeat(v: &mut Vec<Step>, s: Step, n: usize)
    ensures
        final(v)@ == old(v)@ + repeat(s, n as nat),
{
    let ghost start = v@;
    let mut i: usize = 0;
    while i < n
        invariant
            i <= n,
            v@ == start + repeat(s, i as nat),
        decreases n - i,
    {
        v.push(s);
        i = i + 1;
        assert(v@ == start + repeat(s, i as nat));
    }
}

fn push_device_handlers(v: &mut Vec<Step>, handler: TaskId, n: usize)
    ensures
        final(v)@ == old(v)@ + device_handlers(handler, n as nat),
{
    let ghost start = v@;
    let mut i: usize = 0;
    while i < n
        invariant
            i <= n,
            v@ == start + device_handlers(handler, i as nat),
        decreases n - i,
    {
        v.push(Step::Op(MoicOp::RegisterReceiver(handler, TaskId::empty(), TaskId::empty(), TaskId::virt(i))));
        i = i + 1;
        assert(v@ == start + device_handlers(handler, i as nat));
    }
}

/// The steps of `moic_test_rq_main`.
pub open spec fn moic_test_rq_main_script(t: TestTasks) -> Seq<Step> {
    seq![
        Step::Op(MoicOp::SwitchOs(Some(t.os))),
    ] + repeat(Step::AddNewTask { priority: 1, is_preempt: false }, 3)
        + seq![Step::Op(MoicOp::SwitchOs(None))]
        + repeat(Step::Poll, 9)
        + seq![
        Step::ReportMeta(t.os),
        Step::Op(MoicOp::SwitchOs(Some(t.os))),
        Step::ReportMeta(t.os),
    ] + repeat(Step::PollAndRelease, 7)
        + seq![Step::Op(MoicOp::SwitchProcess(Some(t.process)))]
        + repeat(Step::AddNewTask { priority: 1, is_preempt: false }, 3)
        + repeat(Step::PollAndRelease, 12)
        + seq![
        Step::Op(MoicOp::SwitchProcess(None)),
        Step::Op(MoicOp::SwitchOs(None)),
        Step::ReportMeta(t.os),
        Step::Op(MoicOp::SwitchOs(Some(t.os))),
    ] + repeat(Step::PollAndRelease, 2)
}

/// The steps of `moic_test_rq_secondary`.
pub open spec fn moic_test_rq_secondary_script(t: TestTasks) -> Seq<Step> {
    seq![Step::Op(MoicOp::SwitchOs(Some(t.os)))]
        + repeat(Step::AddNewTask { priority: 1, is_preempt: false }, 3)
        + seq![
        Step::FetchAndRelease,
        Step::Op(MoicOp::SwitchProcess(Some(t.process))),
    ] + repeat(Step::AddNewTask { priority: 1, is_preempt: false }, 3)
        + seq![
        Step::Op(MoicOp::SwitchProcess(None)),
        Step::Op(MoicOp::SwitchOs(None)),
    ]
}

/// The steps of `moic_test_device_cap_main`.
pub open spec fn moic_test_device_cap_main_script(t: TestTasks) -> Seq<Step> {
    seq![Step::Op(MoicOp::SwitchOs(Some(t.os)))]
        + device_handlers(TaskId::spec_virt(0x19990109), 6)
        + seq![Step::Op(MoicOp::SwitchProcess(Some(t.process)))]
        + device_handlers(TaskId::spec_virt(0x1999), 6)
        + seq![
        Step::Op(MoicOp::SwitchProcess(None)),
        Step::ReportMeta(t.process),
        Step::Op(MoicOp::SwitchOs(None)),
        Step::ReportMeta(t.os),
    ]
}

/// The steps of `moic_test_device_cap_secondary`.
pub open spec fn moic_test_device_cap_secondary_script(t: TestTasks) -> Seq<Step> {
    seq![Step::Op(MoicOp::SwitchOs(Some(t.os)))]
        + device_handlers(TaskId::spec_virt(0x19990109), 6)
        + seq![Step::Op(MoicOp::SwitchProcess(Some(t.process)))]
        + device_handlers(TaskId::spec_virt(0x1999), 6)
        + seq![Step::Op(MoicOp::SwitchProcess(None)), Step::Op(MoicOp::SwitchOs(None))]
}

/// The steps of `os_send_intr_os_main`.
pub open spec fn os_send_intr_os_main_script(t: TestTasks) -> Seq<Step> {
    seq![Step::Op(MoicOp::SwitchOs(Some(t.os)))] + sender_script(t, none_id())
}

/// The steps of `os_send_intr_os_secondary`.
pub open spec fn os_send_intr_os_secondary_script(t: TestTasks) -> Seq<Step> {
    seq![
        Step::Op(MoicOp::SwitchOs(Some(t.os))),
        Step::Op(MoicOp::RegisterReceiver(t.receiver, t.os, none_id(), t.sender)),
        Step::PollAndRelease,
    ]
}

/// The steps of `os_send_intr_process_main`.
pub open spec fn os_send_intr_process_main_script(t: TestTasks) -> Seq<Step> {
    seq![Step::Op(MoicOp::SwitchOs(Some(t.os)))] + sender_script(t, t.process)
}

/// The steps of `os_send_intr_process_secondary`.
pub open spec fn os_send_intr_process_secondary_script(t: TestTasks) -> Seq<Step> {
    seq![
        Step::EnableUserSoftIntr,
        Step::Op(MoicOp::SwitchOs(Some(t.os))),
        Step::Op(MoicOp::SwitchProcess(Some(t.process))),
        Step::Op(MoicOp::RegisterReceiver(t.receiver, t.os, none_id(), t.sender)),
        Step::ReportId(t.receiver),
        Step::PollAndRelease,
    ]
}

/// The steps of `process_send_intr_os_main`.
pub open spec fn process_send_intr_os_main_script(t: TestTasks) -> Seq<Step> {
    seq![
        Step::Op(MoicOp::SwitchOs(Some(t.os))),
        Step::Op(MoicOp::SwitchProcess(Some(t.process))),
    ] + sender_script(t, none_id())
}

/// The steps of `process_send_intr_os_secondary`.
pub open spec fn process_send_intr_os_secondary_script(t: TestTasks) -> Seq<Step> {
    seq![
        Step::EnableSupervisorSoftIntr,
        Step::Op(MoicOp::SwitchOs(Some(t.os))),
        Step::Op(MoicOp::RegisterReceiver(t.receiver, t.os, t.process, t.sender)),
        Step::ReportId(t.receiver),
        Step::PollAndRelease,
    ]
}

/// The steps of `process_send_intr_process_main`.
pub open spec fn process_send_intr_process_main_script(t: TestTasks) -> Seq<Step> {
    seq![
        Step::Op(MoicOp::SwitchOs(Some(t.os))),
        Step::Op(MoicOp::SwitchProcess(Some(t.process))),
    ] + sender_script(t, t.process2)
}

/// The steps of `process_send_intr_process_secondary`.
pub open spec fn process_send_intr_process_secondary_script(t: TestTasks) -> Seq<Step> {
    seq![
        Step::EnableUserSoftIntr,
        Step::Op(MoicOp::SwitchOs(Some(t.os))),
        Step::Op(MoicOp::SwitchProcess(Some(t.process2))),
        Step::Op(MoicOp::RegisterReceiver(t.receiver, t.os, t.process, t.sender)),
        Step::ReportId(t.receiver),
        Step::PollAndRelease,
    ]
}

/// The steps of `process_send_intr_process_not_online_main`.
pub open spec fn process_send_intr_process_not_online_main_script(t: TestTasks) -> Seq<Step> {
    seq![
        Step::Op(MoicOp::SwitchOs(Some(t.os))),
        Step::Op(MoicOp::SwitchProcess(Some(t.process))),
    ] + sender_script(t, t.process2)
}

/// The steps of `process_send_intr_process_not_online_secondary`.
pub open spec fn process_send_intr_process_not_online_secondary_script(t: TestTasks) -> Seq<Step> {
    seq![
        Step::EnableUserSoftIntr,
        Step::Op(MoicOp::SwitchOs(Some(t.os))),
        Step::Op(MoicOp::RegisterReceiver(t.process2, t.os, t.process, t.sender)),
        Step::Op(MoicOp::SwitchProcess(Some(t.process2))),
        Step::Op(MoicOp::RegisterReceiver(t.receiver, t.os, t.process, t.sender)),
        Step::Op(MoicOp::SwitchProcess(None)),
        Step::PollAndEnterProcess,
        Step::ReportId(t.receiver),
        Step::PollAndRelease,
    ]
}

/// Ready-queue test, boot hart: tasks added in the operating system survive
/// the hart leaving it (polling outside finds none), are fetched after
/// re-entering, and the same holds for a process.
pub fn moic_test_rq_main(t: &TestTasks) -> (s: Vec<Step>)
    ensures
        s@ == moic_test_rq_main_script(*t),
{
    let new_task = Step::AddNewTask { priority: 1, is_preempt: false };
    let mut s: Vec<Step> = Vec::new();
    s.push(Step::Op(MoicOp::SwitchOs(Some(t.os))));
    push_repeat(&mut s, new_task, 3);
    s.push(Step::Op(MoicOp::SwitchOs(None)));
    push_repeat(&mut s, Step::Poll, 9);
    s.push(Step::ReportMeta(t.os));
    s.push(Step::Op(MoicOp::SwitchOs(Some(t.os))));
    s.push(Step::ReportMeta(t.os));
    push_repeat(&mut s, Step::PollAndRelease, 7);
    s.push(Step::Op(MoicOp::SwitchProcess(Some(t.process))));
    push_repeat(&mut s, new_task, 3);
    push_repeat(&mut s, Step::PollAndRelease, 12);
    s.push(Step::Op(MoicOp::SwitchProcess(None)));
    s.push(Step::Op(MoicOp::SwitchOs(None)));
    s.push(Step::ReportMeta(t.os));
    s.push(Step::Op(MoicOp::SwitchOs(Some(t.os))));
    push_repeat(&mut s, Step::PollAndRelease, 2);
    s
}

/// Ready-queue test, other harts: add tasks in the operating system, take one,
/// add tasks in a process, and leave both.
pub fn moic_test_rq_secondary(t: &TestTasks) -> (s: Vec<Step>)
    ensures
        s@ == moic_test_rq_secondary_script(*t),
{
    let new_task = Step::AddNewTask { priority: 1, is_preempt: false };
    let mut s: Vec<Step> = Vec::new();
    s.push(Step::Op(MoicOp::SwitchOs(Some(t.os))));
    push_repeat(&mut s, new_task, 3);
    s.push(Step::FetchAndRelease);
    s.push(Step::Op(MoicOp::SwitchProcess(Some(t.process))));
    push_repeat(&mut s, new_task, 3);
    s.push(Step::Op(MoicOp::SwitchProcess(None)));
    s.push(Step::Op(MoicOp::SwitchOs(None)));
    s
}

/// The script of the device-handler test; the boot hart also reports the
/// tables once it has left each context.
fn device_cap_script(t: &TestTasks, report: bool) -> (s: Vec<Step>)
    ensures
        s@ == seq![Step::Op(MoicOp::SwitchOs(Some(t.os)))]
            + device_handlers(TaskId::spec_virt(0x19990109), 6)
            + seq![Step::Op(MoicOp::SwitchProcess(Some(t.process)))]
            + device_handlers(TaskId::spec_virt(0x1999), 6)
            + (if report {
            seq![
                Step::Op(MoicOp::SwitchProcess(None)),
                Step::ReportMeta(t.process),
                Step::Op(MoicOp::SwitchOs(None)),
                Step::ReportMeta(t.os),
            ]
        } else {
            seq![Step::Op(MoicOp::SwitchProcess(None)), Step::Op(MoicOp::SwitchOs(None))]
        }),
{
    let mut s: Vec<Step> = Vec::new();
    s.push(Step::Op(MoicOp::SwitchOs(Some(t.os))));
    push_device_handlers(&mut s, TaskId::virt(0x19990109), 6);
    s.push(Step::Op(MoicOp::SwitchProcess(Some(t.process))));
    push_device_handlers(&mut s, TaskId::virt(0x1999), 6);
    s.push(Step::Op(MoicOp::SwitchProcess(None)));
    if report {
        s.push(Step::ReportMeta(t.process));
    }
    s.push(Step::Op(MoicOp::SwitchOs(None)));
    if report {
        s.push(Step::ReportMeta(t.os));
    }
    s
}

/// Device-handler test, boot hart: handlers registered in the operating system
/// and in a process are saved to their tables when the contexts are left.
pub fn moic_test_device_cap_main(t: &TestTasks) -> (s: Vec<Step>)
    ensures
        s@ == moic_test_device_cap_main_script(*t),
{
    device_cap_script(t, true)
}

/// Device-handler test, other harts.
pub fn moic_test_device_cap_secondary(t: &TestTasks) -> (s: Vec<Step>)
    ensures
        s@ == moic_test_device_cap_secondary_script(*t),
{
    device_cap_script(t, false)
}

/// The registration a capability test makes: a receive capability, or a send
/// capability when `send`.
pub open spec fn cap_op(send: bool, a: TaskId, b: TaskId, c: TaskId, d: TaskId) -> MoicOp {
    if send {
        MoicOp::RegisterSender(a, b, c, d)
    } else {
        MoicOp::RegisterReceiver(a, b, c, d)
    }
}

fn make_cap_op(send: bool, a: TaskId, b: TaskId, c: TaskId, d: TaskId) -> (op: MoicOp)
    ensures
        op == cap_op(send, a, b, c, d),
{
    if send {
        MoicOp::RegisterSender(a, b, c, d)
    } else {
        MoicOp::RegisterReceiver(a, b, c, d)
    }
}

/// The boot hart's script of the capability tests.
pub open spec fn cap_main_script(t: TestTasks, send: bool) -> Seq<Step> {
    seq![
        Step::Op(MoicOp::SwitchOs(Some(t.os))),
        Step::Op(cap_op(send, TaskId::spec_virt(0x19990109), t.os, none_id(), TaskId::spec_virt(0x2899))),
        Step::Op(MoicOp::SwitchProcess(Some(t.process))),
        Step::ReportMeta(t.os),
        Step::Op(cap_op(send, TaskId::spec_virt(0x1999), t.os, none_id(), TaskId::spec_virt(0x8979))),
        Step::Op(MoicOp::SwitchProcess(None)),
        Step::ReportMeta(t.process),
        Step::ReportMeta(t.os),
        Step::Op(MoicOp::SwitchOs(None)),
        Step::ReportMeta(t.process),
        Step::ReportMeta(t.os),
    ]
}

/// The other harts' script of the capability tests.
pub open spec fn cap_secondary_script(t: TestTasks, send: bool) -> Seq<Step> {
    seq![
        Step::Op(MoicOp::SwitchOs(Some(t.os))),
        Step::Op(cap_op(send, TaskId::spec_virt(0x19990109), t.os, none_id(), TaskId::spec_virt(0x2899))),
        Step::Op(MoicOp::SwitchProcess(Some(t.process))),
        Step::Op(cap_op(send, TaskId::spec_virt(0x8976), t.os, none_id(), TaskId::spec_virt(0x98545))),
        Step::Op(MoicOp::SwitchProcess(None)),
        Step::Op(MoicOp::SwitchOs(None)),
    ]
}

fn cap_main(t: &TestTasks, send: bool) -> (s: Vec<Step>)
    ensures
        s@ == cap_main_script(*t, send),
{
    let mut s: Vec<Step> = Vec::new();
    s.push(Step::Op(MoicOp::SwitchOs(Some(t.os))));
    s.push(Step::Op(make_cap_op(send, TaskId::virt(0x19990109), t.os, TaskId::empty(), TaskId::virt(0x2899))));
    s.push(Step::Op(MoicOp::SwitchProcess(Some(t.process))));
    s.push(Step::ReportMeta(t.os));
    s.push(Step::Op(make_cap_op(send, TaskId::virt(0x1999), t.os, TaskId::empty(), TaskId::virt(0x8979))));
    s.push(Step::Op(MoicOp::SwitchProcess(None)));
    s.push(Step::ReportMeta(t.process));
    s.push(Step::ReportMeta(t.os));
    s.push(Step::Op(MoicOp::SwitchOs(None)));
    s.push(Step::ReportMeta(t.process));
    s.push(Step::ReportMeta(t.os));
    s
}

fn cap_secondary(t: &TestTasks, send: bool) -> (s: Vec<Step>)
    ensures
        s@ == cap_secondary_script(*t, send),
{
    let mut s: Vec<Step> = Vec::new();
    s.push(Step::Op(MoicOp::SwitchOs(Some(t.os))));
    s.push(Step::Op(make_cap_op(send, TaskId::virt(0x19990109), t.os, TaskId::empty(), TaskId::virt(0x2899))));
    s.push(Step::Op(MoicOp::SwitchProcess(Some(t.process))));
    s.push(Step::Op(make_cap_op(send, TaskId::virt(0x8976), t.os, TaskId::empty(), TaskId::virt(0x98545))));
    s.push(Step::Op(MoicOp::SwitchProcess(None)));
    s.push(Step::Op(MoicOp::SwitchOs(None)));
    s
}

/// IPC receive-capability test, boot hart: receive capabilities registered in
/// the operating system and in a process are saved when the contexts are left.
pub fn moic_test_recv_cap_main(t: &TestTasks) -> (s: Vec<Step>)
    ensures
        s@ == cap_main_script(*t, false),
{
    cap_main(t, false)
}

/// IPC receive-capability test, other harts.
pub fn moic_test_recv_cap_secondary(t: &TestTasks) -> (s: Vec<Step>)
    ensures
        s@ == cap_secondary_script(*t, false),
{
    cap_secondary(t, false)
}

/// IPC send-capability test, boot hart.
pub fn moic_test_send_cap_main(t: &TestTasks) -> (s: Vec<Step>)
    ensures
        s@ == cap_main_script(*t, true),
{
    cap_main(t, true)
}

/// IPC send-capability test, other harts.
pub fn moic_test_send_cap_secondary(t: &TestTasks) -> (s: Vec<Step>)
    ensures
        s@ == cap_secondary_script(*t, true),
{
    cap_secondary(t, true)
}

/// The sending side of the interrupt tests: register `sender` to interrupt
/// `receiver` in (`os`, `proc`), run `sender`, and send the interrupt.
pub open spec fn sender_script(t: TestTasks, proc: TaskId) -> Seq<Step> {
    seq![
        Step::Op(MoicOp::RegisterSender(t.sender, t.os, proc, t.receiver)),
        Step::Op(MoicOp::Add(t.sender)),
        Step::FetchExpect,
        Step::Op(MoicOp::SendIntr(t.os, proc, t.receiver)),
    ]
}

fn push_sender(s: &mut Vec<Step>, t: &TestTasks, proc: TaskId)
    ensures
        final(s)@ == old(s)@ + sender_script(*t, proc),
{
    s.push(Step::Op(MoicOp::RegisterSender(t.sender, t.os, proc, t.receiver)));
    s.push(Step::Op(MoicOp::Add(t.sender)));
    s.push(Step::FetchExpect);
    s.push(Step::Op(MoicOp::SendIntr(t.os, proc, t.receiver)));
}

/// Operating system to operating system, sending hart.
pub fn os_send_intr_os_main(t: &TestTasks) -> (s: Vec<Step>)
    ensures
        s@ == os_send_intr_os_main_script(*t),
{
    let mut s: Vec<Step> = Vec::new();
    s.push(Step::Op(MoicOp::SwitchOs(Some(t.os))));
    push_sender(&mut s, t, TaskId::empty());
    s
}

/// Operating system to operating system, receiving hart.
pub fn os_send_intr_os_secondary(t: &TestTasks) -> (s: Vec<Step>)
    ensures
        s@ == os_send_intr_os_secondary_script(*t),
{
    let mut s: Vec<Step> = Vec::new();
    s.push(Step::Op(MoicOp::SwitchOs(Some(t.os))));
    s.push(Step::Op(MoicOp::RegisterReceiver(t.receiver, t.os, TaskId::empty(), t.sender)));
    s.push(Step::PollAndRelease);
    s
}

/// Operating system to process, sending hart (runs the operating system).
pub fn os_send_intr_process_main(t: &TestTasks) -> (s: Vec<Step>)
    ensures
        s@ == os_send_intr_process_main_script(*t),
{
    let mut s: Vec<Step> = Vec::new();
    s.push(Step::Op(MoicOp::SwitchOs(Some(t.os))));
    push_sender(&mut s, t, t.process);
    s
}

/// Operating system to process, receiving hart (runs the process).
pub fn os_send_intr_process_secondary(t: &TestTasks) -> (s: Vec<Step>)
    ensures
        s@ == os_send_intr_process_secondary_script(*t),
{
    let mut s: Vec<Step> = Vec::new();
    s.push(Step::EnableUserSoftIntr);
    s.push(Step::Op(MoicOp::SwitchOs(Some(t.os))));
    s.push(Step::Op(MoicOp::SwitchProcess(Some(t.process))));
    s.push(Step::Op(MoicOp::RegisterReceiver(t.receiver, t.os, TaskId::empty(), t.sender)));
    s.push(Step::ReportId(t.receiver));
    s.push(Step::PollAndRelease);
    s
}

/// Process to operating system, sending hart (runs the process).
pub fn process_send_intr_os_main(t: &TestTasks) -> (s: Vec<Step>)
    ensures
        s@ == process_send_intr_os_main_script(*t),
{
    let mut s: Vec<Step> = Vec::new();
    s.push(Step::Op(MoicOp::SwitchOs(Some(t.os))));
    s.push(Step::Op(MoicOp::SwitchProcess(Some(t.process))));
    push_sender(&mut s, t, TaskId::empty());
    s
}

/// Process to operating system, receiving hart (runs the operating system).
pub fn process_send_intr_os_secondary(t: &TestTasks) -> (s: Vec<Step>)
    ensures
        s@ == process_send_intr_os_secondary_script(*t),
{
    let mut s: Vec<Step> = Vec::new();
    s.push(Step::EnableSupervisorSoftIntr);
    s.push(Step::Op(MoicOp::SwitchOs(Some(t.os))));
    s.push(Step::Op(MoicOp::RegisterReceiver(t.receiver, t.os, t.process, t.sender)));
    s.push(Step::ReportId(t.receiver));
    s.push(Step::PollAndRelease);
    s
}

/// Process to process, sending hart.
pub fn process_send_intr_process_main(t: &TestTasks) -> (s: Vec<Step>)
    ensures
        s@ == process_send_intr_process_main_script(*t),
{
    let mut s: Vec<Step> = Vec::new();
    s.push(Step::Op(MoicOp::SwitchOs(Some(t.os))));
    s.push(Step::Op(MoicOp::SwitchProcess(Some(t.process))));
    push_sender(&mut s, t, t.process2);
    s
}

/// Process to process, receiving hart (runs the second process).
pub fn process_send_intr_process_secondary(t: &TestTasks) -> (s: Vec<Step>)
    ensures
        s@ == process_send_intr_process_secondary_script(*t),
{
    let mut s: Vec<Step> = Vec::new();
    s.push(Step::EnableUserSoftIntr);
    s.push(Step::Op(MoicOp::SwitchOs(Some(t.os))));
    s.push(Step::Op(MoicOp::SwitchProcess(Some(t.process2))));
    s.push(Step::Op(MoicOp::RegisterReceiver(t.receiver, t.os, t.process, t.sender)));
    s.push(Step::ReportId(t.receiver));
    s.push(Step::PollAndRelease);
    s
}

/// Process to a process that is not running, sending hart.
pub fn process_send_intr_process_not_online_main(t: &TestTasks) -> (s: Vec<Step>)
    ensures
        s@ == process_send_intr_process_not_online_main_script(*t),
{
    let mut s: Vec<Step> = Vec::new();
    s.push(Step::Op(MoicOp::SwitchOs(Some(t.os))));
    s.push(Step::Op(MoicOp::SwitchProcess(Some(t.process))));
    push_sender(&mut s, t, t.process2);
    s
}

/// Process to a process that is not running, receiving hart: the operating
/// system is woken with the receiving process, switches into it, and then
/// fetches the woken task.
pub fn process_send_intr_process_not_online_secondary(t: &TestTasks) -> (s: Vec<Step>)
    ensures
        s@ == process_send_intr_process_not_online_secondary_script(*t),
{
    let mut s: Vec<Step> = Vec::new();
    s.push(Step::EnableUserSoftIntr);
    s.push(Step::Op(MoicOp::SwitchOs(Some(t.os))));
    s.push(Step::Op(MoicOp::RegisterReceiver(t.process2, t.os, t.process, t.sender)));
    s.push(Step::Op(MoicOp::SwitchProcess(Some(t.process2))));
    s.push(Step::Op(MoicOp::RegisterReceiver(t.receiver, t.os, t.process, t.sender)));
    s.push(Step::Op(MoicOp::SwitchProcess(None)));
    s.push(Step::PollAndEnterProcess);
    s.push(Step::ReportId(t.receiver));
    s.push(Step::PollAndRelease);
    s
}

/// The two sides of an interrupt test agree: the sender is registered to
/// interrupt the receiving task in the operating system `os` and the process
/// `receiver_proc` that the receiving hart runs, the very task that is then
/// added is the registered sender, the interrupt goes to that same target,
/// and the receiving side accepts it from the sender in `os` and the process
/// `sender_proc` that the sending hart runs.
pub open spec fn pair_agrees(
    sender_reg: Step,
    add: Step,
    send: Step,
    receiver_reg: Step,
    os: TaskId,
    sender_proc: TaskId,
    receiver_proc: TaskId,
) -> bool {
    &&& sender_reg matches Step::Op(MoicOp::RegisterSender(s, o, p, r))
    &&& o == os
    &&& p == receiver_proc
    &&& add == Step::Op(MoicOp::Add(s))
    &&& send == Step::Op(MoicOp::SendIntr(o, p, r))
    &&& receiver_reg == Step::Op(MoicOp::RegisterReceiver(r, o, sender_proc, s))
}

/// Operating system to operating system: both harts run the operating system
/// and no process, and the two sides agree on sender and receiver.
pub proof fn lemma_os_to_os_pair_agrees(t: TestTasks)
    ensures
        ({
            let m = os_send_intr_os_main_script(t);
            let r = os_send_intr_os_secondary_script(t);
            &&& m[0] == Step::Op(MoicOp::SwitchOs(Some(t.os)))
            &&& r[0] == m[0]
            &&& pair_agrees(m[1], m[2], m[4], r[1], t.os, none_id(), none_id())
            &&& m[3] == Step::FetchExpect
            &&& r[r.len() - 1] == Step::PollAndRelease
        }),
{
}

/// Operating system to process: the receiving hart enters `t.process`, and
/// the interrupt is aimed at that process.
pub proof fn lemma_os_to_process_pair_agrees(t: TestTasks)
    ensures
        ({
            let m = os_send_intr_process_main_script(t);
            let r = os_send_intr_process_secondary_script(t);
            &&& m[0] == Step::Op(MoicOp::SwitchOs(Some(t.os)))
            &&& r[1] == m[0]
            &&& r[2] == Step::Op(MoicOp::SwitchProcess(Some(t.process)))
            &&& pair_agrees(m[1], m[2], m[4], r[3], t.os, none_id(), t.process)
            &&& r[r.len() - 1] == Step::PollAndRelease
        }),
{
}

/// Process to operating system: the sending hart runs `t.process`, and the
/// receiving side accepts the interrupt from that process.
pub proof fn lemma_process_to_os_pair_agrees(t: TestTasks)
    ensures
        ({
            let m = process_send_intr_os_main_script(t);
            let r = process_send_intr_os_secondary_script(t);
            &&& m[0] == Step::Op(MoicOp::SwitchOs(Some(t.os)))
            &&& r[1] == m[0]
            &&& m[1] == Step::Op(MoicOp::SwitchProcess(Some(t.process)))
            &&& pair_agrees(m[2], m[3], m[5], r[2], t.os, t.process, none_id())
            &&& r[r.len() - 1] == Step::PollAndRelease
        }),
{
}

/// Process to process: the sending hart runs `t.process`, the receiving hart
/// `t.process2`, and each side names the other's process.
pub proof fn lemma_process_to_process_pair_agrees(t: TestTasks)
    ensures
        ({
            let m = process_send_intr_process_main_script(t);
            let r = process_send_intr_process_secondary_script(t);
            &&& r[1] == m[0]
            &&& m[1] == Step::Op(MoicOp::SwitchProcess(Some(t.process)))
            &&& r[2] == Step::Op(MoicOp::SwitchProcess(Some(t.process2)))
            &&& t.process != t.process2 ==> m[1] != r[2]
            &&& pair_agrees(m[2], m[3], m[5], r[3], t.os, t.process, t.process2)
            &&& r[r.len() - 1] == Step::PollAndRelease
        }),
{
}

/// Process to a process that is not running: the sending side is that of the
/// process-to-process test; the receiving hart registers the receiving
/// process itself in the operating system, enters it to register the
/// receiving task, leaves it, and after being woken switches into the
/// process the poll hands out before fetching the woken task.
pub proof fn lemma_not_online_pair_agrees(t: TestTasks)
    ensures
        ({
            let m = process_send_intr_process_not_online_main_script(t);
            let r = process_send_intr_process_not_online_secondary_script(t);
            &&& m == process_send_intr_process_main_script(t)
            &&& r[1] == m[0]
            &&& r[2] == Step::Op(MoicOp::RegisterReceiver(t.process2, t.os, t.process, t.sender))
            &&& r[3] == Step::Op(MoicOp::SwitchProcess(Some(t.process2)))
            &&& pair_agrees(m[2], m[3], m[5], r[4], t.os, t.process, t.process2)
            &&& r[5] == Step::Op(MoicOp::SwitchProcess(None))
            &&& r[6] == Step::PollAndEnterProcess
            &&& r[r.len() - 1] == Step::PollAndRelease
        }),
{
}

/// The capability tests: the boot hart and the other harts enter and leave
/// the same operating system and the same process in the same order, make
/// the same first registration (of the kind under test, naming `t.os` as the
/// other end's operating system), and the boot hart reports the process it
/// entered and the operating system once each is left.
pub proof fn lemma_cap_scripts_agree(t: TestTasks, send: bool)
    ensures
        ({
            let m = cap_main_script(t, send);
            let c = cap_secondary_script(t, send);
            &&& m.len() == 11 && c.len() == 6
            &&& m[0] == c[0] && m[0] == Step::Op(MoicOp::SwitchOs(Some(t.os)))
            &&& m[1] == c[1]
            &&& m[2] == c[2] && m[2] == Step::Op(MoicOp::SwitchProcess(Some(t.process)))
            &&& m[5] == c[4] && m[5] == Step::Op(MoicOp::SwitchProcess(None))
            &&& m[8] == c[5] && m[8] == Step::Op(MoicOp::SwitchOs(None))
            &&& m[6] == Step::ReportMeta(t.process)
            &&& m[7] == Step::ReportMeta(t.os)
            &&& m[9] == Step::ReportMeta(t.process)
            &&& m[10] == Step::ReportMeta(t.os)
            &&& (m[1] matches Step::Op(MoicOp::RegisterSender(_, o, _, _)) <==> send) && (m[1]
                matches Step::Op(MoicOp::RegisterSender(_, o, _, _)) ==> o == t.os)
            &&& (m[1] matches Step::Op(MoicOp::RegisterReceiver(_, o, _, _)) <==> !send) && (m[1]
                matches Step::Op(MoicOp::RegisterReceiver(_, o, _, _)) ==> o == t.os)
            &&& (m[4] matches Step::Op(MoicOp::RegisterSender(_, o, _, _)) ==> o == t.os)
            &&& (m[4] matches Step::Op(MoicOp::RegisterReceiver(_, o, _, _)) ==> o == t.os)
            &&& (c[3] matches Step::Op(MoicOp::RegisterSender(_, o, _, _)) ==> o == t.os)
            &&& (c[3] matches Step::Op(MoicOp::RegisterReceiver(_, o, _, _)) ==> o == t.os)
        }),
{
}

/// The ready-queue tests: the boot hart and the other harts enter and leave
/// the same operating system and process in the same order; tasks are added
/// only while inside; the boot hart polls only after leaving the operating
/// system, and takes and releases tasks only after re-entering it.
pub proof fn lemma_rq_scripts_agree(t: TestTasks)
    ensures
        ({
            let m = moic_test_rq_main_script(t);
            let c = moic_test_rq_secondary_script(t);
            let add = Step::AddNewTask { priority: 1, is_preempt: false };
            &&& m.len() == 46 && c.len() == 11
            &&& m[0] == c[0] && m[0] == Step::Op(MoicOp::SwitchOs(Some(t.os)))
            &&& m[24] == c[5] && m[24] == Step::Op(MoicOp::SwitchProcess(Some(t.process)))
            &&& m[40] == c[9] && m[40] == Step::Op(MoicOp::SwitchProcess(None))
            &&& m[41] == c[10] && m[41] == Step::Op(MoicOp::SwitchOs(None))
            &&& forall|i: int| 1 <= i < 4 ==> m[i] == add && c[i] == add
            &&& forall|i: int| 25 <= i < 28 ==> m[i] == add
            &&& forall|i: int| 6 <= i < 9 ==> c[i] == add
            &&& m[4] == Step::Op(MoicOp::SwitchOs(None))
            &&& forall|i: int| 5 <= i < 14 ==> m[i] == Step::Poll
            &&& m[15] == m[0]
            &&& forall|i: int| 17 <= i < 24 ==> m[i] == Step::PollAndRelease
            &&& forall|i: int| 28 <= i < 40 ==> m[i] == Step::PollAndRelease
            &&& m[43] == m[0]
            &&& forall|i: int| 44 <= i < 46 ==> m[i] == Step::PollAndRelease
        }),
{
}

/// The device-handler tests: the boot hart's script is the other harts'
/// with the reports added; in both contexts a handler is registered for each
/// of the devices 0 to 5, once each, with no operating system or process as
/// source, and the boot hart reports the process it entered.
pub proof fn lemma_device_cap_scripts_agree(t: TestTasks)
    ensures
        ({
            let m = moic_test_device_cap_main_script(t);
            let c = moic_test_device_cap_secondary_script(t);
            &&& m.len() == 18 && c.len() == 16
            &&& m.subrange(0, 15) == c.subrange(0, 15)
            &&& m[16] == c[15]
            &&& m[0] == Step::Op(MoicOp::SwitchOs(Some(t.os)))
            &&& m[7] == Step::Op(MoicOp::SwitchProcess(Some(t.process)))
            &&& m[15] == Step::ReportMeta(t.process)
            &&& m[17] == Step::ReportMeta(t.os)
            &&& forall|i: int| 0 <= i < 6 ==> (#[trigger] m[1 + i] matches Step::Op(
                MoicOp::RegisterReceiver(_, o, p, d),
            ) && o == none_id() && p == none_id() && d == TaskId::spec_virt(i as usize))
            &&& forall|i: int| 0 <= i < 6 ==> (#[trigger] m[8 + i] matches Step::Op(
                MoicOp::RegisterReceiver(_, o, p, d),
            ) && o == none_id() && p == none_id() && d == TaskId::spec_virt(i as usize))
        }),
{
    let m = moic_test_device_cap_main_script(t);
    let c = moic_test_device_cap_secondary_script(t);
    assert(m.subrange(0, 15) =~= c.subrange(0, 15));
}

} // verus!
