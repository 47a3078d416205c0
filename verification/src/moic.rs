//! The driver's operations, each as the register writes it makes.
use vstd::prelude::*;
use crate::error::MoicErr;
use crate::regs::{Register, RegWrite};
use crate::task::{TaskId, TASK_META_ALIGN};

verus! {

/// The write of a task identity to a register.
pub open spec fn id_write(reg: Register, id: TaskId) -> RegWrite {
    RegWrite { reg, bits: id.raw() as u64 }
}

/// The raw value written for an optional identity: the identity, or 0 for none.
pub open spec fn opt_bits(id: Option<TaskId>) -> u64 {
    match id {
        Some(t) => t.raw() as u64,
        None => 0,
    }
}

/// How a value read from the fetch register is to be understood: read as a
/// signed 64-bit number, a positive value is a task, zero means the queue is
/// empty and a negative value an error.
pub open spec fn fetch_result(fetched: u64) -> Result<TaskId, MoicErr> {
    if fetched == 0 {
        Err(MoicErr::NoTask)
    } else if fetched <= 0x7fff_ffff_ffff_ffff {
        Ok(TaskId::spec_virt(fetched as usize))
    } else {
        Err(MoicErr::FetchErr)
    }
}

/// What a context switch asks of the driver: whether the control block of the
/// context being left must be prepared first (see
/// `task::prepare_switch_out`), and the register write that performs the switch.
#[derive(Debug, Clone, Copy, PartialEq, Eq, Structural)]
pub struct SwitchPlan {
    pub saves_current: bool,
    pub write: RegWrite,
}

/// A controller: the base address of its per-hart register block.
#[derive(Debug, Clone, Copy)]
pub struct Moic(usize);

impl Moic {
    /// The base address of the register block.
    pub closed spec fn base(self) -> usize {
        self.0
    }

    /// The controller whose register block starts at `base_addr`.
    pub fn new(base_addr: usize) -> (r: Moic)
        ensures
            r.base() == base_addr,
    {
        Moic(base_addr)
    }

    /// The base address of the register block.
    pub fn base_addr(&self) -> (r: usize)
        ensures
            r == self.base(),
    {
        self.0
    }

    /// The address of a register of this controller: the base address plus
    /// the register's offset in the block.
    pub fn reg_addr(&self, reg: Register) -> (a: usize)
        requires
            self.base() + crate::regs::REGISTER_BLOCK_LAST <= usize::MAX,
        ensures
            a == self.base() + 8 * reg.index(),
    {
        self.0 + reg.offset()
    }

    /// Adding a task writes its identity to the `add` register.
    pub fn add(&self, task_id: TaskId) -> (w: RegWrite)
        ensures
            w == id_write(Register::Add, task_id),
            w.reg == Register::Add,
            w.bits == task_id.raw() as u64,
    {
        RegWrite { reg: Register::Add, bits: task_id.value() as u64 }
    }

    /// Interprets the value read from the fetch register.
    pub fn fetch(&self, fetched: u64) -> (r: Result<TaskId, MoicErr>)
        ensures
            r == fetch_result(fetched),
            r is Ok <==> 0 < fetched <= 0x7fff_ffff_ffff_ffff,
            r == Err::<TaskId, MoicErr>(MoicErr::NoTask) <==> fetched == 0,
            r == Err::<TaskId, MoicErr>(MoicErr::FetchErr) <==> fetched > 0x7fff_ffff_ffff_ffff,
    {
        if fetched == 0 {
            Err(MoicErr::NoTask)
        } else if fetched <= 0x7fff_ffff_ffff_ffff {
            Ok(TaskId::virt(fetched as usize))
        } else {
            Err(MoicErr::FetchErr)
        }
    }

    /// Switching the hypervisor writes its identity to `switch_hypervisor`.
    pub fn switch_hypervisor(&self, hypervisor_id: TaskId) -> (w: RegWrite)
        ensures
            w == id_write(Register::SwitchHypervisor, hypervisor_id),
            w.reg == Register::SwitchHypervisor,
            w.bits == hypervisor_id.raw() as u64,
    {
        RegWrite { reg: Register::SwitchHypervisor, bits: hypervisor_id.value() as u64 }
    }

    /// Switching into an operating system writes its identity to `switch_os`;
    /// leaving the operating system (`None`) writes 0, after the control block
    /// of the current context has been prepared.
    pub fn switch_os(&self, os_id: Option<TaskId>) -> (p: SwitchPlan)
        ensures
            p.saves_current == os_id is None,
            p.write == (RegWrite { reg: Register::SwitchOs, bits: opt_bits(os_id) }),
            p.write.reg == Register::SwitchOs,
            forall|t: TaskId| os_id == Some(t) ==> p.write.bits == t.raw() as u64,
            os_id is None ==> p.write.bits == 0,
    {
        match os_id {
            None => SwitchPlan {
                saves_current: true,
                write: RegWrite { reg: Register::SwitchOs, bits: 0 },
            },
            Some(id) => SwitchPlan {
                saves_current: false,
                write: RegWrite { reg: Register::SwitchOs, bits: id.value() as u64 },
            },
        }
    }

    /// Switching between an operating system and a process (`os -> process`
    /// with `Some`, `process -> os` with `None`) always prepares the control
    /// block of the current context first, then writes the process identity,
    /// or 0, to `switch_process`.
    pub fn switch_process(&self, process_id: Option<TaskId>) -> (p: SwitchPlan)
        ensures
            p.saves_current,
            p.write == (RegWrite { reg: Register::SwitchProcess, bits: opt_bits(process_id) }),
            p.write.reg == Register::SwitchProcess,
            forall|t: TaskId| process_id == Some(t) ==> p.write.bits == t.raw() as u64,
            process_id is None ==> p.write.bits == 0,
    {
        let bits: u64 = match process_id {
            Some(tid) => tid.value() as u64,
            None => 0,
        };
        SwitchPlan { saves_current: true, write: RegWrite { reg: Register::SwitchProcess, bits } }
    }

    /// Registering an IPC send capability writes, in this order, the sending
    /// task and the receiving operating system, process and task.
    pub fn register_sender(
        &self,
        send_task_id: TaskId,
        recv_os_id: TaskId,
        recv_proc_id: TaskId,
        recv_task_id: TaskId,
    ) -> (w: Vec<RegWrite>)
        ensures
            w@ == seq![
                id_write(Register::RegisterSendTask, send_task_id),
                id_write(Register::RegisterSendTargetOs, recv_os_id),
                id_write(Register::RegisterSendTargetProc, recv_proc_id),
                id_write(Register::RegisterSendTargetTask, recv_task_id),
            ],
            w@.len() == 4,
            w@[0].reg == Register::RegisterSendTask && w@[0].bits == send_task_id.raw() as u64,
            w@[1].reg == Register::RegisterSendTargetOs && w@[1].bits == recv_os_id.raw() as u64,
            w@[2].reg == Register::RegisterSendTargetProc && w@[2].bits == recv_proc_id.raw() as u64,
            w@[3].reg == Register::RegisterSendTargetTask && w@[3].bits == recv_task_id.raw() as u64,
    {
        let mut w: Vec<RegWrite> = Vec::new();
        w.push(RegWrite { reg: Register::RegisterSendTask, bits: send_task_id.value() as u64 });
        w.push(RegWrite { reg: Register::RegisterSendTargetOs, bits: recv_os_id.value() as u64 });
        w.push(RegWrite { reg: Register::RegisterSendTargetProc, bits: recv_proc_id.value() as u64 });
        w.push(RegWrite { reg: Register::RegisterSendTargetTask, bits: recv_task_id.value() as u64 });
        w
    }

    /// Registering an IPC receive capability (or, with empty operating system
    /// and process, a device interrupt handler) writes, in this order, the
    /// receiving task and the sending operating system, process and task.
    pub fn register_receiver(
        &self,
        recv_task_id: TaskId,
        send_os_id: TaskId,
        send_proc_id: TaskId,
        send_task_id: TaskId,
    ) -> (w: Vec<RegWrite>)
        ensures
            w@ == seq![
                id_write(Register::RegisterRecvTask, recv_task_id),
                id_write(Register::RegisterRecvTargetOs, send_os_id),
                id_write(Register::RegisterRecvTargetProc, send_proc_id),
                id_write(Register::RegisterRecvTargetTask, send_task_id),
            ],
            w@.len() == 4,
            w@[0].reg == Register::RegisterRecvTask && w@[0].bits == recv_task_id.raw() as u64,
            w@[1].reg == Register::RegisterRecvTargetOs && w@[1].bits == send_os_id.raw() as u64,
            w@[2].reg == Register::RegisterRecvTargetProc && w@[2].bits == send_proc_id.raw() as u64,
            w@[3].reg == Register::RegisterRecvTargetTask && w@[3].bits == send_task_id.raw() as u64,
    {
        let mut w: Vec<RegWrite> = Vec::new();
        w.push(RegWrite { reg: Register::RegisterRecvTask, bits: recv_task_id.value() as u64 });
        w.push(RegWrite { reg: Register::RegisterRecvTargetOs, bits: send_os_id.value() as u64 });
        w.push(RegWrite { reg: Register::RegisterRecvTargetProc, bits: send_proc_id.value() as u64 });
        w.push(RegWrite { reg: Register::RegisterRecvTargetTask, bits: send_task_id.value() as u64 });
        w
    }

    /// Sending an interrupt writes, in this order, the receiving operating
    /// system, process and task.
    pub fn send_intr(&self, recv_os_id: TaskId, recv_proc_id: TaskId, recv_task_id: TaskId) -> (w:
        Vec<RegWrite>)
        ensures
            w@ == seq![
                id_write(Register::SendIntrOs, recv_os_id),
                id_write(Register::SendIntrProc, recv_proc_id),
                id_write(Register::SendIntrTask, recv_task_id),
            ],
            w@.len() == 3,
            w@[0].reg == Register::SendIntrOs && w@[0].bits == recv_os_id.raw() as u64,
            w@[1].reg == Register::SendIntrProc && w@[1].bits == recv_proc_id.raw() as u64,
            w@[2].reg == Register::SendIntrTask && w@[2].bits == recv_task_id.raw() as u64,
    {
        let mut w: Vec<RegWrite> = Vec::new();
        w.push(RegWrite { reg: Register::SendIntrOs, bits: recv_os_id.value() as u64 });
        w.push(RegWrite { reg: Register::SendIntrProc, bits: recv_proc_id.value() as u64 });
        w.push(RegWrite { reg: Register::SendIntrTask, bits: recv_task_id.value() as u64 });
        w
    }

    /// Removing a task writes its identity to the `remove` register.
    pub fn remove_task(&self, task: TaskId) -> (w: RegWrite)
        ensures
            w == id_write(Register::Remove, task),
            w.reg == Register::Remove,
            w.bits == task.raw() as u64,
    {
        RegWrite { reg: Register::Remove, bits: task.value() as u64 }
    }

    /// The address of the current context's control block, from the `tcb`
    /// field of the `current` register, which holds it shifted right by
    /// `TASK_META_ALIGN` bits.
    pub fn current_meta_addr(tcb_bits: u64) -> (r: usize)
        ensures
            r == ((tcb_bits as usize) << 6usize),
            r % 64 == 0,
    {
        let t: usize = tcb_bits as usize;
        let r: usize = t << TASK_META_ALIGN;
        proof {
            assert(r % 64 == 0) by (bit_vector)
                requires r == t << 6usize;
        }
        r
    }

    /// Whether a fetch has settled: any answer other than "no task yet".
    /// Polling the fetch register repeats until it has.
    pub fn fetch_settled(r: &Result<TaskId, MoicErr>) -> (b: bool)
        ensures
            b == !(r == &Err::<TaskId, MoicErr>(MoicErr::NoTask)),
    {
        match r {
            Err(MoicErr::NoTask) => false,
            _ => true,
        }
    }
}

/// What the driver adds is what a fetch gives back: a task whose identity is
/// positive as a signed 64-bit number, written by `add`, is read back by
/// `fetch` as the same task.
pub proof fn lemma_fetch_reads_back_added(t: TaskId)
    requires
        0 < t.raw() <= 0x7fff_ffff_ffff_ffff,
    ensures
        fetch_result(id_write(Register::Add, t).bits) == Ok::<TaskId, MoicErr>(t),
{
    crate::task::lemma_virt_raw(t);
}

/// The control block that the driver prepares before leaving a context is the
/// one named by the identity last switched into: for any identity written by
/// a switch, the register's `tcb` field (the identity shifted right by
/// `TASK_META_ALIGN`) leads back to its control block.
pub proof fn lemma_current_meta_of_switched(t: TaskId)
    ensures
        (((t.raw() >> 6usize) as u64) as usize) << 6usize == crate::task::meta_addr_of(t.raw()),
{
    crate::task::lemma_current_field_names_meta(t.raw());
    assert(((t.raw() >> 6usize) as u64) as usize == t.raw() >> 6usize);
}

/// Every identity the driver writes reaches the named register as its raw
/// value, tag bits included.
pub proof fn lemma_id_write_carries_raw(r: Register, t: TaskId)
    ensures
        id_write(r, t).reg == r,
        id_write(r, t).bits == t.raw() as u64,
{
}

/// Switching into a context writes the context's raw identity; leaving it
/// writes 0.
pub proof fn lemma_switch_bits(t: TaskId)
    ensures
        opt_bits(Some(t)) == t.raw() as u64,
        opt_bits(None) == 0,
{
}

/// Two different identities are never written as the same value to a
/// register: the controller can tell apart every pair of tasks the driver
/// names, even two whose control blocks share an address and differ in tag.
pub proof fn lemma_distinct_ids_distinct_writes(r: Register, a: TaskId, b: TaskId)
    requires
        a != b,
    ensures
        id_write(r, a) != id_write(r, b),
        opt_bits(Some(a)) != opt_bits(Some(b)),
{
    crate::task::lemma_virt_raw(a);
    crate::task::lemma_virt_raw(b);
    assert(a.raw() != b.raw());
}

} // verus!
