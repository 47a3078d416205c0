//! The controller's per-hart registers and the writes the driver makes to them.
use vstd::prelude::*;

verus! {

/// A register of the controller's per-hart register block.
#[derive(Debug, Clone, Copy, PartialEq, Eq, Structural)]
pub enum Register {
    /// Enqueue a task into the ready queue of the current context.
    Add,
    /// Dequeue the task of highest priority from the current context.
    Fetch,
    /// Switch the hypervisor context.
    SwitchHypervisor,
    /// Switch the operating-system context.
    SwitchOs,
    /// Switch the process context.
    SwitchProcess,
    /// Sending task of an IPC send capability.
    RegisterSendTask,
    /// Target operating system of an IPC send capability.
    RegisterSendTargetOs,
    /// Target process of an IPC send capability.
    RegisterSendTargetProc,
    /// Target task of an IPC send capability.
    RegisterSendTargetTask,
    /// Receiving task of an IPC receive capability or device handler.
    RegisterRecvTask,
    /// Source operating system of an IPC receive capability.
    RegisterRecvTargetOs,
    /// Source process of an IPC receive capability.
    RegisterRecvTargetProc,
    /// Source task of an IPC receive capability, or device number of a handler.
    RegisterRecvTargetTask,
    /// Operating system that an interrupt is sent to.
    SendIntrOs,
    /// Process that an interrupt is sent to.
    SendIntrProc,
    /// Task that an interrupt is sent to.
    SendIntrTask,
    /// Remove a task from the ready queue.
    Remove,
    /// The control block of the current context.
    Current,
    /// The status of the controller (number of harts online in the context).
    Status,
}

impl Register {
    /// The position of the register in the per-hart register block, which is
    /// taken to hold one 64-bit register after the other in the order of
    /// `Register`.  This order is an assumption of this driver, not read from
    /// the controller's register description.
    pub open spec fn index(self) -> nat {
        match self {
            Register::Add => 0,
            Register::Fetch => 1,
            Register::SwitchHypervisor => 2,
            Register::SwitchOs => 3,
            Register::SwitchProcess => 4,
            Register::RegisterSendTask => 5,
            Register::RegisterSendTargetOs => 6,
            Register::RegisterSendTargetProc => 7,
            Register::RegisterSendTargetTask => 8,
            Register::RegisterRecvTask => 9,
            Register::RegisterRecvTargetOs => 10,
            Register::RegisterRecvTargetProc => 11,
            Register::RegisterRecvTargetTask => 12,
            Register::SendIntrOs => 13,
            Register::SendIntrProc => 14,
            Register::SendIntrTask => 15,
            Register::Remove => 16,
            Register::Current => 17,
            Register::Status => 18,
        }
    }

    /// The byte offset of the register in the register block.
    pub fn offset(&self) -> (o: usize)
        ensures
            o == 8 * self.index(),
            o <= REGISTER_BLOCK_LAST,
    {
        match self {
            Register::Add => 0,
            Register::Fetch => 8,
            Register::SwitchHypervisor => 16,
            Register::SwitchOs => 24,
            Register::SwitchProcess => 32,
            Register::RegisterSendTask => 40,
            Register::RegisterSendTargetOs => 48,
            Register::RegisterSendTargetProc => 56,
            Register::RegisterSendTargetTask => 64,
            Register::RegisterRecvTask => 72,
            Register::RegisterRecvTargetOs => 80,
            Register::RegisterRecvTargetProc => 88,
            Register::RegisterRecvTargetTask => 96,
            Register::SendIntrOs => 104,
            Register::SendIntrProc => 112,
            Register::SendIntrTask => 120,
            Register::Remove => 128,
            Register::Current => 136,
            Register::Status => 144,
        }
    }
}

/// No two registers share a place in the block, and all lie within it: a
/// write meant for one register never reaches another.
pub proof fn lemma_registers_disjoint(r1: Register, r2: Register)
    ensures
        r1 != r2 ==> r1.index() != r2.index(),
        8 * r1.index() <= REGISTER_BLOCK_LAST,
{
}

/// The offset of the last register of the block.
pub const REGISTER_BLOCK_LAST: usize = 144;

/// One write of a 64-bit value to a register.
#[derive(Debug, Clone, Copy, PartialEq, Eq, Structural)]
pub struct RegWrite {
    pub reg: Register,
    pub bits: u64,
}

/// The register-block entry of the `register_send_task` register.
pub struct RegisterSendTaskSpec;

/// The register-block entry of the `register_recv_target_proc` register.
pub struct RegisterRecvTargetProcSpec;

/// The register-block entry of the `remove` register.
pub struct RemoveSpec;

impl RegisterSendTaskSpec {
    /// The value the register holds after reset.
    pub const RESET_VALUE: u64 = 0;

    /// The register this entry describes.
    pub fn register(&self) -> (r: Register)
        ensures
            r == Register::RegisterSendTask,
    {
        Register::RegisterSendTask
    }
}

impl RegisterRecvTargetProcSpec {
    /// The value the register holds after reset.
    pub const RESET_VALUE: u64 = 0;

    /// The register this entry describes.
    pub fn register(&self) -> (r: Register)
        ensures
            r == Register::RegisterRecvTargetProc,
    {
        Register::RegisterRecvTargetProc
    }
}

impl RemoveSpec {
    /// The value the register holds after reset.
    pub const RESET_VALUE: u64 = 0;

    /// The register this entry describes.
    pub fn register(&self) -> (r: Register)
        ensures
            r == Register::Remove,
    {
        Register::Remove
    }
}

} // verus!
