//! Driver logic for the MOIC (multiple-object-interaction interrupt controller).
//!
//! The controller keeps per-hart task queues in hardware and exchanges task
//! identities with software through memory-mapped registers.  This crate holds
//! the part of the driver that decides: how a task identity is packed and
//! unpacked, what each driver operation writes to which register, how the value
//! read back from the fetch register is interpreted, and what a context switch
//! has to prepare in the in-memory task control block.  Performing the register
//! accesses is left to the caller.
pub mod boot;
pub mod cap_queue;
pub mod error;
pub mod lock;
pub mod moic;
pub mod queue_mem;
pub mod ready_queue;
pub mod regs;
pub mod scenario;
pub mod task;

pub use error::MoicErr;
pub use moic::{Moic, SwitchPlan};
pub use regs::{Register, RegWrite, RegisterRecvTargetProcSpec, RegisterSendTaskSpec, RemoveSpec};
pub use cap_queue::{Capability, CapQueue, DeviceCapTable};
pub use queue_mem::QueueMem;
pub use ready_queue::ReadyQueue;
pub use task::{prepare_switch_out, Reservation, Status, TaskId, TaskMeta, TASK_META_ALIGN, MAX_PRIORITY};
