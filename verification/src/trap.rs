//! The path from a hardware trap to what the kernel does about it.

use vstd::prelude::*;
use tock_registers::fields::Field;
use crate::arch::TrapFrame;
use crate::mm::shared_memory::ShmSegManager;
use crate::syscall::{dispatched, kill_current, killed, serving, syscall, AbortReason, SyscallOutcome};
use crate::task::manager::TaskManager;
use crate::task::structs::TaskId;

verus! {

/// Offset of the exception class in a syndrome word.
pub const ESR_EC_SHIFT: usize = 26;

/// Mask of the exception class, before it is shifted to its offset.
pub const ESR_EC_MASK: u64 = 0x3f;

/// Exception class: unknown reason, such as an instruction that the
/// processor does not know.
pub const EC_UNKNOWN: u64 = 0x00;

/// Exception class: supervisor call from 64-bit code.
pub const EC_SVC64: u64 = 0x15;

/// Exception class: instruction abort from a lower exception level.
pub const EC_INSTR_ABORT_LOWER_EL: u64 = 0x20;

/// Exception class: instruction abort from the current exception level.
pub const EC_INSTR_ABORT_CURRENT_EL: u64 = 0x21;

/// Exception class: data abort from a lower exception level.
pub const EC_DATA_ABORT_LOWER_EL: u64 = 0x24;

/// Exception class: data abort from the current exception level.
pub const EC_DATA_ABORT_CURRENT_EL: u64 = 0x25;

/// The kind of a trap.
#[derive(Debug, Clone, Copy, PartialEq, Eq, Structural)]
pub enum TrapKind {
    Synchronous,
    Irq,
    Fiq,
    SError,
}

/// Where a trap was taken from.
#[derive(Debug, Clone, Copy, PartialEq, Eq, Structural)]
pub enum TrapSource {
    CurrentSpEl0,
    CurrentSpElx,
    LowerAArch64,
    LowerAArch32,
}

/// What the kernel does about a synchronous exception.
#[derive(Debug, Clone, Copy, PartialEq, Eq, Structural)]
pub enum SyncAction {
    /// The running task did what it may not: it is ended.
    KillTask,
    /// The running task asks for a system call.
    Syscall,
    /// The kernel itself touched memory that it may not: it stops.
    KernelPageFault,
    /// The kernel does not handle exceptions of this class: it stops.
    Unsupported,
}

/// What the interrupt controller says after it has handled an interrupt.
#[derive(Debug, Clone, Copy, PartialEq, Eq, Structural)]
pub enum IrqHandlerResult {
    NoReschedule,
    Reschedule,
}

/// The bits of `value` that `mask`, moved up by `shift`, selects, moved
/// down again by `shift`.
pub open spec fn field_value(value: u64, mask: u64, shift: usize) -> u64 {
    (value & (mask << (shift as u64))) >> (shift as u64)
}

/// The exception class of the syndrome word `esr`.
pub open spec fn exception_class(esr: u64) -> u64 {
    field_value(esr, ESR_EC_MASK, ESR_EC_SHIFT)
}

/// What the kernel does about a synchronous exception of class `ec`.
pub open spec fn sync_action(ec: u64) -> SyncAction {
    if ec == EC_UNKNOWN {
        SyncAction::KillTask
    } else if ec == EC_SVC64 {
        SyncAction::Syscall
    } else if ec == EC_DATA_ABORT_LOWER_EL || ec == EC_INSTR_ABORT_LOWER_EL {
        SyncAction::KillTask
    } else if ec == EC_DATA_ABORT_CURRENT_EL || ec == EC_INSTR_ABORT_CURRENT_EL {
        SyncAction::KernelPageFault
    } else {
        SyncAction::Unsupported
    }
}

/// Reads a field of a register value with `Field::read` of
/// `tock_registers`, on a field made by `Field::new` from `mask` and
/// `shift`: the value is masked with `mask` moved up by `shift` and moved
/// down by `shift`. A shift of 64 or more is left out: it overflows.
#[verifier::external_body]
fn read_field(value: u64, mask: u64, shift: usize) -> (field: u64)
    requires
        shift < 64,
    ensures
        field == field_value(value, mask, shift),
{
    Field::<u64, ()>::new(mask, shift).read(value)
}

/// Decides, from the syndrome word `esr`, what is done about a synchronous
/// exception.
pub fn classify_sync_exception(esr: u64) -> (action: SyncAction)
    ensures
        action == sync_action(exception_class(esr)),
{
    let ec = read_field(esr, ESR_EC_MASK, ESR_EC_SHIFT);
    if ec == EC_UNKNOWN {
        SyncAction::KillTask
    } else if ec == EC_SVC64 {
        SyncAction::Syscall
    } else if ec == EC_DATA_ABORT_LOWER_EL || ec == EC_INSTR_ABORT_LOWER_EL {
        SyncAction::KillTask
    } else if ec == EC_DATA_ABORT_CURRENT_EL || ec == EC_INSTR_ABORT_CURRENT_EL {
        SyncAction::KernelPageFault
    } else {
        SyncAction::Unsupported
    }
}

/// A trap of a kind or from a source that the kernel does not expect
/// stops the kernel.
pub fn invalid_exception(kind: TrapKind, source: TrapSource) -> (out: SyscallOutcome)
    ensures
        out == (SyscallOutcome::Abort { reason: AbortReason::InvalidException }),
{
    SyscallOutcome::Abort { reason: AbortReason::InvalidException }
}

/// Whether a synchronous exception with the syndrome `esr`, taken with the
/// frame `tf0` on the kernel `k0` with the segments `m0`, leads to `k1`,
/// `m1`, the frame `tf1` and `out`.
pub open spec fn sync_handled(
    k0: &TaskManager,
    k1: &TaskManager,
    m0: &ShmSegManager,
    m1: &ShmSegManager,
    tf0: &TrapFrame,
    tf1: &TrapFrame,
    esr: u64,
    out: SyscallOutcome,
) -> bool {
    match sync_action(exception_class(esr)) {
        SyncAction::KillTask => killed(k0, k1, -1i32, out) && m1 == m0 && tf1 == tf0,
        SyncAction::Syscall => {
            &&& dispatched(
                &serving(*k0),
                &serving(*k1),
                m0,
                m1,
                tf0,
                tf0.r@[8] as usize,
                tf0.r@[0] as usize,
                tf0.r@[1] as usize,
                tf0.r@[2] as usize,
                out,
            )
            &&& k1.irqs_enabled == !(out is Return || out is Yielded)
            &&& match out {
                SyscallOutcome::Return { ret, .. } => tf1.is_result_of(*tf0, ret as u64),
                SyscallOutcome::Yielded { ret, .. } => tf1.is_result_of(*tf0, ret as u64),
                _ => tf1 == tf0,
            }
        },
        SyncAction::KernelPageFault => {
            out == (SyscallOutcome::Abort { reason: AbortReason::KernelPageFault }) && k1 == k0 && m1 == m0
                && tf1 == tf0
        },
        SyncAction::Unsupported => {
            out == (SyscallOutcome::Abort { reason: AbortReason::UnsupportedException }) && k1 == k0
                && m1 == m0 && tf1 == tf0
        },
    }
}

/// A data abort or an instruction abort that the kernel itself caused
/// stops the kernel as a whole: no task exits, and nothing changes.
pub proof fn lemma_kernel_abort_is_fatal(
    k0: &TaskManager,
    k1: &TaskManager,
    m0: &ShmSegManager,
    m1: &ShmSegManager,
    tf0: &TrapFrame,
    tf1: &TrapFrame,
    esr: u64,
    out: SyscallOutcome,
)
    requires
        exception_class(esr) == EC_DATA_ABORT_CURRENT_EL || exception_class(esr) == EC_INSTR_ABORT_CURRENT_EL,
        sync_handled(k0, k1, m0, m1, tf0, tf1, esr, out),
    ensures
        out == (SyscallOutcome::Abort { reason: AbortReason::KernelPageFault }),
        !(out is Exited),
        k1 == k0,
        m1 == m0,
        tf1 == tf0,
{
}

/// Handles a synchronous exception with the syndrome `esr`. A system call
/// gets its number from register 8 and its arguments from registers 0 to
/// 2, and its result goes to register 0.
pub fn handle_sync_exception(
    k: &mut TaskManager,
    mgr: &mut ShmSegManager,
    tf: &mut TrapFrame,
    esr: u64,
) -> (out: SyscallOutcome)
    requires
        old(k).wf(),
        old(mgr).wf(),
    ensures
        final(k).wf(),
        final(mgr).wf(),
        sync_handled(old(k), final(k), old(mgr), final(mgr), old(tf), final(tf), esr, out),
{
    match classify_sync_exception(esr) {
        SyncAction::KillTask => kill_current(k, -1),
        SyncAction::Syscall => {
            let id = #[verifier::truncate] (tf.r[8] as usize);
            let arg0 = #[verifier::truncate] (tf.r[0] as usize);
            let arg1 = #[verifier::truncate] (tf.r[1] as usize);
            let arg2 = #[verifier::truncate] (tf.r[2] as usize);
            let out = syscall(k, mgr, tf, id, arg0, arg1, arg2);
            match out {
                SyscallOutcome::Return { ret, .. } => {
                    tf.r[0] = #[verifier::truncate] (ret as u64);
                },
                SyscallOutcome::Yielded { ret, .. } => {
                    tf.r[0] = #[verifier::truncate] (ret as u64);
                },
                _ => {},
            }
            out
        },
        SyncAction::KernelPageFault => SyscallOutcome::Abort { reason: AbortReason::KernelPageFault },
        SyncAction::Unsupported => SyscallOutcome::Abort { reason: AbortReason::UnsupportedException },
    }
}

/// Ends the handling of an interrupt: where the interrupt controller asked
/// for it, the running task yields, and the result is the task that runs
/// next; else nothing changes.
pub fn handle_irq_exception(k: &mut TaskManager, result: IrqHandlerResult) -> (next: Option<TaskId>)
    requires
        old(k).wf(),
    ensures
        final(k).wf(),
        result == IrqHandlerResult::Reschedule ==> next.is_some() && final(k).yielded(old(k), next.unwrap()),
        result == IrqHandlerResult::NoReschedule ==> next.is_none() && *final(k) == *old(k),
{
    match result {
        IrqHandlerResult::Reschedule => Some(k.yield_current()),
        IrqHandlerResult::NoReschedule => None,
    }
}

} // verus!
