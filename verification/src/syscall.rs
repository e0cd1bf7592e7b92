//! The system calls and the table that maps their numbers to them.

pub mod shm;
pub mod task;
pub mod uintr;

use vstd::prelude::*;
use crate::arch::TrapFrame;
use crate::mm::shared_memory::{page_num, ShmSegManager, IPC_PRIVATE, SHM_MAX_PAGE_NUM};
use crate::syscall::shm::{attached, sys_shmat, sys_shmctl, sys_shmdt, sys_shmget};
use crate::syscall::task::{sys_clone, sys_exit, sys_getpid, sys_waitpid, sys_yield};
use crate::syscall::uintr::{
    sys_uintr_notice, sys_uintr_register_link, sys_uintr_register_receiver,
    sys_uintr_register_sender, sys_uintr_uiret, UINTR_LINK_SIZE,
};
use crate::task::current::{released, waited};
use crate::task::lifecycle::cloned;
use crate::task::manager::{
    has_id, index_of, lemma_first_ready_bounds, lemma_same_ids, with_exit_code, with_state, TaskManager,
};
use crate::task::structs::TaskState;
use crate::task::structs::TaskId;

verus! {

pub const SYSCALL_READ: usize = 0;

pub const SYSCALL_WRITE: usize = 1;

pub const SYSCALL_YIELD: usize = 24;

pub const SYSCALL_NANOSLEEP: usize = 35;

pub const SYSCALL_GETPID: usize = 39;

pub const SYSCALL_CLONE: usize = 56;

pub const SYSCALL_FORK: usize = 57;

pub const SYSCALL_EXEC: usize = 59;

pub const SYSCALL_EXIT: usize = 60;

pub const SYSCALL_WAITPID: usize = 61;

pub const SYSCALL_GET_TIME_MS: usize = 96;

pub const SYSCALL_CLOCK_GETTIME: usize = 228;

pub const SYSCALL_SHMGET: usize = 233;

pub const SYSCALL_SHMAT: usize = 234;

pub const SYSCALL_SHMDT: usize = 235;

pub const SYSCALL_SHMCTL: usize = 236;

pub const SYSCALL_UINTR_REGISTER_RECEIVER: usize = 301;

pub const SYSCALL_UINTR_REGISTER_LINK: usize = 302;

pub const SYSCALL_UINTR_REGISTER_SENDER: usize = 303;

pub const SYSCALL_UINTR_NOTICE: usize = 304;

pub const SYSCALL_UINTR_UIRET: usize = 305;

/// A call that this core hands on: it needs the file system, the clock,
/// the loader or a new page table.
#[derive(Debug, Clone, Copy, PartialEq, Eq, Structural)]
pub enum ExternalCall {
    Read,
    Write,
    Nanosleep,
    Fork,
    Exec,
    GetTimeMs,
    ClockGettime,
}

/// Why the kernel as a whole has to stop.
#[derive(Debug, Clone, Copy, PartialEq, Eq, Structural)]
pub enum AbortReason {
    /// A trap of a kind or from a source that the kernel does not expect.
    InvalidException,
    /// A data or instruction abort taken from the kernel itself.
    KernelPageFault,
    /// A synchronous exception of a class that the kernel does not handle.
    UnsupportedException,
    /// A segment was asked for with a key other than the private one.
    UnsupportedShmKey,
    /// A segment was to be attached at a given address.
    UnsupportedShmAddr,
    /// The frame allocator cannot back the segment.
    OutOfFrames,
    /// The idle task was to exit, or a kernel task asked for what only a
    /// user task can have.
    KernelTaskMisuse,
    /// No identifier is left for a new task.
    OutOfTaskIds,
}

/// A word that a system call stores into the memory of the caller.
#[derive(Debug, Clone, Copy, PartialEq, Eq, Structural)]
pub enum UserStore {
    /// Nothing is stored.
    Nothing,
    /// The exit code `code` goes to the address `addr`.
    ExitCode { addr: usize, code: i32 },
    /// The word `value` goes to the address `addr`.
    Word { addr: usize, value: usize },
}

/// How a system call ended.
#[derive(Debug, Clone, Copy, PartialEq, Eq, Structural)]
pub enum SyscallOutcome {
    /// The call returns `ret` to the caller, after `store` was carried out.
    Return { ret: isize, store: UserStore },
    /// The caller gave up the processor to `next`; it sees `ret` when it
    /// runs again.
    Yielded { ret: isize, next: TaskId },
    /// The caller has exited; `next` runs.
    Exited { next: TaskId },
    /// The call is served outside this core.
    Forward { call: ExternalCall },
    /// The kernel stops.
    Abort { reason: AbortReason },
}

/// The call that the number `syscall_id` is handed on as, if it is one of
/// those that this core does not serve.
pub open spec fn forwarded(syscall_id: usize) -> Option<ExternalCall> {
    if syscall_id == SYSCALL_READ {
        Some(ExternalCall::Read)
    } else if syscall_id == SYSCALL_WRITE {
        Some(ExternalCall::Write)
    } else if syscall_id == SYSCALL_NANOSLEEP {
        Some(ExternalCall::Nanosleep)
    } else if syscall_id == SYSCALL_FORK {
        Some(ExternalCall::Fork)
    } else if syscall_id == SYSCALL_EXEC {
        Some(ExternalCall::Exec)
    } else if syscall_id == SYSCALL_GET_TIME_MS {
        Some(ExternalCall::GetTimeMs)
    } else if syscall_id == SYSCALL_CLOCK_GETTIME {
        Some(ExternalCall::ClockGettime)
    } else {
        None
    }
}

/// Whether `syscall_id` is one of the calls that always fail with -1.
pub open spec fn is_stub(syscall_id: usize) -> bool {
    syscall_id == SYSCALL_SHMDT || syscall_id == SYSCALL_SHMCTL
        || syscall_id == SYSCALL_UINTR_REGISTER_RECEIVER || syscall_id == SYSCALL_UINTR_NOTICE
        || syscall_id == SYSCALL_UINTR_UIRET
}

/// Whether `syscall_id` is the number of a system call.
pub open spec fn is_known(syscall_id: usize) -> bool {
    forwarded(syscall_id).is_some() || is_stub(syscall_id) || syscall_id == SYSCALL_YIELD
        || syscall_id == SYSCALL_GETPID || syscall_id == SYSCALL_CLONE || syscall_id == SYSCALL_EXIT
        || syscall_id == SYSCALL_WAITPID || syscall_id == SYSCALL_SHMGET || syscall_id == SYSCALL_SHMAT
        || syscall_id == SYSCALL_UINTR_REGISTER_LINK || syscall_id == SYSCALL_UINTR_REGISTER_SENDER
}

/// Whether ending the running task of `k0` with `code` leads to `k1` and
/// `out`: the kernel stops where the idle task was to exit; else the task
/// is a zombie with that code, its address space is released, and the next
/// task runs.
pub open spec fn killed(k0: &TaskManager, k1: &TaskManager, code: i32, out: SyscallOutcome) -> bool {
    if k0.current == TaskId::idle_id() {
        out == (SyscallOutcome::Abort { reason: AbortReason::KernelTaskMisuse }) && k1 == k0
    } else {
        &&& out matches SyscallOutcome::Exited { next }
        &&& k1.exited(k0, code, next)
        &&& released(k0, k1)
    }
}

/// Whether the call `syscall_id` with the arguments `arg0`, `arg1`, `arg2`
/// and the frame `tf`, made on the kernel `k0` with the segments `m0`,
/// leads to `k1`, `m1` and `out`. Interrupts are left aside: `k0` and `k1`
/// are taken with interrupts enabled, as they are while a call is served.
pub open spec fn dispatched(
    k0: &TaskManager,
    k1: &TaskManager,
    m0: &ShmSegManager,
    m1: &ShmSegManager,
    tf: &TrapFrame,
    syscall_id: usize,
    arg0: usize,
    arg1: usize,
    arg2: usize,
    out: SyscallOutcome,
) -> bool {
    if forwarded(syscall_id).is_some() {
        out == (SyscallOutcome::Forward { call: forwarded(syscall_id).unwrap() }) && k1 == k0 && m1 == m0
    } else if is_stub(syscall_id) {
        out == (SyscallOutcome::Return { ret: -1isize, store: UserStore::Nothing }) && k1 == k0 && m1 == m0
    } else if syscall_id == SYSCALL_YIELD {
        &&& out matches SyscallOutcome::Yielded { ret, next }
        &&& ret == 0
        &&& k1.yielded(k0, next)
        &&& m1 == m0
    } else if syscall_id == SYSCALL_GETPID {
        out == (SyscallOutcome::Return { ret: k0.current.0 as isize, store: UserStore::Nothing }) && k1 == k0
            && m1 == m0
    } else if syscall_id == SYSCALL_CLONE {
        &&& m1 == m0
        &&& if k0.task(k0.current).is_kernel {
            out == (SyscallOutcome::Abort { reason: AbortReason::KernelTaskMisuse }) && k1 == k0
        } else if k0.next_pid >= isize::MAX {
            out == (SyscallOutcome::Abort { reason: AbortReason::OutOfTaskIds }) && k1 == k0
        } else {
            &&& out == (SyscallOutcome::Return { ret: k0.next_pid as isize, store: UserStore::Nothing })
            &&& cloned(k0, k1, k0.current, arg0, tf, TaskId(k0.next_pid))
            &&& k1.ready_queue@ == k0.ready_queue@.push(TaskId(k0.next_pid))
            &&& k1.same_but_tasks(&TaskManager { next_pid: k1.next_pid, ready_queue: k1.ready_queue, ..*k0 })
        }
    } else if syscall_id == SYSCALL_EXIT {
        killed(k0, k1, arg0 as i32, out) && m1 == m0
    } else if syscall_id == SYSCALL_WAITPID {
        &&& m1 == m0
        &&& out matches SyscallOutcome::Return { ret, store }
        &&& if ret >= 0 {
            store matches UserStore::ExitCode { addr, code } && addr == arg1 && waited(k0, k1, arg0 as isize, 0, code, ret)
        } else {
            store == UserStore::Nothing && waited(k0, k1, arg0 as isize, 0, 0, ret)
        }
    } else if syscall_id == SYSCALL_SHMGET {
        &&& k1 == k0
        &&& if arg0 != IPC_PRIVATE {
            out == (SyscallOutcome::Abort { reason: AbortReason::UnsupportedShmKey }) && m1 == m0
        } else if !m0.can_back(arg1 as int) {
            out == (SyscallOutcome::Abort { reason: AbortReason::OutOfFrames }) && m1 == m0
        } else {
            &&& out matches SyscallOutcome::Return { ret, store }
            &&& store == UserStore::Nothing
            &&& ShmSegManager::requested(*m0, *m1, k0.current.0, arg1 as int, ret)
        }
    } else if syscall_id == SYSCALL_SHMAT {
        &&& m1 == m0
        &&& if arg1 != 0 {
            out == (SyscallOutcome::Abort { reason: AbortReason::UnsupportedShmAddr }) && k1 == k0
        } else if k0.task(k0.current).is_kernel {
            out == (SyscallOutcome::Abort { reason: AbortReason::KernelTaskMisuse }) && k1 == k0
        } else {
            &&& out matches SyscallOutcome::Return { ret, store }
            &&& store == UserStore::Nothing
            &&& attached(k0, k1, m0, arg0, ret)
        }
    } else if syscall_id == SYSCALL_UINTR_REGISTER_LINK {
        &&& k1 == k0
        &&& if !m0.can_back(UINTR_LINK_SIZE as int) {
            out == (SyscallOutcome::Abort { reason: AbortReason::OutOfFrames }) && m1 == m0
        } else {
            &&& out matches SyscallOutcome::Return { ret, store }
            &&& store == (UserStore::Word { addr: arg1, value: if ret >= 0 { ret as usize } else { usize::MAX } })
            &&& ShmSegManager::requested(*m0, *m1, k0.current.0, UINTR_LINK_SIZE as int, ret)
        }
    } else if syscall_id == SYSCALL_UINTR_REGISTER_SENDER {
        out == (SyscallOutcome::Return { ret: 0, store: UserStore::Word { addr: arg1, value: arg0 } }) && k1 == k0
            && m1 == m0
    } else {
        killed(k0, k1, -1i32, out) && m1 == m0
    }
}

/// A system call with a number that names no call ends the task that made
/// it, with the code -1, and no other: every other task is in the table as
/// before, with its exit code, its children and its address space, and in
/// its state, but that the next task now runs; the address spaces of other
/// tasks and the segments are as they were.
pub proof fn lemma_unknown_syscall_ends_caller_only(
    k0: &TaskManager,
    k1: &TaskManager,
    m0: &ShmSegManager,
    m1: &ShmSegManager,
    tf: &TrapFrame,
    syscall_id: usize,
    arg0: usize,
    arg1: usize,
    arg2: usize,
    out: SyscallOutcome,
    other: TaskId,
)
    requires
        k0.wf(),
        k0.current != TaskId::idle_id(),
        !is_known(syscall_id),
        dispatched(k0, k1, m0, m1, tf, syscall_id, arg0, arg1, arg2, out),
        has_id(k0.tasks@, other),
        other != k0.current,
    ensures
        out is Exited,
        m1 == m0,
        k1.task(k0.current).state == TaskState::Zombie,
        k1.task(k0.current).exit_code == -1,
        has_id(k1.tasks@, other),
        k1.task(other).same_identity(&k0.task(other)),
        k1.task(other).exit_code == k0.task(other).exit_code,
        out != (SyscallOutcome::Exited { next: other }) ==> k1.task(other).state == k0.task(other).state,
        k1.tasks@.len() == k0.tasks@.len(),
        k0.task(other).vm.is_some() && k0.task(other).vm != k0.task(k0.current).vm
            ==> k1.spaces@[k0.task(other).vm.unwrap() as int] == k0.spaces@[k0.task(other).vm.unwrap() as int],
{
    let tasks = k0.tasks@;
    let ci = index_of(tasks, k0.current);
    let t1 = with_state(
        with_exit_code(tasks, ci, -1i32),
        ci,
        TaskState::Zombie,
    );
    let next = k1.current;
    assert(out == (SyscallOutcome::Exited { next }));
    lemma_same_ids(tasks, t1);
    let ni = index_of(t1, next);
    lemma_first_ready_bounds(t1, k0.ready_queue@);
    lemma_same_ids(t1, k1.tasks@);
    let oi = index_of(tasks, other);
    assert(oi != ci);
    assert(has_id(t1, next));
    if other != next {
        assert(oi != ni);
    }
}

/// The kernel `k` as it is while a call is served: with interrupts on.
pub open spec fn serving(k: TaskManager) -> TaskManager {
    TaskManager { irqs_enabled: true, ..k }
}

/// Whether the frame allocator of `mgr` holds the frames that a segment of
/// `size` bytes takes.
fn can_back(mgr: &ShmSegManager, size: usize) -> (ok: bool)
    requires
        mgr.wf(),
    ensures
        ok == mgr.can_back(size as int),
{
    let pages = page_num(size);
    if pages == 0 || pages > SHM_MAX_PAGE_NUM {
        true
    } else {
        pages <= mgr.frames.free_frames()
    }
}

/// Ends the running task with `code`, or stops the kernel where the task
/// is the idle one.
pub(crate) fn kill_current(k: &mut TaskManager, code: i32) -> (out: SyscallOutcome)
    requires
        old(k).wf(),
    ensures
        final(k).wf(),
        killed(old(k), final(k), code, out),
{
    if k.current.as_usize() == 0 {
        SyscallOutcome::Abort { reason: AbortReason::KernelTaskMisuse }
    } else {
        let next = sys_exit(k, code);
        SyscallOutcome::Exited { next }
    }
}

/// Serves the system call `syscall_id`. Interrupts are on while the call
/// is served and off again when it returns to the caller; they stay on
/// where the caller has exited or the call is handed on.
pub fn syscall(
    k: &mut TaskManager,
    mgr: &mut ShmSegManager,
    tf: &TrapFrame,
    syscall_id: usize,
    arg0: usize,
    arg1: usize,
    arg2: usize,
) -> (out: SyscallOutcome)
    requires
        old(k).wf(),
        old(mgr).wf(),
    ensures
        final(k).wf(),
        final(mgr).wf(),
        dispatched(
            &serving(*old(k)),
            &serving(*final(k)),
            old(mgr),
            final(mgr),
            tf,
            syscall_id,
            arg0,
            arg1,
            arg2,
            out,
        ),
        final(k).irqs_enabled == !(out is Return || out is Yielded),
{
    k.irqs_enabled = true;
    let ghost k0 = *k;
    proof {
        assert(k0 == serving(*old(k)));
    }
    let out = match syscall_id {
        SYSCALL_READ => SyscallOutcome::Forward { call: ExternalCall::Read },
        SYSCALL_WRITE => SyscallOutcome::Forward { call: ExternalCall::Write },
        SYSCALL_YIELD => {
            let next = sys_yield(k);
            SyscallOutcome::Yielded { ret: 0, next }
        },
        SYSCALL_NANOSLEEP => SyscallOutcome::Forward { call: ExternalCall::Nanosleep },
        SYSCALL_GETPID => SyscallOutcome::Return { ret: sys_getpid(k), store: UserStore::Nothing },
        SYSCALL_CLONE => {
            let found = k.find(k.current);
            if k.tasks[found.unwrap()].is_kernel_task() {
                SyscallOutcome::Abort { reason: AbortReason::KernelTaskMisuse }
            } else if k.next_pid >= isize::MAX as usize {
                SyscallOutcome::Abort { reason: AbortReason::OutOfTaskIds }
            } else {
                SyscallOutcome::Return { ret: sys_clone(k, arg0, tf), store: UserStore::Nothing }
            }
        },
        SYSCALL_FORK => SyscallOutcome::Forward { call: ExternalCall::Fork },
        SYSCALL_EXEC => SyscallOutcome::Forward { call: ExternalCall::Exec },
        SYSCALL_EXIT => kill_current(k, #[verifier::truncate] (arg0 as i32)),
        SYSCALL_WAITPID => {
            let mut code: i32 = 0;
            let ret = sys_waitpid(k, #[verifier::truncate] (arg0 as isize), &mut code);
            if ret >= 0 {
                SyscallOutcome::Return { ret, store: UserStore::ExitCode { addr: arg1, code } }
            } else {
                SyscallOutcome::Return { ret, store: UserStore::Nothing }
            }
        },
        SYSCALL_GET_TIME_MS => SyscallOutcome::Forward { call: ExternalCall::GetTimeMs },
        SYSCALL_CLOCK_GETTIME => SyscallOutcome::Forward { call: ExternalCall::ClockGettime },
        SYSCALL_SHMGET => {
            if arg0 != IPC_PRIVATE {
                SyscallOutcome::Abort { reason: AbortReason::UnsupportedShmKey }
            } else if !can_back(mgr, arg1) {
                SyscallOutcome::Abort { reason: AbortReason::OutOfFrames }
            } else {
                SyscallOutcome::Return { ret: sys_shmget(k, mgr, arg0, arg1, arg2), store: UserStore::Nothing }
            }
        },
        SYSCALL_SHMAT => {
            let found = k.find(k.current);
            if arg1 != 0 {
                SyscallOutcome::Abort { reason: AbortReason::UnsupportedShmAddr }
            } else if k.tasks[found.unwrap()].is_kernel_task() {
                SyscallOutcome::Abort { reason: AbortReason::KernelTaskMisuse }
            } else {
                SyscallOutcome::Return { ret: sys_shmat(k, mgr, arg0, arg1, arg2), store: UserStore::Nothing }
            }
        },
        SYSCALL_SHMDT => SyscallOutcome::Return { ret: sys_shmdt(), store: UserStore::Nothing },
        SYSCALL_SHMCTL => SyscallOutcome::Return { ret: sys_shmctl(), store: UserStore::Nothing },
        SYSCALL_UINTR_REGISTER_RECEIVER => SyscallOutcome::Return {
            ret: sys_uintr_register_receiver(arg0),
            store: UserStore::Nothing,
        },
        SYSCALL_UINTR_REGISTER_LINK => {
            if !can_back(mgr, UINTR_LINK_SIZE) {
                SyscallOutcome::Abort { reason: AbortReason::OutOfFrames }
            } else {
                let mut value: usize = 0;
                let ret = sys_uintr_register_link(k, mgr, arg0, &mut value);
                SyscallOutcome::Return { ret, store: UserStore::Word { addr: arg1, value } }
            }
        },
        SYSCALL_UINTR_REGISTER_SENDER => {
            let mut value: usize = 0;
            let ret = sys_uintr_register_sender(arg0, &mut value);
            SyscallOutcome::Return { ret, store: UserStore::Word { addr: arg1, value } }
        },
        SYSCALL_UINTR_NOTICE => SyscallOutcome::Return { ret: sys_uintr_notice(arg0), store: UserStore::Nothing },
        SYSCALL_UINTR_UIRET => SyscallOutcome::Return { ret: sys_uintr_uiret(), store: UserStore::Nothing },
        _ => kill_current(k, -1),
    };
    proof {
        assert(k.irqs_enabled);
        assert(serving(*k) == *k);
        assert(dispatched(&k0, k, old(mgr), mgr, tf, syscall_id, arg0, arg1, arg2, out));
    }
    match out {
        SyscallOutcome::Return { .. } => {
            k.irqs_enabled = false;
        },
        SyscallOutcome::Yielded { .. } => {
            k.irqs_enabled = false;
        },
        _ => {},
    }
    out
}

} // verus!
