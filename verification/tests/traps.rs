use kernel_core::arch::{TrapFrame, USER_SPSR};
use kernel_core::config::PAGE_SIZE;
use kernel_core::mm::frame::FrameAllocator;
use kernel_core::mm::memory_set::{MapArea, ProgramImage};
use kernel_core::mm::shared_memory::ShmSegManager;
use kernel_core::syscall::shm::{sys_shmat, sys_shmctl, sys_shmdt, sys_shmget};
use kernel_core::syscall::task::{sys_clone, sys_fork, sys_getpid};
use kernel_core::syscall::uintr::{
    sys_uintr_notice, sys_uintr_register_link, sys_uintr_register_receiver,
    sys_uintr_register_sender, sys_uintr_uiret,
};
use kernel_core::syscall::{syscall, AbortReason, ExternalCall, SyscallOutcome, UserStore};
use kernel_core::task::current::CurrentTask;
use kernel_core::task::manager::TaskManager;
use kernel_core::task::structs::{Task, TaskId, TaskState};
use kernel_core::trap::{
    classify_sync_exception, handle_irq_exception, handle_sync_exception, invalid_exception,
    IrqHandlerResult, SyncAction, TrapKind, TrapSource,
};
use kernel_core::user;

fn segments() -> ShmSegManager {
    ShmSegManager::new(FrameAllocator::new(0x5000_0000, 0x5000_0000 + 600 * PAGE_SIZE))
}

/// Idle, root task 1, user task 2 (running) and its clone 3 (ready, queued).
fn kernel() -> TaskManager {
    let mut k = TaskManager::new(0x4008_0000, 0xffff_0000);
    Task::new_kernel(&mut k, 0x2000, 5);
    let image = ProgramImage {
        entry: 0x1000,
        ustack_top: 0x8000,
        areas: vec![MapArea { start: 0x1000, frames: vec![0x4010_0000] }],
    };
    let user = Task::new_user(&mut k, image, 0x4020_0000);
    k.spawn(user);
    CurrentTask::get(&k).yield_now(&mut k);
    let sibling = Task::new_clone(&mut k, user, 0x9000, &frame(0, 0, 0, 0));
    k.spawn(sibling);
    k
}

fn frame(id: u64, a0: u64, a1: u64, a2: u64) -> TrapFrame {
    let mut r = [0u64; 31];
    r[8] = id;
    r[0] = a0;
    r[1] = a1;
    r[2] = a2;
    TrapFrame { r, usp: 0x7000, elr: 0x1234, spsr: USER_SPSR }
}

fn esr(class: u64) -> u64 {
    (class << 26) | (1 << 25) | 0x1f_0f0f
}

#[test]
fn exception_classes_are_told_apart() {
    assert_eq!(classify_sync_exception(esr(0x00)), SyncAction::KillTask);
    assert_eq!(classify_sync_exception(esr(0x15)), SyncAction::Syscall);
    assert_eq!(classify_sync_exception(esr(0x20)), SyncAction::KillTask);
    assert_eq!(classify_sync_exception(esr(0x24)), SyncAction::KillTask);
    assert_eq!(classify_sync_exception(esr(0x21)), SyncAction::KernelPageFault);
    assert_eq!(classify_sync_exception(esr(0x25)), SyncAction::KernelPageFault);
    assert_eq!(classify_sync_exception(esr(0x11)), SyncAction::Unsupported);
    assert_eq!(classify_sync_exception(esr(0x3c)), SyncAction::Unsupported);
    assert_eq!(classify_sync_exception(esr(0x02)), SyncAction::Unsupported);
    assert_eq!(classify_sync_exception(0xffff_ffff_0000_0000 | esr(0x15)), SyncAction::Syscall);
    assert_eq!(classify_sync_exception(0x15), SyncAction::KillTask);
}

#[test]
fn kernel_data_abort_stops_the_kernel() {
    let mut k = kernel();
    let mut mgr = segments();
    let mut tf = frame(0, 0, 0, 0);
    let out = handle_sync_exception(&mut k, &mut mgr, &mut tf, esr(0x25));
    assert_eq!(out, SyscallOutcome::Abort { reason: AbortReason::KernelPageFault });
    assert_eq!(CurrentTask::get(&k).0, TaskId(2));
    assert_eq!(k.get_task(TaskId(2)).unwrap().state(), TaskState::Running);
    let out = handle_sync_exception(&mut k, &mut mgr, &mut tf, esr(0x3c));
    assert_eq!(out, SyscallOutcome::Abort { reason: AbortReason::UnsupportedException });
    assert_eq!(
        invalid_exception(TrapKind::Fiq, TrapSource::LowerAArch32),
        SyscallOutcome::Abort { reason: AbortReason::InvalidException }
    );
}

#[test]
fn user_page_fault_ends_the_task_only() {
    let mut k = kernel();
    let mut mgr = segments();
    let mut tf = frame(0, 0, 0, 0);
    let out = handle_sync_exception(&mut k, &mut mgr, &mut tf, esr(0x24));
    assert_eq!(out, SyscallOutcome::Exited { next: TaskId(3) });
    assert_eq!(k.get_task(TaskId(2)).unwrap().state(), TaskState::Zombie);
    assert_eq!(k.get_task(TaskId(2)).unwrap().exit_code(), -1);
    assert_eq!(k.get_task(TaskId(3)).unwrap().state(), TaskState::Running);
}

#[test]
fn unknown_syscall_ends_the_caller_only() {
    let mut k = kernel();
    let mut mgr = segments();
    let out = syscall(&mut k, &mut mgr, &frame(0, 0, 0, 0), 9999, 1, 2, 3);
    assert_eq!(out, SyscallOutcome::Exited { next: TaskId(3) });
    let caller = k.get_task(TaskId(2)).unwrap();
    assert_eq!(caller.state(), TaskState::Zombie);
    assert_eq!(caller.exit_code(), -1);
    assert_eq!(k.get_task(TaskId(1)).unwrap().state(), TaskState::Ready);
    assert_eq!(k.get_task(TaskId(1)).unwrap().children, vec![TaskId(2)]);
    assert_eq!(k.get_task(TaskId(3)).unwrap().state(), TaskState::Running);
    assert_eq!(k.get_task(TaskId(3)).unwrap().exit_code(), 0);
    assert_eq!(k.tasks.len(), 4);
    assert_eq!(k.spaces[0].areas.len(), 1);
    assert_eq!(mgr.slot_count(), 0);
    assert!(k.irqs_enabled);
}

#[test]
fn supervisor_call_stores_its_result_in_the_frame() {
    let mut k = kernel();
    let mut mgr = segments();
    let req = user::sys_getpid();
    let mut tf = frame(req.id as u64, req.arg0 as u64, req.arg1 as u64, req.arg2 as u64);
    let out = handle_sync_exception(&mut k, &mut mgr, &mut tf, esr(0x15));
    assert_eq!(out, SyscallOutcome::Return { ret: 2, store: UserStore::Nothing });
    assert_eq!(tf.r[0], 2);
    assert_eq!(tf.r[8], 39);
    assert!(!k.irqs_enabled);

    let req = user::sys_uintr_notice(4);
    let mut tf = frame(req.id as u64, req.arg0 as u64, req.arg1 as u64, req.arg2 as u64);
    handle_sync_exception(&mut k, &mut mgr, &mut tf, esr(0x15));
    assert_eq!(tf.r[0], u64::MAX);
}

#[test]
fn shared_memory_calls_through_the_table() {
    let mut k = kernel();
    let mut mgr = segments();
    let tf = frame(0, 0, 0, 0);
    let req = user::sys_shmget(0, 114514, 0);
    let out = syscall(&mut k, &mut mgr, &tf, req.id, req.arg0, req.arg1, req.arg2);
    assert_eq!(out, SyscallOutcome::Return { ret: 0, store: UserStore::Nothing });
    assert_eq!(mgr.shm_segments[0].creator_pid, 2);
    let req = user::sys_shmat(0, 0, 0);
    let out = syscall(&mut k, &mut mgr, &tf, req.id, req.arg0, req.arg1, req.arg2);
    assert_eq!(out, SyscallOutcome::Return { ret: 0x2000, store: UserStore::Nothing });
    let out = syscall(&mut k, &mut mgr, &tf, req.id, req.arg0, req.arg1, req.arg2);
    assert_eq!(out, SyscallOutcome::Return { ret: 0x2000 + 28 * 4096, store: UserStore::Nothing });
    assert_eq!(k.spaces[0].areas[1].frames[0], 0x5000_0000);
    assert_eq!(k.spaces[0].areas[1].frames.len(), 28);
    let out = syscall(&mut k, &mut mgr, &tf, 234, 9, 0, 0);
    assert_eq!(out, SyscallOutcome::Return { ret: -1, store: UserStore::Nothing });
    let out = syscall(&mut k, &mut mgr, &tf, 233, 0, 257 * 4096, 0);
    assert_eq!(out, SyscallOutcome::Return { ret: -1, store: UserStore::Nothing });
    let out = syscall(&mut k, &mut mgr, &tf, 233, 5, 4096, 0);
    assert_eq!(out, SyscallOutcome::Abort { reason: AbortReason::UnsupportedShmKey });
    let out = syscall(&mut k, &mut mgr, &tf, 234, 0, 0x1000, 0);
    assert_eq!(out, SyscallOutcome::Abort { reason: AbortReason::UnsupportedShmAddr });
    let out = syscall(&mut k, &mut mgr, &tf, 233, 0, 256 * 4096, 0);
    assert_eq!(out, SyscallOutcome::Return { ret: 1, store: UserStore::Nothing });
    let out = syscall(&mut k, &mut mgr, &tf, 233, 0, 256 * 4096, 0);
    assert_eq!(out, SyscallOutcome::Return { ret: 2, store: UserStore::Nothing });
    let out = syscall(&mut k, &mut mgr, &tf, 233, 0, 256 * 4096, 0);
    assert_eq!(out, SyscallOutcome::Abort { reason: AbortReason::OutOfFrames });
}

#[test]
fn stubs_fail_and_links_pass_identifiers_on() {
    let mut k = kernel();
    let mut mgr = segments();
    let tf = frame(0, 0, 0, 0);
    for id in [235, 236, 301, 304, 305] {
        let out = syscall(&mut k, &mut mgr, &tf, id, 1, 2, 3);
        assert_eq!(out, SyscallOutcome::Return { ret: -1, store: UserStore::Nothing });
    }
    let req = user::sys_uintr_register_link(0, 0x6000);
    let out = syscall(&mut k, &mut mgr, &tf, req.id, req.arg0, req.arg1, req.arg2);
    assert_eq!(out, SyscallOutcome::Return { ret: 0, store: UserStore::Word { addr: 0x6000, value: 0 } });
    assert_eq!(mgr.shm_segments[0].page_frames.len(), 1);
    let req = user::sys_uintr_register_sender(17, 0x6008);
    let out = syscall(&mut k, &mut mgr, &tf, req.id, req.arg0, req.arg1, req.arg2);
    assert_eq!(out, SyscallOutcome::Return { ret: 0, store: UserStore::Word { addr: 0x6008, value: 17 } });
    assert_eq!(mgr.slot_count(), 1);
}

#[test]
fn direct_calls_of_the_stubs() {
    assert_eq!(sys_shmdt(), -1);
    assert_eq!(sys_shmctl(), -1);
    assert_eq!(sys_uintr_register_receiver(0x1000), -1);
    assert_eq!(sys_uintr_notice(3), -1);
    assert_eq!(sys_uintr_uiret(), -1);
    let mut out = 0;
    assert_eq!(sys_uintr_register_sender(12, &mut out), 0);
    assert_eq!(out, 12);
    let k = kernel();
    let mut mgr = segments();
    let mut id = 99;
    assert_eq!(sys_uintr_register_link(&k, &mut mgr, 0, &mut id), 0);
    assert_eq!(id, 0);
    assert_eq!(mgr.shm_segments[0].creator_pid, 2);
    assert_eq!(sys_shmget(&k, &mut mgr, 0, 4, 0), 1);
    let mut k = k;
    assert_eq!(sys_shmat(&mut k, &mgr, 1, 0, 0), 0x2000);
    assert_eq!(sys_shmat(&mut k, &mgr, 7, 0, 0), -1);
    assert_eq!(sys_getpid(&k), 2);
}

#[test]
fn calls_that_need_the_outside_are_handed_on() {
    let mut k = kernel();
    let mut mgr = segments();
    let tf = frame(0, 0, 0, 0);
    let cases = [
        (user::sys_read(0, 0x100, 8), ExternalCall::Read),
        (user::sys_write(1, 0x100, 8), ExternalCall::Write),
        (user::sys_nanosleep(0x200), ExternalCall::Nanosleep),
        (user::sys_fork(), ExternalCall::Fork),
        (user::sys_exec(0x300), ExternalCall::Exec),
        (user::sys_get_time(), ExternalCall::GetTimeMs),
    ];
    for (req, call) in cases {
        let out = syscall(&mut k, &mut mgr, &tf, req.id, req.arg0, req.arg1, req.arg2);
        assert_eq!(out, SyscallOutcome::Forward { call });
        assert!(k.irqs_enabled);
    }
    let out = syscall(&mut k, &mut mgr, &tf, 228, 0, 0, 0);
    assert_eq!(out, SyscallOutcome::Forward { call: ExternalCall::ClockGettime });
    assert_eq!(k.tasks.len(), 4);
}

#[test]
fn task_calls_through_the_table() {
    let mut k = kernel();
    let mut mgr = segments();
    let tf = frame(0, 0, 0, 0);
    let out = syscall(&mut k, &mut mgr, &tf, 56, 0xb000, 0, 0);
    assert_eq!(out, SyscallOutcome::Return { ret: 4, store: UserStore::Nothing });
    assert_eq!(k.ready_queue, vec![TaskId(3), TaskId(4)]);
    let req = user::sys_yield();
    let out = syscall(&mut k, &mut mgr, &tf, req.id, req.arg0, req.arg1, req.arg2);
    assert_eq!(out, SyscallOutcome::Yielded { ret: 0, next: TaskId(3) });
    assert!(!k.irqs_enabled);
    let req = user::sys_exit(-3);
    let out = syscall(&mut k, &mut mgr, &tf, req.id, req.arg0, req.arg1, req.arg2);
    assert_eq!(out, SyscallOutcome::Exited { next: TaskId(4) });
    assert_eq!(k.get_task(TaskId(3)).unwrap().exit_code(), -3);
    let out = syscall(&mut k, &mut mgr, &tf, 24, 0, 0, 0);
    assert_eq!(out, SyscallOutcome::Yielded { ret: 0, next: TaskId(2) });
    let req = user::sys_waitpid(-1, 0x7ff0);
    let out = syscall(&mut k, &mut mgr, &tf, req.id, req.arg0, req.arg1, req.arg2);
    assert_eq!(out, SyscallOutcome::Return { ret: 3, store: UserStore::ExitCode { addr: 0x7ff0, code: -3 } });
    let out = syscall(&mut k, &mut mgr, &tf, req.id, req.arg0, req.arg1, req.arg2);
    assert_eq!(out, SyscallOutcome::Return { ret: -2, store: UserStore::Nothing });
    let req = user::sys_waitpid(3, 0x7ff0);
    let out = syscall(&mut k, &mut mgr, &tf, req.id, req.arg0, req.arg1, req.arg2);
    assert_eq!(out, SyscallOutcome::Return { ret: -1, store: UserStore::Nothing });
}

#[test]
fn kernel_tasks_cannot_clone_or_attach_and_idle_cannot_exit() {
    let mut k = TaskManager::new(0x4008_0000, 0xffff_0000);
    let mut mgr = segments();
    let tf = frame(0, 0, 0, 0);
    let misuse = SyscallOutcome::Abort { reason: AbortReason::KernelTaskMisuse };
    assert_eq!(syscall(&mut k, &mut mgr, &tf, 56, 0, 0, 0), misuse);
    assert_eq!(syscall(&mut k, &mut mgr, &tf, 234, 0, 0, 0), misuse);
    assert_eq!(syscall(&mut k, &mut mgr, &tf, 60, 0, 0, 0), misuse);
    assert_eq!(syscall(&mut k, &mut mgr, &tf, 4242, 0, 0, 0), misuse);
    assert_eq!(k.tasks.len(), 1);
}

#[test]
fn clone_stops_the_kernel_when_identifiers_run_out() {
    let mut k = kernel();
    let mut mgr = segments();
    k.next_pid = isize::MAX as usize;
    let out = syscall(&mut k, &mut mgr, &frame(0, 0, 0, 0), 56, 0xb000, 0, 0);
    assert_eq!(out, SyscallOutcome::Abort { reason: AbortReason::OutOfTaskIds });
    assert_eq!(k.tasks.len(), 4);
}

#[test]
fn fork_and_clone_queue_the_child() {
    let mut k = kernel();
    let tf = frame(0, 9, 0, 0);
    assert_eq!(sys_fork(&mut k, &tf, 0x4040_0000), 4);
    assert_eq!(sys_clone(&mut k, 0xc000, &tf), 5);
    assert_eq!(k.ready_queue, vec![TaskId(3), TaskId(4), TaskId(5)]);
    assert_eq!(k.get_task(TaskId(4)).unwrap().vm, Some(1));
    assert_eq!(k.get_task(TaskId(5)).unwrap().vm, Some(0));
    assert_eq!(k.get_task(TaskId(2)).unwrap().children, vec![TaskId(3), TaskId(4), TaskId(5)]);
}

#[test]
fn interrupt_reschedules_only_when_asked() {
    let mut k = kernel();
    assert_eq!(handle_irq_exception(&mut k, IrqHandlerResult::NoReschedule), None);
    assert_eq!(CurrentTask::get(&k).0, TaskId(2));
    assert_eq!(handle_irq_exception(&mut k, IrqHandlerResult::Reschedule), Some(TaskId(3)));
    assert_eq!(k.ready_queue, vec![TaskId(2)]);
}

#[test]
fn requests_carry_number_and_arguments() {
    let r = user::sys_shmget(0, 4096, 7);
    assert_eq!((r.id, r.arg0, r.arg1, r.arg2), (233, 0, 4096, 7));
    let r = user::sys_waitpid(-1, 0x10);
    assert_eq!((r.id, r.arg0, r.arg1, r.arg2), (61, usize::MAX, 0x10, 0));
    let r = user::sys_exit(-1);
    assert_eq!((r.id, r.arg0 as i32), (60, -1));
    assert_eq!(user::sys_uintr_register_receiver(5).id, 301);
    assert_eq!(user::sys_uintr_uiret().id, 305);
    assert_eq!(user::sys_read(3, 0x20, 9).arg2, 9);
}
