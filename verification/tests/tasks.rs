use kernel_core::arch::{TrapFrame, USER_SPSR};
use kernel_core::mm::memory_set::{MapArea, ProgramImage};
use kernel_core::task::current::{task_entry, CurrentTask, EntryAction};
use kernel_core::task::manager::TaskManager;
use kernel_core::task::structs::{EntryState, Stack, Task, TaskId, TaskState};

const KERNEL_ROOT: usize = 0x4008_0000;
const ENTRY_PC: usize = 0xffff_0000;

fn image() -> ProgramImage {
    ProgramImage {
        entry: 0x1000,
        ustack_top: 0x8000,
        areas: vec![MapArea { start: 0x1000, frames: vec![0x4010_0000, 0x4010_1000] }],
    }
}

/// A kernel with the idle task, the root task 1 and the user task 2, which runs.
fn kernel_with_user() -> TaskManager {
    let mut k = TaskManager::new(KERNEL_ROOT, ENTRY_PC);
    let root = Task::new_kernel(&mut k, 0x2000, 5);
    assert_eq!(root, TaskId(1));
    let user = Task::new_user(&mut k, image(), 0x4020_0000);
    assert_eq!(user, TaskId(2));
    k.spawn(user);
    let next = CurrentTask::get(&k).yield_now(&mut k);
    assert_eq!(next, user);
    k
}

fn frame() -> TrapFrame {
    let mut r = [0u64; 31];
    r[0] = 11;
    r[5] = 55;
    TrapFrame { r, usp: 0x7000, elr: 0x1234, spsr: USER_SPSR }
}

fn task(k: &TaskManager, id: usize) -> &Task {
    k.get_task(TaskId(id)).unwrap()
}

#[test]
fn idle_task_is_task_zero() {
    let t = Task::new_idle();
    assert_eq!(t.pid().as_usize(), 0);
    assert!(t.is_idle());
    assert!(!t.is_root());
    assert!(t.is_kernel_task());
    assert!(!t.is_shared_with_parent());
    assert_eq!(t.state(), TaskState::Running);
    assert_eq!(t.exit_code(), 0);
    assert!(t.vm.is_none());
}

#[test]
fn new_kernel_starts_with_the_idle_task_running() {
    let k = TaskManager::new(KERNEL_ROOT, ENTRY_PC);
    assert_eq!(k.tasks.len(), 1);
    assert_eq!(CurrentTask::get(&k).0, TaskId(0));
    assert_eq!(k.next_pid, 1);
    assert!(k.ready_queue.is_empty());
}

#[test]
fn identifiers_rise_by_one() {
    let mut k = TaskManager::new(KERNEL_ROOT, ENTRY_PC);
    let a = Task::new_kernel(&mut k, 1, 0);
    let b = Task::new_kernel(&mut k, 2, 0);
    let c = Task::new_user(&mut k, image(), 0x4020_0000);
    assert_eq!((a.as_usize(), b.as_usize(), c.as_usize()), (1, 2, 3));
    assert_eq!(k.next_pid, 4);
    let mut next = 7;
    assert_eq!(TaskId::alloc_id(&mut next), TaskId(7));
    assert_eq!(next, 8);
}

#[test]
fn root_task_has_no_parent_and_adopts_later_tasks() {
    let mut k = TaskManager::new(KERNEL_ROOT, ENTRY_PC);
    let root = Task::new_kernel(&mut k, 0x2000, 5);
    let worker = Task::new_kernel(&mut k, 0x3000, 6);
    let user = Task::new_user(&mut k, image(), 0x4020_0000);
    assert!(task(&k, 1).is_root());
    assert_eq!(task(&k, 1).parent, None);
    assert_eq!(task(&k, 1).children, vec![worker, user]);
    assert_eq!(task(&k, 2).parent, Some(root));
    assert_eq!(task(&k, 3).parent, Some(root));
    assert!(task(&k, 2).is_kernel_task());
    assert!(matches!(task(&k, 2).entry, EntryState::Kernel { pc: 0x3000, arg: 6 }));
    assert_eq!(task(&k, 2).ctx.pc, ENTRY_PC);
    assert_eq!(task(&k, 2).ctx.page_table_root, KERNEL_ROOT);
    assert!(task(&k, 2).ctx.is_kernel);
    assert_eq!(task(&k, 2).ctx.sp, task(&k, 2).kstack.top());
    assert_eq!(task(&k, 2).state(), TaskState::Ready);
}

#[test]
fn user_task_gets_a_new_address_space() {
    let k = kernel_with_user();
    let t = task(&k, 2);
    assert!(!t.is_kernel_task());
    assert!(!t.is_shared_with_parent());
    assert_eq!(t.vm, Some(0));
    assert_eq!(k.spaces.len(), 1);
    assert_eq!(k.spaces[0].root, 0x4020_0000);
    assert_eq!(k.spaces[0].areas.len(), 1);
    assert_eq!(k.spaces[0].top, 0x3000);
    assert_eq!(t.ctx.page_table_root, 0x4020_0000);
    match &t.entry {
        EntryState::User(tf) => {
            assert_eq!(tf.elr, 0x1000);
            assert_eq!(tf.usp, 0x8000);
            assert_eq!(tf.spsr, USER_SPSR);
            assert_eq!(tf.r, [0u64; 31]);
        }
        EntryState::Kernel { .. } => panic!("a user task enters user mode"),
    }
}

#[test]
fn clone_shares_the_address_space() {
    let mut k = kernel_with_user();
    let child = Task::new_clone(&mut k, TaskId(2), 0x9000, &frame());
    assert_eq!(child, TaskId(3));
    let t = task(&k, 3);
    assert!(t.is_shared_with_parent());
    assert_eq!(t.vm, task(&k, 2).vm);
    assert_eq!(k.spaces.len(), 1);
    assert_eq!(k.owner_count(0), 2);
    assert_eq!(t.parent, Some(TaskId(2)));
    assert_eq!(task(&k, 2).children, vec![child]);
    match &t.entry {
        EntryState::User(tf) => {
            assert_eq!(tf.usp, 0x9000);
            assert_eq!(tf.elr, 0x1234);
            assert_eq!(tf.r[0], 0);
            assert_eq!(tf.r[5], 55);
        }
        EntryState::Kernel { .. } => panic!("a clone enters user mode"),
    }
    let addr = Task::map_shared_frames(&mut k, child, vec![0x5000_0000]);
    assert_eq!(addr, Some(0x3000));
    assert_eq!(k.spaces[task(&k, 2).vm.unwrap()].areas.len(), 2);
}

#[test]
fn fork_copies_the_address_space() {
    let mut k = kernel_with_user();
    let child = Task::new_fork(&mut k, TaskId(2), &frame(), 0x4030_0000);
    let t = task(&k, 3);
    assert!(!t.is_shared_with_parent());
    assert_eq!(t.vm, Some(1));
    assert_eq!(k.spaces.len(), 2);
    assert_eq!(k.spaces[1].root, 0x4030_0000);
    assert_eq!(k.spaces[1].areas.len(), k.spaces[0].areas.len());
    assert_eq!(k.spaces[1].areas[0].start, k.spaces[0].areas[0].start);
    assert_eq!(k.spaces[1].areas[0].frames, k.spaces[0].areas[0].frames);
    assert_eq!(k.owner_count(0), 1);
    assert_eq!(k.owner_count(1), 1);
    match &t.entry {
        EntryState::User(tf) => {
            assert_eq!(tf.usp, 0x7000);
            assert_eq!(tf.r[0], 0);
            assert_eq!(tf.r[5], 55);
        }
        EntryState::Kernel { .. } => panic!("a fork enters user mode"),
    }
    let addr = Task::map_shared_frames(&mut k, child, vec![0x5000_0000, 0x5000_1000]);
    assert_eq!(addr, Some(0x3000));
    assert_eq!(k.spaces[1].areas.len(), 2);
    assert_eq!(k.spaces[1].top, 0x5000);
    assert_eq!(k.spaces[0].areas.len(), 1);
    assert_eq!(k.spaces[0].top, 0x3000);
}

#[test]
fn yield_moves_the_task_to_the_end_of_the_queue() {
    let mut k = kernel_with_user();
    let a = Task::new_clone(&mut k, TaskId(2), 0x9000, &frame());
    let b = Task::new_clone(&mut k, TaskId(2), 0xa000, &frame());
    k.spawn(a);
    k.spawn(b);
    let next = CurrentTask::get(&k).yield_now(&mut k);
    assert_eq!(next, a);
    assert_eq!(k.ready_queue, vec![b, TaskId(2)]);
    assert_eq!(task(&k, 2).state(), TaskState::Ready);
    assert_eq!(task(&k, 3).state(), TaskState::Running);
    assert!(k.pending_unlock);
    k.force_unlock();
    assert!(!k.pending_unlock);
}

#[test]
fn idle_runs_when_nothing_is_ready_and_is_never_queued() {
    let mut k = kernel_with_user();
    let next = CurrentTask::get(&k).exit(&mut k, 0);
    assert_eq!(next, TaskId(0));
    assert_eq!(task(&k, 0).state(), TaskState::Running);
    let again = CurrentTask::get(&k).yield_now(&mut k);
    assert_eq!(again, TaskId(0));
    assert!(k.ready_queue.is_empty());
}

#[test]
fn stale_queue_entries_are_passed_over() {
    let mut k = kernel_with_user();
    let a = Task::new_clone(&mut k, TaskId(2), 0x9000, &frame());
    k.spawn(TaskId(77));
    k.spawn(a);
    let next = CurrentTask::get(&k).yield_now(&mut k);
    assert_eq!(next, a);
    assert_eq!(k.ready_queue, vec![TaskId(2)]);
}

#[test]
fn exit_of_sole_owner_clears_the_address_space() {
    let mut k = kernel_with_user();
    assert_eq!(k.owner_count(0), 1);
    let next = CurrentTask::get(&k).exit(&mut k, 3);
    assert_eq!(next, TaskId(0));
    assert!(k.spaces[0].areas.is_empty());
    assert_eq!(k.spaces[0].top, 0);
    assert_eq!(k.spaces[0].root, 0x4020_0000);
    assert_eq!(task(&k, 2).state(), TaskState::Zombie);
    assert_eq!(task(&k, 2).exit_code(), 3);
    assert_eq!(task(&k, 1).children, vec![TaskId(2)]);
}

#[test]
fn exit_of_one_sharer_leaves_the_address_space() {
    let mut k = kernel_with_user();
    let a = Task::new_clone(&mut k, TaskId(2), 0x9000, &frame());
    k.spawn(a);
    let next = CurrentTask::get(&k).exit(&mut k, 0);
    assert_eq!(next, a);
    assert_eq!(k.spaces[0].areas.len(), 1);
    assert_eq!(k.spaces[0].top, 0x3000);
    assert_eq!(k.owner_count(0), 2);
}

/// Task 2 runs and has the children 3 (ready) and 4 (zombie, code 7).
fn parent_of_ready_and_zombie() -> TaskManager {
    let mut k = kernel_with_user();
    let a = Task::new_clone(&mut k, TaskId(2), 0x9000, &frame());
    let b = Task::new_clone(&mut k, TaskId(2), 0xa000, &frame());
    k.spawn(a);
    k.spawn(b);
    assert_eq!(CurrentTask::get(&k).yield_now(&mut k), a);
    assert_eq!(CurrentTask::get(&k).yield_now(&mut k), b);
    assert_eq!(CurrentTask::get(&k).exit(&mut k, 7), TaskId(2));
    assert_eq!(task(&k, 3).state(), TaskState::Ready);
    assert_eq!(task(&k, 4).state(), TaskState::Zombie);
    k
}

#[test]
fn waitpid_any_collects_the_zombie_once() {
    let mut k = parent_of_ready_and_zombie();
    let mut code = 0;
    let r = CurrentTask::get(&k).waitpid(&mut k, -1, &mut code);
    assert_eq!(r, 4);
    assert_eq!(code, 7);
    assert_eq!(task(&k, 2).children, vec![TaskId(3)]);
    assert!(k.get_task(TaskId(4)).is_none());
    assert_eq!(k.owner_count(0), 2);
    let mut second = 99;
    let again = CurrentTask::get(&k).waitpid(&mut k, -1, &mut second);
    assert_eq!(again, -2);
    assert_eq!(second, 99);
    let mut third = 99;
    assert_eq!(CurrentTask::get(&k).waitpid(&mut k, 4, &mut third), -1);
    assert_eq!(third, 99);
}

#[test]
fn waitpid_for_a_stranger_finds_no_child() {
    let mut k = parent_of_ready_and_zombie();
    let mut code = 5;
    assert_eq!(CurrentTask::get(&k).waitpid(&mut k, 99, &mut code), -1);
    assert_eq!(CurrentTask::get(&k).waitpid(&mut k, 1, &mut code), -1);
    assert_eq!(CurrentTask::get(&k).waitpid(&mut k, -5, &mut code), -1);
    assert_eq!(code, 5);
    assert_eq!(task(&k, 2).children, vec![TaskId(3), TaskId(4)]);
}

#[test]
fn waitpid_by_identifier() {
    let mut k = parent_of_ready_and_zombie();
    let mut code = 0;
    assert_eq!(CurrentTask::get(&k).waitpid(&mut k, 3, &mut code), -2);
    assert_eq!(code, 0);
    assert_eq!(CurrentTask::get(&k).waitpid(&mut k, 4, &mut code), 4);
    assert_eq!(code, 7);
    assert_eq!(task(&k, 2).children, vec![TaskId(3)]);
}

#[test]
fn waitpid_without_children() {
    let mut k = kernel_with_user();
    let mut code = 1;
    assert_eq!(CurrentTask::get(&k).waitpid(&mut k, -1, &mut code), -1);
    assert_eq!(code, 1);
}

#[test]
fn exec_replaces_the_program() {
    let mut k = kernel_with_user();
    let mut tf = frame();
    let new_image = ProgramImage {
        entry: 0x40_0000,
        ustack_top: 0x80_0000,
        areas: vec![MapArea { start: 0x40_0000, frames: vec![0x4100_0000] }],
    };
    assert_eq!(CurrentTask::get(&k).exec(&mut k, Some(new_image), &mut tf), 0);
    assert_eq!(tf.elr, 0x40_0000);
    assert_eq!(tf.usp, 0x80_0000);
    assert_eq!(tf.r, [0u64; 31]);
    assert_eq!(k.spaces[0].areas.len(), 1);
    assert_eq!(k.spaces[0].areas[0].start, 0x40_0000);
    assert_eq!(k.spaces[0].top, 0x40_1000);
    let mut kept = frame();
    assert_eq!(CurrentTask::get(&k).exec(&mut k, None, &mut kept), -1);
    assert_eq!(kept.elr, 0x1234);
    assert_eq!(k.spaces[0].areas.len(), 1);
}

#[test]
fn first_run_releases_the_lock_and_enables_interrupts() {
    let mut k = kernel_with_user();
    assert!(k.pending_unlock);
    match task_entry(&mut k) {
        EntryAction::EnterUser { frame, kstack_top } => {
            assert_eq!(frame.elr, 0x1000);
            assert_eq!(kstack_top, task(&k, 2).kstack.top());
        }
        EntryAction::CallKernel { .. } => panic!("task 2 is a user task"),
    }
    assert!(!k.pending_unlock);
    assert!(k.irqs_enabled);

    let mut k = TaskManager::new(KERNEL_ROOT, ENTRY_PC);
    let root = Task::new_kernel(&mut k, 0x2000, 5);
    k.spawn(root);
    assert_eq!(CurrentTask::get(&k).yield_now(&mut k), root);
    assert!(matches!(task_entry(&mut k), EntryAction::CallKernel { pc: 0x2000, arg: 5 }));
}

#[test]
fn stack_has_its_size_and_a_top() {
    let a: Stack<4096> = Stack::default();
    let b: Stack<4096> = Stack::default();
    assert_ne!(a.top(), 0);
    assert_ne!(a.top(), b.top());
}

#[test]
fn task_state_numbers() {
    assert_eq!(TaskState::Ready.as_u8(), 1);
    assert_eq!(TaskState::Running.as_u8(), 2);
    assert_eq!(TaskState::Zombie.as_u8(), 3);
    assert_eq!(TaskState::from_u8(3), TaskState::Zombie);
    assert_eq!(TaskState::from_u8(1), TaskState::Ready);
    assert_eq!(TaskId::from(9).as_usize(), 9);
}

#[test]
fn traverse_lists_parents_before_children() {
    let mut k = kernel_with_user();
    let a = Task::new_clone(&mut k, TaskId(2), 0x9000, &frame());
    let b = Task::new_fork(&mut k, TaskId(2), &frame(), 0x4030_0000);
    let c = Task::new_clone(&mut k, a, 0xa000, &frame());
    let worker = Task::new_kernel(&mut k, 0x3000, 0);
    assert_eq!(Task::traverse(&k, TaskId(1)), vec![TaskId(1), TaskId(2), a, c, b, worker]);
    assert_eq!(Task::traverse(&k, a), vec![a, c]);
    assert_eq!(Task::traverse(&k, TaskId(0)), vec![TaskId(0)]);
    assert_eq!(Task::traverse(&k, TaskId(42)), vec![]);
    assert_eq!(Task::traverse_to(&k, TaskId(1), 1), vec![TaskId(1), TaskId(2), worker]);
    assert_eq!(Task::traverse_to(&k, TaskId(1), 0), vec![TaskId(1)]);
}
