//! System calls on tasks.

use vstd::prelude::*;
use crate::arch::TrapFrame;
use crate::task::current::{released, waited, CurrentTask};
use crate::task::lifecycle::{cloned, forked};
use crate::task::manager::TaskManager;
use crate::task::structs::{Task, TaskId};

verus! {

/// Gives up the processor; the result is the task that runs next.
pub fn sys_yield(k: &mut TaskManager) -> (next: TaskId)
    requires
        old(k).wf(),
    ensures
        final(k).wf(),
        final(k).yielded(old(k), next),
{
    CurrentTask::get(k).yield_now(k)
}

/// The identifier of the running task.
pub fn sys_getpid(k: &TaskManager) -> (pid: isize)
    requires
        k.wf(),
    ensures
        pid == k.current.0,
{
    let found = k.find(k.current);
    proof {
        assert(k.tasks@[found.unwrap() as int].id.0 < k.next_pid);
    }
    k.current.as_usize() as isize
}

/// Starts a thread of the running task on the stack `newsp`, puts it on
/// the ready queue, and returns its identifier.
pub fn sys_clone(k: &mut TaskManager, newsp: usize, tf: &TrapFrame) -> (pid: isize)
    requires
        old(k).wf(),
        old(k).next_pid < isize::MAX,
        !old(k).task(old(k).current).is_kernel,
    ensures
        final(k).wf(),
        pid == old(k).next_pid,
        cloned(old(k), final(k), old(k).current, newsp, tf, TaskId(pid as usize)),
        final(k).ready_queue@ == old(k).ready_queue@.push(TaskId(pid as usize)),
        final(k).same_but_tasks(
            &TaskManager { next_pid: final(k).next_pid, ready_queue: final(k).ready_queue, ..*old(k) },
        ),
{
    let cur = k.current;
    let id = Task::new_clone(k, cur, newsp, tf);
    k.spawn(id);
    id.as_usize() as isize
}

/// Forks the running task onto a copy of its address space under the page
/// table `root`, puts the child on the ready queue, and returns its
/// identifier.
pub fn sys_fork(k: &mut TaskManager, tf: &TrapFrame, root: usize) -> (pid: isize)
    requires
        old(k).wf(),
        old(k).next_pid < isize::MAX,
        !old(k).task(old(k).current).is_kernel,
    ensures
        final(k).wf(),
        pid == old(k).next_pid,
        forked(old(k), final(k), old(k).current, tf, root, TaskId(pid as usize)),
        final(k).ready_queue@ == old(k).ready_queue@.push(TaskId(pid as usize)),
        final(k).same_but_tasks(
            &TaskManager {
                next_pid: final(k).next_pid,
                ready_queue: final(k).ready_queue,
                spaces: final(k).spaces,
                ..*old(k)
            },
        ),
{
    let cur = k.current;
    let id = Task::new_fork(k, cur, tf, root);
    k.spawn(id);
    id.as_usize() as isize
}

/// Ends the running task with `exit_code`; the result is the task that
/// runs next.
pub fn sys_exit(k: &mut TaskManager, exit_code: i32) -> (next: TaskId)
    requires
        old(k).wf(),
        old(k).current != TaskId::idle_id(),
    ensures
        final(k).wf(),
        final(k).exited(old(k), exit_code, next),
        released(old(k), final(k)),
{
    CurrentTask::get(k).exit(k, exit_code)
}

/// Collects a child of the running task, as `CurrentTask::waitpid` does.
pub fn sys_waitpid(k: &mut TaskManager, pid: isize, exit_code: &mut i32) -> (r: isize)
    requires
        old(k).wf(),
    ensures
        final(k).wf(),
        waited(old(k), final(k), pid, *old(exit_code), *final(exit_code), r),
{
    CurrentTask::get(k).waitpid(k, pid, exit_code)
}

} // verus!
