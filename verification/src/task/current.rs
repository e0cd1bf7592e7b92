//! What the running task may ask of the kernel: to yield, to exit, to
//! replace its program, and to collect a child that has exited.

use vstd::prelude::*;
use crate::arch::TrapFrame;
use crate::config::USER_ASPACE_BASE;
use crate::mm::memory_set::{top_of, ProgramImage};
use crate::task::manager::{
    has_id, index_of, lemma_index_of, lemma_same_ids, owners, unique_ids, TaskManager,
};
use crate::task::structs::{EntryState, Task, TaskId, TaskState};

verus! {

/// Result of `waitpid` when no child matches.
pub const NO_SUCH_CHILD: isize = -1;

/// Result of `waitpid` when a child matches but none of them has exited.
pub const CHILD_STILL_RUNNING: isize = -2;

/// Whether a call of `waitpid` with `pid` asks for `child`: -1 asks for any
/// child, another value for the child with that identifier.
pub open spec fn child_matches(pid: isize, child: TaskId) -> bool {
    pid == -1 || (pid >= 0 && child.0 == pid)
}

/// Whether `id` names a task of `tasks` that has exited.
pub open spec fn is_zombie(tasks: Seq<Task>, id: TaskId) -> bool {
    has_id(tasks, id) && tasks[index_of(tasks, id)].state == TaskState::Zombie
}

/// Position in `children` of the first child that `pid` asks for and that
/// has exited, or the length of `children` when there is none.
pub open spec fn first_reapable(tasks: Seq<Task>, children: Seq<TaskId>, pid: isize) -> int
    decreases children.len(),
{
    if children.len() == 0 {
        0
    } else if child_matches(pid, children[0]) && is_zombie(tasks, children[0]) {
        0
    } else {
        1 + first_reapable(tasks, children.skip(1), pid)
    }
}

/// Whether `pid` asks for any of `children`.
pub open spec fn some_child_matches(children: Seq<TaskId>, pid: isize) -> bool {
    exists|i: int| 0 <= i < children.len() && child_matches(pid, #[trigger] children[i])
}

/// Whether `tasks` is `before` without the task at `gone`, and with the
/// child at position `n` taken from the children of the task at `parent`;
/// every other task is as it was.
pub open spec fn reaped(before: Seq<Task>, tasks: Seq<Task>, parent: int, gone: int, n: int) -> bool {
    let kept = before.remove(gone);
    let p = if parent < gone { parent } else { parent - 1 };
    &&& tasks.len() == kept.len()
    &&& forall|j: int| 0 <= j < tasks.len() && j != p ==> #[trigger] tasks[j] == kept[j]
    &&& tasks[p].same_but_children(&kept[p])
    &&& tasks[p].children@ == before[parent].children@.remove(n)
}

/// `first_reapable` gives a position among the children or their number;
/// a child at that position is asked for and has exited, and no child
/// before it is both.
pub proof fn lemma_first_reapable(tasks: Seq<Task>, children: Seq<TaskId>, pid: isize)
    ensures
        0 <= first_reapable(tasks, children, pid) <= children.len(),
        first_reapable(tasks, children, pid) < children.len() ==> {
            let c = children[first_reapable(tasks, children, pid)];
            child_matches(pid, c) && is_zombie(tasks, c)
        },
        forall|j: int| 0 <= j < first_reapable(tasks, children, pid) ==>
            !(child_matches(pid, #[trigger] children[j]) && is_zombie(tasks, children[j])),
    decreases children.len(),
{
    if children.len() > 0 && !(child_matches(pid, children[0]) && is_zombie(tasks, children[0])) {
        let rest = children.skip(1);
        lemma_first_reapable(tasks, rest, pid);
        let n = first_reapable(tasks, children, pid);
        assert forall|j: int| 0 <= j < n implies
            !(child_matches(pid, #[trigger] children[j]) && is_zombie(tasks, children[j])) by {
            if j > 0 {
                assert(children[j] == rest[j - 1]);
            }
        }
        assert(n - 1 < rest.len() ==> rest[n - 1] == children[n]);
    }
}

/// A position that has the two properties of `first_reapable` is the one
/// that `first_reapable` gives.
pub proof fn lemma_first_reapable_is(tasks: Seq<Task>, children: Seq<TaskId>, pid: isize, n: int)
    requires
        0 <= n <= children.len(),
        n < children.len() ==> child_matches(pid, children[n]) && is_zombie(tasks, children[n]),
        forall|j: int| 0 <= j < n ==>
            !(child_matches(pid, #[trigger] children[j]) && is_zombie(tasks, children[j])),
    ensures
        first_reapable(tasks, children, pid) == n,
{
    lemma_first_reapable(tasks, children, pid);
}

/// A table without one of its tasks names the others as before, one
/// position lower where they stood behind the task that left.
pub proof fn lemma_removed_ids(before: Seq<Task>, gone: int)
    requires
        unique_ids(before),
        0 <= gone < before.len(),
    ensures
        unique_ids(before.remove(gone)),
        !has_id(before.remove(gone), before[gone].id),
        forall|id: TaskId| id != before[gone].id && has_id(before, id) ==> #[trigger] has_id(before.remove(gone), id),
        forall|id: TaskId| id != before[gone].id && has_id(before, id) ==>
            #[trigger] index_of(before.remove(gone), id) == if index_of(before, id) < gone {
                index_of(before, id)
            } else {
                index_of(before, id) - 1
            },
{
    let kept = before.remove(gone);
    assert forall|i: int, j: int|
        #![trigger kept[i], kept[j]]
        0 <= i < kept.len() && 0 <= j < kept.len() && kept[i].id == kept[j].id implies i == j by {
        let a = if i < gone { i } else { i + 1 };
        let b = if j < gone { j } else { j + 1 };
        assert(before[a].id == before[b].id);
    }
    if has_id(kept, before[gone].id) {
        let i = index_of(kept, before[gone].id);
        let a = if i < gone { i } else { i + 1 };
        assert(before[a].id == before[gone].id);
    }
    assert forall|id: TaskId| id != before[gone].id && has_id(before, id) implies #[trigger] has_id(kept, id) by {
        let i = index_of(before, id);
        let a = if i < gone { i } else { i - 1 };
        assert(kept[a].id == id);
    }
    assert forall|id: TaskId| id != before[gone].id && has_id(before, id) implies
        #[trigger] index_of(kept, id) == if index_of(before, id) < gone {
            index_of(before, id)
        } else {
            index_of(before, id) - 1
        } by {
        let i = index_of(before, id);
        let a = if i < gone { i } else { i - 1 };
        assert(kept[a].id == id);
        lemma_index_of(kept, id, a);
    }
}

/// Whether `after` holds the address spaces that `before` leaves when its
/// current task exits: the address space of that task is cleared where the
/// task was its only owner, and is as it was where others share it; every
/// other address space is as it was.
pub open spec fn released(before: &TaskManager, after: &TaskManager) -> bool {
    let vm = before.task(before.current).vm;
    &&& after.spaces@.len() == before.spaces@.len()
    &&& forall|h: int| 0 <= h < before.spaces@.len() && vm != Some(h as usize)
            ==> after.spaces@[h] == before.spaces@[h]
    &&& vm.is_some() ==> {
        let h = vm.unwrap();
        if owners(before.tasks@, h) == 1 {
            &&& after.spaces@[h as int].areas@.len() == 0
            &&& after.spaces@[h as int].top == USER_ASPACE_BASE
            &&& after.spaces@[h as int].root == before.spaces@[h as int].root
        } else {
            after.spaces@[h as int] == before.spaces@[h as int]
        }
    }
}

/// Whether `after` is what `before` becomes when its current task waits
/// for `pid`, the call returns `r`, and the word for the exit code goes
/// from `code_before` to `code_after`.
pub open spec fn waited(
    before: &TaskManager,
    after: &TaskManager,
    pid: isize,
    code_before: i32,
    code_after: i32,
    r: isize,
) -> bool {
    let tasks = before.tasks@;
    let parent = index_of(tasks, before.current);
    let children = tasks[parent].children@;
    let n = first_reapable(tasks, children, pid);
    &&& after.same_but_tasks(before)
    &&& if n < children.len() {
        let gone = index_of(tasks, children[n]);
        &&& r == children[n].0
        &&& code_after == tasks[gone].exit_code
        &&& reaped(tasks, after.tasks@, parent, gone, n)
        &&& !has_id(after.tasks@, children[n])
    } else {
        &&& after.tasks == before.tasks
        &&& code_after == code_before
        &&& r == if some_child_matches(children, pid) { CHILD_STILL_RUNNING } else { NO_SUCH_CHILD }
    }
}

/// A call of `waitpid` with a `pid` that none of the children has returns
/// `NO_SUCH_CHILD` and changes nothing, whatever other children there are.
pub proof fn lemma_wait_for_stranger(
    before: &TaskManager,
    after: &TaskManager,
    pid: isize,
    code_before: i32,
    code_after: i32,
    r: isize,
)
    requires
        waited(before, after, pid, code_before, code_after, r),
        !some_child_matches(before.task(before.current).children@, pid),
    ensures
        r == NO_SUCH_CHILD,
        after.tasks == before.tasks,
        code_after == code_before,
{
    let tasks = before.tasks@;
    let children = before.task(before.current).children@;
    lemma_first_reapable(tasks, children, pid);
    let n = first_reapable(tasks, children, pid);
    if n < children.len() {
        assert(child_matches(pid, children[n]));
    }
}

/// A child that `waitpid` has collected is collected once: it is no
/// longer among the children of the caller, which are one fewer, nor in
/// the table.
pub proof fn lemma_reaped_once(
    before: &TaskManager,
    after: &TaskManager,
    pid: isize,
    code_before: i32,
    code_after: i32,
    r: isize,
)
    requires
        before.wf(),
        after.wf(),
        waited(before, after, pid, code_before, code_after, r),
        r >= 0,
    ensures
        !has_id(after.tasks@, TaskId(r as usize)),
        after.task(after.current).children@.len() == before.task(before.current).children@.len() - 1,
        after.tasks@.len() == before.tasks@.len() - 1,
{
    let tasks = before.tasks@;
    let parent = index_of(tasks, before.current);
    let children = tasks[parent].children@;
    lemma_first_reapable(tasks, children, pid);
    let n = first_reapable(tasks, children, pid);
    let gone = index_of(tasks, children[n]);
    lemma_removed_ids(tasks, gone);
    let kept = tasks.remove(gone);
    let p = if parent < gone { parent } else { parent - 1 };
    assert(tasks[gone].state == TaskState::Zombie);
    assert(tasks[parent].state == TaskState::Running);
    assert(after.tasks@[p].id == kept[p].id);
    assert(kept[p].id == before.current);
    lemma_index_of(after.tasks@, before.current, p);
}

/// The address space of a task that exits stays as it is while another
/// task runs on it, and is cleared when the task was the last one on it.
pub proof fn lemma_exit_releases_last_owner_only(before: &TaskManager, after: &TaskManager)
    requires
        released(before, after),
        before.task(before.current).vm.is_some(),
    ensures
        ({
            let h = before.task(before.current).vm.unwrap();
            &&& owners(before.tasks@, h) >= 2 ==> after.spaces@[h as int] == before.spaces@[h as int]
            &&& owners(before.tasks@, h) == 1 ==> after.spaces@[h as int].areas@.len() == 0
        }),
{
}

/// What a task does when it runs for the first time.
#[derive(Debug, Clone, Copy)]
pub enum EntryAction {
    /// Call the kernel function at `pc` with `arg`, and exit with what it
    /// returns.
    CallKernel { pc: usize, arg: usize },
    /// Enter user mode with `frame`; the next trap finds the kernel stack
    /// at `kstack_top`.
    EnterUser { frame: TrapFrame, kstack_top: usize },
}

/// The first steps of every task: releases the scheduler's lock, which the
/// task that ran before still holds, enables interrupts, and says how the
/// running task starts.
pub fn task_entry(k: &mut TaskManager) -> (action: EntryAction)
    requires
        old(k).wf(),
    ensures
        final(k).wf(),
        !final(k).pending_unlock,
        final(k).irqs_enabled,
        final(k).tasks == old(k).tasks,
        final(k).ready_queue == old(k).ready_queue,
        final(k).current == old(k).current,
        final(k).same_population(old(k)),
        match old(k).task(old(k).current).entry {
            EntryState::Kernel { pc, arg } => action matches EntryAction::CallKernel { pc: p, arg: a } && p == pc
                && a == arg,
            EntryState::User(tf) => action matches EntryAction::EnterUser { frame, .. } && frame == *tf,
        },
{
    k.force_unlock();
    k.irqs_enabled = true;
    let found = k.find(k.current);
    let task = &k.tasks[found.unwrap()];
    match &task.entry {
        EntryState::Kernel { pc, arg } => EntryAction::CallKernel { pc: *pc, arg: *arg },
        EntryState::User(tf) => EntryAction::EnterUser { frame: **tf, kstack_top: task.kstack.top() },
    }
}

/// The running task, named by its identifier.
#[derive(Debug, Clone, Copy)]
pub struct CurrentTask(pub TaskId);

impl CurrentTask {
    /// The task that runs on the processor.
    pub fn get(k: &TaskManager) -> (cur: CurrentTask)
        ensures
            cur.0 == k.current,
    {
        CurrentTask(k.current)
    }

    /// Gives up the processor; the task stays ready. Returns the task that
    /// runs next.
    pub fn yield_now(&self, k: &mut TaskManager) -> (next: TaskId)
        requires
            old(k).wf(),
            self.0 == old(k).current,
        ensures
            final(k).wf(),
            final(k).yielded(old(k), next),
    {
        k.yield_current()
    }

    /// Ends the task with `exit_code` and returns the task that runs next.
    /// Where the task is the only one on its address space, the address
    /// space is cleared first; where others share it, it is left as it is.
    pub fn exit(&self, k: &mut TaskManager, exit_code: i32) -> (next: TaskId)
        requires
            old(k).wf(),
            self.0 == old(k).current,
            self.0 != TaskId::idle_id(),
        ensures
            final(k).wf(),
            final(k).exited(old(k), exit_code, next),
            released(old(k), final(k)),
    {
        let found = k.find(self.0);
        let ci = found.unwrap();
        match k.tasks[ci].vm {
            Some(h) => {
                if k.owner_count(h) == 1 {
                    k.spaces[h].clear();
                }
            },
            None => {},
        }
        k.exit_current(exit_code)
    }

    /// Replaces the program of the task by `image` and makes `tf` the frame
    /// of the new program; returns 0. Without an image, returns -1 and
    /// changes nothing.
    pub fn exec(&self, k: &mut TaskManager, image: Option<ProgramImage>, tf: &mut TrapFrame) -> (r: isize)
        requires
            old(k).wf(),
            self.0 == old(k).current,
            !old(k).task(self.0).is_kernel,
            owners(old(k).tasks@, old(k).task(self.0).vm.unwrap()) == 1,
            image.is_some() ==> image.unwrap().wf(),
        ensures
            final(k).wf(),
            final(k).tasks == old(k).tasks,
            final(k).same_but_tasks(&TaskManager { spaces: final(k).spaces, ..*old(k) }),
            final(k).spaces@.len() == old(k).spaces@.len(),
            forall|h: int| 0 <= h < old(k).spaces@.len() && old(k).task(self.0).vm != Some(h as usize)
                ==> final(k).spaces@[h] == old(k).spaces@[h],
            image.is_none() ==> r == -1 && final(k).spaces == old(k).spaces && *final(tf) == *old(tf),
            image.is_some() ==> {
                let h = old(k).task(self.0).vm.unwrap() as int;
                &&& r == 0
                &&& final(k).spaces@[h].root == old(k).spaces@[h].root
                &&& final(k).spaces@[h].areas@ == image.unwrap().areas@
                &&& final(k).spaces@[h].top == top_of(image.unwrap().areas@, USER_ASPACE_BASE as int)
                &&& final(tf).is_user_frame(image.unwrap().entry, image.unwrap().ustack_top, 0)
            },
    {
        match image {
            Some(image) => {
                let found = k.find(self.0);
                let ci = found.unwrap();
                let h = k.tasks[ci].vm.unwrap();
                let ghost areas = image.areas@;
                k.spaces[h].clear();
                let (entry, ustack_top) = k.spaces[h].load_user(image);
                assert(k.spaces@[h as int].areas@ =~= areas);
                *tf = TrapFrame::new_user(entry, ustack_top, 0);
                0
            },
            None => -1,
        }
    }

    /// Collects a child that has exited. With `pid` -1 any child will do,
    /// otherwise the child `pid` alone. The first such child that is a
    /// zombie leaves the children and the table, its exit code goes to
    /// `exit_code`, and its identifier is returned. Where a child matches
    /// but none is a zombie the result is -2, where none matches -1, and
    /// nothing changes.
    pub fn waitpid(&self, k: &mut TaskManager, pid: isize, exit_code: &mut i32) -> (r: isize)
        requires
            old(k).wf(),
            self.0 == old(k).current,
        ensures
            final(k).wf(),
            waited(old(k), final(k), pid, *old(exit_code), *final(exit_code), r),
    {
        let found = k.find(self.0);
        let ci = found.unwrap();
        let ghost tasks = k.tasks@;
        let ghost children = tasks[ci as int].children@;
        let mut found_pid = false;
        let mut idx: usize = 0;
        while idx < k.tasks[ci].children.len()
            invariant
                k.tasks@ == tasks,
                *k == *old(k),
                *exit_code == *old(exit_code),
                old(k).wf(),
                ci < tasks.len(),
                ci == index_of(tasks, self.0),
                self.0 == old(k).current,
                children == tasks[ci as int].children@,
                idx <= children.len(),
                forall|j: int| 0 <= j < idx ==>
                    !(child_matches(pid, #[trigger] children[j]) && is_zombie(tasks, children[j])),
                found_pid == exists|j: int| 0 <= j < idx && child_matches(pid, #[trigger] children[j]),
            decreases children.len() - idx,
        {
            let child = k.tasks[ci].children[idx];
            let asked = pid == -1 || (pid >= 0 && child.as_usize() == pid as usize);
            assert(asked == child_matches(pid, child));
            if asked {
                found_pid = true;
                let place = k.find(child);
                match place {
                    Some(zi) => {
                        if k.tasks[zi].state == TaskState::Zombie {
                            proof {
                                lemma_first_reapable_is(tasks, children, pid, idx as int);
                                lemma_removed_ids(tasks, zi as int);
                                assert(tasks[zi as int].id.0 < k.next_pid);
                            }
                            let _ = k.tasks[ci].children.remove(idx);
                            let ghost middle = k.tasks@;
                            let gone = k.tasks.remove(zi);
                            *exit_code = gone.exit_code;
                            proof {
                                let kept = tasks.remove(zi as int);
                                let p = if ci < zi { ci as int } else { ci - 1 };
                                let after = k.tasks@;
                                assert(after =~= middle.remove(zi as int));
                                assert(zi != ci);
                                assert forall|j: int| 0 <= j < after.len() implies (#[trigger] after[j]).id == kept[j].id
                                    && after[j].state == kept[j].state && after[j].vm == kept[j].vm
                                    && after[j].is_kernel == kept[j].is_kernel by {
                                    let a = if j < zi { j } else { j + 1 };
                                    assert(after[j] == middle[a]);
                                    assert(kept[j] == tasks[a]);
                                }
                                assert(reaped(tasks, after, ci as int, zi as int, idx as int));
                                lemma_same_ids(kept, after);
                                let cur_at = index_of(kept, self.0);
                                assert(has_id(kept, self.0));
                                let idle_at = index_of(kept, TaskId::idle_id());
                                assert(has_id(kept, TaskId::idle_id()));
                                assert forall|i: int| 0 <= i < after.len() implies (#[trigger] after[i]).id.0 < k.next_pid by {
                                    let a = if i < zi { i } else { i + 1 };
                                    assert(tasks[a].id.0 < k.next_pid);
                                }
                                assert forall|i: int| 0 <= i < after.len() implies
                                    (#[trigger] after[i]).is_kernel == after[i].vm.is_none() by {
                                    let a = if i < zi { i } else { i + 1 };
                                    assert(tasks[a].is_kernel == tasks[a].vm.is_none());
                                }
                                assert forall|i: int| 0 <= i < after.len() && (#[trigger] after[i]).vm.is_some() implies
                                    after[i].vm.unwrap() < k.spaces@.len() by {
                                    let a = if i < zi { i } else { i + 1 };
                                    assert(tasks[a].vm.is_some());
                                }
                            }
                            return gone.id.as_usize() as isize;
                        }
                    },
                    None => {},
                }
            }
            idx += 1;
        }
        proof {
            lemma_first_reapable_is(tasks, children, pid, idx as int);
        }
        if found_pid {
            CHILD_STILL_RUNNING
        } else {
            NO_SUCH_CHILD
        }
    }
}

} // verus!
