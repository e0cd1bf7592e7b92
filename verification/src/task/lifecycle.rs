//! How tasks come to be: kernel tasks, user programs, clones and forks.

use vstd::prelude::*;
use crate::arch::TrapFrame;
use crate::config::USER_ASPACE_BASE;
use crate::mm::memory_set::{top_of, MemorySet, ProgramImage};
use crate::task::manager::{has_id, index_of, lemma_index_of, owners, unique_ids, TaskManager};
use crate::task::structs::{EntryState, Task, TaskId, TaskState};

verus! {

/// Whether `tasks` is `before` with the task `id` added at its end as a
/// child of `parent`: the new task is ready, has no children and exit code
/// 0; `parent` has it as its last child; every other task is as it was.
pub open spec fn joined(before: Seq<Task>, tasks: Seq<Task>, id: TaskId, parent: Option<TaskId>) -> bool {
    let n = before.len() as int;
    &&& tasks.len() == n + 1
    &&& tasks[n].id == id
    &&& tasks[n].parent == parent
    &&& tasks[n].state == TaskState::Ready
    &&& tasks[n].exit_code == 0
    &&& tasks[n].children@.len() == 0
    &&& forall|j: int| 0 <= j < n && parent != Some((#[trigger] before[j]).id) ==> tasks[j] == before[j]
    &&& forall|j: int| 0 <= j < n && parent == Some((#[trigger] before[j]).id) ==>
            tasks[j].same_but_children(&before[j]) && tasks[j].children@ == before[j].children@.push(id)
}

/// A table that grew by a task with a new identifier names its old tasks
/// as before.
pub proof fn lemma_joined_ids(before: Seq<Task>, tasks: Seq<Task>, id: TaskId, parent: Option<TaskId>)
    requires
        unique_ids(before),
        joined(before, tasks, id, parent),
        !has_id(before, id),
    ensures
        unique_ids(tasks),
        has_id(tasks, id),
        index_of(tasks, id) == before.len(),
        forall|other: TaskId| has_id(before, other) ==> #[trigger] has_id(tasks, other),
        forall|other: TaskId| has_id(before, other) ==> #[trigger] index_of(tasks, other) == index_of(before, other),
{
    let n = before.len() as int;
    assert forall|j: int| 0 <= j < n implies (#[trigger] tasks[j]).id == before[j].id by {
        let b = before[j];
    }
    assert forall|i: int, j: int|
        #![trigger tasks[i], tasks[j]]
        0 <= i < tasks.len() && 0 <= j < tasks.len() && tasks[i].id == tasks[j].id implies i == j by {
        if i < n && j < n {
            assert(before[i].id == before[j].id);
        } else if i < n {
            assert(before[i].id == id);
        } else if j < n {
            assert(before[j].id == id);
        }
    }
    lemma_index_of(tasks, id, n);
    assert forall|other: TaskId| has_id(before, other) implies #[trigger] has_id(tasks, other)
        && index_of(tasks, other) == index_of(before, other) by {
        let i = index_of(before, other);
        assert(tasks[i].id == other);
        lemma_index_of(tasks, other, i);
    }
}

/// Adding a task to a table adds one owner to the address space that the
/// task runs on, and none to any other.
pub proof fn lemma_joined_owners(before: Seq<Task>, tasks: Seq<Task>, id: TaskId, parent: Option<TaskId>, handle: usize)
    requires
        joined(before, tasks, id, parent),
    ensures
        owners(tasks, handle) == owners(before, handle) + if tasks.last().vm == Some(handle) { 1nat } else { 0nat },
{
    let n = before.len() as int;
    let body = tasks.drop_last();
    assert(body.len() == n);
    assert forall|j: int| 0 <= j < n implies (#[trigger] body[j]).vm == before[j].vm by {
        let b = before[j];
        assert(body[j] == tasks[j]);
    }
    lemma_owners_same_vm(body, before, handle);
}

/// Two tables whose tasks run on the same address spaces, position by
/// position, count the same owners.
pub proof fn lemma_owners_same_vm(a: Seq<Task>, b: Seq<Task>, handle: usize)
    requires
        a.len() == b.len(),
        forall|j: int| 0 <= j < a.len() ==> (#[trigger] a[j]).vm == b[j].vm,
    ensures
        owners(a, handle) == owners(b, handle),
    decreases a.len(),
{
    if a.len() > 0 {
        let a0 = a.drop_last();
        let b0 = b.drop_last();
        assert forall|j: int| 0 <= j < a0.len() implies (#[trigger] a0[j]).vm == b0[j].vm by {
            assert(a0[j] == a[j]);
            assert(b0[j] == b[j]);
        }
        lemma_owners_same_vm(a0, b0, handle);
        assert(a.last() == a[a.len() - 1]);
        assert(b.last() == b[b.len() - 1]);
    }
}

/// The task `id` and its descendants in `tasks` down to `depth`
/// generations, every task before its children and these in their order. A
/// child that is not in the table is left out.
pub open spec fn subtree(tasks: Seq<Task>, id: TaskId, depth: nat) -> Seq<TaskId>
    decreases depth, 0nat, 0nat,
{
    if !has_id(tasks, id) {
        Seq::empty()
    } else if depth == 0 {
        seq![id]
    } else {
        seq![id] + forest(tasks, tasks[index_of(tasks, id)].children@, (depth - 1) as nat)
    }
}

/// The subtrees of `children`, one after the other.
pub open spec fn forest(tasks: Seq<Task>, children: Seq<TaskId>, depth: nat) -> Seq<TaskId>
    decreases depth, 1nat, children.len(),
{
    if children.len() == 0 {
        Seq::empty()
    } else {
        forest(tasks, children.drop_last(), depth) + subtree(tasks, children.last(), depth)
    }
}

/// Whether the tasks of `after` are those of `before` and one more, `id`,
/// a thread of `parent`: it runs on the address space of `parent`, which
/// thereby has one owner more, and enters user mode with the frame `tf` on
/// the stack `newsp`, with 0 as the result of the call.
pub open spec fn cloned(
    before: &TaskManager,
    after: &TaskManager,
    parent: TaskId,
    newsp: usize,
    tf: &TrapFrame,
    id: TaskId,
) -> bool {
    let t = after.task(id);
    let vm = before.task(parent).vm;
    &&& id.0 == before.next_pid
    &&& after.next_pid == before.next_pid + 1
    &&& joined(before.tasks@, after.tasks@, id, Some(parent))
    &&& has_id(after.tasks@, id)
    &&& !t.is_kernel
    &&& t.is_shared
    &&& t.vm == vm
    &&& after.task(parent).vm == vm
    &&& owners(after.tasks@, vm.unwrap()) == owners(before.tasks@, vm.unwrap()) + 1
    &&& t.entry.user_frame().is_some()
    &&& t.entry.user_frame().unwrap().r@ == tf.r@.update(0, 0u64)
    &&& t.entry.user_frame().unwrap().usp == newsp as u64
    &&& t.entry.user_frame().unwrap().elr == tf.elr
    &&& t.entry.user_frame().unwrap().spsr == tf.spsr
    &&& t.ctx.pc == before.entry_pc
    &&& t.ctx.page_table_root == before.spaces@[vm.unwrap() as int].root
    &&& !t.ctx.is_kernel
}

/// Whether `after` is `before` with one task more, `id`, a process forked
/// from `parent`: it runs on a new address space, the last one of `after`,
/// which has the page table `root` and the regions of the address space of
/// `parent`; it enters user mode with the frame `tf`, with 0 as the result
/// of the call. Every address space of `before` is as it was.
pub open spec fn forked(
    before: &TaskManager,
    after: &TaskManager,
    parent: TaskId,
    tf: &TrapFrame,
    root: usize,
    id: TaskId,
) -> bool {
    let t = after.task(id);
    let source = before.spaces@[before.task(parent).vm.unwrap() as int];
    &&& id.0 == before.next_pid
    &&& after.next_pid == before.next_pid + 1
    &&& joined(before.tasks@, after.tasks@, id, Some(parent))
    &&& has_id(after.tasks@, id)
    &&& after.spaces@.len() == before.spaces@.len() + 1
    &&& forall|h: int| 0 <= h < before.spaces@.len() ==> after.spaces@[h] == before.spaces@[h]
    &&& after.spaces@.last().root == root
    &&& after.spaces@.last().top == source.top
    &&& after.spaces@.last()@ == source@
    &&& !t.is_kernel
    &&& !t.is_shared
    &&& t.vm == Some(before.spaces@.len() as usize)
    &&& t.vm != before.task(parent).vm
    &&& t.entry.user_frame().is_some()
    &&& t.entry.user_frame().unwrap().is_result_of(*tf, 0)
    &&& t.ctx.pc == before.entry_pc
    &&& t.ctx.page_table_root == root
    &&& !t.ctx.is_kernel
}

/// Whether `after` is `before` with one task more, `id`, which runs the
/// program `image` on a new address space, the last one of `after`, with
/// the page table `root`, as a child of the root task. Every address space
/// of `before` is as it was.
pub open spec fn started(
    before: &TaskManager,
    after: &TaskManager,
    image: &ProgramImage,
    root: usize,
    id: TaskId,
) -> bool {
    let t = after.task(id);
    &&& id.0 == before.next_pid
    &&& after.next_pid == before.next_pid + 1
    &&& joined(before.tasks@, after.tasks@, id, Some(TaskId::root_id()))
    &&& has_id(after.tasks@, id)
    &&& after.spaces@.len() == before.spaces@.len() + 1
    &&& forall|h: int| 0 <= h < before.spaces@.len() ==> after.spaces@[h] == before.spaces@[h]
    &&& after.spaces@.last().root == root
    &&& after.spaces@.last().areas@ == image.areas@
    &&& after.spaces@.last().top == top_of(image.areas@, USER_ASPACE_BASE as int)
    &&& !t.is_kernel
    &&& !t.is_shared
    &&& t.vm == Some(before.spaces@.len() as usize)
    &&& t.entry.user_frame().is_some()
    &&& t.entry.user_frame().unwrap().is_user_frame(image.entry, image.ustack_top, 0)
    &&& t.ctx.pc == before.entry_pc
    &&& t.ctx.page_table_root == root
    &&& !t.ctx.is_kernel
}

/// A thread runs on the very address space of the task it was cloned
/// from; a process runs on another one, which starts out with the same
/// regions as that of the task it was forked from.
pub proof fn lemma_clone_shares_fork_copies(
    k0: &TaskManager,
    k1: &TaskManager,
    k2: &TaskManager,
    parent: TaskId,
    tf: &TrapFrame,
    newsp: usize,
    root: usize,
    thread: TaskId,
    process: TaskId,
)
    requires
        k0.wf(),
        has_id(k0.tasks@, parent),
        !k0.task(parent).is_kernel,
        cloned(k0, k1, parent, newsp, tf, thread),
        k1.spaces == k0.spaces,
        k1.wf(),
        forked(k1, k2, parent, tf, root, process),
    ensures
        k1.task(thread).vm == k0.task(parent).vm,
        k2.task(process).vm != k1.task(parent).vm,
        k2.spaces@[k2.task(process).vm.unwrap() as int]@ == k0.spaces@[k0.task(parent).vm.unwrap() as int]@,
        k2.spaces@[k0.task(parent).vm.unwrap() as int] == k0.spaces@[k0.task(parent).vm.unwrap() as int],
{
    let i = index_of(k0.tasks@, parent);
    assert(k0.tasks@[i].vm.is_some());
    assert(k0.tasks@[i].vm.unwrap() < k0.spaces@.len());
    assert(k1.task(parent).vm == k0.task(parent).vm);
    assert(k1.spaces@.len() == k1.spaces.len());
    assert(k2.task(process).vm.unwrap() == k1.spaces@.len());
    assert(k2.spaces@.last() == k2.spaces@[k1.spaces@.len() as int]);
}

/// A well-formed kernel stays so when a task with the next identifier
/// joins it, if that task runs on an address space that exists.
pub proof fn lemma_joined_wf(a: &TaskManager, b: &TaskManager, id: TaskId, parent: Option<TaskId>)
    requires
        a.wf(),
        joined(a.tasks@, b.tasks@, id, parent),
        id.0 == a.next_pid,
        b.next_pid == a.next_pid + 1,
        b.next_pid <= isize::MAX,
        b.current == a.current,
        b.tasks@.last().is_kernel == b.tasks@.last().vm.is_none(),
        b.tasks@.last().vm.is_some() ==> b.tasks@.last().vm.unwrap() < b.spaces@.len(),
        a.spaces@.len() <= b.spaces@.len(),
        forall|h: int| 0 <= h < b.spaces@.len() ==> (#[trigger] b.spaces@[h]).wf(),
    ensures
        b.wf(),
        has_id(b.tasks@, id),
        index_of(b.tasks@, id) == a.tasks@.len(),
        b.task(id) == b.tasks@.last(),
{
    let before = a.tasks@;
    let tasks = b.tasks@;
    let n = before.len() as int;
    assert(!has_id(before, id)) by {
        if has_id(before, id) {
            let i = index_of(before, id);
            assert(before[i].id.0 < a.next_pid);
        }
    }
    lemma_joined_ids(before, tasks, id, parent);
    assert forall|j: int| 0 <= j < n implies (#[trigger] tasks[j]).id == before[j].id
        && tasks[j].is_kernel == before[j].is_kernel && tasks[j].vm == before[j].vm
        && tasks[j].state == before[j].state by {
        let t = before[j];
    }
    assert forall|i: int| 0 <= i < tasks.len() implies (#[trigger] tasks[i]).id.0 < b.next_pid by {
        if i < n {
            assert(before[i].id.0 < a.next_pid);
        }
    }
    assert forall|i: int| 0 <= i < tasks.len() implies (#[trigger] tasks[i]).is_kernel == tasks[i].vm.is_none() by {
        if i < n {
            assert(before[i].is_kernel == before[i].vm.is_none());
        }
    }
    assert forall|i: int| 0 <= i < tasks.len() && (#[trigger] tasks[i]).vm.is_some() implies
        tasks[i].vm.unwrap() < b.spaces@.len() by {
        if i < n {
            assert(before[i].vm.is_some());
        }
    }
    let ci = index_of(before, a.current);
    assert(tasks[ci].state == before[ci].state);
    let ii = index_of(before, TaskId::idle_id());
    assert(tasks[ii].state == before[ii].state);
    assert(tasks[ii].is_kernel == before[ii].is_kernel);
}

/// The identifier that a well-formed kernel hands out next is larger than
/// that of every task it holds, so that no identifier is given twice.
pub proof fn lemma_next_id_is_new(k: &TaskManager, id: TaskId)
    requires
        k.wf(),
        id.0 == k.next_pid,
    ensures
        !has_id(k.tasks@, id),
        forall|i: int| 0 <= i < k.tasks@.len() ==> (#[trigger] k.tasks@[i]).id.0 < id.0,
{
    if has_id(k.tasks@, id) {
        let i = index_of(k.tasks@, id);
        assert(k.tasks@[i].id.0 < k.next_pid);
    }
}

/// Of two tasks created one after the other, the second has the larger
/// identifier, whatever happened between the two: no operation lowers the
/// identifier that is handed out next.
pub proof fn lemma_issued_ids_increase(
    k0: &TaskManager,
    k1: &TaskManager,
    k2: &TaskManager,
    k3: &TaskManager,
    first: TaskId,
    parent1: Option<TaskId>,
    second: TaskId,
    parent2: Option<TaskId>,
)
    requires
        first.0 == k0.next_pid,
        k1.next_pid == k0.next_pid + 1,
        joined(k0.tasks@, k1.tasks@, first, parent1),
        k1.next_pid <= k2.next_pid,
        second.0 == k2.next_pid,
        k3.next_pid == k2.next_pid + 1,
        joined(k2.tasks@, k3.tasks@, second, parent2),
    ensures
        first.0 < second.0,
        first != second,
{
}

impl TaskManager {
    /// Adds `task` to the table and makes it the last child of `parent`.
    fn join(&mut self, task: Task, parent: Option<TaskId>)
        requires
            unique_ids(old(self).tasks@),
            !has_id(old(self).tasks@, task.id),
            parent.is_some() ==> has_id(old(self).tasks@, parent.unwrap()),
            task.parent == parent,
            task.state == TaskState::Ready,
            task.exit_code == 0,
            task.children@.len() == 0,
        ensures
            joined(old(self).tasks@, final(self).tasks@, task.id, parent),
            final(self).tasks@.last() == task,
            final(self).same_but_tasks(old(self)),
    {
        let id = task.id;
        match parent {
            Some(p) => {
                let found = self.find(p);
                let pi = found.unwrap();
                self.tasks[pi].children.push(id);
                assert forall|j: int| 0 <= j < old(self).tasks@.len() && j != pi implies
                    (#[trigger] old(self).tasks@[j]).id != p by {
                    if old(self).tasks@[j].id == p {
                        lemma_index_of(old(self).tasks@, p, j);
                    }
                }
            },
            None => {},
        }
        self.tasks.push(task);
    }
}

impl Task {
    /// Makes `child` the last child of the task at `parent_index`.
    pub(crate) fn add_child(k: &mut TaskManager, parent_index: usize, child: TaskId)
        requires
            parent_index < old(k).tasks@.len(),
        ensures
            final(k).tasks@.len() == old(k).tasks@.len(),
            final(k).tasks@[parent_index as int].same_but_children(&old(k).tasks@[parent_index as int]),
            final(k).tasks@[parent_index as int].children@
                == old(k).tasks@[parent_index as int].children@.push(child),
            forall|j: int| 0 <= j < old(k).tasks@.len() && j != parent_index
                ==> final(k).tasks@[j] == old(k).tasks@[j],
            final(k).same_but_tasks(old(k)),
    {
        k.tasks[parent_index].children.push(child);
    }

    /// Creates a kernel task that calls the function at `entry` with `arg`.
    /// It gets the next identifier and runs on the kernel's page table. The
    /// first task made is the root task; every later one is a child of it.
    pub fn new_kernel(k: &mut TaskManager, entry: usize, arg: usize) -> (id: TaskId)
        requires
            old(k).wf(),
            old(k).next_pid < isize::MAX,
            old(k).next_pid == 1 || has_id(old(k).tasks@, TaskId::root_id()),
        ensures
            final(k).wf(),
            id.0 == old(k).next_pid,
            final(k).next_pid == old(k).next_pid + 1,
            joined(
                old(k).tasks@,
                final(k).tasks@,
                id,
                if id == TaskId::root_id() { None } else { Some(TaskId::root_id()) },
            ),
            final(k).same_but_tasks(&TaskManager { next_pid: final(k).next_pid, ..*old(k) }),
            final(k).task(id).is_kernel,
            !final(k).task(id).is_shared,
            final(k).task(id).entry == (EntryState::Kernel { pc: entry, arg }),
            final(k).task(id).vm.is_none(),
            final(k).task(id).ctx.pc == old(k).entry_pc,
            final(k).task(id).ctx.page_table_root == old(k).kernel_root,
            final(k).task(id).ctx.is_kernel,
    {
        let id = TaskId::alloc_id(&mut k.next_pid);
        let mut t = Task::new_common(id);
        t.is_kernel = true;
        t.entry = EntryState::Kernel { pc: entry, arg };
        let top = t.kstack.top();
        t.ctx.init(k.entry_pc, top, k.kernel_root, true);
        let parent = if t.is_root() { None } else { Some(TaskId(1)) };
        t.parent = parent;
        proof {
            assert(!has_id(old(k).tasks@, id)) by {
                if has_id(old(k).tasks@, id) {
                    let i = index_of(old(k).tasks@, id);
                    assert(old(k).tasks@[i].id.0 < old(k).next_pid);
                }
            }
        }
        k.join(t, parent);
        proof {
            lemma_joined_wf(old(k), k, id, parent);
        }
        id
    }

    /// Creates a user task that runs the program `image` on a new address
    /// space with the page table `root`, as a child of the root task.
    pub fn new_user(k: &mut TaskManager, image: ProgramImage, root: usize) -> (id: TaskId)
        requires
            old(k).wf(),
            old(k).next_pid < isize::MAX,
            has_id(old(k).tasks@, TaskId::root_id()),
            image.wf(),
        ensures
            final(k).wf(),
            started(old(k), final(k), &image, root, id),
            final(k).same_but_tasks(
                &TaskManager { next_pid: final(k).next_pid, spaces: final(k).spaces, ..*old(k) },
            ),
    {
        let mut vm = MemorySet::new(root);
        let ghost areas = image.areas@;
        let (entry, ustack_top) = vm.load_user(image);
        assert(vm.areas@ =~= areas);
        let id = TaskId::alloc_id(&mut k.next_pid);
        let mut t = Task::new_common(id);
        t.entry = EntryState::User(Box::new(TrapFrame::new_user(entry, ustack_top, 0)));
        let top = t.kstack.top();
        t.ctx.init(k.entry_pc, top, vm.page_table_root(), false);
        let handle = k.spaces.len();
        k.spaces.push(vm);
        t.vm = Some(handle);
        let parent = Some(TaskId(1));
        t.parent = parent;
        proof {
            assert(!has_id(old(k).tasks@, id)) by {
                if has_id(old(k).tasks@, id) {
                    let i = index_of(old(k).tasks@, id);
                    assert(old(k).tasks@[i].id.0 < old(k).next_pid);
                }
            }
        }
        k.join(t, parent);
        proof {
            lemma_joined_wf(old(k), k, id, parent);
        }
        id
    }

    /// Creates a thread of the user task `parent`: a task that runs on the
    /// very address space of `parent`, resumes from the frame `tf` on the
    /// stack `newsp`, and is a child of `parent`.
    pub fn new_clone(k: &mut TaskManager, parent: TaskId, newsp: usize, tf: &TrapFrame) -> (id: TaskId)
        requires
            old(k).wf(),
            old(k).next_pid < isize::MAX,
            has_id(old(k).tasks@, parent),
            !old(k).task(parent).is_kernel,
        ensures
            final(k).wf(),
            cloned(old(k), final(k), parent, newsp, tf, id),
            final(k).same_but_tasks(&TaskManager { next_pid: final(k).next_pid, ..*old(k) }),
    {
        let found = k.find(parent);
        let pi = found.unwrap();
        let handle = k.tasks[pi].vm.unwrap();
        let id = TaskId::alloc_id(&mut k.next_pid);
        let mut t = Task::new_common(id);
        t.is_shared = true;
        t.entry = EntryState::User(Box::new(tf.new_clone(newsp)));
        let top = t.kstack.top();
        t.ctx.init(k.entry_pc, top, k.spaces[handle].page_table_root(), false);
        t.vm = Some(handle);
        t.parent = Some(parent);
        proof {
            assert(!has_id(old(k).tasks@, id)) by {
                if has_id(old(k).tasks@, id) {
                    let i = index_of(old(k).tasks@, id);
                    assert(old(k).tasks@[i].id.0 < old(k).next_pid);
                }
            }
        }
        k.join(t, Some(parent));
        proof {
            lemma_joined_wf(old(k), k, id, Some(parent));
            lemma_joined_owners(old(k).tasks@, k.tasks@, id, Some(parent), handle);
            assert(k.tasks@[pi as int].vm == old(k).tasks@[pi as int].vm);
        }
        id
    }

    /// Creates a process forked from the user task `parent`: a task that
    /// runs on a copy of the address space of `parent` under the page table
    /// `root`, resumes from the frame `tf`, and is a child of `parent`.
    pub fn new_fork(k: &mut TaskManager, parent: TaskId, tf: &TrapFrame, root: usize) -> (id: TaskId)
        requires
            old(k).wf(),
            old(k).next_pid < isize::MAX,
            has_id(old(k).tasks@, parent),
            !old(k).task(parent).is_kernel,
        ensures
            final(k).wf(),
            forked(old(k), final(k), parent, tf, root, id),
            final(k).same_but_tasks(
                &TaskManager { next_pid: final(k).next_pid, spaces: final(k).spaces, ..*old(k) },
            ),
    {
        let found = k.find(parent);
        let pi = found.unwrap();
        let source = k.tasks[pi].vm.unwrap();
        let vm = k.spaces[source].dup(root);
        let id = TaskId::alloc_id(&mut k.next_pid);
        let mut t = Task::new_common(id);
        t.entry = EntryState::User(Box::new(tf.new_fork()));
        let top = t.kstack.top();
        t.ctx.init(k.entry_pc, top, vm.page_table_root(), false);
        let handle = k.spaces.len();
        k.spaces.push(vm);
        t.vm = Some(handle);
        t.parent = Some(parent);
        proof {
            assert(!has_id(old(k).tasks@, id)) by {
                if has_id(old(k).tasks@, id) {
                    let i = index_of(old(k).tasks@, id);
                    assert(old(k).tasks@[i].id.0 < old(k).next_pid);
                }
            }
        }
        k.join(t, Some(parent));
        proof {
            lemma_joined_wf(old(k), k, id, Some(parent));
        }
        id
    }

    /// Maps the frames `shared_paddr_vec` into the address space of the
    /// user task `id` and returns the address at which they start, or
    /// `None`, with nothing changed, when the address space has no room.
    pub fn map_shared_frames(k: &mut TaskManager, id: TaskId, shared_paddr_vec: Vec<usize>) -> (vaddr: Option<usize>)
        requires
            old(k).wf(),
            has_id(old(k).tasks@, id),
            !old(k).task(id).is_kernel,
        ensures
            final(k).wf(),
            final(k).tasks == old(k).tasks,
            final(k).same_but_tasks(&TaskManager { spaces: final(k).spaces, ..*old(k) }),
            final(k).spaces@.len() == old(k).spaces@.len(),
            forall|h: int| 0 <= h < old(k).spaces@.len() && h != old(k).task(id).vm.unwrap()
                ==> final(k).spaces@[h] == old(k).spaces@[h],
            ({
                let h = old(k).task(id).vm.unwrap() as int;
                let before = old(k).spaces@[h];
                let after = final(k).spaces@[h];
                &&& after.root == before.root
                &&& vaddr.is_some() == before.fits(shared_paddr_vec@.len() as int)
                &&& vaddr.is_none() ==> after == before
                &&& vaddr.is_some() ==> vaddr.unwrap() == before.top
                        && after.top == before.top + shared_paddr_vec@.len() * crate::config::PAGE_SIZE
                        && after@ == before@.push((before.top, shared_paddr_vec@))
            }),
    {
        let found = k.find(id);
        let i = found.unwrap();
        let h = k.tasks[i].vm.unwrap();
        k.spaces[h].map_shared_frames(shared_paddr_vec)
    }

    /// The task `id` and its descendants down to `depth` generations, in
    /// the order in which a walk visits them: every task before its
    /// children.
    pub fn traverse_to(k: &TaskManager, id: TaskId, depth: usize) -> (out: Vec<TaskId>)
        requires
            unique_ids(k.tasks@),
        ensures
            out@ == subtree(k.tasks@, id, depth as nat),
        decreases depth,
    {
        let found = k.find(id);
        let i = match found {
            Some(i) => i,
            None => {
                return Vec::new();
            },
        };
        let mut out: Vec<TaskId> = Vec::new();
        out.push(id);
        assert(out@ =~= seq![id]);
        if depth > 0 {
            let ghost children = k.tasks@[i as int].children@;
            let mut c: usize = 0;
            while c < k.tasks[i].children.len()
                invariant
                    unique_ids(k.tasks@),
                    i < k.tasks@.len(),
                    depth > 0,
                    children == k.tasks@[i as int].children@,
                    c <= children.len(),
                    out@ == seq![id] + forest(k.tasks@, children.take(c as int), (depth - 1) as nat),
                decreases children.len() - c,
            {
                let mut sub = Task::traverse_to(k, k.tasks[i].children[c], depth - 1);
                proof {
                    assert(children.take(c + 1).drop_last() =~= children.take(c as int));
                    assert(children.take(c + 1).last() == children[c as int]);
                }
                out.append(&mut sub);
                assert(out@ =~= seq![id] + forest(k.tasks@, children.take(c + 1), (depth - 1) as nat));
                c += 1;
            }
            assert(children.take(c as int) =~= children);
        }
        out
    }

    /// The task `id` and all its descendants, every task before its
    /// children. The walk goes as deep as there are tasks, which is as
    /// deep as a tree of them can be.
    pub fn traverse(k: &TaskManager, id: TaskId) -> (out: Vec<TaskId>)
        requires
            unique_ids(k.tasks@),
        ensures
            out@ == subtree(k.tasks@, id, k.tasks@.len()),
    {
        Task::traverse_to(k, id, k.tasks.len())
    }
}

} // verus!
