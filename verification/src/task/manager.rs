//! The task table, the address spaces that tasks run on, and the ready
//! queue of the scheduler.

use vstd::prelude::*;
use crate::mm::memory_set::MemorySet;
use crate::task::structs::{Task, TaskId, TaskState};

verus! {

/// Whether some task of `tasks` has the identifier `id`.
pub open spec fn has_id(tasks: Seq<Task>, id: TaskId) -> bool {
    exists|i: int| 0 <= i < tasks.len() && (#[trigger] tasks[i]).id == id
}

/// Position in `tasks` of a task with the identifier `id`.
pub open spec fn index_of(tasks: Seq<Task>, id: TaskId) -> int {
    choose|i: int| 0 <= i < tasks.len() && (#[trigger] tasks[i]).id == id
}

/// No two tasks of `tasks` have the same identifier.
pub open spec fn unique_ids(tasks: Seq<Task>) -> bool {
    forall|i: int, j: int|
        #![trigger tasks[i], tasks[j]]
        0 <= i < tasks.len() && 0 <= j < tasks.len() && tasks[i].id == tasks[j].id ==> i == j
}

/// Where identifiers are unique, the task at `i` is the one that its
/// identifier names.
pub proof fn lemma_index_of(tasks: Seq<Task>, id: TaskId, i: int)
    requires
        unique_ids(tasks),
        0 <= i < tasks.len(),
        tasks[i].id == id,
    ensures
        has_id(tasks, id),
        index_of(tasks, id) == i,
{
    let j = index_of(tasks, id);
    assert(tasks[j].id == tasks[i].id);
}

/// Two tables that hold the same identifiers at the same positions name
/// the same positions by them.
pub proof fn lemma_same_ids(a: Seq<Task>, b: Seq<Task>)
    requires
        unique_ids(a),
        a.len() == b.len(),
        forall|i: int| 0 <= i < a.len() ==> (#[trigger] a[i]).id == b[i].id,
    ensures
        unique_ids(b),
        forall|id: TaskId| #[trigger] has_id(b, id) == has_id(a, id),
        forall|id: TaskId| has_id(a, id) ==> #[trigger] index_of(b, id) == index_of(a, id),
{
    assert forall|i: int, j: int|
        #![trigger b[i], b[j]]
        0 <= i < b.len() && 0 <= j < b.len() && b[i].id == b[j].id implies i == j by {
        assert(a[i].id == a[j].id);
    }
    assert forall|id: TaskId| #[trigger] has_id(b, id) == has_id(a, id) by {
        if has_id(a, id) {
            let i = index_of(a, id);
            assert(b[i].id == id);
        }
        if has_id(b, id) {
            let i = index_of(b, id);
            assert(a[i].id == id);
        }
    }
    assert forall|id: TaskId| has_id(a, id) implies #[trigger] index_of(b, id) == index_of(a, id) by {
        let i = index_of(a, id);
        assert(b[i].id == id);
        lemma_index_of(b, id, i);
    }
}

/// Number of tasks of `tasks` that run on the address space `handle`.
pub open spec fn owners(tasks: Seq<Task>, handle: usize) -> nat
    decreases tasks.len(),
{
    if tasks.len() == 0 {
        0
    } else {
        owners(tasks.drop_last(), handle) + if tasks.last().vm == Some(handle) { 1nat } else { 0nat }
    }
}

/// `tasks` with the state of the task at `i` replaced by `state`.
pub open spec fn with_state(tasks: Seq<Task>, i: int, state: TaskState) -> Seq<Task> {
    tasks.update(i, Task { state, ..tasks[i] })
}

/// `tasks` with the exit code of the task at `i` replaced by `code`.
pub open spec fn with_exit_code(tasks: Seq<Task>, i: int, code: i32) -> Seq<Task> {
    tasks.update(i, Task { exit_code: code, ..tasks[i] })
}

/// Whether `id` names a task of `tasks` that waits to be run.
pub open spec fn is_ready(tasks: Seq<Task>, id: TaskId) -> bool {
    has_id(tasks, id) && tasks[index_of(tasks, id)].state == TaskState::Ready
}

/// Position in `queue` of the first entry that names a ready task, or the
/// length of `queue` when there is none.
pub open spec fn first_ready(tasks: Seq<Task>, queue: Seq<TaskId>) -> int
    decreases queue.len(),
{
    if queue.len() == 0 {
        0
    } else if is_ready(tasks, queue[0]) {
        0
    } else {
        1 + first_ready(tasks, queue.skip(1))
    }
}

/// The task that runs next: the first ready one of `queue`, or the idle
/// task when `queue` names none.
pub open spec fn next_task(tasks: Seq<Task>, queue: Seq<TaskId>) -> TaskId {
    let n = first_ready(tasks, queue);
    if n < queue.len() { queue[n] } else { TaskId::idle_id() }
}

/// What is left of `queue` once the next task was taken from it: the
/// entries behind the one taken.
pub open spec fn queue_after(tasks: Seq<Task>, queue: Seq<TaskId>) -> Seq<TaskId> {
    let n = first_ready(tasks, queue);
    if n < queue.len() { queue.skip(n + 1) } else { Seq::empty() }
}

/// `first_ready` gives a position of the queue or its length; an entry at
/// that position names a ready task, and no entry before it does.
pub proof fn lemma_first_ready_bounds(tasks: Seq<Task>, queue: Seq<TaskId>)
    ensures
        0 <= first_ready(tasks, queue) <= queue.len(),
        first_ready(tasks, queue) < queue.len() ==> is_ready(tasks, queue[first_ready(tasks, queue)]),
        forall|j: int| 0 <= j < first_ready(tasks, queue) ==> !is_ready(tasks, #[trigger] queue[j]),
    decreases queue.len(),
{
    if queue.len() > 0 && !is_ready(tasks, queue[0]) {
        let rest = queue.skip(1);
        lemma_first_ready_bounds(tasks, rest);
        assert forall|j: int| 0 <= j < first_ready(tasks, queue) implies !is_ready(tasks, #[trigger] queue[j]) by {
            if j > 0 {
                assert(queue[j] == rest[j - 1]);
            }
        }
        assert(first_ready(tasks, rest) < rest.len() ==> rest[first_ready(tasks, rest)] == queue[first_ready(tasks, queue)]);
    }
}

/// A position that has the two properties of `first_ready` is the one that
/// `first_ready` gives.
pub proof fn lemma_first_ready_is(tasks: Seq<Task>, queue: Seq<TaskId>, n: int)
    requires
        0 <= n <= queue.len(),
        n < queue.len() ==> is_ready(tasks, queue[n]),
        forall|j: int| 0 <= j < n ==> !is_ready(tasks, #[trigger] queue[j]),
    ensures
        first_ready(tasks, queue) == n,
{
    lemma_first_ready_bounds(tasks, queue);
}

/// All the kernel's tasks, their address spaces, and what the scheduler
/// keeps of them.
pub struct TaskManager {
    /// Every task that exists, the idle task among them.
    pub tasks: Vec<Task>,
    /// The address spaces; tasks name them by position.
    pub spaces: Vec<MemorySet>,
    /// The identifier that the next task gets.
    pub next_pid: usize,
    /// The tasks that wait to run; the first entry runs next.
    pub ready_queue: Vec<TaskId>,
    /// The task that runs on the processor.
    pub current: TaskId,
    /// Whether the scheduler's lock is still held from before the last
    /// switch: the task that resumes has to release it.
    pub pending_unlock: bool,
    /// Whether interrupts are enabled.
    pub irqs_enabled: bool,
    /// Root of the kernel's own page table.
    pub kernel_root: usize,
    /// Address at which every task starts its first run.
    pub entry_pc: usize,
}

impl TaskManager {
    /// What holds of the kernel between any two operations: identifiers
    /// are unique and below the one handed out next; kernel tasks, and
    /// they alone, have no address space; every address space that a task
    /// names exists and is well formed; the current task is in the table
    /// and running; the idle task is in the table, a kernel task, and no
    /// zombie.
    pub open spec fn wf(&self) -> bool {
        let tasks = self.tasks@;
        &&& unique_ids(tasks)
        &&& 1 <= self.next_pid <= isize::MAX
        &&& forall|i: int| 0 <= i < tasks.len() ==> (#[trigger] tasks[i]).id.0 < self.next_pid
        &&& forall|i: int| 0 <= i < tasks.len() ==> (#[trigger] tasks[i]).is_kernel == tasks[i].vm.is_none()
        &&& forall|i: int| 0 <= i < tasks.len() && (#[trigger] tasks[i]).vm.is_some()
                ==> tasks[i].vm.unwrap() < self.spaces@.len()
        &&& forall|h: int| 0 <= h < self.spaces@.len() ==> (#[trigger] self.spaces@[h]).wf()
        &&& has_id(tasks, self.current)
        &&& tasks[index_of(tasks, self.current)].state == TaskState::Running
        &&& has_id(tasks, TaskId::idle_id())
        &&& tasks[index_of(tasks, TaskId::idle_id())].state != TaskState::Zombie
        &&& tasks[index_of(tasks, TaskId::idle_id())].is_kernel
    }

    /// The task with the identifier `id`.
    pub open spec fn task(&self, id: TaskId) -> Task {
        self.tasks@[index_of(self.tasks@, id)]
    }

    /// Whether `self` and `other` differ in nothing but their tasks.
    pub open spec fn same_but_tasks(&self, other: &TaskManager) -> bool {
        &&& self.spaces == other.spaces
        &&& self.next_pid == other.next_pid
        &&& self.ready_queue == other.ready_queue
        &&& self.current == other.current
        &&& self.pending_unlock == other.pending_unlock
        &&& self.irqs_enabled == other.irqs_enabled
        &&& self.kernel_root == other.kernel_root
        &&& self.entry_pc == other.entry_pc
    }

    /// Whether `self` and `other` have the same tasks, address spaces and
    /// identifiers to hand out, and differ at most in what the scheduler
    /// keeps.
    pub open spec fn same_population(&self, other: &TaskManager) -> bool {
        &&& self.spaces == other.spaces
        &&& self.next_pid == other.next_pid
        &&& self.kernel_root == other.kernel_root
        &&& self.entry_pc == other.entry_pc
    }

    /// A table that holds the idle task alone, running, before any task was
    /// given an identifier. Interrupts are off and no lock is pending.
    pub fn new(kernel_root: usize, entry_pc: usize) -> (k: TaskManager)
        ensures
            k.wf(),
            k.tasks@.len() == 1,
            k.tasks@[0].id == TaskId::idle_id(),
            k.tasks@[0].state == TaskState::Running,
            k.tasks@[0].is_kernel,
            k.tasks@[0].vm.is_none(),
            k.tasks@[0].parent.is_none(),
            k.tasks@[0].children@.len() == 0,
            k.tasks@[0].exit_code == 0,
            k.spaces@.len() == 0,
            k.next_pid == 1,
            k.ready_queue@.len() == 0,
            k.current == TaskId::idle_id(),
            !k.pending_unlock,
            !k.irqs_enabled,
            k.kernel_root == kernel_root,
            k.entry_pc == entry_pc,
    {
        let mut tasks: Vec<Task> = Vec::new();
        tasks.push(Task::new_idle());
        let k = TaskManager {
            tasks,
            spaces: Vec::new(),
            next_pid: 1,
            ready_queue: Vec::new(),
            current: TaskId(0),
            pending_unlock: false,
            irqs_enabled: false,
            kernel_root,
            entry_pc,
        };
        assert(k.tasks@[0].id == TaskId(0));
        assert(index_of(k.tasks@, TaskId(0)) == 0);
        k
    }

    /// Position of the task `id` in the table, if there is such a task.
    pub fn find(&self, id: TaskId) -> (pos: Option<usize>)
        requires
            unique_ids(self.tasks@),
        ensures
            pos.is_some() == has_id(self.tasks@, id),
            pos.is_some() ==> pos.unwrap() == index_of(self.tasks@, id) && pos.unwrap() < self.tasks@.len(),
    {
        let mut i: usize = 0;
        while i < self.tasks.len()
            invariant
                i <= self.tasks@.len(),
                unique_ids(self.tasks@),
                forall|j: int| 0 <= j < i ==> (#[trigger] self.tasks@[j]).id != id,
            decreases self.tasks@.len() - i,
        {
            if self.tasks[i].id.as_usize() == id.as_usize() {
                proof {
                    lemma_index_of(self.tasks@, id, i as int);
                }
                return Some(i);
            }
            i += 1;
        }
        None
    }

    /// The task `id`, if there is such a task.
    pub fn get_task(&self, id: TaskId) -> (t: Option<&Task>)
        requires
            unique_ids(self.tasks@),
        ensures
            t.is_some() == has_id(self.tasks@, id),
            t.is_some() ==> *t.unwrap() == self.task(id),
    {
        match self.find(id) {
            Some(i) => Some(&self.tasks[i]),
            None => None,
        }
    }

    /// Number of tasks that run on the address space `handle`.
    pub fn owner_count(&self, handle: usize) -> (n: usize)
        ensures
            n == owners(self.tasks@, handle),
    {
        let mut n: usize = 0;
        let mut i: usize = 0;
        while i < self.tasks.len()
            invariant
                i <= self.tasks@.len(),
                n == owners(self.tasks@.take(i as int), handle),
                n <= i,
            decreases self.tasks@.len() - i,
        {
            proof {
                assert(self.tasks@.take(i + 1).drop_last() =~= self.tasks@.take(i as int));
            }
            let here = match self.tasks[i].vm {
                Some(h) => h == handle,
                None => false,
            };
            if here {
                n += 1;
            }
            i += 1;
        }
        assert(self.tasks@.take(i as int) =~= self.tasks@);
        n
    }

    /// Puts the task `id` at the end of the ready queue.
    pub fn spawn(&mut self, id: TaskId)
        ensures
            final(self).ready_queue@ == old(self).ready_queue@.push(id),
            final(self).tasks == old(self).tasks,
            final(self).current == old(self).current,
            final(self).pending_unlock == old(self).pending_unlock,
            final(self).irqs_enabled == old(self).irqs_enabled,
            final(self).same_population(old(self)),
            old(self).wf() ==> final(self).wf(),
    {
        self.ready_queue.push(id);
    }

    /// Whether `self` is what the scheduler leaves of a kernel with the
    /// tasks `tasks` and the ready queue `queue` once it has chosen the
    /// task `next` to run: `next` is the first ready task of the queue, or
    /// the idle task; it is running and current; the queue holds what stood
    /// behind it; and the lock taken for the switch is still held.
    pub open spec fn rescheduled(&self, tasks: Seq<Task>, queue: Seq<TaskId>, next: TaskId) -> bool {
        &&& next == next_task(tasks, queue)
        &&& self.ready_queue@ == queue_after(tasks, queue)
        &&& self.tasks@ == with_state(tasks, index_of(tasks, next), TaskState::Running)
        &&& self.current == next
        &&& self.pending_unlock
    }

    /// Whether `self` is what `before` becomes when its current task
    /// yields and `next` is chosen: the task that yielded is ready and, but
    /// for the idle task, last in the queue.
    pub open spec fn yielded(&self, before: &TaskManager, next: TaskId) -> bool {
        &&& self.rescheduled(
            with_state(before.tasks@, index_of(before.tasks@, before.current), TaskState::Ready),
            if before.current == TaskId::idle_id() {
                before.ready_queue@
            } else {
                before.ready_queue@.push(before.current)
            },
            next,
        )
        &&& self.irqs_enabled == before.irqs_enabled
        &&& self.same_population(before)
    }

    /// Whether `self` is what `before` becomes, but for its address
    /// spaces, when its current task exits with `exit_code` and `next` is
    /// chosen: the task that exited is a zombie with that code, and is
    /// still in the table.
    pub open spec fn exited(&self, before: &TaskManager, exit_code: i32, next: TaskId) -> bool {
        &&& self.rescheduled(
            with_state(
                with_exit_code(before.tasks@, index_of(before.tasks@, before.current), exit_code),
                index_of(before.tasks@, before.current),
                TaskState::Zombie,
            ),
            before.ready_queue@,
            next,
        )
        &&& next != before.current
        &&& has_id(self.tasks@, before.current)
        &&& self.task(before.current).state == TaskState::Zombie
        &&& self.task(before.current).exit_code == exit_code
        &&& self.irqs_enabled == before.irqs_enabled
        &&& self.next_pid == before.next_pid
        &&& self.kernel_root == before.kernel_root
        &&& self.entry_pc == before.entry_pc
        &&& self.spaces@.len() == before.spaces@.len()
    }

    /// Chooses the task that runs next and makes it current.
    fn resched(&mut self) -> (next: TaskId)
        requires
            unique_ids(old(self).tasks@),
            has_id(old(self).tasks@, TaskId::idle_id()),
        ensures
            final(self).rescheduled(old(self).tasks@, old(self).ready_queue@, next),
            has_id(old(self).tasks@, next),
            final(self).irqs_enabled == old(self).irqs_enabled,
            final(self).same_population(old(self)),
    {
        let ghost tasks = self.tasks@;
        let ghost queue = self.ready_queue@;
        let mut i: usize = 0;
        let mut chosen: Option<usize> = None;
        while i < self.ready_queue.len()
            invariant_except_break
                chosen.is_none(),
            invariant
                i <= self.ready_queue@.len(),
                self.tasks@ == tasks,
                self.ready_queue@ == queue,
                unique_ids(tasks),
                forall|j: int| 0 <= j < i ==> !is_ready(tasks, #[trigger] queue[j]),
            ensures
                chosen.is_none() ==> i == queue.len(),
                chosen.is_some() ==> i < queue.len() && is_ready(tasks, queue[i as int])
                    && chosen.unwrap() == index_of(tasks, queue[i as int]),
            decreases self.ready_queue@.len() - i,
        {
            let found = self.find(self.ready_queue[i]);
            match found {
                Some(ti) => {
                    if self.tasks[ti].state == TaskState::Ready {
                        chosen = Some(ti);
                        break;
                    }
                },
                None => {},
            }
            i += 1;
        }
        proof {
            lemma_first_ready_is(tasks, queue, i as int);
        }
        let next: TaskId;
        let ti: usize;
        match chosen {
            Some(t) => {
                next = self.ready_queue[i];
                ti = t;
                let len = self.ready_queue.len();
                assert(i < len);
                let rest = self.ready_queue.split_off(i + 1);
                self.ready_queue = rest;
                assert(self.ready_queue@ =~= queue.skip(i + 1));
            },
            None => {
                next = TaskId(0);
                let found = self.find(next);
                ti = found.unwrap();
                self.ready_queue.clear();
            },
        }
        self.tasks[ti].state = TaskState::Running;
        assert(self.tasks@ =~= with_state(tasks, ti as int, TaskState::Running));
        self.current = next;
        self.pending_unlock = true;
        next
    }

    /// Takes the processor from the current task, which stays ready, and
    /// gives it to the next one. The current task goes to the end of the
    /// ready queue, unless it is the idle task, which is never queued.
    pub fn yield_current(&mut self) -> (next: TaskId)
        requires
            old(self).wf(),
        ensures
            final(self).wf(),
            final(self).yielded(old(self), next),
    {
        let cur = self.current;
        let found = self.find(cur);
        let ci = found.unwrap();
        self.tasks[ci].state = TaskState::Ready;
        let ghost tasks1 = self.tasks@;
        proof {
            assert(tasks1 =~= with_state(old(self).tasks@, ci as int, TaskState::Ready));
            lemma_same_ids(old(self).tasks@, tasks1);
        }
        if cur.as_usize() != 0 {
            self.ready_queue.push(cur);
        }
        let next = self.resched();
        proof {
            lemma_same_ids(tasks1, self.tasks@);
            let ni = index_of(tasks1, next);
            lemma_index_of(self.tasks@, next, ni);
            let ii = index_of(old(self).tasks@, TaskId::idle_id());
            lemma_index_of(self.tasks@, TaskId::idle_id(), ii);
        }
        next
    }

    /// Ends the current task with `exit_code`: it becomes a zombie, stays
    /// in the table for its parent to collect, and the processor goes to
    /// the next task.
    pub fn exit_current(&mut self, exit_code: i32) -> (next: TaskId)
        requires
            old(self).wf(),
            old(self).current != TaskId::idle_id(),
        ensures
            final(self).wf(),
            final(self).exited(old(self), exit_code, next),
            final(self).spaces == old(self).spaces,
    {
        let cur = self.current;
        let found = self.find(cur);
        let ci = found.unwrap();
        self.tasks[ci].exit_code = exit_code;
        self.tasks[ci].state = TaskState::Zombie;
        let ghost tasks1 = self.tasks@;
        proof {
            assert(tasks1 =~= with_state(
                with_exit_code(old(self).tasks@, ci as int, exit_code),
                ci as int,
                TaskState::Zombie,
            ));
            lemma_same_ids(old(self).tasks@, tasks1);
            lemma_first_ready_bounds(tasks1, self.ready_queue@);
        }
        let next = self.resched();
        proof {
            lemma_same_ids(tasks1, self.tasks@);
            let ni = index_of(tasks1, next);
            lemma_index_of(self.tasks@, next, ni);
            let ii = index_of(old(self).tasks@, TaskId::idle_id());
            lemma_index_of(self.tasks@, TaskId::idle_id(), ii);
            lemma_index_of(self.tasks@, cur, ci as int);
        }
        next
    }

    /// Releases the scheduler's lock on behalf of the task that held it
    /// before the switch.
    pub fn force_unlock(&mut self)
        ensures
            !final(self).pending_unlock,
            final(self).tasks == old(self).tasks,
            final(self).ready_queue == old(self).ready_queue,
            final(self).current == old(self).current,
            final(self).irqs_enabled == old(self).irqs_enabled,
            final(self).same_population(old(self)),
            old(self).wf() ==> final(self).wf(),
    {
        self.pending_unlock = false;
    }
}

} // verus!
