//! The task: the unit of execution that the scheduler switches between.

use vstd::prelude::*;
use crate::arch::{TaskContext, TrapFrame};
use crate::config::KERNEL_STACK_SIZE;

verus! {

/// Where a task starts when it runs for the first time.
#[derive(Debug)]
pub enum EntryState {
    /// A kernel task calls the function at `pc` with `arg`.
    Kernel { pc: usize, arg: usize },
    /// A user task enters user mode with this frame.
    User(Box<TrapFrame>),
}

impl EntryState {
    /// The frame with which a user task enters user mode; a kernel task
    /// has none.
    pub open spec fn user_frame(&self) -> Option<TrapFrame> {
        match self {
            EntryState::User(frame) => Some(**frame),
            EntryState::Kernel { .. } => None,
        }
    }
}

/// Identifier of a task: 0 names the idle task, 1 the root task.
#[derive(Debug, Clone, Copy, PartialEq, Eq, Structural)]
pub struct TaskId(pub usize);

#[derive(Debug, Clone, Copy, PartialEq, Eq, Structural)]
pub enum TaskState {
    /// Waiting to be chosen by the scheduler.
    Ready,
    /// Executing on the processor.
    Running,
    /// Terminated; the exit code waits for the parent to collect it.
    Zombie,
}

impl TaskState {
    /// The number that stands for a state: 1 for ready, 2 for running, 3
    /// for zombie.
    pub open spec fn code(self) -> u8 {
        match self {
            TaskState::Ready => 1,
            TaskState::Running => 2,
            TaskState::Zombie => 3,
        }
    }

    /// The number that stands for the state.
    pub fn as_u8(self) -> (n: u8)
        ensures
            n == self.code(),
    {
        match self {
            TaskState::Ready => 1,
            TaskState::Running => 2,
            TaskState::Zombie => 3,
        }
    }

    /// The state that the number `state` stands for.
    pub fn from_u8(state: u8) -> (s: TaskState)
        requires
            1 <= state <= 3,
        ensures
            s.code() == state,
    {
        if state == 1 {
            TaskState::Ready
        } else if state == 2 {
            TaskState::Running
        } else {
            TaskState::Zombie
        }
    }
}

impl From<usize> for TaskId {
    fn from(pid: usize) -> (id: TaskId) {
        TaskId(pid)
    }
}

impl vstd::std_specs::convert::FromSpecImpl<usize> for TaskId {
    open spec fn obeys_from_spec() -> bool {
        true
    }

    open spec fn from_spec(pid: usize) -> TaskId {
        TaskId(pid)
    }
}

/// A kernel stack of `N` bytes.
pub struct Stack<const N: usize>(Vec<u8>);

impl<const N: usize> Stack<N> {
    /// The bytes of the stack.
    pub closed spec fn view(&self) -> Seq<u8> {
        self.0@
    }

    /// A fresh stack of `N` bytes, all of them zero.
    pub fn default() -> (stack: Self)
        ensures
            stack@ == Seq::new(N as nat, |i: int| 0u8),
    {
        let bytes = vec![0u8; N];
        assert(bytes@ =~= Seq::new(N as nat, |i: int| 0u8));
        Stack(bytes)
    }

    /// Address just past the last byte of the stack, found with
    /// `as_ptr_range` of the slice that holds it. Nothing is claimed of the
    /// address: the allocator chose it.
    #[verifier::external_body]
    pub fn top(&self) -> (addr: usize) {
        self.0.as_ptr_range().end as usize
    }
}

impl TaskId {
    /// The identifier of the idle task.
    pub open spec fn idle_id() -> TaskId {
        TaskId(0)
    }

    /// The identifier of the root task.
    pub open spec fn root_id() -> TaskId {
        TaskId(1)
    }

    /// Hands out the identifier that `next_pid` holds and steps `next_pid`,
    /// so that every identifier handed out is larger than all before it.
    pub fn alloc_id(next_pid: &mut usize) -> (id: TaskId)
        requires
            *old(next_pid) < usize::MAX,
        ensures
            id.0 == *old(next_pid),
            *final(next_pid) == *old(next_pid) + 1,
    {
        let id = TaskId(*next_pid);
        *next_pid = *next_pid + 1;
        id
    }

    pub fn as_usize(&self) -> (n: usize)
        ensures
            n == self.0,
    {
        self.0
    }
}

pub struct Task {
    pub id: TaskId,
    pub is_kernel: bool,
    /// Whether the task runs on the address space of its parent.
    pub is_shared: bool,
    pub state: TaskState,
    pub entry: EntryState,
    pub exit_code: i32,
    pub kstack: Stack<KERNEL_STACK_SIZE>,
    /// Saved context; written only while the task is not running.
    pub ctx: TaskContext,
    /// Handle of the task's address space; kernel tasks have none.
    pub vm: Option<usize>,
    /// The parent, by identifier: the link keeps no task alive.
    pub parent: Option<TaskId>,
    /// The children, in the order in which they were created.
    pub children: Vec<TaskId>,
}

impl Task {
    /// Whether `self` is a task that was just made for `id` and that no
    /// constructor has shaped yet.
    pub open spec fn is_blank(&self, id: TaskId) -> bool {
        &&& self.id == id
        &&& !self.is_kernel
        &&& !self.is_shared
        &&& self.state == TaskState::Ready
        &&& self.entry == (EntryState::Kernel { pc: 0, arg: 0 })
        &&& self.exit_code == 0
        &&& self.ctx == (TaskContext { sp: 0, pc: 0, page_table_root: 0, is_kernel: false })
        &&& self.vm.is_none()
        &&& self.parent.is_none()
        &&& self.children@.len() == 0
    }

    /// Whether `self` and `other` agree in everything but the scheduling
    /// state and the exit code.
    pub open spec fn same_identity(&self, other: &Task) -> bool {
        &&& self.id == other.id
        &&& self.is_kernel == other.is_kernel
        &&& self.is_shared == other.is_shared
        &&& self.entry == other.entry
        &&& self.kstack == other.kstack
        &&& self.ctx == other.ctx
        &&& self.vm == other.vm
        &&& self.parent == other.parent
        &&& self.children == other.children
    }

    /// Whether `self` and `other` agree in everything but their children.
    pub open spec fn same_but_children(&self, other: &Task) -> bool {
        &&& self.id == other.id
        &&& self.is_kernel == other.is_kernel
        &&& self.is_shared == other.is_shared
        &&& self.state == other.state
        &&& self.entry == other.entry
        &&& self.exit_code == other.exit_code
        &&& self.kstack == other.kstack
        &&& self.ctx == other.ctx
        &&& self.vm == other.vm
        &&& self.parent == other.parent
    }

    pub(crate) fn new_common(id: TaskId) -> (t: Task)
        ensures
            t.is_blank(id),
    {
        Task {
            id,
            is_kernel: false,
            is_shared: false,
            state: TaskState::Ready,
            entry: EntryState::Kernel { pc: 0, arg: 0 },
            exit_code: 0,
            kstack: Stack::default(),
            ctx: TaskContext::default(),
            vm: None,
            parent: None,
            children: Vec::new(),
        }
    }

    /// The idle task: the kernel task 0, running, with no address space.
    pub fn new_idle() -> (t: Task)
        ensures
            t.id == TaskId::idle_id(),
            t.is_kernel,
            !t.is_shared,
            t.state == TaskState::Running,
            t.entry == (EntryState::Kernel { pc: 0, arg: 0 }),
            t.exit_code == 0,
            t.vm.is_none(),
            t.parent.is_none(),
            t.children@.len() == 0,
    {
        let mut t = Task::new_common(TaskId(0));
        t.is_kernel = true;
        t.set_state(TaskState::Running);
        t
    }

    pub fn pid(&self) -> (id: TaskId)
        ensures
            id == self.id,
    {
        self.id
    }

    pub fn is_kernel_task(&self) -> (b: bool)
        ensures
            b == self.is_kernel,
    {
        self.is_kernel
    }

    pub fn is_root(&self) -> (b: bool)
        ensures
            b == (self.id == TaskId::root_id()),
    {
        self.id.as_usize() == 1
    }

    pub fn is_idle(&self) -> (b: bool)
        ensures
            b == (self.id == TaskId::idle_id()),
    {
        self.id.as_usize() == 0
    }

    pub fn is_shared_with_parent(&self) -> (b: bool)
        ensures
            b == self.is_shared,
    {
        self.is_shared
    }

    pub fn state(&self) -> (s: TaskState)
        ensures
            s == self.state,
    {
        self.state
    }

    pub(crate) fn set_state(&mut self, state: TaskState)
        ensures
            final(self).state == state,
            final(self).exit_code == old(self).exit_code,
            final(self).same_identity(old(self)),
    {
        self.state = state;
    }

    pub fn exit_code(&self) -> (code: i32)
        ensures
            code == self.exit_code,
    {
        self.exit_code
    }

    pub(crate) fn set_exit_code(&mut self, exit_code: i32)
        ensures
            final(self).exit_code == exit_code,
            final(self).state == old(self).state,
            final(self).same_identity(old(self)),
    {
        self.exit_code = exit_code;
    }

    pub(crate) fn context(&self) -> (ctx: &TaskContext)
        ensures
            *ctx == self.ctx,
    {
        &self.ctx
    }
}

} // verus!
