//! Register state that the hardware and the scheduler save and restore.

use vstd::prelude::*;

verus! {

/// Saved program status of a frame that returns to user mode with the
/// debug, error and fast interrupts masked.
pub const USER_SPSR: u64 = 0x340;

/// Snapshot of the registers at a change of privilege level.
#[derive(Clone, Copy, Debug)]
pub struct TrapFrame {
    /// General registers; the first holds an argument or a result.
    pub r: [u64; 31],
    /// User stack pointer.
    pub usp: u64,
    /// Address at which execution resumes.
    pub elr: u64,
    /// Saved program status.
    pub spsr: u64,
}

impl TrapFrame {
    /// Whether `self` is the frame `from` with its first general register,
    /// which holds the result of a call, replaced by `value`.
    pub open spec fn is_result_of(self, from: TrapFrame, value: u64) -> bool {
        &&& self.r@ == from.r@.update(0, value)
        &&& self.usp == from.usp
        &&& self.elr == from.elr
        &&& self.spsr == from.spsr
    }

    /// Whether `self` is the frame of a program about to start at `entry`
    /// on the stack `ustack_top` with first argument `arg0`: every general
    /// register zero but the first.
    pub open spec fn is_user_frame(self, entry: usize, ustack_top: usize, arg0: usize) -> bool {
        &&& self.r@ == Seq::new(31, |i: int| 0u64).update(0, arg0 as u64)
        &&& self.usp == ustack_top as u64
        &&& self.elr == entry as u64
        &&& self.spsr == USER_SPSR
    }

    /// The initial frame of a user program.
    pub fn new_user(entry: usize, ustack_top: usize, arg0: usize) -> (tf: TrapFrame)
        ensures
            tf.is_user_frame(entry, ustack_top, arg0),
    {
        let mut r: [u64; 31] = [0u64; 31];
        r[0] = arg0 as u64;
        let tf = TrapFrame { r, usp: ustack_top as u64, elr: entry as u64, spsr: USER_SPSR };
        assert(tf.r@ =~= Seq::new(31, |i: int| 0u64).update(0, arg0 as u64));
        tf
    }

    /// The frame of a thread cloned from the one that `self` belongs to: it
    /// resumes where the parent does, on the stack `newsp`, and sees 0 as
    /// the result of the call.
    pub fn new_clone(&self, newsp: usize) -> (tf: TrapFrame)
        ensures
            tf.r@ == self.r@.update(0, 0u64),
            tf.usp == newsp as u64,
            tf.elr == self.elr,
            tf.spsr == self.spsr,
    {
        let mut tf = *self;
        tf.usp = newsp as u64;
        tf.r[0] = 0;
        tf
    }

    /// The frame of a process forked from the one that `self` belongs to:
    /// the parent's frame with 0 as the result of the call.
    pub fn new_fork(&self) -> (tf: TrapFrame)
        ensures
            tf.is_result_of(*self, 0),
    {
        let mut tf = *self;
        tf.r[0] = 0;
        tf
    }
}

/// What the scheduler saves of a task that is not running.
#[derive(Clone, Copy, Debug)]
pub struct TaskContext {
    /// Stack pointer.
    pub sp: usize,
    /// Address at which the task resumes.
    pub pc: usize,
    /// Root of the page table that the task runs on.
    pub page_table_root: usize,
    /// Whether the task runs on the kernel's address space.
    pub is_kernel: bool,
}

impl TaskContext {
    /// A context that resumes nowhere.
    pub fn default() -> (ctx: TaskContext)
        ensures
            ctx == (TaskContext { sp: 0, pc: 0, page_table_root: 0, is_kernel: false }),
    {
        TaskContext { sp: 0, pc: 0, page_table_root: 0, is_kernel: false }
    }

    /// Makes the context resume at `entry` on the stack `kstack_top` with
    /// the page table `page_table_root`.
    pub fn init(&mut self, entry: usize, kstack_top: usize, page_table_root: usize, is_kernel: bool)
        ensures
            *final(self) == (TaskContext { sp: kstack_top, pc: entry, page_table_root, is_kernel }),
    {
        self.sp = kstack_top;
        self.pc = entry;
        self.page_table_root = page_table_root;
        self.is_kernel = is_kernel;
    }
}

} // verus!
