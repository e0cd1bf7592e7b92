//! Process and execution core of a small kernel: tasks and their tree,
//! the scheduler's bookkeeping, trap and system-call dispatch, and the
//! table of shared-memory segments.

pub mod arch;
pub mod config;
pub mod mm;
pub mod syscall;
pub mod task;
pub mod trap;
pub mod user;
