//! Memory management: physical frames, address spaces, shared memory.

pub mod frame;
pub mod memory_set;
pub mod shared_memory;
