//! Tasks, the table that holds them, and the scheduler's bookkeeping.

pub mod current;
pub mod lifecycle;
pub mod manager;
pub mod structs;
