//! System calls on user interrupts. Only the shared channel of a link is
//! set up; delivery is not offered.

use vstd::prelude::*;
use crate::mm::shared_memory::{create_shm_seg, ShmSegManager, IPC_PRIVATE};
use crate::task::manager::TaskManager;

verus! {

/// Size in bytes of the channel that a link shares.
pub const UINTR_LINK_SIZE: usize = 1024;

/// Registering a receiver is not offered: always -1.
pub fn sys_uintr_register_receiver(handler: usize) -> (r: isize)
    ensures
        r == -1,
{
    -1
}

/// Sets up a link: creates a private segment of `UINTR_LINK_SIZE` bytes for the
/// running task, stores its identifier in `shmem_id` too, and returns it.
/// Where no segment can be created the result is -1 and `shmem_id` holds
/// the largest word.
pub fn sys_uintr_register_link(k: &TaskManager, mgr: &mut ShmSegManager, vector: usize, shmem_id: &mut usize) -> (id: isize)
    requires
        old(mgr).wf(),
        old(mgr).can_back(UINTR_LINK_SIZE as int),
    ensures
        final(mgr).wf(),
        ShmSegManager::requested(*old(mgr), *final(mgr), k.current.0, UINTR_LINK_SIZE as int, id),
        *final(shmem_id) == if id >= 0 { id as usize } else { usize::MAX },
{
    let id = create_shm_seg(mgr, k.current.as_usize(), IPC_PRIVATE, UINTR_LINK_SIZE, 0);
    if id >= 0 {
        *shmem_id = id as usize;
    } else {
        *shmem_id = usize::MAX;
    }
    id
}

/// Registers a sender on the link `link_id`: stores `link_id` in
/// `shmem_id` and returns 0.
pub fn sys_uintr_register_sender(link_id: usize, shmem_id: &mut usize) -> (r: isize)
    ensures
        r == 0,
        *final(shmem_id) == link_id,
{
    *shmem_id = link_id;
    0
}

/// Sending a notice is not offered: always -1.
pub fn sys_uintr_notice(index: usize) -> (r: isize)
    ensures
        r == -1,
{
    -1
}

/// Returning from a user interrupt is not offered: always -1.
pub fn sys_uintr_uiret() -> (r: isize)
    ensures
        r == -1,
{
    -1
}

} // verus!
