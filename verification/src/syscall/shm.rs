//! System calls on shared memory.

use vstd::prelude::*;
use crate::config::PAGE_SIZE;
use crate::mm::shared_memory::{create_shm_seg, get_shm_seg_paddr_vec, ShmSegManager, IPC_PRIVATE};
use crate::task::manager::TaskManager;
use crate::task::structs::Task;

verus! {

/// Creates a segment of `size` bytes for the running task and returns its
/// identifier, or -1 where `create_shm_seg` does.
pub fn sys_shmget(k: &TaskManager, mgr: &mut ShmSegManager, key: usize, size: usize, shmflg: usize) -> (shmid: isize)
    requires
        key == IPC_PRIVATE,
        old(mgr).wf(),
        old(mgr).can_back(size as int),
    ensures
        final(mgr).wf(),
        ShmSegManager::requested(*old(mgr), *final(mgr), k.current.0, size as int, shmid),
{
    create_shm_seg(mgr, k.current.as_usize(), key, size, shmflg)
}

/// Whether `after` and `addr` are what attaching the segment `shmid` of
/// `mgr` makes of `before`: the frames of the segment mapped above every
/// region of the running task's address space, `addr` being where they
/// start; or -1 and no change, where `shmid` names no valid segment or the
/// address space has no room. No task and no other address space changes.
pub open spec fn attached(
    before: &TaskManager,
    after: &TaskManager,
    mgr: &ShmSegManager,
    shmid: usize,
    addr: isize,
) -> bool {
    let h = before.task(before.current).vm.unwrap() as int;
    let space = before.spaces@[h];
    let mapped = after.spaces@[h];
    &&& after.tasks == before.tasks
    &&& after.same_but_tasks(&TaskManager { spaces: after.spaces, ..*before })
    &&& after.spaces@.len() == before.spaces@.len()
    &&& forall|g: int| 0 <= g < before.spaces@.len() && g != h ==> after.spaces@[g] == before.spaces@[g]
    &&& if mgr.is_valid_id(shmid as int) && space.fits(mgr.shm_segments@[shmid as int].page_frames@.len() as int) {
        let paddrs = mgr.shm_segments@[shmid as int].paddrs();
        &&& addr == space.top
        &&& mapped.root == space.root
        &&& mapped.top == space.top + paddrs.len() * PAGE_SIZE
        &&& mapped@ == space@.push((space.top, paddrs))
    } else {
        addr == -1 && mapped == space
    }
}

/// Maps the segment `shmid` into the address space of the running task and
/// returns the address at which it starts; -1, with nothing changed, where
/// `shmid` names no valid segment or the address space has no room.
pub fn sys_shmat(k: &mut TaskManager, mgr: &ShmSegManager, shmid: usize, shmaddr: usize, shmflg: usize) -> (addr: isize)
    requires
        shmaddr == 0,
        old(k).wf(),
        !old(k).task(old(k).current).is_kernel,
    ensures
        final(k).wf(),
        attached(old(k), final(k), mgr, shmid, addr),
{
    let paddr_vec = get_shm_seg_paddr_vec(mgr, shmid, shmaddr, shmflg);
    if let Some(shared_paddr_vec) = paddr_vec {
        let cur = k.current;
        let start_addr = Task::map_shared_frames(k, cur, shared_paddr_vec);
        if let Some(addr) = start_addr {
            addr as isize
        } else {
            -1
        }
    } else {
        -1
    }
}

/// Detaching is not offered: always -1.
pub fn sys_shmdt() -> (r: isize)
    ensures
        r == -1,
{
    -1
}

/// Control operations are not offered: always -1.
pub fn sys_shmctl() -> (r: isize)
    ensures
        r == -1,
{
    -1
}

} // verus!
