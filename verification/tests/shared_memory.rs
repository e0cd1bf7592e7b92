use kernel_core::config::PAGE_SIZE;
use kernel_core::mm::frame::FrameAllocator;
use kernel_core::mm::shared_memory::{
    create_shm_seg, get_shm_seg_paddr_vec, init_shared_memory, page_num, ShmSeg, ShmSegManager,
    IPC_PRIVATE, SHM_MAX_PAGE_NUM,
};

fn manager() -> ShmSegManager {
    ShmSegManager::new(FrameAllocator::new(0x4000_0000, 0x4000_0000 + 1024 * PAGE_SIZE))
}

#[test]
fn exactly_256_pages_succeed() {
    let mut mgr = manager();
    let id = create_shm_seg(&mut mgr, 7, IPC_PRIVATE, SHM_MAX_PAGE_NUM * PAGE_SIZE, 0);
    assert_eq!(id, 0);
    assert_eq!(mgr.shm_segments[0].page_frames.len(), 256);
    assert_eq!(mgr.shm_segments[0].creator_pid, 7);
    assert!(mgr.shm_segments[0].valid);
}

#[test]
fn more_than_256_pages_fail() {
    let mut mgr = manager();
    let id = create_shm_seg(&mut mgr, 7, IPC_PRIVATE, SHM_MAX_PAGE_NUM * PAGE_SIZE + 1, 0);
    assert_eq!(id, -1);
    assert_eq!(mgr.slot_count(), 0);
}

#[test]
fn zero_bytes_fail() {
    let mut mgr = manager();
    assert_eq!(create_shm_seg(&mut mgr, 7, IPC_PRIVATE, 0, 0), -1);
    assert_eq!(mgr.slot_count(), 0);
}

#[test]
fn size_is_rounded_up_to_pages() {
    let mut mgr = manager();
    let id = create_shm_seg(&mut mgr, 1, IPC_PRIVATE, 114514, 0);
    assert_eq!(id, 0);
    assert_eq!(mgr.shm_segments[0].page_frames.len(), 28);
    let one = create_shm_seg(&mut mgr, 1, IPC_PRIVATE, 1, 0);
    assert_eq!(one, 1);
    assert_eq!(mgr.shm_segments[1].page_frames.len(), 1);
}

#[test]
fn identifiers_rise_and_a_freed_slot_is_taken_again() {
    let mut mgr = manager();
    let a = create_shm_seg(&mut mgr, 1, IPC_PRIVATE, 4, 0);
    let b = create_shm_seg(&mut mgr, 1, IPC_PRIVATE, 4, 0);
    assert_eq!((a, b), (0, 1));
    assert!(mgr.invalidate(a as usize));
    assert!(!mgr.invalidate(a as usize));
    let c = create_shm_seg(&mut mgr, 2, IPC_PRIVATE, 2 * PAGE_SIZE, 0);
    assert_eq!(c, a);
    assert_eq!(mgr.slot_count(), 2);
    assert_eq!(mgr.shm_segments[0].creator_pid, 2);
    assert_eq!(mgr.shm_segments[0].page_frames.len(), 2);
}

#[test]
fn frames_are_zero_filled() {
    let mut mgr = manager();
    let id = create_shm_seg(&mut mgr, 1, IPC_PRIVATE, 3 * PAGE_SIZE, 0) as usize;
    for page in 0..3 {
        for offset in 0..PAGE_SIZE {
            assert_eq!(mgr.read_byte(id, page, offset), 0);
        }
    }
}

#[test]
fn frames_come_in_rising_order() {
    let mut mgr = manager();
    let id = create_shm_seg(&mut mgr, 1, IPC_PRIVATE, 2 * PAGE_SIZE, 0) as usize;
    let paddrs = get_shm_seg_paddr_vec(&mgr, id, 0, 0).unwrap();
    assert_eq!(paddrs, vec![0x4000_0000, 0x4000_0000 + PAGE_SIZE]);
    assert!(get_shm_seg_paddr_vec(&mgr, 5, 0, 0).is_none());
    mgr.invalidate(id);
    assert!(get_shm_seg_paddr_vec(&mgr, id, 0, 0).is_none());
}

#[test]
fn table_starts_empty() {
    let mgr = init_shared_memory(FrameAllocator::new(0x1000, 0x9000));
    assert_eq!(mgr.slot_count(), 0);
    assert_eq!(mgr.frames.free_frames(), 8);
    let seg = ShmSeg::zero_init();
    assert_eq!((seg.creator_pid, seg.valid, seg.key, seg.page_frames.len()), (0, false, 0, 0));
}

#[test]
fn page_counts() {
    assert_eq!(page_num(0), 0);
    assert_eq!(page_num(1), 1);
    assert_eq!(page_num(4096), 1);
    assert_eq!(page_num(4097), 2);
    assert_eq!(page_num(usize::MAX), usize::MAX / 4096 + 1);
}

#[test]
fn writes_are_seen_by_every_reader_of_the_segment() {
    let mut mgr = manager();
    let id = create_shm_seg(&mut mgr, 1, IPC_PRIVATE, 2 * PAGE_SIZE, 0) as usize;
    mgr.shm_segments[id].page_frames[1].write_byte(9, 0x5a);
    assert_eq!(mgr.read_byte(id, 1, 9), 0x5a);
    assert_eq!(mgr.read_byte(id, 0, 9), 0);
}
