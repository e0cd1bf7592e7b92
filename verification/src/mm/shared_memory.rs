//! The table of shared-memory segments.
//!
//! A segment is a group of physical frames that several address spaces may
//! map. Segments are named by their slot in the table; a freed slot is
//! taken again before the table grows.

use vstd::prelude::*;
use crate::config::PAGE_SIZE;
use crate::mm::frame::{FrameAllocator, PhysFrame};

verus! {

/// The only key that `create_shm_seg` accepts.
pub const IPC_PRIVATE: usize = 0;

/// Largest number of pages that one segment may hold.
pub const SHM_MAX_PAGE_NUM: usize = 256;

/// One shared-memory segment.
pub struct ShmSeg {
    pub creator_pid: usize,
    pub valid: bool,
    pub key: usize,
    pub page_frames: Vec<PhysFrame>,
}

impl ShmSeg {
    /// The start addresses of the segment's frames, in order.
    pub open spec fn paddrs(&self) -> Seq<usize> {
        Seq::new(self.page_frames@.len(), |i: int| self.page_frames@[i].start)
    }

    /// Every frame of the segment reads as zero.
    pub open spec fn is_zeroed(&self) -> bool {
        forall|i: int| 0 <= i < self.page_frames@.len() ==> (#[trigger] self.page_frames@[i]).is_zeroed()
    }

    /// An unused slot: invalid, no creator, no frames.
    pub fn zero_init() -> (seg: Self)
        ensures
            seg.creator_pid == 0,
            !seg.valid,
            seg.key == 0,
            seg.page_frames@.len() == 0,
    {
        ShmSeg { creator_pid: 0, valid: false, key: 0, page_frames: Vec::new() }
    }
}

/// Number of pages needed to hold `size` bytes.
pub open spec fn page_count(size: int) -> int {
    (size + PAGE_SIZE - 1) / (PAGE_SIZE as int)
}

/// `slot` is the first slot of `segs` that is not valid, or the length of
/// `segs` when every slot is valid.
pub open spec fn is_first_free_slot(segs: Seq<ShmSeg>, slot: int) -> bool {
    &&& 0 <= slot <= segs.len()
    &&& forall|j: int| 0 <= j < slot ==> (#[trigger] segs[j]).valid
    &&& slot < segs.len() ==> !segs[slot].valid
}

/// The table of segments together with the allocator that backs them.
pub struct ShmSegManager {
    pub shm_segments: Vec<ShmSeg>,
    pub frames: FrameAllocator,
}

impl ShmSegManager {
    /// The allocator is well formed, and every slot has an identifier that
    /// a signed word holds.
    pub open spec fn wf(&self) -> bool {
        &&& self.frames.wf()
        &&& self.shm_segments@.len() <= isize::MAX
    }

    /// Whether `shmid` names a valid segment.
    pub open spec fn is_valid_id(&self, shmid: int) -> bool {
        0 <= shmid < self.shm_segments@.len() && self.shm_segments@[shmid].valid
    }

    /// Whether a request for `size` bytes is within the bounds of a segment.
    pub open spec fn size_accepted(size: int) -> bool {
        0 < page_count(size) <= SHM_MAX_PAGE_NUM
    }

    /// Whether the table can take one more segment: a slot is free, or the
    /// table can still grow.
    pub open spec fn has_room(&self) -> bool {
        (exists|j: int| 0 <= j < self.shm_segments@.len() && !(#[trigger] self.shm_segments@[j]).valid)
            || self.shm_segments@.len() < isize::MAX
    }

    /// What `create_shm_seg` leaves behind when it put a segment of `pages`
    /// frames for `creator_pid` into `slot`.
    pub open spec fn created(old_mgr: Self, new_mgr: Self, slot: int, creator_pid: usize, pages: int) -> bool {
        let before = old_mgr.shm_segments@;
        let after = new_mgr.shm_segments@;
        &&& is_first_free_slot(before, slot)
        &&& after.len() == if slot == before.len() { before.len() + 1 } else { before.len() }
        &&& forall|j: int| 0 <= j < before.len() && j != slot ==> after[j] == before[j]
        &&& after[slot].valid
        &&& after[slot].creator_pid == creator_pid
        &&& after[slot].key == IPC_PRIVATE
        &&& after[slot].page_frames@.len() == pages
        &&& after[slot].is_zeroed()
        &&& forall|i: int| 0 <= i < pages ==>
                (#[trigger] after[slot].page_frames@[i]).start == old_mgr.frames.next + i * PAGE_SIZE
        &&& new_mgr.frames.next == old_mgr.frames.next + pages * PAGE_SIZE
        &&& new_mgr.frames.end == old_mgr.frames.end
    }

    /// Whether the allocator holds the frames that a request for `size`
    /// bytes takes.
    pub open spec fn can_back(&self, size: int) -> bool {
        Self::size_accepted(size) ==> page_count(size) <= self.frames.available()
    }

    /// Whether `new_mgr` and `shmid` are what a request of `creator_pid`
    /// for `size` bytes makes of `old_mgr`: a new segment in the first free
    /// slot, or -1 and no change where the size is out of bounds or the
    /// table has no room.
    pub open spec fn requested(old_mgr: Self, new_mgr: Self, creator_pid: usize, size: int, shmid: isize) -> bool {
        if Self::size_accepted(size) && old_mgr.has_room() {
            shmid >= 0 && Self::created(old_mgr, new_mgr, shmid as int, creator_pid, page_count(size))
        } else {
            shmid == -1 && new_mgr == old_mgr
        }
    }

    /// Whether `new_mgr` is `old_mgr` with the valid segment `shmid` freed:
    /// the slot is no longer valid, and nothing else changed.
    pub open spec fn invalidated(old_mgr: Self, new_mgr: Self, shmid: int) -> bool {
        let before = old_mgr.shm_segments@;
        let after = new_mgr.shm_segments@;
        &&& old_mgr.is_valid_id(shmid)
        &&& new_mgr.frames == old_mgr.frames
        &&& after.len() == before.len()
        &&& forall|j: int| 0 <= j < before.len() && j != shmid ==> after[j] == before[j]
        &&& !after[shmid].valid
        &&& after[shmid].page_frames == before[shmid].page_frames
    }

    /// An empty table over the frames of `frames`.
    pub fn new(frames: FrameAllocator) -> (mgr: Self)
        requires
            frames.wf(),
        ensures
            mgr.shm_segments@.len() == 0,
            mgr.frames == frames,
            mgr.wf(),
    {
        ShmSegManager { shm_segments: Vec::new(), frames }
    }

    /// Number of slots in the table, valid or not.
    pub fn slot_count(&self) -> (n: usize)
        ensures
            n == self.shm_segments@.len(),
    {
        self.shm_segments.len()
    }

    /// Marks the segment `shmid` as freed, so that its slot is taken again;
    /// says whether `shmid` named a valid segment.
    pub fn invalidate(&mut self, shmid: usize) -> (done: bool)
        ensures
            done == old(self).is_valid_id(shmid as int),
            done ==> Self::invalidated(*old(self), *final(self), shmid as int),
            !done ==> *final(self) == *old(self),
    {
        if shmid >= self.shm_segments.len() {
            return false;
        }
        if !self.shm_segments[shmid].valid {
            return false;
        }
        self.shm_segments[shmid].valid = false;
        true
    }

    /// The byte at `offset` of page `page` of the segment `shmid`.
    pub fn read_byte(&self, shmid: usize, page: usize, offset: usize) -> (byte: u8)
        requires
            self.is_valid_id(shmid as int),
            page < self.shm_segments@[shmid as int].page_frames@.len(),
            self.shm_segments@[shmid as int].page_frames@[page as int].wf(),
            offset < PAGE_SIZE,
        ensures
            byte == self.shm_segments@[shmid as int].page_frames@[page as int].data@[offset as int],
    {
        self.shm_segments[shmid].page_frames[page].read_byte(offset)
    }
}

/// Sets up the table of segments: empty, over the frames of `frames`.
pub fn init_shared_memory(frames: FrameAllocator) -> (mgr: ShmSegManager)
    requires
        frames.wf(),
    ensures
        mgr.shm_segments@.len() == 0,
        mgr.frames == frames,
        mgr.wf(),
{
    ShmSegManager::new(frames)
}

/// Number of pages needed to hold `size` bytes.
pub fn page_num(size: usize) -> (pages: usize)
    ensures
        pages == page_count(size as int),
{
    if size % PAGE_SIZE == 0 {
        size / PAGE_SIZE
    } else {
        size / PAGE_SIZE + 1
    }
}

/// Index of the first slot that is not valid, or the number of slots.
fn find_free_slot(segments: &Vec<ShmSeg>) -> (slot: usize)
    ensures
        is_first_free_slot(segments@, slot as int),
{
    let mut i: usize = 0;
    while i < segments.len()
        invariant
            i <= segments@.len(),
            forall|j: int| 0 <= j < i ==> (#[trigger] segments@[j]).valid,
        decreases segments@.len() - i,
    {
        if !segments[i].valid {
            return i;
        }
        i += 1;
    }
    i
}

/// Takes `pages` zero-filled frames from `frames`, in rising order.
fn alloc_zero_frames(frames: &mut FrameAllocator, pages: usize) -> (out: Vec<PhysFrame>)
    requires
        old(frames).wf(),
        pages <= old(frames).available(),
    ensures
        final(frames).wf(),
        final(frames).end == old(frames).end,
        final(frames).next == old(frames).next + pages * PAGE_SIZE,
        out@.len() == pages,
        forall|i: int| 0 <= i < pages ==> (#[trigger] out@[i]).is_zeroed(),
        forall|i: int| 0 <= i < pages ==> (#[trigger] out@[i]).start == old(frames).next + i * PAGE_SIZE,
{
    let mut out: Vec<PhysFrame> = Vec::new();
    let mut n: usize = 0;
    while n < pages
        invariant
            n <= pages,
            frames.wf(),
            frames.end == old(frames).end,
            frames.next == old(frames).next + n * PAGE_SIZE,
            pages - n <= frames.available(),
            out@.len() == n,
            forall|i: int| 0 <= i < n ==> (#[trigger] out@[i]).is_zeroed(),
            forall|i: int| 0 <= i < n ==> (#[trigger] out@[i]).start == old(frames).next + i * PAGE_SIZE,
        decreases pages - n,
    {
        let frame = frames.alloc_zero();
        match frame {
            Some(f) => {
                out.push(f);
            },
            None => {
                proof {
                    assert(false);
                }
            },
        }
        n += 1;
    }
    out
}

/// Creates a segment of `size` bytes, rounded up to whole pages, for the
/// task `creator_pid`, and returns its identifier; `-1` when the size asks
/// for no page or for more than `SHM_MAX_PAGE_NUM`, or when the table
/// cannot take another segment.
pub fn create_shm_seg(
    mgr: &mut ShmSegManager,
    creator_pid: usize,
    key: usize,
    size: usize,
    shmflg: usize,
) -> (shmid: isize)
    requires
        key == IPC_PRIVATE,
        old(mgr).wf(),
        old(mgr).can_back(size as int),
    ensures
        final(mgr).wf(),
        ShmSegManager::requested(*old(mgr), *final(mgr), creator_pid, size as int, shmid),
{
    let page_num = page_num(size);
    if page_num > SHM_MAX_PAGE_NUM || page_num == 0 {
        return -1;
    }
    let shmid = find_free_slot(&mgr.shm_segments);
    if shmid == mgr.shm_segments.len() {
        if shmid >= isize::MAX as usize {
            return -1;
        }
        mgr.shm_segments.push(ShmSeg::zero_init());
    }
    let page_frames = alloc_zero_frames(&mut mgr.frames, page_num);
    mgr.shm_segments[shmid].creator_pid = creator_pid;
    mgr.shm_segments[shmid].valid = true;
    mgr.shm_segments[shmid].key = key;
    mgr.shm_segments[shmid].page_frames = page_frames;
    shmid as isize
}

/// The physical addresses of the frames of segment `shmid`, in order, or
/// `None` when `shmid` names no valid segment.
pub fn get_shm_seg_paddr_vec(
    mgr: &ShmSegManager,
    shmid: usize,
    shmaddr: usize,
    shmflg: usize,
) -> (paddrs: Option<Vec<usize>>)
    requires
        shmaddr == 0,
    ensures
        paddrs.is_some() == mgr.is_valid_id(shmid as int),
        paddrs.is_some() ==> paddrs.unwrap()@ == mgr.shm_segments@[shmid as int].paddrs(),
{
    if shmid >= mgr.shm_segments.len() {
        return None;
    }
    if !mgr.shm_segments[shmid].valid {
        return None;
    }
    let seg = &mgr.shm_segments[shmid];
    let mut paddr_vec: Vec<usize> = Vec::new();
    let mut i: usize = 0;
    while i < seg.page_frames.len()
        invariant
            i <= seg.page_frames@.len(),
            paddr_vec@.len() == i,
            forall|j: int| 0 <= j < i ==> paddr_vec@[j] == seg.page_frames@[j].start,
        decreases seg.page_frames@.len() - i,
    {
        paddr_vec.push(seg.page_frames[i].start_paddr());
        i += 1;
    }
    assert(paddr_vec@ =~= seg.paddrs());
    Some(paddr_vec)
}

/// Two segments created one after the other, with nothing freed between
/// them, get different identifiers, the second the larger one.
pub proof fn lemma_sequential_ids_increase(
    m0: ShmSegManager,
    m1: ShmSegManager,
    m2: ShmSegManager,
    first: int,
    second: int,
    pid1: usize,
    pages1: int,
    pid2: usize,
    pages2: int,
)
    requires
        ShmSegManager::created(m0, m1, first, pid1, pages1),
        ShmSegManager::created(m1, m2, second, pid2, pages2),
    ensures
        first < second,
{
    if second < first {
        assert(m1.shm_segments@[second] == m0.shm_segments@[second]);
        assert(m0.shm_segments@[second].valid);
    }
}

/// Once a segment is freed, the next segment created takes its slot, if
/// the slot was the first free one when the segment was created and no
/// other segment was freed since.
pub proof fn lemma_freed_slot_is_reused(
    m0: ShmSegManager,
    m1: ShmSegManager,
    m2: ShmSegManager,
    m3: ShmSegManager,
    m4: ShmSegManager,
    first: int,
    second: int,
    third: int,
    pid1: usize,
    pages1: int,
    pid2: usize,
    pages2: int,
    pid3: usize,
    pages3: int,
)
    requires
        ShmSegManager::created(m0, m1, first, pid1, pages1),
        ShmSegManager::created(m1, m2, second, pid2, pages2),
        ShmSegManager::invalidated(m2, m3, first),
        ShmSegManager::created(m3, m4, third, pid3, pages3),
    ensures
        third == first,
        m4.shm_segments@.len() == m2.shm_segments@.len(),
{
    lemma_sequential_ids_increase(m0, m1, m2, first, second, pid1, pages1, pid2, pages2);
    let s0 = m0.shm_segments@;
    let s1 = m1.shm_segments@;
    let s2 = m2.shm_segments@;
    let s3 = m3.shm_segments@;
    assert forall|j: int| 0 <= j < first implies (#[trigger] s3[j]).valid by {
        assert(s0[j].valid);
        assert(s1[j] == s0[j]);
        assert(s2[j] == s1[j]);
        assert(s3[j] == s2[j]);
    }
    if third < first {
        assert(s3[third].valid);
    }
    if third > first {
        assert(!s3[first].valid);
    }
}

/// Every byte of a segment reads as zero right after the segment was
/// created.
pub proof fn lemma_new_segment_reads_zero(
    m0: ShmSegManager,
    m1: ShmSegManager,
    slot: int,
    creator_pid: usize,
    pages: int,
    page: int,
    offset: int,
)
    requires
        ShmSegManager::created(m0, m1, slot, creator_pid, pages),
        0 <= page < pages,
        0 <= offset < PAGE_SIZE,
    ensures
        m1.shm_segments@[slot].page_frames@[page].data@.len() == PAGE_SIZE,
        m1.shm_segments@[slot].page_frames@[page].data@[offset] == 0u8,
{
    assert(m1.shm_segments@[slot].page_frames@[page].is_zeroed());
}

/// A request for exactly `SHM_MAX_PAGE_NUM` pages is within bounds; one
/// byte more is not, and neither is a request for no byte at all.
pub proof fn lemma_size_bounds()
    ensures
        ShmSegManager::size_accepted(SHM_MAX_PAGE_NUM * PAGE_SIZE),
        !ShmSegManager::size_accepted(SHM_MAX_PAGE_NUM * PAGE_SIZE + 1),
        !ShmSegManager::size_accepted(0),
{
}

} // verus!
