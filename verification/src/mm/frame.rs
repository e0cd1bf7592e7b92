//! Physical frames and the allocator that hands them out.

use vstd::prelude::*;
use crate::config::PAGE_SIZE;

verus! {

/// One physical page frame: where it starts and what it holds.
pub struct PhysFrame {
    pub start: usize,
    pub data: Vec<u8>,
}

impl PhysFrame {
    /// A frame holds exactly one page of bytes.
    pub open spec fn wf(&self) -> bool {
        self.data@.len() == PAGE_SIZE
    }

    /// Every byte of the frame is zero.
    pub open spec fn is_zeroed(&self) -> bool {
        &&& self.wf()
        &&& forall|i: int| 0 <= i < self.data@.len() ==> self.data@[i] == 0u8
    }

    /// The physical address at which the frame starts.
    pub fn start_paddr(&self) -> (addr: usize)
        ensures
            addr == self.start,
    {
        self.start
    }

    /// The byte at `offset` within the frame.
    pub fn read_byte(&self, offset: usize) -> (byte: u8)
        requires
            self.wf(),
            offset < PAGE_SIZE,
        ensures
            byte == self.data@[offset as int],
    {
        self.data[offset]
    }

    /// Stores `byte` at `offset` within the frame and leaves the rest alone.
    pub fn write_byte(&mut self, offset: usize, byte: u8)
        requires
            old(self).wf(),
            offset < PAGE_SIZE,
        ensures
            final(self).start == old(self).start,
            final(self).data@ == old(self).data@.update(offset as int, byte),
            final(self).wf(),
    {
        self.data.set(offset, byte);
    }
}

/// Hands out the frames of the physical range `[next, end)` in rising order.
pub struct FrameAllocator {
    pub next: usize,
    pub end: usize,
}

impl FrameAllocator {
    /// The range that is left does not end before it starts.
    pub open spec fn wf(&self) -> bool {
        self.next <= self.end
    }

    /// Number of whole frames that can still be handed out.
    pub open spec fn available(&self) -> int {
        (self.end - self.next) / (PAGE_SIZE as int)
    }

    /// An allocator over the physical range from `start` up to `end`.
    pub fn new(start: usize, end: usize) -> (a: Self)
        ensures
            a.next == start,
            a.end == if end < start { start } else { end },
            a.wf(),
    {
        FrameAllocator { next: start, end: if end < start { start } else { end } }
    }

    /// Number of whole frames that can still be handed out.
    pub fn free_frames(&self) -> (n: usize)
        requires
            self.wf(),
        ensures
            n == self.available(),
    {
        (self.end - self.next) / PAGE_SIZE
    }

    /// Takes the next frame and fills it with zeros; `None` once the range
    /// has no whole frame left, in which case nothing changes.
    pub fn alloc_zero(&mut self) -> (frame: Option<PhysFrame>)
        requires
            old(self).wf(),
        ensures
            final(self).wf(),
            final(self).end == old(self).end,
            old(self).available() == 0 ==> frame.is_none() && *final(self) == *old(self),
            old(self).available() > 0 ==> frame.is_some()
                && frame.unwrap().start == old(self).next
                && frame.unwrap().is_zeroed()
                && final(self).next == old(self).next + PAGE_SIZE
                && final(self).available() == old(self).available() - 1,
    {
        if self.end - self.next < PAGE_SIZE {
            return None;
        }
        let start = self.next;
        let mut data: Vec<u8> = Vec::new();
        let mut i: usize = 0;
        while i < PAGE_SIZE
            invariant
                i <= PAGE_SIZE,
                data@.len() == i,
                forall|j: int| 0 <= j < i ==> data@[j] == 0u8,
            decreases PAGE_SIZE - i,
        {
            data.push(0u8);
            i += 1;
        }
        self.next = start + PAGE_SIZE;
        Some(PhysFrame { start, data })
    }
}

} // verus!
