//! Address spaces: a page-table root and the regions mapped under it.

use vstd::prelude::*;
use crate::config::{PAGE_SIZE, USER_ASPACE_BASE, USER_ASPACE_SIZE};

verus! {

/// A run of pages mapped at `start`, one physical frame per page.
pub struct MapArea {
    pub start: usize,
    pub frames: Vec<usize>,
}

impl MapArea {
    /// First address past the area.
    pub open spec fn end(&self) -> int {
        self.start + self.frames@.len() * PAGE_SIZE
    }

    /// The area as plain values: where it starts and which frames back it.
    pub open spec fn view(&self) -> (usize, Seq<usize>) {
        (self.start, self.frames@)
    }
}

/// The areas of `areas` as plain values.
pub open spec fn areas_view(areas: Seq<MapArea>) -> Seq<(usize, Seq<usize>)> {
    Seq::new(areas.len(), |i: int| areas[i]@)
}

/// The first address that lies past every area of `areas` and is not below
/// `floor`.
pub open spec fn top_of(areas: Seq<MapArea>, floor: int) -> int
    decreases areas.len(),
{
    if areas.len() == 0 {
        floor
    } else {
        let below = top_of(areas.drop_last(), floor);
        if areas.last().end() > below { areas.last().end() } else { below }
    }
}

/// What a loaded program image asks of an address space.
pub struct ProgramImage {
    /// Address of the first instruction.
    pub entry: usize,
    /// Initial top of the user stack.
    pub ustack_top: usize,
    /// The regions that hold the program and its stack.
    pub areas: Vec<MapArea>,
}

/// First address past the user half of an address space; on a machine
/// whose words are too short for it, the largest address that a signed
/// word holds.
pub open spec fn user_limit() -> int {
    if USER_ASPACE_BASE + USER_ASPACE_SIZE <= isize::MAX {
        USER_ASPACE_BASE + USER_ASPACE_SIZE
    } else {
        isize::MAX as int
    }
}

impl ProgramImage {
    /// Every region lies within the user half of the address space.
    pub open spec fn wf(&self) -> bool {
        forall|i: int| 0 <= i < self.areas@.len() ==> (#[trigger] self.areas@[i]).end() <= user_limit()
    }

    /// Whether every region lies within the user half of the address
    /// space.
    pub fn is_wf(&self) -> (ok: bool)
        ensures
            ok == self.wf(),
    {
        let mut i: usize = 0;
        while i < self.areas.len()
            invariant
                i <= self.areas@.len(),
                forall|j: int| 0 <= j < i ==> (#[trigger] self.areas@[j]).end() <= user_limit(),
            decreases self.areas@.len() - i,
        {
            let area = &self.areas[i];
            let end = match area.frames.len().checked_mul(PAGE_SIZE) {
                Some(len) => area.start.checked_add(len),
                None => None,
            };
            let inside = match end {
                Some(end) => end as u64 <= USER_ASPACE_BASE + USER_ASPACE_SIZE && end <= isize::MAX as usize,
                None => false,
            };
            if !inside {
                assert(self.areas@[i as int].end() > user_limit());
                return false;
            }
            i += 1;
        }
        true
    }
}

/// One address space.
pub struct MemorySet {
    /// Root of the page table.
    pub root: usize,
    /// The mapped regions, in the order in which they were mapped.
    pub areas: Vec<MapArea>,
    /// No region reaches beyond this address; shared frames go here next.
    pub top: usize,
}

impl MemorySet {
    /// No region reaches beyond `top`, and `top` lies within the user half
    /// of the address space.
    pub open spec fn wf(&self) -> bool {
        &&& self.top <= user_limit()
        &&& forall|i: int| 0 <= i < self.areas@.len() ==> (#[trigger] self.areas@[i]).end() <= self.top
    }

    /// The mapped regions as plain values.
    pub open spec fn view(&self) -> Seq<(usize, Seq<usize>)> {
        areas_view(self.areas@)
    }

    /// Whether a run of `pages` pages still fits above every region.
    pub open spec fn fits(&self, pages: int) -> bool {
        self.top + pages * PAGE_SIZE <= user_limit()
    }

    /// An address space with the page table `root` and nothing mapped.
    pub fn new(root: usize) -> (vm: MemorySet)
        ensures
            vm.root == root,
            vm.areas@.len() == 0,
            vm.top == USER_ASPACE_BASE,
            vm.wf(),
    {
        MemorySet { root, areas: Vec::new(), top: 0 }
    }

    /// Root of the page table.
    pub fn page_table_root(&self) -> (root: usize)
        ensures
            root == self.root,
    {
        self.root
    }

    /// Maps the regions of `image` and returns its entry point and the top
    /// of its stack.
    pub fn load_user(&mut self, image: ProgramImage) -> (start: (usize, usize))
        requires
            old(self).wf(),
            image.wf(),
        ensures
            start == (image.entry, image.ustack_top),
            final(self).wf(),
            final(self).root == old(self).root,
            final(self).areas@ == old(self).areas@ + image.areas@,
            final(self).top == top_of(image.areas@, old(self).top as int),
    {
        let entry = image.entry;
        let ustack_top = image.ustack_top;
        let mut incoming = image.areas;
        let mut i: usize = 0;
        while i < incoming.len()
            invariant
                i <= incoming@.len(),
                incoming@ == image.areas@,
                image.wf(),
                old(self).wf(),
                self.root == old(self).root,
                self.areas@ == old(self).areas@,
                self.top <= user_limit(),
                old(self).top <= self.top,
                self.top == top_of(incoming@.take(i as int), old(self).top as int),
                forall|j: int| 0 <= j < i ==> (#[trigger] incoming@[j]).end() <= self.top,
            decreases incoming@.len() - i,
        {
            proof {
                assert(incoming@.take(i + 1).drop_last() =~= incoming@.take(i as int));
                assert(incoming@.take(i + 1).last() == incoming@[i as int]);
            }
            let end = incoming[i].start + incoming[i].frames.len() * PAGE_SIZE;
            if end > self.top {
                self.top = end;
            }
            i += 1;
        }
        proof {
            assert(incoming@.take(i as int) =~= incoming@);
        }
        self.areas.append(&mut incoming);
        (entry, ustack_top)
    }

    /// An independent address space with the page table `root` and the same
    /// regions as `self`.
    pub fn dup(&self, root: usize) -> (copy: MemorySet)
        requires
            self.wf(),
        ensures
            copy.wf(),
            copy.root == root,
            copy.top == self.top,
            copy@ == self@,
    {
        let mut areas: Vec<MapArea> = Vec::new();
        let mut i: usize = 0;
        while i < self.areas.len()
            invariant
                i <= self.areas@.len(),
                areas@.len() == i,
                forall|j: int| 0 <= j < i ==> (#[trigger] areas@[j])@ == self.areas@[j]@,
            decreases self.areas@.len() - i,
        {
            let src = &self.areas[i];
            let mut frames: Vec<usize> = Vec::new();
            let mut p: usize = 0;
            while p < src.frames.len()
                invariant
                    p <= src.frames@.len(),
                    frames@ == src.frames@.take(p as int),
                decreases src.frames@.len() - p,
            {
                frames.push(src.frames[p]);
                assert(src.frames@.take(p + 1) =~= src.frames@.take(p as int).push(src.frames@[p as int]));
                p += 1;
            }
            assert(src.frames@.take(p as int) =~= src.frames@);
            areas.push(MapArea { start: src.start, frames });
            i += 1;
        }
        let copy = MemorySet { root, areas, top: self.top };
        assert(copy@ =~= self@);
        copy
    }

    /// Maps the frames `shared_paddr_vec` above every region and returns
    /// the address at which they start; `None`, with nothing changed, when
    /// they do not fit into the user half of the address space.
    pub fn map_shared_frames(&mut self, shared_paddr_vec: Vec<usize>) -> (vaddr: Option<usize>)
        requires
            old(self).wf(),
        ensures
            final(self).wf(),
            final(self).root == old(self).root,
            vaddr.is_some() == old(self).fits(shared_paddr_vec@.len() as int),
            vaddr.is_none() ==> *final(self) == *old(self),
            vaddr.is_some() ==> vaddr.unwrap() == old(self).top
                && final(self).top == old(self).top + shared_paddr_vec@.len() * PAGE_SIZE
                && final(self)@ == old(self)@.push((old(self).top, shared_paddr_vec@)),
    {
        let start = self.top;
        let end = match shared_paddr_vec.len().checked_mul(PAGE_SIZE) {
            Some(len) => start.checked_add(len),
            None => None,
        };
        let end = match end {
            Some(end) => end,
            None => {
                return None;
            },
        };
        if end as u64 > USER_ASPACE_BASE + USER_ASPACE_SIZE || end > isize::MAX as usize {
            return None;
        }
        self.areas.push(MapArea { start, frames: shared_paddr_vec });
        self.top = end;
        assert(final(self)@ =~= old(self)@.push((old(self).top, shared_paddr_vec@)));
        Some(start)
    }

    /// Drops every mapping.
    pub fn clear(&mut self)
        ensures
            final(self).wf(),
            final(self).root == old(self).root,
            final(self).areas@.len() == 0,
            final(self).top == USER_ASPACE_BASE,
    {
        self.areas.clear();
        self.top = 0;
    }
}

} // verus!
