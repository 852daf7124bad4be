//! The physical frame allocator: a cursor over the usable frames of the
//! memory map that only ever moves forward.

use crate::addr::PhysFrame;
use crate::addr::PAGE_SIZE;
use crate::memory_map::{
    lemma_usable_frames_distinct, lemma_usable_frames_prefix, lemma_usable_frames_step,
    regions_disjoint, usable_frames, valid_memory_map, MemoryRegion,
};
use vstd::prelude::*;

verus! {

/// Hands out the usable frames of a memory map in map order, each at most
/// once where no two regions of the map share a frame. Frames are never
/// taken back.
pub struct BootInfoFrameAllocator<'a> {
    memory_map: &'a [MemoryRegion],
    next: usize,
}

impl<'a> BootInfoFrameAllocator<'a> {
    /// The memory map the allocator draws from.
    pub closed spec fn memory_map(&self) -> Seq<MemoryRegion> {
        self.memory_map@
    }

    /// The cursor: how many allocations have been asked for. It moves on
    /// with every call, also with one that finds no frame left.
    pub closed spec fn cursor(&self) -> nat {
        self.next as nat
    }

    /// All frames the memory map offers, in the order they are handed out.
    pub open spec fn frames(&self) -> Seq<u64> {
        usable_frames(self.memory_map())
    }

    /// How many frames have been handed out: as many as the cursor has
    /// passed, and no more than the map offers.
    pub open spec fn allocated(&self) -> nat {
        if self.cursor() <= self.frames().len() {
            self.cursor()
        } else {
            self.frames().len()
        }
    }

    /// The frames handed out so far, oldest first.
    pub open spec fn issued(&self) -> Seq<u64> {
        self.frames().take(self.allocated() as int)
    }

    /// The frame the next allocation returns, if any is left.
    pub open spec fn upcoming(&self) -> Option<u64> {
        if self.cursor() < self.frames().len() {
            Some(self.frames()[self.cursor() as int])
        } else {
            None
        }
    }

    /// The allocator's invariant: its map is valid.
    pub closed spec fn wf(&self) -> bool {
        valid_memory_map(self.memory_map@)
    }

    /// What the invariant says of the map, and what the cursor's type says
    /// of the cursor.
    pub proof fn lemma_wf(&self)
        requires
            self.wf(),
        ensures
            valid_memory_map(self.memory_map()),
            self.cursor() <= usize::MAX,
    {
    }

    /// No frame is handed out twice in the life of an allocator whose map has
    /// no two regions with a frame in common.
    pub proof fn lemma_issued_distinct(&self, i: int, j: int)
        requires
            self.wf(),
            regions_disjoint(self.memory_map()),
            0 <= i < j < self.allocated(),
        ensures
            self.issued()[i] != self.issued()[j],
    {
        lemma_usable_frames_distinct(self.memory_map@, i, j);
    }

    /// An allocator over `memory_map` that has handed out nothing yet.
    ///
    /// The caller vouches that the frames of the usable regions are really
    /// free: the allocator has no way to tell.
    pub fn new(memory_map: &'a [MemoryRegion]) -> (allocator: Self)
        requires
            valid_memory_map(memory_map@),
        ensures
            allocator.wf(),
            allocator.memory_map() == memory_map@,
            allocator.cursor() == 0,
    {
        BootInfoFrameAllocator { memory_map, next: 0 }
    }

    /// Where the cursor stands: how many allocations have been asked for.
    pub fn cursor_position(&self) -> (position: usize)
        ensures
            position == self.cursor(),
    {
        self.next
    }

    /// The `n`-th usable frame of the map, counted from zero.
    fn usable_frame(&self, n: usize) -> (frame: Option<PhysFrame>)
        requires
            self.wf(),
        ensures
            n < self.frames().len() ==> frame is Some && frame->0.wf() && frame->0.start_address
                == self.frames()[n as int],
            n >= self.frames().len() ==> frame is None,
    {
        let mut skip: u64 = n as u64;
        let mut i: usize = 0;
        while i < self.memory_map.len()
            invariant
                0 <= i <= self.memory_map@.len(),
                valid_memory_map(self.memory_map@),
                n == usable_frames(self.memory_map@.take(i as int)).len() + skip,
            decreases self.memory_map@.len() - i,
        {
            let region = self.memory_map[i];
            let count = region.usable_frame_count();
            proof {
                lemma_usable_frames_step(self.memory_map@, i as int);
                lemma_usable_frames_prefix(self.memory_map@, i + 1);
            }
            if skip < count {
                let addr = region.start + skip * PAGE_SIZE;
                let frame = PhysFrame::containing_address(addr);
                proof {
                    let upto = usable_frames(self.memory_map@.take(i + 1));
                    assert(upto[n as int] == region.frames()[skip as int]);
                    assert(self.frames().take(upto.len() as int)[n as int] == upto[n as int]);
                }
                return Some(frame);
            }
            skip = skip - count;
            i = i + 1;
        }
        proof {
            assert(self.memory_map@.take(i as int) =~= self.memory_map@);
        }
        None
    }

    /// Hands out the next unused frame, or `None` once all are gone.
    ///
    /// The cursor moves on by one with every call. While it points at a
    /// frame, the call returns that frame; once it has passed the last one,
    /// every call returns `None`: exhaustion is permanent. Where no two
    /// regions of the map share a frame, the frame returned was never
    /// handed out before. The cursor cannot move past `usize::MAX`.
    pub fn allocate_frame(&mut self) -> (frame: Option<PhysFrame>)
        requires
            old(self).wf(),
            old(self).cursor() < usize::MAX,
        ensures
            final(self).wf(),
            final(self).memory_map() == old(self).memory_map(),
            final(self).cursor() == old(self).cursor() + 1,
            match frame {
                Some(f) => {
                    &&& f.wf()
                    &&& old(self).upcoming() == Some(f.start_address)
                    &&& final(self).issued() == old(self).issued().push(f.start_address)
                    &&& regions_disjoint(old(self).memory_map()) ==> !old(self).issued().contains(
                        f.start_address,
                    )
                },
                None => {
                    &&& old(self).upcoming() is None
                    &&& final(self).upcoming() is None
                    &&& final(self).issued() == old(self).issued()
                },
            },
    {
        let frame = self.usable_frame(self.next);
        proof {
            if frame is Some {
                let frames = self.frames();
                let n = self.next as int;
                assert(frames.take(n + 1) =~= frames.take(n).push(frames[n]));
                if regions_disjoint(self.memory_map@) {
                    assert forall|k: int| 0 <= k < n implies frames.take(n)[k] != frames[n] by {
                        lemma_usable_frames_distinct(self.memory_map@, k, n);
                    }
                }
            }
        }
        self.next = self.next + 1;
        frame
    }
}

} // verus!
