//! The boot-supplied memory map and the sequence of usable frames it stands for.

use crate::addr::{align_down, PAGE_SIZE, PHYSICAL_LIMIT};
use vstd::prelude::*;

verus! {

/// What a range of physical memory may be used for.
#[derive(Clone, Copy, PartialEq, Eq, Structural, Debug)]
pub enum MemoryRegionKind {
    /// Free memory that the kernel may hand out.
    Usable,
    /// Memory that is in use or must not be touched.
    Reserved,
}

/// One entry of the memory map: the physical range `start..end` and its kind.
#[derive(Clone, Copy, PartialEq, Eq, Structural, Debug)]
pub struct MemoryRegion {
    /// First address of the range.
    pub start: u64,
    /// First address after the range.
    pub end: u64,
    /// Whether the range is free for use.
    pub kind: MemoryRegionKind,
}

impl MemoryRegion {
    /// How many frames the region contributes: one for each address
    /// `start`, `start + 4096`, ... below `end`, and none unless it is usable.
    pub open spec fn frame_count(self) -> nat {
        if self.kind == MemoryRegionKind::Usable && self.start < self.end {
            ((self.end - self.start - 1) / 4096 + 1) as nat
        } else {
            0
        }
    }

    /// Start address of the region's `k`-th frame.
    pub open spec fn frame(self, k: int) -> u64 {
        align_down(self.start + k * 4096) as u64
    }

    /// The region's frames in ascending order.
    pub open spec fn frames(self) -> Seq<u64> {
        Seq::new(self.frame_count(), |k: int| self.frame(k))
    }

    /// Number of the first frame the region touches.
    pub open spec fn first_frame_number(self) -> int {
        self.start as int / 4096
    }

    /// Whether every address the region contributes is a physical address.
    pub open spec fn addressable(self) -> bool {
        self.frame_count() > 0 ==> self.end <= PHYSICAL_LIMIT
    }

    /// Whether the two regions contribute no frame in common.
    pub open spec fn frames_disjoint(self, other: MemoryRegion) -> bool {
        ||| self.frame_count() == 0
        ||| other.frame_count() == 0
        ||| self.first_frame_number() + self.frame_count() <= other.first_frame_number()
        ||| other.first_frame_number() + other.frame_count() <= self.first_frame_number()
    }

    /// How many frames the region contributes.
    pub fn usable_frame_count(&self) -> (count: u64)
        ensures
            count == self.frame_count(),
    {
        match self.kind {
            MemoryRegionKind::Usable => {
                if self.start < self.end {
                    (self.end - self.start - 1) / PAGE_SIZE + 1
                } else {
                    0
                }
            },
            MemoryRegionKind::Reserved => 0,
        }
    }

    /// Whether the two regions contribute no frame in common.
    pub fn is_disjoint_from(&self, other: &MemoryRegion) -> (ok: bool)
        ensures
            ok == self.frames_disjoint(*other),
    {
        let mine = self.usable_frame_count();
        let theirs = other.usable_frame_count();
        let my_first = self.start / PAGE_SIZE;
        let their_first = other.start / PAGE_SIZE;
        mine == 0 || theirs == 0 || my_first + mine <= their_first || their_first + theirs
            <= my_first
    }

    /// Whether every address the region contributes is a physical address.
    pub fn is_addressable(&self) -> (ok: bool)
        ensures
            ok == self.addressable(),
    {
        self.usable_frame_count() == 0 || self.end <= PHYSICAL_LIMIT
    }
}

/// The usable frames of a memory map, flattened: region by region in map
/// order, and within a region by ascending address.
pub open spec fn usable_frames(regions: Seq<MemoryRegion>) -> Seq<u64>
    decreases regions.len(),
{
    if regions.len() == 0 {
        Seq::empty()
    } else {
        usable_frames(regions.drop_last()) + regions.last().frames()
    }
}

/// A memory map the allocator can work on: every usable address is a
/// physical address.
pub open spec fn valid_memory_map(regions: Seq<MemoryRegion>) -> bool {
    forall|i: int| 0 <= i < regions.len() ==> (#[trigger] regions[i]).addressable()
}

/// Whether no two regions of the map contribute a frame in common.
pub open spec fn regions_disjoint(regions: Seq<MemoryRegion>) -> bool {
    forall|m: int, n: int|
        0 <= m < n < regions.len() ==> (#[trigger] regions[m]).frames_disjoint(
            #[trigger] regions[n],
        )
}

/// Taking one more region appends that region's frames.
pub proof fn lemma_usable_frames_step(regions: Seq<MemoryRegion>, i: int)
    requires
        0 <= i < regions.len(),
    ensures
        usable_frames(regions.take(i + 1)) == usable_frames(regions.take(i))
            + regions[i].frames(),
{
    assert(regions.take(i + 1).drop_last() =~= regions.take(i));
}

/// The frames of the first `i` regions are a prefix of the frames of the map.
pub proof fn lemma_usable_frames_prefix(regions: Seq<MemoryRegion>, i: int)
    requires
        0 <= i <= regions.len(),
    ensures
        usable_frames(regions.take(i)).len() <= usable_frames(regions).len(),
        usable_frames(regions.take(i)) == usable_frames(regions).take(
            usable_frames(regions.take(i)).len() as int,
        ),
    decreases regions.len() - i,
{
    if i == regions.len() {
        assert(regions.take(i) =~= regions);
    } else {
        lemma_usable_frames_step(regions, i);
        lemma_usable_frames_prefix(regions, i + 1);
    }
}

/// Every usable frame belongs to a region: the proof returns the region's
/// index and the frame's position in it.
pub proof fn lemma_frame_origin(regions: Seq<MemoryRegion>, index: int) -> (origin: (int, int))
    requires
        0 <= index < usable_frames(regions).len(),
    ensures
        0 <= origin.0 < regions.len(),
        0 <= origin.1 < regions[origin.0].frame_count(),
        usable_frames(regions)[index] == regions[origin.0].frame(origin.1),
        index == usable_frames(regions.take(origin.0)).len() + origin.1,
    decreases regions.len(),
{
    let front = regions.drop_last();
    assert(regions.take(regions.len() - 1) =~= front);
    if index < usable_frames(front).len() {
        let origin = lemma_frame_origin(front, index);
        assert(front.take(origin.0) =~= regions.take(origin.0));
        origin
    } else {
        (regions.len() - 1, index - usable_frames(front).len())
    }
}

/// Frames at different positions of one region differ, and so do frames of
/// two regions that have no frame in common.
pub proof fn lemma_region_frames_differ(a: MemoryRegion, j: int, b: MemoryRegion, k: int)
    requires
        0 <= j < a.frame_count(),
        0 <= k < b.frame_count(),
        a.addressable(),
        b.addressable(),
        (a == b && j != k) || a.frames_disjoint(b),
    ensures
        a.frame(j) != b.frame(k),
{
    let x = a.start as int + j * 4096;
    let y = b.start as int + k * 4096;
    assert(align_down(x) == (a.first_frame_number() + j) * 4096);
    assert(align_down(y) == (b.first_frame_number() + k) * 4096);
}

/// No frame occurs twice among the usable frames of a map whose regions have
/// no frame in common.
pub proof fn lemma_usable_frames_distinct(regions: Seq<MemoryRegion>, i: int, j: int)
    requires
        valid_memory_map(regions),
        regions_disjoint(regions),
        0 <= i < j < usable_frames(regions).len(),
    ensures
        usable_frames(regions)[i] != usable_frames(regions)[j],
{
    let (m, a) = lemma_frame_origin(regions, i);
    let (n, b) = lemma_frame_origin(regions, j);
    if m == n {
        lemma_region_frames_differ(regions[m], a, regions[n], b);
    } else if m < n {
        lemma_region_frames_differ(regions[m], a, regions[n], b);
    } else {
        assert(regions[n].frames_disjoint(regions[m]));
        lemma_region_frames_differ(regions[m], a, regions[n], b);
    }
}

/// A map without a usable region offers no frame.
pub proof fn lemma_no_usable_region(regions: Seq<MemoryRegion>)
    requires
        forall|i: int|
            0 <= i < regions.len() ==> (#[trigger] regions[i]).kind != MemoryRegionKind::Usable,
    ensures
        usable_frames(regions).len() == 0,
    decreases regions.len(),
{
    if regions.len() > 0 {
        assert(regions.last() == regions[regions.len() - 1]);
        let front = regions.drop_last();
        assert forall|i: int| 0 <= i < front.len() implies (#[trigger] front[i]).kind
            != MemoryRegionKind::Usable by {
            assert(front[i] == regions[i]);
        }
        lemma_no_usable_region(regions.drop_last());
    }
}

/// The number of usable frames of the map, or `None` where it does not fit
/// in `usize`.
pub fn usable_frame_count(regions: &[MemoryRegion]) -> (count: Option<usize>)
    ensures
        match count {
            Some(n) => n == usable_frames(regions@).len(),
            None => usable_frames(regions@).len() > usize::MAX,
        },
{
    let mut total: usize = 0;
    let mut i: usize = 0;
    while i < regions.len()
        invariant
            0 <= i <= regions.len(),
            total == usable_frames(regions@.take(i as int)).len(),
        decreases regions.len() - i,
    {
        let region = regions[i];
        let count = region.usable_frame_count();
        proof {
            lemma_usable_frames_step(regions@, i as int);
            lemma_usable_frames_prefix(regions@, i + 1);
        }
        let room = (usize::MAX - total) as u64;
        if count > room {
            return None;
        }
        total = total + count as usize;
        i = i + 1;
    }
    proof {
        assert(regions@.take(i as int) =~= regions@);
    }
    Some(total)
}

/// Whether the allocator can work on the map: see [`valid_memory_map`].
pub fn is_valid_memory_map(regions: &[MemoryRegion]) -> (ok: bool)
    ensures
        ok == valid_memory_map(regions@),
{
    let mut i: usize = 0;
    while i < regions.len()
        invariant
            0 <= i <= regions.len(),
            forall|k: int| 0 <= k < i ==> (#[trigger] regions@[k]).addressable(),
        decreases regions.len() - i,
    {
        let region = regions[i];
        if !region.is_addressable() {
            return false;
        }
        i = i + 1;
    }
    true
}

/// Whether no two regions of the map contribute a frame in common: see
/// [`regions_disjoint`].
pub fn are_regions_disjoint(regions: &[MemoryRegion]) -> (ok: bool)
    ensures
        ok == regions_disjoint(regions@),
{
    let mut n: usize = 0;
    while n < regions.len()
        invariant
            0 <= n <= regions.len(),
            forall|a: int, b: int|
                0 <= a < b < n ==> (#[trigger] regions@[a]).frames_disjoint(#[trigger] regions@[b]),
        decreases regions.len() - n,
    {
        let mut m: usize = 0;
        while m < n
            invariant
                0 <= m <= n < regions.len(),
                forall|a: int|
                    0 <= a < m ==> (#[trigger] regions@[a]).frames_disjoint(regions@[n as int]),
            decreases n - m,
        {
            if !regions[m].is_disjoint_from(&regions[n]) {
                return false;
            }
            m = m + 1;
        }
        n = n + 1;
    }
    true
}

} // verus!
