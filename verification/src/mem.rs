//! Heap region set-up and the page mappings the boot sequence asks for.
//!
//! Page tables live in memory that only the running kernel can reach, so
//! nothing here writes one. The functions of this module decide which page
//! is to be mapped to which frame and with which flags; the kernel performs
//! each mapping and reports how it went.

use crate::addr::{
    align_down, is_canonical, last_address, offset_address, Page, PhysFrame, PAGE_SIZE,
};
use crate::frame_allocator::BootInfoFrameAllocator;
use crate::memory_map::{lemma_no_usable_region, regions_disjoint, MemoryRegionKind};
use vstd::prelude::*;

verus! {

/// First address of the kernel heap.
pub const HEAP_START: u64 = 0x4444_4444_0000;

/// Size of the kernel heap in bytes.
pub const HEAP_SIZE: u64 = 100 * 1024;

/// Number of pages that cover the kernel heap.
pub const HEAP_PAGES: usize = 25;

/// The flags of a page-table entry that this kernel sets.
#[derive(Clone, Copy, PartialEq, Eq, Structural, Debug)]
pub struct PageTableFlags {
    /// The page is backed by a frame.
    pub present: bool,
    /// The page may be written to.
    pub writable: bool,
    /// Code at user privilege may access the page.
    pub user_accessible: bool,
}

impl PageTableFlags {
    /// The flags as the bits of a page-table entry: bit 0 for present, bit 1
    /// for writable, bit 2 for user-accessible.
    pub open spec fn bit_pattern(self) -> int {
        (if self.present { 1int } else { 0 }) + (if self.writable { 2int } else { 0 })
            + (if self.user_accessible { 4int } else { 0 })
    }

    /// The flags as the bits of a page-table entry.
    pub fn bits(&self) -> (bits: u64)
        ensures
            bits == self.bit_pattern(),
    {
        let present: u64 = if self.present { 1 } else { 0 };
        let writable: u64 = if self.writable { 2 } else { 0 };
        let user_accessible: u64 = if self.user_accessible { 4 } else { 0 };
        present + writable + user_accessible
    }
}

/// A mapping the kernel is to install: `page` is to translate to `frame`
/// with `flags`.
#[derive(Clone, Copy, PartialEq, Eq, Structural, Debug)]
pub struct MapRequest {
    /// The virtual page to map.
    pub page: Page,
    /// The physical frame to back it.
    pub frame: PhysFrame,
    /// The flags of the page-table entry.
    pub flags: PageTableFlags,
}

/// Why a mapping could not be installed.
#[derive(Clone, Copy, PartialEq, Eq, Structural, Debug)]
pub enum MapError {
    /// No physical frame is left, for the page itself or for a page table
    /// on the way to it.
    FrameExhausted,
    /// The page is already mapped.
    MapConflict,
}

/// The flags of a heap page: present and writable, for the kernel only.
pub open spec fn heap_flags() -> PageTableFlags {
    PageTableFlags { present: true, writable: true, user_accessible: false }
}

/// The flags of the user entry page: present, writable and user-accessible.
pub open spec fn user_flags() -> PageTableFlags {
    PageTableFlags { present: true, writable: true, user_accessible: true }
}

/// The `n`-th page of the heap.
pub open spec fn heap_page(n: int) -> Page {
    Page { start_address: (HEAP_START + n * 4096) as u64 }
}

/// Index of the heap page that holds `addr`.
pub open spec fn heap_page_index(addr: int) -> int {
    (addr - HEAP_START) / 4096
}

/// The pages from the one that holds the first byte of the heap to the one
/// that holds its last byte are the first `HEAP_PAGES` pages from
/// `HEAP_START` on, and each address of the heap lies in one of them.
pub proof fn lemma_heap_pages(addr: int)
    requires
        HEAP_START <= addr < HEAP_START + HEAP_SIZE,
    ensures
        align_down(HEAP_START as int) == HEAP_START,
        align_down(HEAP_START + HEAP_SIZE - 1) == HEAP_START + (HEAP_PAGES - 1) * 4096,
        0 <= heap_page_index(addr) < HEAP_PAGES,
        heap_page(heap_page_index(addr)).contains(addr),
{
}

/// The first and the last page of the heap.
pub fn heap_page_range() -> (range: (Page, Page))
    ensures
        range.0 == heap_page(0),
        range.1 == heap_page(HEAP_PAGES - 1),
{
    let heap_end = last_address(HEAP_START, HEAP_SIZE);
    (Page::containing_address(HEAP_START), Page::containing_address(heap_end))
}

/// The heap page to map once `mapped` pages are mapped, if any is left.
fn next_heap_page(mapped: usize) -> (page: Option<Page>)
    requires
        mapped <= HEAP_PAGES,
    ensures
        mapped < HEAP_PAGES ==> page == Some(heap_page(mapped as int)),
        mapped == HEAP_PAGES ==> page is None,
{
    let (first, last) = heap_page_range();
    let index = mapped as u64;
    if index > (last.start_address - first.start_address) / PAGE_SIZE {
        None
    } else {
        Some(first.offset(index))
    }
}

/// How far the set-up of the heap has come.
#[derive(Clone, Copy, PartialEq, Eq, Structural, Debug)]
pub enum HeapPhase {
    /// Nothing has been asked for yet.
    Fresh,
    /// A mapping has been asked for and its outcome is awaited.
    Mapping,
    /// The set-up has failed with the error, and the pages mapped so far are
    /// being taken out again, the last one first.
    Unwinding(MapError),
    /// Every page is mapped and the range has been handed over.
    Active,
    /// The set-up has failed with the error. No page of the heap is mapped.
    Failed(MapError),
}

/// What the kernel reports to the heap set-up.
#[derive(Clone, Copy, PartialEq, Eq, Structural, Debug)]
pub enum HeapEvent {
    /// The set-up is to begin.
    Start,
    /// The mapping last asked for is installed.
    Mapped,
    /// The mapping last asked for could not be installed.
    MapFailed(MapError),
    /// The page last named for removal is no longer mapped.
    Unmapped,
}

/// What the heap set-up asks the kernel to do next.
#[derive(Clone, Copy, PartialEq, Eq, Structural, Debug)]
pub enum HeapAction {
    /// Install the mapping and report `Mapped` or `MapFailed`.
    MapPage(MapRequest),
    /// Remove the mapping of the page and report `Unmapped`. The frame
    /// behind it is not taken back: a frame is handed out once.
    Unmap(Page),
    /// Hand the `size` bytes from `start` on to the dynamic allocator.
    HandOver {
        /// First address of the heap.
        start: u64,
        /// Size of the heap in bytes.
        size: u64,
    },
    /// Give up: the heap cannot be set up, and no page of it is mapped.
    Abort(MapError),
    /// Nothing is to be done: the event does not fit the state.
    Nothing,
}

/// The state of the heap set-up as the contracts see it.
pub struct HeapModel {
    /// How far the set-up has come.
    pub phase: HeapPhase,
    /// The mappings that are installed, oldest first.
    pub mappings: Seq<MapRequest>,
    /// The mapping asked for and not yet answered.
    pub pending: Option<MapRequest>,
}

/// Whether `request` is the mapping of the `n`-th heap page.
pub open spec fn is_heap_mapping(request: MapRequest, n: int) -> bool {
    request.page == heap_page(n) && request.flags == heap_flags() && request.frame.wf()
}

/// What follows once the set-up has failed with `error` and `mappings` are
/// still installed: the removal of the last of them, or the end of the
/// set-up where none is left.
pub open spec fn heap_unwind(mappings: Seq<MapRequest>, error: MapError) -> (
    HeapModel,
    HeapAction,
) {
    if mappings.len() == 0 {
        (
            HeapModel { phase: HeapPhase::Failed(error), mappings, pending: None },
            HeapAction::Abort(error),
        )
    } else {
        (
            HeapModel { phase: HeapPhase::Unwinding(error), mappings, pending: None },
            HeapAction::Unmap(mappings.last().page),
        )
    }
}

/// What follows once `mappings` are installed: the hand-over where every
/// page is mapped, else the mapping of the next page to the frame that comes
/// `upcoming` from the allocator, or the failure where none comes.
pub open spec fn heap_advance(mappings: Seq<MapRequest>, upcoming: Option<u64>) -> (
    HeapModel,
    HeapAction,
) {
    if mappings.len() >= HEAP_PAGES {
        (
            HeapModel { phase: HeapPhase::Active, mappings, pending: None },
            HeapAction::HandOver { start: HEAP_START, size: HEAP_SIZE },
        )
    } else {
        match upcoming {
            Some(start_address) => {
                let request = MapRequest {
                    page: heap_page(mappings.len() as int),
                    frame: PhysFrame { start_address },
                    flags: heap_flags(),
                };
                (
                    HeapModel { phase: HeapPhase::Mapping, mappings, pending: Some(request) },
                    HeapAction::MapPage(request),
                )
            },
            None => heap_unwind(mappings, MapError::FrameExhausted),
        }
    }
}

/// The transition of the heap set-up: the state and the action that follow
/// from `model` on `event`, where `upcoming` is the frame the allocator
/// would hand out next.
///
/// The set-up begins on `Start`, goes on with each `Mapped` and ends with
/// the hand-over after the last page. It fails on the first mapping that
/// fails, or where no frame is left for a page. A set-up that fails takes
/// every page it has mapped out again, one with each `Unmapped`, and only
/// then gives up: the heap is mapped in full or not at all. An event that
/// the state does not await changes nothing, so the hand-over happens at
/// most once.
pub open spec fn heap_step(model: HeapModel, upcoming: Option<u64>, event: HeapEvent) -> (
    HeapModel,
    HeapAction,
) {
    match (model.phase, event) {
        (HeapPhase::Fresh, HeapEvent::Start) => heap_advance(model.mappings, upcoming),
        (HeapPhase::Mapping, HeapEvent::Mapped) => heap_advance(
            model.mappings.push(model.pending->0),
            upcoming,
        ),
        (HeapPhase::Mapping, HeapEvent::MapFailed(error)) => heap_unwind(model.mappings, error),
        (HeapPhase::Unwinding(error), HeapEvent::Unmapped) => heap_unwind(
            model.mappings.drop_last(),
            error,
        ),
        _ => (model, HeapAction::Nothing),
    }
}

/// Whether the step from `model` on `event` asks the allocator for a frame:
/// it does wherever a page is left to map, and it moves the allocator's
/// cursor also where no frame is left.
pub open spec fn heap_asks_frame(model: HeapModel, event: HeapEvent) -> bool {
    match (model.phase, event) {
        (HeapPhase::Fresh, HeapEvent::Start) => model.mappings.len() < HEAP_PAGES,
        (HeapPhase::Mapping, HeapEvent::Mapped) => model.mappings.len() + 1 < HEAP_PAGES,
        _ => false,
    }
}

/// What every state of the heap set-up satisfies: the installed mappings
/// are those of the first heap pages in order, a mapping is pending exactly
/// while one is awaited, the heap is active only with every page mapped,
/// and a set-up that has given up has no page mapped.
pub open spec fn heap_model_wf(model: HeapModel) -> bool {
    &&& model.mappings.len() <= HEAP_PAGES
    &&& forall|i: int|
        0 <= i < model.mappings.len() ==> is_heap_mapping(#[trigger] model.mappings[i], i)
    &&& match model.phase {
        HeapPhase::Fresh => model.mappings.len() == 0 && model.pending is None,
        HeapPhase::Mapping => {
            &&& model.mappings.len() < HEAP_PAGES
            &&& model.pending matches Some(request)
            &&& is_heap_mapping(request, model.mappings.len() as int)
        },
        HeapPhase::Unwinding(_) => model.mappings.len() > 0 && model.pending is None,
        HeapPhase::Active => model.mappings.len() == HEAP_PAGES && model.pending is None,
        HeapPhase::Failed(_) => model.mappings.len() == 0 && model.pending is None,
    }
}

/// The frames that the set-up holds: those of the installed mappings, then
/// that of the pending one.
pub open spec fn heap_frames(model: HeapModel) -> Seq<u64> {
    let installed = model.mappings.map_values(|request: MapRequest| request.frame.start_address);
    match model.pending {
        Some(request) => installed.push(request.frame.start_address),
        None => installed,
    }
}

/// Whether the frames of the set-up come from `allocator`: each was handed
/// out by it, and where no two regions of its map share a frame, no two of
/// them are the same.
pub open spec fn heap_backed_by(model: HeapModel, allocator: BootInfoFrameAllocator) -> bool {
    let frames = heap_frames(model);
    &&& forall|k: int| 0 <= k < frames.len() ==> allocator.issued().contains(#[trigger] frames[k])
    &&& regions_disjoint(allocator.memory_map()) ==> forall|j: int, k: int|
        0 <= j < k < frames.len() ==> frames[j] != frames[k]
}

/// The installed mapping of the page that holds `addr`, if there is one.
pub open spec fn translate(model: HeapModel, addr: int) -> Option<MapRequest> {
    if exists|i: int|
        0 <= i < model.mappings.len() && (#[trigger] model.mappings[i]).page.contains(addr) {
        let i = choose|i: int|
            0 <= i < model.mappings.len() && (#[trigger] model.mappings[i]).page.contains(addr);
        Some(model.mappings[i])
    } else {
        None
    }
}

/// Every step keeps the invariant of the set-up.
pub proof fn lemma_heap_step_wf(model: HeapModel, upcoming: Option<u64>, event: HeapEvent)
    requires
        heap_model_wf(model),
        upcoming matches Some(start_address) ==> (PhysFrame { start_address }).wf(),
    ensures
        heap_model_wf(heap_step(model, upcoming, event).0),
{
}

/// The heap is handed over at most once: only the step that confirms the
/// last mapping hands it over, and a set-up that is active or has given up
/// does nothing on any event.
pub proof fn lemma_hand_over_once(model: HeapModel, upcoming: Option<u64>, event: HeapEvent)
    requires
        heap_model_wf(model),
    ensures
        heap_step(model, upcoming, event).1 is HandOver ==> {
            &&& model.phase == HeapPhase::Mapping
            &&& event == HeapEvent::Mapped
            &&& model.mappings.len() == HEAP_PAGES - 1
            &&& heap_step(model, upcoming, event).0.phase == HeapPhase::Active
        },
        model.phase == HeapPhase::Active || model.phase is Failed ==> heap_step(
            model,
            upcoming,
            event,
        ) == (model, HeapAction::Nothing),
{
}

/// A set-up gives up only with no page of the heap mapped: every page it
/// had mapped has been named for removal before, the last one first. The
/// page named for removal is the last that is still installed, and the step
/// that reports it gone takes it off the installed mappings.
pub proof fn lemma_abort_leaves_nothing(
    model: HeapModel,
    upcoming: Option<u64>,
    event: HeapEvent,
    addr: int,
)
    requires
        heap_model_wf(model),
    ensures
        heap_step(model, upcoming, event).1 is Abort ==> {
            &&& heap_step(model, upcoming, event).0.phase is Failed
            &&& heap_step(model, upcoming, event).0.mappings.len() == 0
            &&& translate(heap_step(model, upcoming, event).0, addr) is None
        },
        heap_step(model, upcoming, event).1 matches HeapAction::Unmap(page) ==> {
            &&& heap_step(model, upcoming, event).0.phase is Unwinding
            &&& heap_step(model, upcoming, event).0.mappings.len() > 0
            &&& page == heap_step(model, upcoming, event).0.mappings.last().page
        },
        model.phase is Unwinding && event == HeapEvent::Unmapped ==> heap_step(
            model,
            upcoming,
            event,
        ).0.mappings == model.mappings.drop_last(),
        model.phase is Failed ==> translate(model, addr) is None,
{
}

/// In a well-formed set-up the page that holds a heap address is mapped
/// exactly where the pages mapped so far reach it.
proof fn lemma_translate(model: HeapModel, addr: int)
    requires
        heap_model_wf(model),
        HEAP_START <= addr < HEAP_START + HEAP_SIZE,
    ensures
        heap_page_index(addr) < model.mappings.len() ==> translate(model, addr) == Some(
            model.mappings[heap_page_index(addr)],
        ),
        heap_page_index(addr) >= model.mappings.len() ==> translate(model, addr) is None,
{
    lemma_heap_pages(addr);
    let n = heap_page_index(addr);
    if n < model.mappings.len() {
        assert(model.mappings[n].page.contains(addr));
        let i = choose|i: int|
            0 <= i < model.mappings.len() && (#[trigger] model.mappings[i]).page.contains(addr);
        assert(is_heap_mapping(model.mappings[i], i));
        assert(i == n);
    } else {
        assert forall|i: int| 0 <= i < model.mappings.len() implies !(
        #[trigger] model.mappings[i]).page.contains(addr) by {
            assert(is_heap_mapping(model.mappings[i], i));
        }
    }
}

/// No installed mapping holds an address outside the heap.
proof fn lemma_translate_outside(model: HeapModel, addr: int)
    requires
        heap_model_wf(model),
        addr < HEAP_START || addr >= HEAP_START + HEAP_SIZE,
    ensures
        translate(model, addr) is None,
{
    assert forall|i: int| 0 <= i < model.mappings.len() implies !(
    #[trigger] model.mappings[i]).page.contains(addr) by {
        assert(is_heap_mapping(model.mappings[i], i));
    }
}

/// Once the heap is active, every address of it translates to a frame
/// through a mapping that is present and writable.
pub proof fn lemma_active_heap_mapped(model: HeapModel, addr: int)
    requires
        heap_model_wf(model),
        model.phase == HeapPhase::Active,
        HEAP_START <= addr < HEAP_START + HEAP_SIZE,
    ensures
        translate(model, addr) matches Some(mapping) && mapping.page.contains(addr)
            && mapping.flags.present && mapping.flags.writable && mapping.frame.wf(),
{
    lemma_heap_pages(addr);
    lemma_translate(model, addr);
    assert(is_heap_mapping(model.mappings[heap_page_index(addr)], heap_page_index(addr)));
}

/// Where no two regions of the memory map share a frame, two heap addresses
/// in different pages translate to different frames.
pub proof fn lemma_active_heap_frames_differ(
    model: HeapModel,
    allocator: BootInfoFrameAllocator,
    a: int,
    b: int,
)
    requires
        heap_model_wf(model),
        model.phase == HeapPhase::Active,
        heap_backed_by(model, allocator),
        regions_disjoint(allocator.memory_map()),
        HEAP_START <= a < HEAP_START + HEAP_SIZE,
        HEAP_START <= b < HEAP_START + HEAP_SIZE,
        heap_page_index(a) != heap_page_index(b),
    ensures
        translate(model, a) is Some,
        translate(model, b) is Some,
        translate(model, a)->0.frame != translate(model, b)->0.frame,
{
    lemma_heap_pages(a);
    lemma_heap_pages(b);
    lemma_translate(model, a);
    lemma_translate(model, b);
    let frames = heap_frames(model);
    let i = heap_page_index(a);
    let j = heap_page_index(b);
    assert(frames[i] == model.mappings[i].frame.start_address);
    assert(frames[j] == model.mappings[j].frame.start_address);
    if i < j {
        assert(frames[i] != frames[j]);
    } else {
        assert(frames[j] != frames[i]);
    }
}

/// Where no two regions of the memory map share a frame, the first and the
/// last address of an active heap translate to two different frames.
pub proof fn lemma_active_heap_ends_differ(model: HeapModel, allocator: BootInfoFrameAllocator)
    requires
        heap_model_wf(model),
        model.phase == HeapPhase::Active,
        heap_backed_by(model, allocator),
        regions_disjoint(allocator.memory_map()),
    ensures
        translate(model, HEAP_START as int) is Some,
        translate(model, HEAP_START + HEAP_SIZE - 1) is Some,
        translate(model, HEAP_START as int)->0.frame != translate(
            model,
            HEAP_START + HEAP_SIZE - 1,
        )->0.frame,
{
    lemma_active_heap_frames_differ(
        model,
        allocator,
        HEAP_START as int,
        HEAP_START + HEAP_SIZE - 1,
    );
}

/// With a memory map that has no usable region the set-up fails at once
/// with `FrameExhausted`, and no page is mapped.
pub proof fn lemma_heap_needs_frames(
    model: HeapModel,
    allocator: BootInfoFrameAllocator,
    addr: int,
)
    requires
        heap_model_wf(model),
        model.phase == HeapPhase::Fresh,
        forall|i: int|
            0 <= i < allocator.memory_map().len() ==> (
            #[trigger] allocator.memory_map()[i]).kind != MemoryRegionKind::Usable,
    ensures
        allocator.upcoming() is None,
        heap_step(model, allocator.upcoming(), HeapEvent::Start).1 == HeapAction::Abort(
            MapError::FrameExhausted,
        ),
        heap_step(model, allocator.upcoming(), HeapEvent::Start).0.phase == HeapPhase::Failed(
            MapError::FrameExhausted,
        ),
        heap_step(model, allocator.upcoming(), HeapEvent::Start).0.mappings.len() == 0,
        translate(heap_step(model, allocator.upcoming(), HeapEvent::Start).0, addr) is None,
{
    lemma_no_usable_region(allocator.memory_map());
}

/// The frames of the set-up stay those of the allocator while it hands out
/// more: frames that go to page tables in between do no harm.
pub proof fn lemma_backing_stable(
    model: HeapModel,
    before: BootInfoFrameAllocator,
    after: BootInfoFrameAllocator,
)
    requires
        heap_backed_by(model, before),
        after.memory_map() == before.memory_map(),
        before.cursor() <= after.cursor(),
    ensures
        heap_backed_by(model, after),
{
    let frames = heap_frames(model);
    assert forall|k: int| 0 <= k < frames.len() implies after.issued().contains(
        #[trigger] frames[k],
    ) by {
        let at = choose|at: int|
            0 <= at < before.issued().len() && before.issued()[at] == frames[k];
        assert(after.issued()[at] == frames[k]);
    }
}

/// A set-up that lets go of its last frames is still backed by the
/// allocator.
proof fn lemma_backing_shrinks(
    before: HeapModel,
    after: HeapModel,
    allocator: BootInfoFrameAllocator,
)
    requires
        heap_backed_by(before, allocator),
        heap_frames(after).len() <= heap_frames(before).len(),
        heap_frames(after) == heap_frames(before).take(heap_frames(after).len() as int),
    ensures
        heap_backed_by(after, allocator),
{
    let old_frames = heap_frames(before);
    let frames = heap_frames(after);
    assert forall|k: int| 0 <= k < frames.len() implies allocator.issued().contains(
        #[trigger] frames[k],
    ) by {
        assert(frames[k] == old_frames[k]);
    }
    if regions_disjoint(allocator.memory_map()) {
        assert forall|j: int, k: int| 0 <= j < k < frames.len() implies frames[j] != frames[k] by {
            assert(frames[j] == old_frames[j]);
            assert(frames[k] == old_frames[k]);
        }
    }
}

/// The set-up of the kernel heap, one mapping at a time.
pub struct HeapInit {
    phase: HeapPhase,
    mapped: usize,
    pending: Option<MapRequest>,
    installed: [MapRequest; HEAP_PAGES],
}

impl View for HeapInit {
    type V = HeapModel;

    closed spec fn view(&self) -> HeapModel {
        HeapModel {
            phase: self.phase,
            mappings: self.installed@.take(self.mapped as int),
            pending: self.pending,
        }
    }
}

impl HeapInit {
    /// The invariant of the set-up: see [`heap_model_wf`].
    pub closed spec fn wf(&self) -> bool {
        heap_model_wf(self@) && self.mapped <= HEAP_PAGES
    }

    /// A set-up that has not begun.
    pub fn new() -> (state: HeapInit)
        ensures
            state.wf(),
            state@ == (HeapModel {
                phase: HeapPhase::Fresh,
                mappings: Seq::empty(),
                pending: None,
            }),
    {
        let unused = MapRequest {
            page: Page { start_address: 0 },
            frame: PhysFrame { start_address: 0 },
            flags: PageTableFlags { present: false, writable: false, user_accessible: false },
        };
        let state = HeapInit {
            phase: HeapPhase::Fresh,
            mapped: 0,
            pending: None,
            installed: [unused; HEAP_PAGES],
        };
        assert(state@.mappings =~= Seq::empty());
        state
    }

    /// How far the set-up has come.
    pub fn phase(&self) -> (phase: HeapPhase)
        ensures
            phase == self@.phase,
    {
        self.phase
    }

    /// Whether the heap is mapped in full and handed over.
    pub fn is_active(&self) -> (active: bool)
        ensures
            active == (self@.phase == HeapPhase::Active),
    {
        match self.phase {
            HeapPhase::Active => true,
            _ => false,
        }
    }

    /// The mapping asked for and not yet answered.
    pub fn pending(&self) -> (request: Option<MapRequest>)
        ensures
            request == self@.pending,
    {
        self.pending
    }

    /// The installed mapping of the page that holds `addr`, if there is
    /// one: see [`translate`].
    pub fn translate(&self, addr: u64) -> (mapping: Option<MapRequest>)
        requires
            self.wf(),
        ensures
            mapping == translate(self@, addr as int),
    {
        if addr < HEAP_START || addr - HEAP_START >= HEAP_SIZE {
            proof {
                lemma_translate_outside(self@, addr as int);
            }
            return None;
        }
        proof {
            lemma_translate(self@, addr as int);
        }
        let index = ((addr - HEAP_START) / PAGE_SIZE) as usize;
        if index < self.mapped {
            Some(self.installed[index])
        } else {
            None
        }
    }

    /// A well-formed set-up has a well-formed model.
    pub proof fn lemma_wf(&self)
        requires
            self.wf(),
        ensures
            heap_model_wf(self@),
    {
    }

    /// Goes on with a set-up that has failed with `error`: names the last
    /// installed page for removal, or gives up where none is left.
    fn unwind(&mut self, error: MapError) -> (action: HeapAction)
        requires
            old(self).mapped <= HEAP_PAGES,
            old(self).pending is None,
            forall|i: int|
                0 <= i < old(self)@.mappings.len() ==> is_heap_mapping(
                    #[trigger] old(self)@.mappings[i],
                    i,
                ),
        ensures
            final(self).wf(),
            (final(self)@, action) == heap_unwind(old(self)@.mappings, error),
    {
        let action = if self.mapped == 0 {
            self.phase = HeapPhase::Failed(error);
            HeapAction::Abort(error)
        } else {
            self.phase = HeapPhase::Unwinding(error);
            HeapAction::Unmap(self.installed[self.mapped - 1].page)
        };
        proof {
            assert(self@.mappings == old(self)@.mappings);
            assert(self@.mappings.len() == self.mapped);
        }
        action
    }
}

/// Takes the set-up of the kernel heap one step further.
///
/// The kernel calls this with `Start`, performs the action returned, reports
/// its outcome with the next call, and so on until the action is `HandOver`
/// or `Abort`. Each heap page is mapped present and writable to a frame
/// fresh from `frame_allocator`. The result is that of [`heap_step`].
pub fn heap_init(
    state: &mut HeapInit,
    frame_allocator: &mut BootInfoFrameAllocator,
    event: HeapEvent,
) -> (action: HeapAction)
    requires
        old(state).wf(),
        old(frame_allocator).wf(),
        heap_backed_by(old(state)@, *old(frame_allocator)),
        heap_asks_frame(old(state)@, event) ==> old(frame_allocator).cursor() < usize::MAX,
    ensures
        final(state).wf(),
        final(frame_allocator).wf(),
        heap_backed_by(final(state)@, *final(frame_allocator)),
        final(frame_allocator).memory_map() == old(frame_allocator).memory_map(),
        (final(state)@, action) == heap_step(
            old(state)@,
            old(frame_allocator).upcoming(),
            event,
        ),
        final(frame_allocator).cursor() == old(frame_allocator).cursor() + (if heap_asks_frame(
            old(state)@,
            event,
        ) {
            1nat
        } else {
            0nat
        }),
{
    match state.phase {
        HeapPhase::Fresh => {
            match event {
                HeapEvent::Start => {},
                _ => {
                    return HeapAction::Nothing;
                },
            }
        },
        HeapPhase::Mapping => {
            match event {
                HeapEvent::Mapped => {
                    match state.pending {
                        Some(request) => {
                            proof {
                                let installed = state@.mappings.push(request);
                                let after = heap_frames(
                                    HeapModel {
                                        phase: HeapPhase::Mapping,
                                        mappings: installed,
                                        pending: None,
                                    },
                                );
                                assert(heap_frames(state@) =~= after);
                                assert(state.installed@.update(state.mapped as int, request).take(
                                    state.mapped + 1,
                                ) =~= installed);
                            }
                            state.installed[state.mapped] = request;
                            state.mapped = state.mapped + 1;
                            state.pending = None;
                        },
                        // A mapping is pending whenever one is awaited.
                        None => {
                            return HeapAction::Nothing;
                        },
                    }
                },
                HeapEvent::MapFailed(error) => {
                    state.pending = None;
                    let action = state.unwind(error);
                    proof {
                        assert(heap_frames(state@) =~= heap_frames(old(state)@).drop_last());
                        lemma_backing_shrinks(old(state)@, state@, *frame_allocator);
                    }
                    return action;
                },
                _ => {
                    return HeapAction::Nothing;
                },
            }
        },
        HeapPhase::Unwinding(error) => {
            match event {
                HeapEvent::Unmapped => {
                    proof {
                        assert(state.installed@.take(state.mapped - 1)
                            =~= state@.mappings.drop_last());
                    }
                    state.mapped = state.mapped - 1;
                    let action = state.unwind(error);
                    proof {
                        assert(heap_frames(state@) =~= heap_frames(old(state)@).drop_last());
                        lemma_backing_shrinks(old(state)@, state@, *frame_allocator);
                    }
                    return action;
                },
                _ => {
                    return HeapAction::Nothing;
                },
            }
        },
        _ => {
            return HeapAction::Nothing;
        },
    }
    match next_heap_page(state.mapped) {
        None => {
            state.phase = HeapPhase::Active;
            HeapAction::HandOver { start: HEAP_START, size: HEAP_SIZE }
        },
        Some(page) => {
            let ghost installed = heap_frames(state@);
            match frame_allocator.allocate_frame() {
                Some(frame) => {
                    let request = MapRequest {
                        page,
                        frame,
                        flags: PageTableFlags {
                            present: true,
                            writable: true,
                            user_accessible: false,
                        },
                    };
                    state.phase = HeapPhase::Mapping;
                    state.pending = Some(request);
                    proof {
                        let frames = heap_frames(state@);
                        assert(frames =~= installed.push(frame.start_address));
                        let issued = frame_allocator.issued();
                        assert forall|k: int| 0 <= k < frames.len() implies issued.contains(
                            #[trigger] frames[k],
                        ) by {
                            if k < installed.len() {
                                let at = choose|at: int|
                                    0 <= at < old(frame_allocator).issued().len() && old(
                                        frame_allocator,
                                    ).issued()[at] == installed[k];
                                assert(issued[at] == frames[k]);
                            } else {
                                assert(issued[issued.len() - 1] == frames[k]);
                            }
                        }
                    }
                    HeapAction::MapPage(request)
                },
                None => state.unwind(MapError::FrameExhausted),
            }
        },
    }
}

/// The mapping of the page that holds the entry point of the user code:
/// to a frame fresh from `frame_allocator`, present, writable and
/// user-accessible. Fails with `FrameExhausted` where no frame is left.
pub fn user_entry_mapping(entry: u64, frame_allocator: &mut BootInfoFrameAllocator) -> (request:
    Result<MapRequest, MapError>)
    requires
        is_canonical(entry as int),
        old(frame_allocator).wf(),
        old(frame_allocator).cursor() < usize::MAX,
    ensures
        final(frame_allocator).wf(),
        final(frame_allocator).memory_map() == old(frame_allocator).memory_map(),
        final(frame_allocator).cursor() == old(frame_allocator).cursor() + 1,
        match request {
            Ok(mapping) => {
                &&& old(frame_allocator).upcoming() == Some(mapping.frame.start_address)
                &&& mapping.frame.wf()
                &&& mapping.page.start_address == align_down(entry as int)
                &&& mapping.page.contains(entry as int)
                &&& mapping.flags == user_flags()
            },
            Err(error) => {
                &&& error == MapError::FrameExhausted
                &&& old(frame_allocator).upcoming() is None
            },
        },
{
    match frame_allocator.allocate_frame() {
        Some(frame) => {
            let flags = PageTableFlags { present: true, writable: true, user_accessible: true };
            let page = Page::containing_address(entry);
            Ok(MapRequest { page, frame, flags })
        },
        None => Err(MapError::FrameExhausted),
    }
}

/// The mapping of the page that holds the top of the user stack, the last
/// byte below `stack_top`: to a frame fresh from `frame_allocator`,
/// present, writable and user-accessible. Fails with `FrameExhausted` where
/// no frame is left.
pub fn user_stack_mapping(stack_top: u64, frame_allocator: &mut BootInfoFrameAllocator) -> (request:
    Result<MapRequest, MapError>)
    requires
        stack_top > 0,
        is_canonical(stack_top - 1),
        old(frame_allocator).wf(),
        old(frame_allocator).cursor() < usize::MAX,
    ensures
        final(frame_allocator).wf(),
        final(frame_allocator).memory_map() == old(frame_allocator).memory_map(),
        final(frame_allocator).cursor() == old(frame_allocator).cursor() + 1,
        match request {
            Ok(mapping) => {
                &&& old(frame_allocator).upcoming() == Some(mapping.frame.start_address)
                &&& mapping.frame.wf()
                &&& mapping.page.start_address == align_down(stack_top - 1)
                &&& mapping.page.contains(stack_top - 1)
                &&& mapping.flags == user_flags()
            },
            Err(error) => {
                &&& error == MapError::FrameExhausted
                &&& old(frame_allocator).upcoming() is None
            },
        },
{
    user_entry_mapping(stack_top - 1, frame_allocator)
}

/// The virtual address at which the level 4 page table in `frame` can be
/// accessed, given the offset at which all physical memory is mapped.
pub fn level_4_table_address(physical_memory_offset: u64, frame: PhysFrame) -> (addr: u64)
    requires
        is_canonical(physical_memory_offset as int),
        is_canonical(physical_memory_offset + frame.start_address),
    ensures
        addr == physical_memory_offset + frame.start_address,
{
    offset_address(physical_memory_offset, frame.start_address)
}

} // verus!
