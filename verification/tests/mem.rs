use kernel_core::addr::{Page, PhysFrame};
use kernel_core::frame_allocator::BootInfoFrameAllocator;
use kernel_core::mem::{
    heap_init, heap_page_range, level_4_table_address, user_entry_mapping, user_stack_mapping,
    HeapAction, HeapEvent, HeapInit, HeapPhase, MapError, MapRequest, PageTableFlags, HEAP_PAGES,
    HEAP_SIZE, HEAP_START,
};
use kernel_core::memory_map::{MemoryRegion, MemoryRegionKind};
use x86_64::structures::paging::page::Size4KiB;
use x86_64::structures::paging::PageTableFlags as Bits;

fn usable(start: u64, end: u64) -> MemoryRegion {
    MemoryRegion { start, end, kind: MemoryRegionKind::Usable }
}

fn reserved(start: u64, end: u64) -> MemoryRegion {
    MemoryRegion { start, end, kind: MemoryRegionKind::Reserved }
}

const HEAP_FLAGS: PageTableFlags =
    PageTableFlags { present: true, writable: true, user_accessible: false };

/// Runs the set-up with a kernel that installs every mapping and takes
/// `tables` frames for page tables after each of them.
fn run(
    allocator: &mut BootInfoFrameAllocator,
    tables: usize,
) -> (HeapInit, Vec<MapRequest>, HeapAction) {
    let mut state = HeapInit::new();
    let mut requests = Vec::new();
    let mut action = heap_init(&mut state, allocator, HeapEvent::Start);
    loop {
        match action {
            HeapAction::MapPage(request) => {
                requests.push(request);
                for _ in 0..tables {
                    allocator.allocate_frame();
                }
                action = heap_init(&mut state, allocator, HeapEvent::Mapped);
            }
            HeapAction::Unmap(page) => {
                let last = requests.pop().expect("only a mapped page is taken out");
                assert_eq!(last.page, page);
                action = heap_init(&mut state, allocator, HeapEvent::Unmapped);
            }
            _ => return (state, requests, action),
        }
    }
}

#[test]
fn the_heap_covers_twenty_five_pages() {
    assert_eq!(HEAP_START, 0x4444_4444_0000);
    assert_eq!(HEAP_SIZE, 102_400);
    assert_eq!(HEAP_PAGES, 25);
    let (first, last) = heap_page_range();
    assert_eq!(first, Page { start_address: 0x4444_4444_0000 });
    assert_eq!(last, Page { start_address: 0x4444_4445_8000 });
}

#[test]
fn heap_pages_agree_with_the_page_range_of_the_x86_64_crate() {
    let start = x86_64::VirtAddr::new(HEAP_START);
    let end = start + HEAP_SIZE - 1u64;
    let range = x86_64::structures::paging::Page::<Size4KiB>::range_inclusive(
        x86_64::structures::paging::Page::containing_address(start),
        x86_64::structures::paging::Page::containing_address(end),
    );
    let expected: Vec<u64> = range.map(|page| page.start_address().as_u64()).collect();

    let map = [usable(0x10_0000, 0x20_0000)];
    let mut allocator = BootInfoFrameAllocator::new(&map);
    let (_, requests, _) = run(&mut allocator, 0);
    let pages: Vec<u64> = requests.iter().map(|r| r.page.start_address()).collect();
    assert_eq!(pages, expected);
}

#[test]
fn a_full_run_maps_every_page_and_hands_the_heap_over() {
    let map = [reserved(0, 0x10_0000), usable(0x10_0000, 0x20_0000)];
    let mut allocator = BootInfoFrameAllocator::new(&map);
    let (state, requests, last) = run(&mut allocator, 0);
    assert_eq!(last, HeapAction::HandOver { start: HEAP_START, size: HEAP_SIZE });
    assert_eq!(state.phase(), HeapPhase::Active);
    for addr in [HEAP_START, HEAP_START + 1, HEAP_START + 4096, HEAP_START + HEAP_SIZE - 1] {
        let mapping = state.translate(addr).expect("the heap is mapped");
        assert_eq!(mapping, requests[((addr - HEAP_START) / 4096) as usize]);
        assert!(mapping.flags.present && mapping.flags.writable);
    }
    assert_eq!(state.translate(HEAP_START - 1), None);
    assert_eq!(state.translate(HEAP_START + HEAP_SIZE), None);
    assert_eq!(state.translate(0), None);
    assert_eq!(state.translate(u64::MAX), None);
    assert_eq!(allocator.cursor_position(), 25);
    assert!(state.is_active());
    assert_eq!(state.pending(), None);
    assert_eq!(requests.len(), 25);
    for (n, request) in requests.iter().enumerate() {
        let n = n as u64;
        assert_eq!(request.page.start_address(), HEAP_START + n * 4096);
        assert_eq!(request.frame.start_address(), 0x10_0000 + n * 4096);
        assert_eq!(request.flags, HEAP_FLAGS);
    }
}

#[test]
fn first_and_last_heap_address_get_different_frames() {
    let map = [usable(0x10_0000, 0x20_0000)];
    let mut allocator = BootInfoFrameAllocator::new(&map);
    // The kernel takes three frames for page tables with every mapping.
    let (state, requests, _) = run(&mut allocator, 3);
    let first = state.translate(HEAP_START).expect("mapped");
    let last = state.translate(HEAP_START + HEAP_SIZE - 1).expect("mapped");
    assert_ne!(first.frame, last.frame);
    assert_eq!(first.frame, PhysFrame { start_address: 0x10_0000 });
    assert_eq!(last.frame, PhysFrame { start_address: 0x10_0000 + 24 * 4 * 4096 });
    let of = |addr: u64| {
        requests
            .iter()
            .find(|r| r.page.start_address() <= addr && addr < r.page.start_address() + 4096)
            .expect("mapped")
            .frame
    };
    assert_ne!(of(HEAP_START), of(HEAP_START + HEAP_SIZE - 1));
    assert_eq!(of(HEAP_START), PhysFrame { start_address: 0x10_0000 });
    assert_eq!(of(HEAP_START + 4096), PhysFrame { start_address: 0x10_4000 });
    for i in 0..requests.len() {
        for j in 0..i {
            assert_ne!(requests[i].frame, requests[j].frame);
        }
    }
    assert_eq!(allocator.cursor_position(), 100);
}

#[test]
fn without_usable_region_the_heap_fails_and_nothing_is_mapped() {
    let map = [reserved(0, 0x10_0000)];
    let mut allocator = BootInfoFrameAllocator::new(&map);
    let mut state = HeapInit::new();
    let action = heap_init(&mut state, &mut allocator, HeapEvent::Start);
    assert_eq!(action, HeapAction::Abort(MapError::FrameExhausted));
    assert_eq!(state.phase(), HeapPhase::Failed(MapError::FrameExhausted));
    assert!(!state.is_active());
    assert_eq!(state.pending(), None);
    // The allocator was asked once, in vain.
    assert_eq!(allocator.cursor_position(), 1);
    for page in 0..25 {
        assert_eq!(state.translate(HEAP_START + page * 4096), None);
    }
}

#[test]
fn frames_running_out_midway_takes_every_page_out_again() {
    // Two frames: the third page finds none.
    let map = [usable(0x10_0000, 0x10_2000)];
    let mut allocator = BootInfoFrameAllocator::new(&map);
    let mut state = HeapInit::new();
    let first = heap_init(&mut state, &mut allocator, HeapEvent::Start);
    let second = heap_init(&mut state, &mut allocator, HeapEvent::Mapped);
    assert!(matches!(first, HeapAction::MapPage(_)));
    assert!(matches!(second, HeapAction::MapPage(_)));
    assert_eq!(state.translate(HEAP_START).map(HeapAction::MapPage), Some(first));
    assert_eq!(state.translate(HEAP_START + 4096), None);

    // The second mapping is installed; no frame is left for the third page.
    let action = heap_init(&mut state, &mut allocator, HeapEvent::Mapped);
    assert_eq!(action, HeapAction::Unmap(Page { start_address: HEAP_START + 4096 }));
    assert_eq!(state.phase(), HeapPhase::Unwinding(MapError::FrameExhausted));
    assert_eq!(allocator.cursor_position(), 3);
    assert!(state.translate(HEAP_START + 4096).is_some());

    let action = heap_init(&mut state, &mut allocator, HeapEvent::Unmapped);
    assert_eq!(action, HeapAction::Unmap(Page { start_address: HEAP_START }));
    assert_eq!(state.translate(HEAP_START + 4096), None);
    assert!(state.translate(HEAP_START).is_some());

    let action = heap_init(&mut state, &mut allocator, HeapEvent::Unmapped);
    assert_eq!(action, HeapAction::Abort(MapError::FrameExhausted));
    assert_eq!(state.phase(), HeapPhase::Failed(MapError::FrameExhausted));
    for page in 0..25 {
        assert_eq!(state.translate(HEAP_START + page * 4096), None);
    }
    assert!(!state.is_active());
    assert_eq!(allocator.cursor_position(), 3);
}

#[test]
fn a_run_that_fails_leaves_no_page_mapped() {
    // Ten frames: the eleventh page finds none.
    let map = [usable(0x10_0000, 0x10_a000)];
    let mut allocator = BootInfoFrameAllocator::new(&map);
    let (state, still_mapped, last) = run(&mut allocator, 0);
    assert_eq!(last, HeapAction::Abort(MapError::FrameExhausted));
    assert_eq!(state.phase(), HeapPhase::Failed(MapError::FrameExhausted));
    assert!(still_mapped.is_empty());
    assert_eq!(state.translate(HEAP_START), None);
    assert_eq!(allocator.cursor_position(), 11);
}

#[test]
fn a_failed_mapping_aborts_with_its_error() {
    let map = [usable(0x10_0000, 0x20_0000)];
    let mut allocator = BootInfoFrameAllocator::new(&map);
    let mut state = HeapInit::new();
    let action = heap_init(&mut state, &mut allocator, HeapEvent::Start);
    assert!(matches!(action, HeapAction::MapPage(_)));
    assert_eq!(state.phase(), HeapPhase::Mapping);
    let action = heap_init(&mut state, &mut allocator, HeapEvent::Mapped);
    assert!(matches!(action, HeapAction::MapPage(_)));
    // The second mapping fails: the first page is taken out, then the
    // set-up gives up with the error of the mapping.
    let action =
        heap_init(&mut state, &mut allocator, HeapEvent::MapFailed(MapError::MapConflict));
    assert_eq!(action, HeapAction::Unmap(Page { start_address: HEAP_START }));
    assert_eq!(state.phase(), HeapPhase::Unwinding(MapError::MapConflict));
    assert_eq!(state.pending(), None);
    // While a removal is awaited nothing else is taken.
    let other = HeapEvent::MapFailed(MapError::FrameExhausted);
    for event in [HeapEvent::Start, HeapEvent::Mapped, other] {
        assert_eq!(heap_init(&mut state, &mut allocator, event), HeapAction::Nothing);
    }
    let action = heap_init(&mut state, &mut allocator, HeapEvent::Unmapped);
    assert_eq!(action, HeapAction::Abort(MapError::MapConflict));
    assert_eq!(state.phase(), HeapPhase::Failed(MapError::MapConflict));
    assert_eq!(state.translate(HEAP_START), None);
    // A failed set-up stays failed.
    let failed = HeapEvent::MapFailed(MapError::MapConflict);
    for event in [HeapEvent::Start, HeapEvent::Mapped, failed, HeapEvent::Unmapped] {
        assert_eq!(heap_init(&mut state, &mut allocator, event), HeapAction::Nothing);
    }
    assert_eq!(state.phase(), HeapPhase::Failed(MapError::MapConflict));
    assert_eq!(allocator.cursor_position(), 2);
}

#[test]
fn a_first_mapping_that_fails_has_nothing_to_take_out() {
    let map = [usable(0x10_0000, 0x20_0000)];
    let mut allocator = BootInfoFrameAllocator::new(&map);
    let mut state = HeapInit::new();
    heap_init(&mut state, &mut allocator, HeapEvent::Start);
    let action =
        heap_init(&mut state, &mut allocator, HeapEvent::MapFailed(MapError::FrameExhausted));
    assert_eq!(action, HeapAction::Abort(MapError::FrameExhausted));
    assert_eq!(state.phase(), HeapPhase::Failed(MapError::FrameExhausted));
}

#[test]
fn the_heap_is_handed_over_once() {
    let map = [usable(0x10_0000, 0x20_0000)];
    let mut allocator = BootInfoFrameAllocator::new(&map);
    let (mut state, _, last) = run(&mut allocator, 0);
    assert!(matches!(last, HeapAction::HandOver { .. }));
    let failed = HeapEvent::MapFailed(MapError::FrameExhausted);
    for event in [HeapEvent::Start, HeapEvent::Mapped, failed, HeapEvent::Unmapped] {
        assert_eq!(heap_init(&mut state, &mut allocator, event), HeapAction::Nothing);
        assert_eq!(state.phase(), HeapPhase::Active);
    }
    assert!(state.translate(HEAP_START).is_some());
    assert_eq!(allocator.cursor_position(), 25);
}

#[test]
fn events_out_of_turn_change_nothing() {
    let map = [usable(0x10_0000, 0x20_0000)];
    let mut allocator = BootInfoFrameAllocator::new(&map);
    let mut state = HeapInit::new();
    assert_eq!(heap_init(&mut state, &mut allocator, HeapEvent::Mapped), HeapAction::Nothing);
    assert_eq!(
        heap_init(&mut state, &mut allocator, HeapEvent::MapFailed(MapError::MapConflict)),
        HeapAction::Nothing
    );
    assert_eq!(state.phase(), HeapPhase::Fresh);
    let first = heap_init(&mut state, &mut allocator, HeapEvent::Start);
    assert_eq!(state.pending().map(HeapAction::MapPage), Some(first));
    assert_eq!(heap_init(&mut state, &mut allocator, HeapEvent::Start), HeapAction::Nothing);
    assert_eq!(state.phase(), HeapPhase::Mapping);
    assert_eq!(allocator.cursor_position(), 1);
}

#[test]
fn the_user_entry_is_mapped_user_accessible() {
    let map = [usable(0x8000, 0xa000)];
    let mut allocator = BootInfoFrameAllocator::new(&map);
    let request = user_entry_mapping(0x20_1234, &mut allocator).expect("a frame is left");
    assert_eq!(
        request,
        MapRequest {
            page: Page { start_address: 0x20_1000 },
            frame: PhysFrame { start_address: 0x8000 },
            flags: PageTableFlags { present: true, writable: true, user_accessible: true },
        }
    );
    assert_eq!(allocator.cursor_position(), 1);
    assert!(user_entry_mapping(0x20_1234, &mut allocator).is_ok());
    assert_eq!(user_entry_mapping(0x20_1234, &mut allocator), Err(MapError::FrameExhausted));
    assert_eq!(allocator.cursor_position(), 3);
}

#[test]
fn the_user_stack_is_mapped_below_its_top() {
    let map = [usable(0x8000, 0x9000)];
    let mut allocator = BootInfoFrameAllocator::new(&map);
    let request = user_stack_mapping(0x7fff_ffff_f000, &mut allocator).expect("a frame is left");
    assert_eq!(
        request,
        MapRequest {
            page: Page { start_address: 0x7fff_ffff_e000 },
            frame: PhysFrame { start_address: 0x8000 },
            flags: PageTableFlags { present: true, writable: true, user_accessible: true },
        }
    );
    assert_eq!(user_stack_mapping(0x7fff_ffff_f000, &mut allocator), Err(MapError::FrameExhausted));
    assert_eq!(allocator.cursor_position(), 2);
}

#[test]
fn flag_bits_are_those_of_a_page_table_entry() {
    let heap = PageTableFlags { present: true, writable: true, user_accessible: false };
    let user = PageTableFlags { present: true, writable: true, user_accessible: true };
    let none = PageTableFlags { present: false, writable: false, user_accessible: false };
    assert_eq!(heap.bits(), 3);
    assert_eq!(user.bits(), 7);
    assert_eq!(none.bits(), 0);
    assert_eq!(heap.bits(), (Bits::PRESENT | Bits::WRITABLE).bits());
    assert_eq!(user.bits(), (Bits::PRESENT | Bits::WRITABLE | Bits::USER_ACCESSIBLE).bits());
    let only_user = PageTableFlags { present: false, writable: false, user_accessible: true };
    assert_eq!(only_user.bits(), Bits::USER_ACCESSIBLE.bits());
}

#[test]
fn the_level_4_table_is_found_behind_the_physical_memory_offset() {
    let frame = PhysFrame::containing_address(0x1_2345);
    assert_eq!(level_4_table_address(0xffff_8000_0000_0000, frame), 0xffff_8000_0001_2000);
    assert_eq!(level_4_table_address(0, frame), 0x1_2000);
}
