use kernel_core::addr::{
    is_canonical_address, last_address, offset_address, Page, PhysFrame, PAGE_SIZE,
};

#[test]
fn a_frame_starts_at_the_address_aligned_down() {
    assert_eq!(PhysFrame::containing_address(0x1234).start_address(), 0x1000);
    assert_eq!(PhysFrame::containing_address(0x1000).start_address(), 0x1000);
    assert_eq!(PhysFrame::containing_address(0xfff).start_address(), 0);
    let top = (1u64 << 52) - 1;
    assert_eq!(PhysFrame::containing_address(top).start_address(), top - 0xfff);
}

#[test]
fn a_page_starts_at_the_address_aligned_down() {
    assert_eq!(Page::containing_address(0x4444_4444_0123).start_address(), 0x4444_4444_0000);
    assert_eq!(
        Page::containing_address(0xffff_8000_0000_1fff).start_address(),
        0xffff_8000_0000_1000
    );
    assert_eq!(Page::containing_address(0).start_address(), 0);
}

#[test]
fn page_offset_steps_by_whole_pages() {
    let page = Page::containing_address(0x4444_4444_0000);
    assert_eq!(page.offset(0), page);
    assert_eq!(page.offset(1).start_address(), 0x4444_4444_1000);
    assert_eq!(page.offset(24).start_address(), 0x4444_4444_0000 + 24 * PAGE_SIZE);
}

#[test]
fn canonical_addresses_are_the_two_halves() {
    assert!(is_canonical_address(0));
    assert!(is_canonical_address(0x7fff_ffff_ffff));
    assert!(!is_canonical_address(0x8000_0000_0000));
    assert!(!is_canonical_address(0xffff_7fff_ffff_ffff));
    assert!(is_canonical_address(0xffff_8000_0000_0000));
    assert!(is_canonical_address(u64::MAX));
}

#[test]
fn address_arithmetic_is_exact() {
    assert_eq!(offset_address(0x1000, 0x234), 0x1234);
    assert_eq!(offset_address(0xffff_8000_0000_0000, 0x10), 0xffff_8000_0000_0010);
    assert_eq!(last_address(0x4444_4444_0000, 100 * 1024), 0x4444_4445_8fff);
    assert_eq!(last_address(0x2000, 1), 0x2000);
}
