//! Physical and virtual addresses, frames and pages.

use vstd::prelude::*;
use x86_64::structures::paging::Size4KiB;

verus! {

/// Size in bytes of a physical frame and of a virtual page.
pub const PAGE_SIZE: u64 = 4096;

/// First value that is no physical address: only the low 52 bits may be set.
pub const PHYSICAL_LIMIT: u64 = 0x10_0000_0000_0000;

/// First address above the lower half of the canonical virtual address space.
pub const LOWER_HALF_END: u64 = 0x8000_0000_0000;

/// First address of the upper half of the canonical virtual address space.
pub const UPPER_HALF_START: u64 = 0xffff_8000_0000_0000;

/// The greatest multiple of the page size that is not above `addr`.
pub open spec fn align_down(addr: int) -> int {
    addr - addr % 4096
}

/// Whether `addr` fits the 52 bits of a physical address.
pub open spec fn is_physical(addr: int) -> bool {
    0 <= addr < PHYSICAL_LIMIT
}

/// Whether `addr` is a canonical virtual address: bits 48 to 63 repeat bit 47.
pub open spec fn is_canonical(addr: int) -> bool {
    0 <= addr < LOWER_HALF_END || UPPER_HALF_START <= addr <= u64::MAX
}

/// Start address of the 4KiB frame that holds the physical address `addr`.
///
/// Calls `PhysFrame::containing_address` of the x86_64 crate on
/// `PhysAddr::new(addr)`, which panics unless `addr` fits in 52 bits. The
/// frame's start address is `addr` with its low twelve bits cleared.
#[verifier::external_body]
fn containing_frame(addr: u64) -> (start: u64)
    requires
        is_physical(addr as int),
    ensures
        start == align_down(addr as int),
{
    let address = x86_64::PhysAddr::new(addr);
    x86_64::structures::paging::PhysFrame::<Size4KiB>::containing_address(address)
        .start_address()
        .as_u64()
}

/// Start address of the 4KiB page that holds the virtual address `addr`.
///
/// Calls `Page::containing_address` of the x86_64 crate on
/// `VirtAddr::new(addr)`, which panics unless `addr` is canonical. The page's
/// start address is `addr` with its low twelve bits cleared.
#[verifier::external_body]
fn containing_page(addr: u64) -> (start: u64)
    requires
        is_canonical(addr as int),
    ensures
        start == align_down(addr as int),
{
    let address = x86_64::VirtAddr::new(addr);
    x86_64::structures::paging::Page::<Size4KiB>::containing_address(address)
        .start_address()
        .as_u64()
}

/// Start address of the page `count` pages after the page that starts at
/// `start`.
///
/// Calls the `+` that the x86_64 crate gives a `Page` and a `u64`. It
/// multiplies `count` by the page size and adds the product to the page's
/// start address with the `+` of `VirtAddr`, which panics where the sum
/// overflows or is not canonical.
#[verifier::external_body]
fn page_after(start: u64, count: u64) -> (next: u64)
    requires
        is_canonical(start as int),
        start % 4096 == 0,
        is_canonical(start + count * 4096),
    ensures
        next == start + count * 4096,
{
    let page = x86_64::structures::paging::Page::<Size4KiB>::containing_address(
        x86_64::VirtAddr::new(start),
    );
    (page + count).start_address().as_u64()
}

/// The virtual address `offset` bytes above `addr`.
///
/// Calls the `+` that the x86_64 crate gives a `VirtAddr` and a `u64`, which
/// panics where the sum overflows or is not canonical.
#[verifier::external_body]
fn virt_add(addr: u64, offset: u64) -> (sum: u64)
    requires
        is_canonical(addr as int),
        is_canonical(addr + offset),
    ensures
        sum == addr + offset,
{
    (x86_64::VirtAddr::new(addr) + offset).as_u64()
}

/// The virtual address `offset` bytes below `addr`.
///
/// Calls the `-` that the x86_64 crate gives a `VirtAddr` and a `u64`, which
/// panics where the difference is negative or not canonical.
#[verifier::external_body]
fn virt_sub(addr: u64, offset: u64) -> (difference: u64)
    requires
        is_canonical(addr as int),
        is_canonical(addr - offset),
    ensures
        difference == addr - offset,
{
    (x86_64::VirtAddr::new(addr) - offset).as_u64()
}

/// Whether `addr` is a canonical virtual address.
pub fn is_canonical_address(addr: u64) -> (ok: bool)
    ensures
        ok == is_canonical(addr as int),
{
    addr < LOWER_HALF_END || addr >= UPPER_HALF_START
}

/// The canonical virtual address `offset` bytes above `addr`.
pub fn offset_address(addr: u64, offset: u64) -> (sum: u64)
    requires
        is_canonical(addr as int),
        is_canonical(addr + offset),
    ensures
        sum == addr + offset,
{
    virt_add(addr, offset)
}

/// The last address of the `size` bytes that start at `start`.
pub fn last_address(start: u64, size: u64) -> (last: u64)
    requires
        size > 0,
        is_canonical(start as int),
        is_canonical(start + size),
        is_canonical(start + size - 1),
    ensures
        last == start + size - 1,
{
    virt_sub(virt_add(start, size), 1)
}

/// A 4KiB-aligned unit of physical memory, named by its start address.
#[derive(Clone, Copy, PartialEq, Eq, Structural, Debug)]
pub struct PhysFrame {
    /// Address of the frame's first byte.
    pub start_address: u64,
}

impl PhysFrame {
    /// Whether the value names a frame: the start address is a physical
    /// address and a multiple of the frame size.
    pub open spec fn wf(self) -> bool {
        is_physical(self.start_address as int) && self.start_address % 4096 == 0
    }

    /// The frame that holds the physical address `addr`.
    pub fn containing_address(addr: u64) -> (frame: PhysFrame)
        requires
            is_physical(addr as int),
        ensures
            frame.start_address == align_down(addr as int),
            frame.wf(),
    {
        PhysFrame { start_address: containing_frame(addr) }
    }

    /// Address of the frame's first byte.
    pub fn start_address(&self) -> (addr: u64)
        ensures
            addr == self.start_address,
    {
        self.start_address
    }
}

/// A 4KiB-aligned unit of virtual address space, named by its start address.
#[derive(Clone, Copy, PartialEq, Eq, Structural, Debug)]
pub struct Page {
    /// Address of the page's first byte.
    pub start_address: u64,
}

impl Page {
    /// Whether the value names a page: the start address is canonical and a
    /// multiple of the page size.
    pub open spec fn wf(self) -> bool {
        is_canonical(self.start_address as int) && self.start_address % 4096 == 0
    }

    /// Whether the page holds the address `addr`.
    pub open spec fn contains(self, addr: int) -> bool {
        self.start_address <= addr < self.start_address + 4096
    }

    /// The page that holds the virtual address `addr`.
    pub fn containing_address(addr: u64) -> (page: Page)
        requires
            is_canonical(addr as int),
        ensures
            page.start_address == align_down(addr as int),
            page.contains(addr as int),
            page.wf(),
    {
        Page { start_address: containing_page(addr) }
    }

    /// Address of the page's first byte.
    pub fn start_address(&self) -> (addr: u64)
        ensures
            addr == self.start_address,
    {
        self.start_address
    }

    /// The page `count` pages after this one.
    pub fn offset(&self, count: u64) -> (page: Page)
        requires
            self.wf(),
            is_canonical(self.start_address + count * 4096),
        ensures
            page.start_address == self.start_address + count * 4096,
            page.wf(),
    {
        Page { start_address: page_after(self.start_address, count) }
    }
}

} // verus!
