//! Boot-time memory management and privilege-transition core of a small
//! 64-bit kernel: physical frame allocation, heap region set-up, descriptor
//! tables and the one-way drop to user privilege.
//!
//! Everything here computes on plain values. The code that touches the
//! machine (page tables in memory, descriptor-table registers, ports) lives
//! with the kernel binary, which performs the actions this library decides on
//! and reports back what happened.

pub mod addr;
pub mod memory_map;
pub mod frame_allocator;
pub mod cmos;
pub mod time;
pub mod mem;
pub mod gdt;
pub mod interrupts;
pub mod vga_buffer;
pub mod boot;
