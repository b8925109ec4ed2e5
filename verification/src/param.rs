//! Fixed layout parameters of the machine and of the user address space.

use vstd::prelude::*;

verus! {

/// Size in bytes of one page, the unit of all mapping and allocation.
pub const PAGE_SIZE: u64 = 4096;

/// Alignment in bytes required of every page of physical memory.
pub const PAGE_ALIGN: u64 = 4096;

/// Number of entries in one translation table (either level).
pub const TABLE_ENTRIES: usize = 8192;

/// Number of level-3 tables owned by one page table; each level-2 entry
/// governs `TABLE_ENTRIES * PAGE_SIZE` bytes (32 MiB) of address space.
pub const NUM_L3_TABLES: usize = 3;

/// Bytes of address space covered by one page table:
/// `NUM_L3_TABLES * TABLE_ENTRIES * PAGE_SIZE` (96 MiB).
pub const VM_COVERAGE: u64 = 3 * 8192 * 4096;

/// Start of the memory-mapped device register window (physical).
pub const IO_BASE: u64 = 0x4000000;

/// End (exclusive) of the memory-mapped device register window (physical).
pub const IO_BASE_END: u64 = 0x4400000;

/// Lowest virtual address of a user process image; also its entry point.
pub const USER_IMG_BASE: u64 = 0xffff_ffff_c000_0000;

/// Bytes of virtual address space reserved for one user process.
pub const USER_MAX_VM_SIZE: u64 = VM_COVERAGE;

/// Initial stack pointer of a user process, near the top of its window.
pub const USER_STACK_BASE: u64 = USER_IMG_BASE + USER_MAX_VM_SIZE - 16;

/// Number of pages mapped for a user process's stack.
pub const USER_STACK_PAGES: usize = 16;

/// Exclusive upper bound of the physical address space (48 bits).
pub const PHYS_ADDR_END: u64 = 0x1_0000_0000_0000;

} // verus!
