//! Core of a bare-metal ARM64 kernel: a size-classed physical allocator,
//! two-level hardware page tables, trap frames, process lifecycle, and a
//! preemptive round-robin scheduler, together with the on-disk FAT32 data
//! structures used when loading process images.
//!
//! Hardware access (MMIO, exception return, timer programming, block-device
//! I/O) is left to the surrounding system; this crate holds the data
//! structures and decisions, each with a verified contract.

pub mod allocator;
pub mod atags;
pub mod fat32;
pub mod fs;
pub mod oserror;
pub mod param;
pub mod process;
pub mod scheduler;
pub mod traps;
pub mod util;
pub mod vm;

