//! Boot-time ATAG records, as handed over by the firmware.
//!
//! Walking the raw tag chain in memory is the boot code's business; this
//! module holds the decoded tag values the kernel reads, above all the
//! memory map the allocator is built from.

use vstd::prelude::*;

verus! {

/// The firmware's core tag.
#[derive(Debug, Copy, Clone, PartialEq, Eq, Structural)]
pub struct Core {
    /// Flag bits.
    pub flags: u32,
    /// The page size the firmware assumed.
    pub pagesize: u32,
    /// The root device number.
    pub rootdev: u32,
}

/// The firmware's memory tag: one contiguous region of usable RAM.
#[derive(Debug, Copy, Clone, PartialEq, Eq, Structural)]
pub struct Mem {
    /// The region's size in bytes.
    pub size: u32,
    /// The region's start address.
    pub start: u32,
}

/// An ATAG.
#[derive(Debug, Clone, PartialEq, Eq)]
pub enum Atag {
    /// The core tag.
    Core(Core),
    /// A memory region tag.
    Mem(Mem),
    /// The kernel command line.
    Cmd(String),
    /// A tag of an unrecognized kind, kept by its raw tag number.
    Unknown(u32),
    /// The chain-terminating tag.
    End,
}

impl Atag {
    /// Returns `Some` if this is a `Core` ATAG.  Otherwise returns
    /// `None`.
    pub fn core_tag(self) -> (r: Option<Core>)
        ensures
            (self matches Atag::Core(c) ==> r == Some(c)),
            !(self matches Atag::Core(_)) ==> r is None,
    {
        match self {
            Atag::Core(c) => Some(c),
            _ => None,
        }
    }

    /// Returns `Some` if this is a `Mem` ATAG.  Otherwise returns
    /// `None`.
    pub fn mem(self) -> (r: Option<Mem>)
        ensures
            (self matches Atag::Mem(m) ==> r == Some(m)),
            !(self matches Atag::Mem(_)) ==> r is None,
    {
        match self {
            Atag::Mem(m) => Some(m),
            _ => None,
        }
    }

    /// Returns `Some` with the command line string if this is a `Cmd`
    /// ATAG.  Otherwise returns `None`.
    pub fn cmd(self) -> (r: Option<String>)
        ensures
            (self matches Atag::Cmd(c) ==> r == Some(c)),
            !(self matches Atag::Cmd(_)) ==> r is None,
    {
        match self {
            Atag::Cmd(c) => Some(c),
            _ => None,
        }
    }
}

} // verus!
