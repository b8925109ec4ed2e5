//! File allocation table entries and their decoded status.

use vstd::prelude::*;
use crate::fat32::cluster::Cluster;

verus! {

/// The decoded meaning of one FAT entry.
#[derive(Debug, PartialEq, Eq, Structural)]
pub enum Status {
    /// The FAT entry corresponds to an unused (free) cluster.
    Free,
    /// The FAT entry/cluster is reserved.
    Reserved,
    /// The FAT entry corresponds to a valid data cluster.  The next
    /// cluster in the chain is `Cluster`.
    Data(Cluster),
    /// The FAT entry corresponds to a bad (disk failed) cluster.
    Bad,
    /// The FAT entry corresponds to a valid data cluster.  The
    /// corresponding cluster is the last in its chain.
    Eoc(u32),
}

/// One raw 32-bit FAT entry; only the low 28 bits carry meaning.
#[derive(Debug, PartialEq, Eq, Copy, Clone, Structural)]
pub struct FatEntry(pub u32);

/// The decoded status of a raw FAT entry value.
pub open spec fn spec_status(v: u32) -> Status {
    let f = v & 0x0fff_ffff;
    if f == 0 {
        Status::Free
    } else if f == 1 {
        Status::Reserved
    } else if f == 0x0fff_fff7 {
        Status::Bad
    } else if f >= 0x0fff_fff8 {
        Status::Eoc(f)
    } else {
        Status::Data(Cluster(f))
    }
}

impl FatEntry {
    /// Returns the `Status` of the FAT entry `self`.
    pub fn status(&self) -> (r: Status)
        ensures
            r == spec_status(self.0),
    {
        let flag: u32 = 0x0fff_ffff;
        let f = self.0 & flag;
        if f == 0 {
            Status::Free
        } else if f == 1 {
            Status::Reserved
        } else if f == 0x0fff_fff7 {
            Status::Bad
        } else if f >= 0x0fff_fff8 {
            Status::Eoc(f)
        } else {
            Status::Data(Cluster(f))
        }
    }
}

} // verus!
