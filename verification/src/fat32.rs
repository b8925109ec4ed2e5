//! On-disk FAT32 data structures.
//!
//! The filesystem driver proper (device access, caching, directory
//! traversal) is a collaborator outside this crate; what lives here is
//! the on-disk format: the master boot record, the BIOS parameter block,
//! cluster arithmetic, FAT entry decoding, directory entry layouts and
//! file metadata, each parsed from raw sector bytes with an exact
//! contract.

pub mod cluster;
pub mod ebpb;
pub mod entry;
pub mod fat;
pub mod mbr;
pub mod metadata;
pub mod vfat;

use vstd::prelude::*;

verus! {

/// The little-endian 16-bit value stored at offset `o` of `s`.
pub open spec fn le16(s: Seq<u8>, o: int) -> int {
    s[o] + s[o + 1] * 0x100
}

/// The little-endian 32-bit value stored at offset `o` of `s`.
pub open spec fn le32(s: Seq<u8>, o: int) -> int {
    s[o] + s[o + 1] * 0x100 + s[o + 2] * 0x10000 + s[o + 3] * 0x1000000
}

/// Reads the little-endian 16-bit field at offset `o` of a sector.
pub fn read_le16(buf: &[u8; 512], o: usize) -> (r: u16)
    requires
        o + 2 <= 512,
    ensures
        r == le16(buf@, o as int),
{
    (buf[o] as u16) + (buf[o + 1] as u16) * 0x100
}

/// Reads the little-endian 32-bit field at offset `o` of a sector.
pub fn read_le32(buf: &[u8; 512], o: usize) -> (r: u32)
    requires
        o + 4 <= 512,
    ensures
        r == le32(buf@, o as int),
{
    (buf[o] as u32) + (buf[o + 1] as u32) * 0x100 + (buf[o + 2] as u32) * 0x10000 + (buf[o
        + 3] as u32) * 0x1000000
}

/// Copies the byte range `[start, end)` of a sector.
pub fn sector_range(buf: &[u8; 512], start: usize, end: usize) -> (r: Vec<u8>)
    requires
        start <= end <= 512,
    ensures
        r@ =~= buf@.subrange(start as int, end as int),
{
    let mut out: Vec<u8> = Vec::new();
    let mut i: usize = start;
    while i < end
        invariant
            start <= i <= end <= 512,
            out@.len() == i - start,
            forall|j: int| 0 <= j < out@.len() ==> out@[j] == buf@[start + j],
        decreases end - i,
    {
        out.push(buf[i]);
        i = i + 1;
    }
    out
}

} // verus!
