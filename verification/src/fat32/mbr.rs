//! The master boot record and its partition table.

use vstd::prelude::*;
use crate::fat32::le32;
use crate::fat32::read_le32;
use crate::fat32::sector_range;

verus! {

/// A legacy cylinder/head/sector location, kept as raw bytes.
#[derive(Copy, Clone, Debug, PartialEq, Eq)]
pub struct CHS {
    /// The head byte.
    pub head: u8,
    /// The packed sector and cylinder bytes.
    pub sector_cylinder: [u8; 2],
}

/// One entry of the partition table.
#[derive(Debug, PartialEq, Eq, Copy, Clone)]
pub struct PartitionEntry {
    /// The boot indicator: `0x80` for bootable, zero otherwise.
    pub bootable: u8,
    /// Where the partition starts, in legacy CHS form.
    pub starting_chs: CHS,
    /// The partition type code.
    pub partition_type: u8,
    /// Where the partition ends, in legacy CHS form.
    pub ending_chd: CHS,
    /// The partition's first sector, relative to the disk start.
    pub relative_sector: u32,
    /// The number of sectors in the partition.
    pub total_sectors: u32,
}

/// The master boot record (MBR).
#[derive(Debug, PartialEq, Eq)]
pub struct MasterBootRecord {
    /// The bootstrap code area.
    pub bootstrap: Vec<u8>,
    /// The disk id bytes.
    pub disk_id: Vec<u8>,
    /// The four entries of the partition table.
    pub partition_table: [PartitionEntry; 4],
    /// The boot sector signature bytes.
    pub valid_bootsector: [u8; 2],
}

/// How parsing a master boot record can fail.
#[derive(Debug, PartialEq, Eq, Structural, Copy, Clone)]
pub enum Error {
    /// Partition `.0` (0-indexed) contains an invalid or unknown boot
    /// indicator.
    UnknownBootIndicator(u8),
    /// The MBR magic signature was invalid.
    BadSignature,
}

/// Byte offset of partition entry `k` in the boot sector.
pub open spec fn pe_off(k: int) -> int {
    446 + 16 * k
}

/// Whether `pe` holds exactly the fields stored at offset `o` of the
/// sector `s`.
pub open spec fn partition_entry_parsed(pe: PartitionEntry, s: Seq<u8>, o: int) -> bool {
    &&& pe.bootable == s[o]
    &&& pe.starting_chs.head == s[o + 1]
    &&& pe.starting_chs.sector_cylinder@ =~= s.subrange(o + 2, o + 4)
    &&& pe.partition_type == s[o + 4]
    &&& pe.ending_chd.head == s[o + 5]
    &&& pe.ending_chd.sector_cylinder@ =~= s.subrange(o + 6, o + 8)
    &&& pe.relative_sector == le32(s, o + 8)
    &&& pe.total_sectors == le32(s, o + 12)
}

/// Whether `mbr` holds exactly what the boot sector `s` stores.
pub open spec fn mbr_parsed(mbr: MasterBootRecord, s: Seq<u8>) -> bool {
    &&& mbr.bootstrap@ =~= s.subrange(0, 436)
    &&& mbr.disk_id@ =~= s.subrange(436, 446)
    &&& (forall|k: int|
        0 <= k < 4 ==> partition_entry_parsed(#[trigger] mbr.partition_table@[k], s, pe_off(k)))
    &&& mbr.valid_bootsector@ =~= s.subrange(510, 512)
}

/// Whether the boot indicator of partition `k` in sector `s` is valid:
/// either inactive (zero) or bootable (`0x80`).
pub open spec fn boot_indicator_ok(s: Seq<u8>, k: int) -> bool {
    s[pe_off(k)] == 0 || s[pe_off(k)] == 0x80
}

/// Parses one partition entry at offset `o` of the boot sector.
fn parse_partition_entry(buf: &[u8; 512], o: usize) -> (r: PartitionEntry)
    requires
        o + 16 <= 512,
    ensures
        partition_entry_parsed(r, buf@, o as int),
{
    PartitionEntry {
        bootable: buf[o],
        starting_chs: CHS { head: buf[o + 1], sector_cylinder: [buf[o + 2], buf[o + 3]] },
        partition_type: buf[o + 4],
        ending_chd: CHS { head: buf[o + 5], sector_cylinder: [buf[o + 6], buf[o + 7]] },
        relative_sector: read_le32(buf, o + 8),
        total_sectors: read_le32(buf, o + 12),
    }
}

impl MasterBootRecord {
    /// Parses the master boot record from the disk's first sector.
    ///
    /// Returns `BadSignature` if the sector does not end in the boot
    /// signature, and `UnknownBootIndicator(n)` for the first partition
    /// `n` whose boot indicator is neither zero nor `0x80`; succeeds
    /// exactly when neither holds.
    pub fn from(sector: &[u8; 512]) -> (r: Result<MasterBootRecord, Error>)
        ensures
            match r {
                Ok(mbr) => {
                    &&& sector@[510] == 0x55 && sector@[511] == 0xaa
                    &&& (forall|k: int| 0 <= k < 4 ==> boot_indicator_ok(sector@, k))
                    &&& mbr_parsed(mbr, sector@)
                },
                Err(Error::BadSignature) => !(sector@[510] == 0x55 && sector@[511] == 0xaa),
                Err(Error::UnknownBootIndicator(n)) => {
                    &&& sector@[510] == 0x55 && sector@[511] == 0xaa
                    &&& 0 <= n < 4
                    &&& !boot_indicator_ok(sector@, n as int)
                    &&& (forall|k: int| 0 <= k < n ==> boot_indicator_ok(sector@, k))
                },
            },
    {
        if sector[510] != 0x55 || sector[511] != 0xaa {
            return Err(Error::BadSignature);
        }
        let mut k: usize = 0;
        while k < 4
            invariant
                k <= 4,
                sector@[510] == 0x55 && sector@[511] == 0xaa,
                forall|j: int| 0 <= j < k ==> boot_indicator_ok(sector@, j),
            decreases 4 - k,
        {
            let boot_ind = sector[446 + 16 * k];
            if boot_ind != 0x80 && boot_ind != 0 {
                return Err(Error::UnknownBootIndicator(k as u8));
            }
            k = k + 1;
        }
        Ok(
            MasterBootRecord {
                bootstrap: sector_range(sector, 0, 436),
                disk_id: sector_range(sector, 436, 446),
                partition_table: [
                    parse_partition_entry(sector, 446),
                    parse_partition_entry(sector, 462),
                    parse_partition_entry(sector, 478),
                    parse_partition_entry(sector, 494),
                ],
                valid_bootsector: [sector[510], sector[511]],
            },
        )
    }
}

} // verus!
