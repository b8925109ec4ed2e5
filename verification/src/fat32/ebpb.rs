//! The FAT32 extended BIOS parameter block.

use vstd::prelude::*;
use crate::fat32::le16;
use crate::fat32::le32;
use crate::fat32::read_le16;
use crate::fat32::read_le32;
use crate::fat32::sector_range;
use crate::fat32::mbr::Error;

verus! {

/// The extended BIOS parameter block of a FAT32 partition, field for
/// field as stored in its first sector.
#[derive(Debug, PartialEq, Eq)]
pub struct BiosParameterBlock {
    /// The jump instruction bytes.
    pub first_three: Vec<u8>,
    /// The OEM identifier bytes.
    pub oem_identifier: Vec<u8>,
    /// Bytes per logical sector.
    pub bytes_per_sector: u16,
    /// Logical sectors per cluster.
    pub sectors_per_cluster: u8,
    /// Reserved sectors before the first FAT.
    pub reserved_sectors: u16,
    /// Number of file allocation tables.
    pub fats: u8,
    /// Maximum directory entries (zero on FAT32).
    pub max_dir_entries: u16,
    /// Total logical sectors, when they fit in 16 bits.
    pub logical_sectors: u16,
    /// The media descriptor byte.
    pub fat_id: u8,
    /// Sectors per FAT, in the legacy 16-bit field (zero on FAT32).
    pub sectors_per_fat: u16,
    /// Sectors per track.
    pub sectors_per_track: u16,
    /// Number of heads.
    pub heads: u16,
    /// Hidden sectors before the partition.
    pub hidden_sectors: u32,
    /// Total logical sectors, when the 16-bit field is zero.
    pub tot_logical_sectors: u32,
    /// Sectors per FAT, in the 32-bit FAT32 field.
    pub e_sectors_per_fat: u32,
    /// Mirroring flags.
    pub flags: u16,
    /// FAT version number.
    pub fat_ver_num: u16,
    /// The cluster of the root directory.
    pub root_cluster: u32,
    /// The sector of the filesystem information structure.
    pub fsinfo_sector: u16,
    /// The sector of the backup boot sector.
    pub backup_sector: u16,
    /// Reserved bytes.
    pub reserved: Vec<u8>,
    /// The drive number.
    pub drive_num: u8,
    /// Windows NT flags.
    pub nt_flags: u8,
    /// The extended boot signature byte.
    pub signature: u8,
    /// The volume serial number.
    pub vol_serial: u32,
    /// The volume label bytes.
    pub vol_label_str: Vec<u8>,
    /// The system identifier bytes.
    pub sys_ident_str: Vec<u8>,
    /// The boot code area.
    pub boot_code: Vec<u8>,
    /// The boot sector signature bytes.
    pub boot_sig: Vec<u8>,
}

/// Whether `bpb` holds exactly what the partition's first sector `s`
/// stores.
pub open spec fn ebpb_parsed(bpb: BiosParameterBlock, s: Seq<u8>) -> bool {
    &&& bpb.first_three@ =~= s.subrange(0, 3)
    &&& bpb.oem_identifier@ =~= s.subrange(3, 11)
    &&& bpb.bytes_per_sector == le16(s, 11)
    &&& bpb.sectors_per_cluster == s[13]
    &&& bpb.reserved_sectors == le16(s, 14)
    &&& bpb.fats == s[16]
    &&& bpb.max_dir_entries == le16(s, 17)
    &&& bpb.logical_sectors == le16(s, 19)
    &&& bpb.fat_id == s[21]
    &&& bpb.sectors_per_fat == le16(s, 22)
    &&& bpb.sectors_per_track == le16(s, 24)
    &&& bpb.heads == le16(s, 26)
    &&& bpb.hidden_sectors == le32(s, 28)
    &&& bpb.tot_logical_sectors == le32(s, 32)
    &&& bpb.e_sectors_per_fat == le32(s, 36)
    &&& bpb.flags == le16(s, 40)
    &&& bpb.fat_ver_num == le16(s, 42)
    &&& bpb.root_cluster == le32(s, 44)
    &&& bpb.fsinfo_sector == le16(s, 48)
    &&& bpb.backup_sector == le16(s, 50)
    &&& bpb.reserved@ =~= s.subrange(52, 64)
    &&& bpb.drive_num == s[64]
    &&& bpb.nt_flags == s[65]
    &&& bpb.signature == s[66]
    &&& bpb.vol_serial == le32(s, 67)
    &&& bpb.vol_label_str@ =~= s.subrange(71, 82)
    &&& bpb.sys_ident_str@ =~= s.subrange(82, 90)
    &&& bpb.boot_code@ =~= s.subrange(90, 510)
    &&& bpb.boot_sig@ =~= s.subrange(510, 512)
}

impl BiosParameterBlock {
    /// Parses the FAT32 extended BIOS parameter block from the first
    /// sector of a partition.
    ///
    /// Returns `BadSignature`, and succeeds otherwise, according to the
    /// sector's trailing boot signature.
    pub fn from(sector: &[u8; 512]) -> (r: Result<BiosParameterBlock, Error>)
        ensures
            match r {
                Ok(bpb) => sector@[510] == 0x55 && sector@[511] == 0xaa && ebpb_parsed(
                    bpb,
                    sector@,
                ),
                Err(e) => e == Error::BadSignature && !(sector@[510] == 0x55 && sector@[511]
                    == 0xaa),
            },
    {
        if sector[510] != 0x55 || sector[511] != 0xaa {
            return Err(Error::BadSignature);
        }
        Ok(
            BiosParameterBlock {
                first_three: sector_range(sector, 0, 3),
                oem_identifier: sector_range(sector, 3, 11),
                bytes_per_sector: read_le16(sector, 11),
                sectors_per_cluster: sector[13],
                reserved_sectors: read_le16(sector, 14),
                fats: sector[16],
                max_dir_entries: read_le16(sector, 17),
                logical_sectors: read_le16(sector, 19),
                fat_id: sector[21],
                sectors_per_fat: read_le16(sector, 22),
                sectors_per_track: read_le16(sector, 24),
                heads: read_le16(sector, 26),
                hidden_sectors: read_le32(sector, 28),
                tot_logical_sectors: read_le32(sector, 32),
                e_sectors_per_fat: read_le32(sector, 36),
                flags: read_le16(sector, 40),
                fat_ver_num: read_le16(sector, 42),
                root_cluster: read_le32(sector, 44),
                fsinfo_sector: read_le16(sector, 48),
                backup_sector: read_le16(sector, 50),
                reserved: sector_range(sector, 52, 64),
                drive_num: sector[64],
                nt_flags: sector[65],
                signature: sector[66],
                vol_serial: read_le32(sector, 67),
                vol_label_str: sector_range(sector, 71, 82),
                sys_ident_str: sector_range(sector, 82, 90),
                boot_code: sector_range(sector, 90, 510),
                boot_sig: sector_range(sector, 510, 512),
            },
        )
    }
}

} // verus!
