//! The mounted-volume geometry computed from the on-disk headers.

use vstd::prelude::*;
use crate::fat32::cluster::Cluster;
use crate::fat32::ebpb::BiosParameterBlock;
use crate::fat32::mbr::MasterBootRecord;

verus! {

/// The geometry of a mounted FAT32 volume, computed once from the master
/// boot record and the BIOS parameter block.  Sector I/O and caching
/// belong to the device driver outside this crate.
#[derive(Debug, PartialEq, Eq, Structural, Copy, Clone)]
pub struct VFat {
    /// Bytes per logical sector.
    pub bytes_per_sector: u16,
    /// Logical sectors per cluster.
    pub sectors_per_cluster: u8,
    /// Sectors per file allocation table.
    pub sectors_per_fat: u32,
    /// The first FAT sector, relative to the partition start.
    pub fat_start_sector: u64,
    /// The first data sector, relative to the partition start.
    pub data_start_sector: u64,
    /// The cluster of the root directory.
    pub rootdir_cluster: Cluster,
    /// The partition's first sector on the disk.
    pub partition_start: u64,
    /// The number of sectors in the partition.
    pub partition_sectors: u64,
    /// The partition's sector size in bytes.
    pub sector_size: u64,
}

impl VFat {
    /// Computes the volume geometry from the parsed on-disk headers: the
    /// partition bounds from the first partition table entry, the FAT
    /// start from the reserved area, the data start behind all FATs, and
    /// the sector count from whichever of the two count fields is in
    /// use.
    pub fn from(mbr: &MasterBootRecord, bpb: &BiosParameterBlock) -> (r: VFat)
        ensures
            r.bytes_per_sector == bpb.bytes_per_sector,
            r.sectors_per_cluster == bpb.sectors_per_cluster,
            r.sectors_per_fat == bpb.e_sectors_per_fat,
            r.fat_start_sector == bpb.reserved_sectors,
            r.data_start_sector == bpb.e_sectors_per_fat * bpb.fats + bpb.reserved_sectors,
            r.rootdir_cluster == Cluster((bpb.root_cluster & 0x0fff_ffff) as u32),
            r.partition_start == mbr.partition_table@[0].relative_sector,
            r.partition_sectors == (if bpb.logical_sectors == 0 {
                bpb.tot_logical_sectors as u64
            } else {
                bpb.logical_sectors as u64
            }),
            r.sector_size == bpb.bytes_per_sector,
    {
        let sectors: u64 = if bpb.logical_sectors == 0 {
            bpb.tot_logical_sectors as u64
        } else {
            bpb.logical_sectors as u64
        };
        proof {
            vstd::arithmetic::mul::lemma_mul_upper_bound(
                bpb.e_sectors_per_fat as int,
                0xffff_ffff,
                bpb.fats as int,
                0xff,
            );
        }
        let pt = &mbr.partition_table[0];
        VFat {
            bytes_per_sector: bpb.bytes_per_sector,
            sectors_per_cluster: bpb.sectors_per_cluster,
            sectors_per_fat: bpb.e_sectors_per_fat,
            fat_start_sector: bpb.reserved_sectors as u64,
            data_start_sector: bpb.e_sectors_per_fat as u64 * bpb.fats as u64
                + bpb.reserved_sectors as u64,
            rootdir_cluster: Cluster(bpb.root_cluster & 0x0fff_ffff),
            partition_start: pt.relative_sector as u64,
            partition_sectors: sectors,
            sector_size: bpb.bytes_per_sector as u64,
        }
    }
}

} // verus!
