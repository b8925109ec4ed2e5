//! Cluster numbers and their sector arithmetic.

use vstd::prelude::*;

verus! {

/// A FAT32 cluster number; the top four bits of the raw 32-bit value are
/// reserved and masked off.
#[derive(PartialEq, Eq, PartialOrd, Ord, Debug, Copy, Clone, Hash, Structural)]
pub struct Cluster(pub u32);

impl From<u32> for Cluster {
    fn from(raw_num: u32) -> (r: Cluster) {
        Cluster(raw_num & 0x0fff_ffff)
    }
}

impl vstd::std_specs::convert::FromSpecImpl<u32> for Cluster {
    open spec fn obeys_from_spec() -> bool {
        true
    }

    open spec fn from_spec(raw_num: u32) -> Cluster {
        Cluster(raw_num & 0x0fff_ffff)
    }
}

impl Cluster {
    /// The sector of the file allocation table holding this cluster's
    /// entry, four bytes per entry.
    pub fn to_fatentry_sector(&self, fat_start_sector: u64, bytes_per_sector: u64) -> (r: u64)
        requires
            bytes_per_sector > 0,
            fat_start_sector + (self.0 * 4) as u64 / bytes_per_sector <= u64::MAX,
        ensures
            r == fat_start_sector + (self.0 * 4) as u64 / bytes_per_sector,
    {
        fat_start_sector + self.0 as u64 * 4 / bytes_per_sector
    }

    /// The first data sector of this cluster; data clusters start at
    /// number two.
    pub fn to_sector(&self, data_start_sector: u64, sectors_per_cluster: u64) -> (r: u64)
        requires
            self.0 >= 2,
            data_start_sector + (self.0 - 2) * sectors_per_cluster <= u64::MAX,
        ensures
            r == data_start_sector + (self.0 - 2) * sectors_per_cluster,
    {
        data_start_sector + (self.0 - 2) as u64 * sectors_per_cluster
    }

    /// The byte offset of this cluster's entry within its FAT sector.
    pub fn index_in_sector(&self, bytes_per_sector: u64) -> (r: usize)
        requires
            0 < bytes_per_sector < 0x1_0000_0000,
        ensures
            r == (self.0 * 4) as u64 % bytes_per_sector,
    {
        proof {
            vstd::arithmetic::div_mod::lemma_mod_bound((self.0 * 4) as int, bytes_per_sector as int);
        }
        (self.0 as u64 * 4 % bytes_per_sector) as usize
    }
}

} // verus!
