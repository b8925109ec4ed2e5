//! Directory entries: raw on-disk layouts and the parsed file/directory
//! values the driver hands out.

use vstd::prelude::*;
use crate::fat32::le16;
use crate::fat32::le32;
use crate::fat32::cluster::Cluster;
use crate::fat32::metadata::Metadata;

verus! {

/// A regular 8.3 directory entry, field for field as stored on disk.
#[derive(Copy, Clone, Debug, PartialEq, Eq)]
pub struct VFatRegularDirEntry {
    /// The short file name bytes.
    pub file_name: [u8; 8],
    /// The file extension bytes.
    pub file_ext: [u8; 3],
    /// The attribute byte.
    pub attribute: u8,
    /// Reserved for Windows NT.
    pub win_nt: u8,
    /// Creation time, tenths of a second.
    pub creation_time_tsec: u8,
    /// Creation time.
    pub creation_time_sec: u16,
    /// Creation date.
    pub creation_date: u16,
    /// Last access date.
    pub last_acc_date: u16,
    /// High sixteen bits of the first cluster.
    pub cluster_high_bits: u16,
    /// Last modification time.
    pub last_mod_time: u16,
    /// Last modification date.
    pub last_mod_date: u16,
    /// Low sixteen bits of the first cluster.
    pub cluster_low_bits: u16,
    /// The file size in bytes.
    pub file_size: u32,
}

/// A long-file-name directory entry, field for field as stored on disk.
#[derive(Copy, Clone, Debug, PartialEq, Eq)]
pub struct VFatLfnDirEntry {
    /// The sequence number of this name fragment.
    pub sequence_num: u8,
    /// The first five name characters.
    pub name_chars: [u16; 5],
    /// The attribute byte; always the long-file-name marker.
    pub attributes: u8,
    /// The entry type byte.
    pub file_type: u8,
    /// Checksum of the matching short name.
    pub checksum: u8,
    /// The next six name characters.
    pub second_name_chars: [u16; 6],
    /// Always zero.
    pub zeroes: u16,
    /// The last two name characters.
    pub third_name_chars: [u16; 2],
}

/// A directory entry before classification: its raw bytes.
#[derive(Copy, Clone, Debug, PartialEq, Eq)]
pub struct VFatUnknownDirEntry {
    /// The entry's 32 raw bytes.
    pub content: [u8; 32],
}

/// Whether `e` holds exactly the regular-entry fields of the 32-byte
/// record `s`.
pub open spec fn regular_entry_parsed(e: VFatRegularDirEntry, s: Seq<u8>) -> bool {
    &&& e.file_name@ =~= s.subrange(0, 8)
    &&& e.file_ext@ =~= s.subrange(8, 11)
    &&& e.attribute == s[11]
    &&& e.win_nt == s[12]
    &&& e.creation_time_tsec == s[13]
    &&& e.creation_time_sec == le16(s, 14)
    &&& e.creation_date == le16(s, 16)
    &&& e.last_acc_date == le16(s, 18)
    &&& e.cluster_high_bits == le16(s, 20)
    &&& e.last_mod_time == le16(s, 22)
    &&& e.last_mod_date == le16(s, 24)
    &&& e.cluster_low_bits == le16(s, 26)
    &&& e.file_size == le32(s, 28)
}

/// Reads the little-endian 16-bit field at offset `o` of a 32-byte
/// directory record.
fn rec_le16(rec: &[u8; 32], o: usize) -> (r: u16)
    requires
        o + 2 <= 32,
    ensures
        r == le16(rec@, o as int),
{
    (rec[o] as u16) + (rec[o + 1] as u16) * 0x100
}

impl VFatRegularDirEntry {
    /// Parses a regular directory entry from its 32 raw bytes.
    pub fn from(rec: &[u8; 32]) -> (r: VFatRegularDirEntry)
        ensures
            regular_entry_parsed(r, rec@),
    {
        let r = VFatRegularDirEntry {
            file_name: [rec[0], rec[1], rec[2], rec[3], rec[4], rec[5], rec[6], rec[7]],
            file_ext: [rec[8], rec[9], rec[10]],
            attribute: rec[11],
            win_nt: rec[12],
            creation_time_tsec: rec[13],
            creation_time_sec: rec_le16(rec, 14),
            creation_date: rec_le16(rec, 16),
            last_acc_date: rec_le16(rec, 18),
            cluster_high_bits: rec_le16(rec, 20),
            last_mod_time: rec_le16(rec, 22),
            last_mod_date: rec_le16(rec, 24),
            cluster_low_bits: rec_le16(rec, 26),
            file_size: (rec[28] as u32) + (rec[29] as u32) * 0x100 + (rec[30] as u32) * 0x10000 + (
            rec[31] as u32) * 0x1000000,
        };
        proof {
            assert(r.file_name@ =~= rec@.subrange(0, 8));
            assert(r.file_ext@ =~= rec@.subrange(8, 11));
        }
        r
    }

    /// The first cluster of the entry's data, from its two halves.
    pub fn first_cluster(&self) -> (r: Cluster)
        ensures
            r == Cluster(
                ((self.cluster_high_bits as u32) * 0x10000 + self.cluster_low_bits as u32) as u32,
            ),
    {
        Cluster((self.cluster_high_bits as u32) * 0x10000 + self.cluster_low_bits as u32)
    }
}

/// Whether `e` holds exactly the long-file-name fields of the 32-byte
/// record `s`.
pub open spec fn lfn_entry_parsed(e: VFatLfnDirEntry, s: Seq<u8>) -> bool {
    &&& e.sequence_num == s[0]
    &&& (forall|k: int| 0 <= k < 5 ==> e.name_chars@[k] == le16(s, 1 + 2 * k))
    &&& e.attributes == s[11]
    &&& e.file_type == s[12]
    &&& e.checksum == s[13]
    &&& (forall|k: int| 0 <= k < 6 ==> e.second_name_chars@[k] == le16(s, 14 + 2 * k))
    &&& e.zeroes == le16(s, 26)
    &&& (forall|k: int| 0 <= k < 2 ==> e.third_name_chars@[k] == le16(s, 28 + 2 * k))
}

impl VFatLfnDirEntry {
    /// Parses a long-file-name directory entry from its 32 raw bytes.
    pub fn from(rec: &[u8; 32]) -> (r: VFatLfnDirEntry)
        ensures
            lfn_entry_parsed(r, rec@),
    {
        VFatLfnDirEntry {
            sequence_num: rec[0],
            name_chars: [
                rec_le16(rec, 1),
                rec_le16(rec, 3),
                rec_le16(rec, 5),
                rec_le16(rec, 7),
                rec_le16(rec, 9),
            ],
            attributes: rec[11],
            file_type: rec[12],
            checksum: rec[13],
            second_name_chars: [
                rec_le16(rec, 14),
                rec_le16(rec, 16),
                rec_le16(rec, 18),
                rec_le16(rec, 20),
                rec_le16(rec, 22),
                rec_le16(rec, 24),
            ],
            zeroes: rec_le16(rec, 26),
            third_name_chars: [rec_le16(rec, 28), rec_le16(rec, 30)],
        }
    }
}

impl VFatUnknownDirEntry {
    /// Wraps the 32 raw bytes of a not-yet-classified entry.
    pub fn from(rec: &[u8; 32]) -> (r: VFatUnknownDirEntry)
        ensures
            r.content@ =~= rec@,
    {
        VFatUnknownDirEntry { content: *rec }
    }

    /// Whether the record is free: the first byte is the unused marker.
    pub fn is_free(&self) -> (r: bool)
        ensures
            r == (self.content@[0] == 0xe5),
    {
        self.content[0] == 0xe5
    }

    /// Whether the record ends the directory: the first byte is zero.
    pub fn is_end(&self) -> (r: bool)
        ensures
            r == (self.content@[0] == 0),
    {
        self.content[0] == 0
    }

    /// Whether the record is a long-file-name entry: its attribute byte
    /// carries the long-file-name marker.
    pub fn is_lfn(&self) -> (r: bool)
        ensures
            r == (self.content@[11] == 0x0f),
    {
        self.content[11] == 0x0f
    }
}

/// A file of the filesystem: its first cluster, name, metadata and size.
/// Reading its bytes goes through the driver outside this crate.
#[derive(Debug, Clone, PartialEq, Eq)]
pub struct File {
    /// The first cluster of the file's data chain.
    pub first_cluster: Cluster,
    /// The file's name.
    pub name: String,
    /// The file's metadata.
    pub metadata: Metadata,
    /// The file's size in bytes.
    pub size: u32,
}

/// A directory of the filesystem: its first cluster, name and metadata.
#[derive(Debug, Clone, PartialEq, Eq)]
pub struct Dir {
    /// The first cluster of the directory's entry chain.
    pub first_cluster: Cluster,
    /// The directory's name.
    pub name: String,
    /// The directory's metadata.
    pub metadata: Metadata,
    /// The size field of the directory's own entry.
    pub size: u32,
}

/// A directory entry: a file or a directory.
#[derive(Debug, Clone, PartialEq, Eq)]
pub enum Entry {
    /// A plain file.
    Fichier(File),
    /// A directory.
    Dossier(Dir),
}

impl Entry {
    /// The entry's name.
    pub fn name(&self) -> (r: &String)
        ensures
            (self matches Entry::Fichier(f) ==> *r == f.name),
            (self matches Entry::Dossier(d) ==> *r == d.name),
    {
        match self {
            Entry::Fichier(f) => &f.name,
            Entry::Dossier(d) => &d.name,
        }
    }

    /// The entry's metadata.
    pub fn metadata(&self) -> (r: &Metadata)
        ensures
            (self matches Entry::Fichier(f) ==> *r == f.metadata),
            (self matches Entry::Dossier(d) ==> *r == d.metadata),
    {
        match self {
            Entry::Fichier(f) => &f.metadata,
            Entry::Dossier(d) => &d.metadata,
        }
    }

    /// The file, if the entry is one.
    pub fn as_file(&self) -> (r: Option<&File>)
        ensures
            (self matches Entry::Fichier(f) ==> (r matches Some(rf) && *rf == f)),
            (self matches Entry::Dossier(_) ==> r is None),
    {
        match self {
            Entry::Fichier(f) => Some(f),
            Entry::Dossier(_) => None,
        }
    }

    /// The directory, if the entry is one.
    pub fn as_dir(&self) -> (r: Option<&Dir>)
        ensures
            (self matches Entry::Dossier(d) ==> (r matches Some(rd) && *rd == d)),
            (self matches Entry::Fichier(_) ==> r is None),
    {
        match self {
            Entry::Fichier(_) => None,
            Entry::Dossier(d) => Some(d),
        }
    }

    /// The file, if the entry is one, consuming the entry.
    pub fn into_file(self) -> (r: Option<File>)
        ensures
            (self matches Entry::Fichier(f) ==> r == Some(f)),
            (self matches Entry::Dossier(_) ==> r is None),
    {
        match self {
            Entry::Fichier(f) => Some(f),
            Entry::Dossier(_) => None,
        }
    }

    /// The directory, if the entry is one, consuming the entry.
    pub fn into_dir(self) -> (r: Option<Dir>)
        ensures
            (self matches Entry::Dossier(d) ==> r == Some(d)),
            (self matches Entry::Fichier(_) ==> r is None),
    {
        match self {
            Entry::Fichier(_) => None,
            Entry::Dossier(d) => Some(d),
        }
    }
}

} // verus!
