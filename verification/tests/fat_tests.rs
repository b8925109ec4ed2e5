use kern::fat32::cluster::Cluster;
use kern::fat32::ebpb::BiosParameterBlock;
use kern::fat32::entry::Dir;
use kern::fat32::entry::Entry;
use kern::fat32::entry::File;
use kern::fat32::entry::VFatLfnDirEntry;
use kern::fat32::entry::VFatRegularDirEntry;
use kern::fat32::entry::VFatUnknownDirEntry;
use kern::fat32::fat::FatEntry;
use kern::fat32::fat::Status;
use kern::fat32::mbr::Error;
use kern::fat32::mbr::MasterBootRecord;
use kern::fat32::metadata::Attributes;
use kern::fat32::metadata::Date;
use kern::fat32::metadata::Metadata;
use kern::fat32::metadata::Time;
use kern::fat32::metadata::Timestamp;
use kern::fat32::vfat::VFat;
use kern::fs::FileSystem;

#[test]
fn cluster_from_masks_reserved_bits() {
    assert_eq!(Cluster::from(0xf000_0007), Cluster(7));
    assert_eq!(Cluster::from(0x0123_4567), Cluster(0x0123_4567));
}

#[test]
fn cluster_sector_arithmetic() {
    let c = Cluster(0x100);
    // Entry sector: 4 bytes per entry, 512 bytes per sector.
    assert_eq!(c.to_fatentry_sector(32, 512), 32 + 0x100 * 4 / 512);
    // Data sector: clusters start at 2.
    assert_eq!(c.to_sector(1000, 8), 1000 + (0x100 - 2) * 8);
    // Offset of the entry within its FAT sector.
    assert_eq!(c.index_in_sector(512), (0x100 * 4 % 512) as usize);
}

#[test]
fn fat_entry_status_covers_all_variants() {
    assert_eq!(FatEntry(0).status(), Status::Free);
    assert_eq!(FatEntry(1).status(), Status::Reserved);
    assert_eq!(FatEntry(0x0fff_fff7).status(), Status::Bad);
    assert_eq!(FatEntry(0x0fff_fff8).status(), Status::Eoc(0x0fff_fff8));
    assert_eq!(FatEntry(0x0fff_ffff).status(), Status::Eoc(0x0fff_ffff));
    assert_eq!(FatEntry(5).status(), Status::Data(Cluster(5)));
    // The reserved top nibble is ignored.
    assert_eq!(FatEntry(0xf000_0000).status(), Status::Free);
}

#[test]
fn timestamp_decodes_packed_fields() {
    // 2005-06-09, 13:44:58: year 25, month 6, day 9; hour 13, minute 44,
    // twenty-nine two-second units.
    let date = Date((25 << 9) | (6 << 5) | 9);
    let time = Time((13 << 11) | (44 << 5) | 29);
    let ts = Timestamp { date, time };
    assert_eq!(ts.year(), 2005);
    assert_eq!(ts.month(), 6);
    assert_eq!(ts.day(), 9);
    assert_eq!(ts.hour(), 13);
    assert_eq!(ts.minute(), 44);
    assert_eq!(ts.second(), 58);
}

#[test]
fn metadata_attribute_bits() {
    let ro = Metadata { attr: Attributes(0x01), ..Default::default() };
    assert!(ro.read_only());
    assert!(!ro.hidden());
    let hidden = Metadata { attr: Attributes(0x02), ..Default::default() };
    assert!(!hidden.read_only());
    assert!(hidden.hidden());
}

fn mbr_sector() -> [u8; 512] {
    let mut s = [0u8; 512];
    s[510] = 0x55;
    s[511] = 0xaa;
    // Partition 0: bootable, type 0x0c, starts at sector 2048, 65536
    // sectors long.
    s[446] = 0x80;
    s[446 + 4] = 0x0c;
    s[446 + 8..446 + 12].copy_from_slice(&2048u32.to_le_bytes());
    s[446 + 12..446 + 16].copy_from_slice(&65536u32.to_le_bytes());
    s
}

#[test]
fn mbr_parses_partition_table() {
    let s = mbr_sector();
    let mbr = MasterBootRecord::from(&s).unwrap();
    assert_eq!(mbr.partition_table[0].bootable, 0x80);
    assert_eq!(mbr.partition_table[0].partition_type, 0x0c);
    assert_eq!(mbr.partition_table[0].relative_sector, 2048);
    assert_eq!(mbr.partition_table[0].total_sectors, 65536);
    assert_eq!(mbr.partition_table[1].relative_sector, 0);
    assert_eq!(mbr.valid_bootsector, [0x55, 0xaa]);
    assert_eq!(mbr.bootstrap.len(), 436);
    assert_eq!(mbr.disk_id.len(), 10);
}

#[test]
fn mbr_rejects_bad_signature() {
    let mut s = mbr_sector();
    s[511] = 0;
    assert_eq!(MasterBootRecord::from(&s), Err(Error::BadSignature));
}

#[test]
fn mbr_rejects_unknown_boot_indicator() {
    let mut s = mbr_sector();
    s[446 + 16] = 0x7f;
    assert_eq!(MasterBootRecord::from(&s), Err(Error::UnknownBootIndicator(1)));
}

fn ebpb_sector() -> [u8; 512] {
    let mut s = [0u8; 512];
    s[510] = 0x55;
    s[511] = 0xaa;
    s[11..13].copy_from_slice(&512u16.to_le_bytes());
    s[13] = 8; // sectors per cluster
    s[14..16].copy_from_slice(&32u16.to_le_bytes()); // reserved sectors
    s[16] = 2; // fats
    s[32..36].copy_from_slice(&65536u32.to_le_bytes()); // total sectors
    s[36..40].copy_from_slice(&504u32.to_le_bytes()); // sectors per fat
    s[44..48].copy_from_slice(&2u32.to_le_bytes()); // root cluster
    s
}

#[test]
fn ebpb_parses_geometry_fields() {
    let s = ebpb_sector();
    let bpb = BiosParameterBlock::from(&s).unwrap();
    assert_eq!(bpb.bytes_per_sector, 512);
    assert_eq!(bpb.sectors_per_cluster, 8);
    assert_eq!(bpb.reserved_sectors, 32);
    assert_eq!(bpb.fats, 2);
    assert_eq!(bpb.logical_sectors, 0);
    assert_eq!(bpb.tot_logical_sectors, 65536);
    assert_eq!(bpb.e_sectors_per_fat, 504);
    assert_eq!(bpb.root_cluster, 2);
}

#[test]
fn ebpb_rejects_bad_signature() {
    let mut s = ebpb_sector();
    s[510] = 0;
    assert_eq!(BiosParameterBlock::from(&s), Err(Error::BadSignature));
}

#[test]
fn volume_geometry_is_computed_from_headers() {
    let mbr = MasterBootRecord::from(&mbr_sector()).unwrap();
    let bpb = BiosParameterBlock::from(&ebpb_sector()).unwrap();
    let v = VFat::from(&mbr, &bpb);
    assert_eq!(v.bytes_per_sector, 512);
    assert_eq!(v.sectors_per_cluster, 8);
    assert_eq!(v.sectors_per_fat, 504);
    assert_eq!(v.fat_start_sector, 32);
    // Data starts behind both FATs and the reserved area.
    assert_eq!(v.data_start_sector, 504 * 2 + 32);
    assert_eq!(v.rootdir_cluster, Cluster(2));
    assert_eq!(v.partition_start, 2048);
    // The 16-bit sector count is zero, so the 32-bit one is in use.
    assert_eq!(v.partition_sectors, 65536);
    assert_eq!(v.sector_size, 512);
}

#[test]
fn filesystem_lifecycle() {
    let mbr = MasterBootRecord::from(&mbr_sector()).unwrap();
    let bpb = BiosParameterBlock::from(&ebpb_sector()).unwrap();
    let v = VFat::from(&mbr, &bpb);
    let mut fs = FileSystem::uninitialized();
    fs.initialize(v);
    assert_eq!(*fs.get_volume(), v);
}

fn regular_record() -> [u8; 32] {
    let mut r = [0u8; 32];
    r[0..8].copy_from_slice(b"HELLO   ");
    r[8..11].copy_from_slice(b"TXT");
    r[11] = 0x20; // archive attribute
    r[20..22].copy_from_slice(&0x0001u16.to_le_bytes()); // cluster high
    r[26..28].copy_from_slice(&0x0203u16.to_le_bytes()); // cluster low
    r[28..32].copy_from_slice(&1234u32.to_le_bytes());
    r
}

#[test]
fn regular_dir_entry_parses_fields() {
    let e = VFatRegularDirEntry::from(&regular_record());
    assert_eq!(&e.file_name, b"HELLO   ");
    assert_eq!(&e.file_ext, b"TXT");
    assert_eq!(e.attribute, 0x20);
    assert_eq!(e.file_size, 1234);
    assert_eq!(e.first_cluster(), Cluster(0x0001_0203));
}

#[test]
fn lfn_dir_entry_parses_name_characters() {
    let mut r = [0u8; 32];
    r[0] = 0x41;
    r[11] = 0x0f;
    r[1..3].copy_from_slice(&(b'f' as u16).to_le_bytes());
    r[3..5].copy_from_slice(&(b'i' as u16).to_le_bytes());
    r[14..16].copy_from_slice(&(b'b' as u16).to_le_bytes());
    let e = VFatLfnDirEntry::from(&r);
    assert_eq!(e.sequence_num, 0x41);
    assert_eq!(e.attributes, 0x0f);
    assert_eq!(e.name_chars[0], b'f' as u16);
    assert_eq!(e.name_chars[1], b'i' as u16);
    assert_eq!(e.second_name_chars[0], b'b' as u16);
}

#[test]
fn unknown_dir_entry_classification() {
    let mut r = [0u8; 32];
    let end = VFatUnknownDirEntry::from(&r);
    assert!(end.is_end());
    r[0] = 0xe5;
    let free = VFatUnknownDirEntry::from(&r);
    assert!(free.is_free());
    r[0] = 0x41;
    r[11] = 0x0f;
    let lfn = VFatUnknownDirEntry::from(&r);
    assert!(lfn.is_lfn());
    assert!(!lfn.is_free());
    assert!(!lfn.is_end());
}

#[test]
fn entry_distinguishes_files_and_directories() {
    let f = File {
        first_cluster: Cluster(5),
        name: String::from("fib.bin"),
        metadata: Metadata::default(),
        size: 9000,
    };
    let d = Dir {
        first_cluster: Cluster(2),
        name: String::from("root"),
        metadata: Metadata::default(),
        size: 0,
    };
    let fe = Entry::Fichier(f.clone());
    let de = Entry::Dossier(d.clone());
    assert_eq!(fe.name(), "fib.bin");
    assert_eq!(de.name(), "root");
    assert_eq!(fe.as_file(), Some(&f));
    assert_eq!(fe.as_dir(), None);
    assert_eq!(de.as_dir(), Some(&d));
    assert_eq!(de.as_file(), None);
    assert_eq!(fe.clone().into_file(), Some(f));
    assert_eq!(fe.into_dir(), None);
    assert_eq!(de.clone().into_dir(), Some(d));
    assert_eq!(de.into_file(), None);
}
