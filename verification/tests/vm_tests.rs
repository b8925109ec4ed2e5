use kern::allocator::Allocator;
use kern::oserror::OsError;
use kern::param::IO_BASE;
use kern::param::IO_BASE_END;
use kern::param::USER_IMG_BASE;
use kern::param::USER_MAX_VM_SIZE;
use kern::vm::KernPageTable;
use kern::vm::L3Entry;
use kern::vm::PagePerm;
use kern::vm::PhysicalAddr;
use kern::vm::UserPageTable;
use kern::vm::VirtualAddr;

fn test_allocator() -> Allocator {
    Allocator::new(0x10000, 0x4000000)
}

#[test]
fn l3_entry_validity_and_address() {
    let invalid = L3Entry(0);
    assert!(!invalid.is_valid());
    assert_eq!(invalid.get_page_addr(), None);
    let valid = L3Entry(0x2000 | 0x703);
    assert!(valid.is_valid());
    assert_eq!(valid.get_page_addr(), Some(PhysicalAddr::from(0x2000)));
}

#[test]
fn kernel_table_identity_maps_ram_and_device_window() {
    let mut alloc = test_allocator();
    let end_ram: u64 = 0x8000;
    let kpt = KernPageTable::new(end_ram, &mut alloc).unwrap();
    // RAM pages are mapped, one entry per page.
    assert!(kpt.is_valid(VirtualAddr::from(0)));
    assert!(kpt.is_valid(VirtualAddr::from(0x7000)));
    // Beyond the managed RAM nothing is mapped until the device window.
    assert!(!kpt.is_valid(VirtualAddr::from(0x8000)));
    assert!(!kpt.is_valid(VirtualAddr::from(IO_BASE - 0x1000)));
    // The device window is mapped.
    assert!(kpt.is_valid(VirtualAddr::from(IO_BASE)));
    assert!(kpt.is_valid(VirtualAddr::from(IO_BASE_END - 0x1000)));
    // The identity descriptors carry the page address and the normal or
    // device attribute bits.
    assert_eq!(kpt.0.l3[0].entries[0].0, 0x703);
    assert_eq!(kpt.0.l3[0].entries[1].0, 0x1000 | 0x703);
    let io_slot = (IO_BASE / 4096) as usize;
    assert_eq!(kpt.0.l3[io_slot / 8192].entries[io_slot % 8192].0, IO_BASE | 0x607);
    assert_ne!(kpt.get_baddr().as_u64(), 0);
}

#[test]
fn user_table_starts_empty() {
    let mut alloc = test_allocator();
    let upt = UserPageTable::new(&mut alloc).unwrap();
    assert!(!upt.is_mapped(VirtualAddr::from(USER_IMG_BASE)));
    assert!(!upt.is_mapped(VirtualAddr::from(USER_IMG_BASE + USER_MAX_VM_SIZE - 4096)));
}

#[test]
fn map_page_maps_exactly_one_page() {
    let mut alloc = test_allocator();
    let mut upt = UserPageTable::new(&mut alloc).unwrap();
    let va = VirtualAddr::from(USER_IMG_BASE + 0x3000);
    let pa = upt.map_page(va, PagePerm::RW, &mut alloc).unwrap();
    assert_ne!(pa.as_u64(), 0);
    assert_eq!(pa.as_u64() % 4096, 0);
    assert!(upt.is_mapped(va));
    // An address of the same page is mapped; neighbouring pages are not.
    assert!(upt.is_mapped(VirtualAddr::from(USER_IMG_BASE + 0x3abc)));
    assert!(!upt.is_mapped(VirtualAddr::from(USER_IMG_BASE + 0x2000)));
    assert!(!upt.is_mapped(VirtualAddr::from(USER_IMG_BASE + 0x4000)));
}

#[test]
fn map_page_below_image_base_is_rejected() {
    let mut alloc = test_allocator();
    let mut upt = UserPageTable::new(&mut alloc).unwrap();
    let r = upt.map_page(VirtualAddr::from(USER_IMG_BASE - 4096), PagePerm::RW, &mut alloc);
    assert_eq!(r, Err(OsError::InvalidArgument));
    let r = upt.map_page(
        VirtualAddr::from(USER_IMG_BASE + USER_MAX_VM_SIZE),
        PagePerm::RW,
        &mut alloc,
    );
    assert_eq!(r, Err(OsError::InvalidArgument));
}

#[test]
fn remapping_a_mapped_page_is_a_conflict() {
    let mut alloc = test_allocator();
    let mut upt = UserPageTable::new(&mut alloc).unwrap();
    let va = VirtualAddr::from(USER_IMG_BASE);
    upt.map_page(va, PagePerm::RW, &mut alloc).unwrap();
    let r = upt.map_page(va, PagePerm::RW, &mut alloc);
    assert_eq!(r, Err(OsError::AlreadyMapped));
}

#[test]
fn map_page_fails_without_memory() {
    // Room for the table block but not for one more page.
    let mut alloc = Allocator::new(0x40000, 0x80000);
    let mut upt = UserPageTable::new(&mut alloc).unwrap();
    let r = upt.map_page(VirtualAddr::from(USER_IMG_BASE), PagePerm::RW, &mut alloc);
    assert_eq!(r, Err(OsError::NoMemory));
}

#[test]
fn released_table_returns_its_pages() {
    let mut alloc = test_allocator();
    let mut upt = UserPageTable::new(&mut alloc).unwrap();
    let table_base = upt.get_baddr().as_u64();
    let pa = upt
        .map_page(VirtualAddr::from(USER_IMG_BASE), PagePerm::RW, &mut alloc)
        .unwrap();
    upt.release(&mut alloc);
    // The mapped page is back on its free list, most recently freed.
    assert_eq!(alloc.allocate(4096, 4096), Some(pa.as_u64()));
    // The table block is back on its own class's free list.
    assert_eq!(alloc.allocate(262144, 65536), Some(table_base));
}

#[test]
fn table_construction_fails_without_memory() {
    let mut alloc = Allocator::new(0x10000, 0x20000);
    match UserPageTable::new(&mut alloc) {
        Err(OsError::NoMemory) => {}
        _ => panic!("expected exhaustion"),
    }
}
