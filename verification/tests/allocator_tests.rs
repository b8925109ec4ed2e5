use kern::allocator::Allocator;

#[test]
fn align_down_rounds_to_multiple() {
    assert_eq!(kern::util::align_down(0, 4096), 0);
    assert_eq!(kern::util::align_down(4095, 4096), 0);
    assert_eq!(kern::util::align_down(4096, 4096), 4096);
    assert_eq!(kern::util::align_down(13, 8), 8);
}

#[test]
fn align_up_rounds_to_multiple() {
    assert_eq!(kern::util::align_up(0, 4096), 0);
    assert_eq!(kern::util::align_up(1, 4096), 4096);
    assert_eq!(kern::util::align_up(4096, 4096), 4096);
    assert_eq!(kern::util::align_up(13, 8), 16);
}

#[test]
fn is_power_of_two_matches_definition() {
    assert!(kern::util::is_power_of_two(1));
    assert!(kern::util::is_power_of_two(2));
    assert!(kern::util::is_power_of_two(4096));
    assert!(!kern::util::is_power_of_two(0));
    assert!(!kern::util::is_power_of_two(3));
    assert!(!kern::util::is_power_of_two(4097));
}

#[test]
fn first_allocation_starts_at_region_start() {
    let mut a = Allocator::new(0x10000, 0x100000);
    assert_eq!(a.allocate(1, 1), Some(0x10000));
}

#[test]
fn size_class_rounds_request_up_to_power_of_two() {
    // A request in (2^5, 2^6] is served from class 6: the next block
    // starts one 64-byte block later.
    let mut a = Allocator::new(0x10000, 0x100000);
    assert_eq!(a.allocate(33, 4), Some(0x10000));
    assert_eq!(a.allocate(1, 1), Some(0x10040));
}

#[test]
fn smallest_class_is_32_bytes() {
    let mut a = Allocator::new(0x10000, 0x100000);
    assert_eq!(a.allocate(1, 1), Some(0x10000));
    assert_eq!(a.allocate(1, 1), Some(0x10020));
}

#[test]
fn allocation_respects_alignment() {
    let mut a = Allocator::new(0x10010, 0x100000);
    let r = a.allocate(64, 4096).unwrap();
    assert_eq!(r % 4096, 0);
    assert_eq!(r, 0x11000);
}

#[test]
fn zero_size_request_fails() {
    let mut a = Allocator::new(0x10000, 0x100000);
    assert_eq!(a.allocate(0, 8), None);
}

#[test]
fn non_power_of_two_alignment_fails() {
    let mut a = Allocator::new(0x10000, 0x100000);
    assert_eq!(a.allocate(64, 3), None);
    assert_eq!(a.allocate(64, 0), None);
}

#[test]
fn oversized_request_fails() {
    let mut a = Allocator::new(0x10000, 0x100000);
    assert_eq!(a.allocate(0x1_0000_0001, 8), None);
}

#[test]
fn exhaustion_returns_none() {
    let mut a = Allocator::new(0x10000, 0x10040);
    assert_eq!(a.allocate(32, 1), Some(0x10000));
    assert_eq!(a.allocate(32, 1), Some(0x10020));
    assert_eq!(a.allocate(32, 1), None);
}

#[test]
fn freed_block_is_reused_first() {
    let mut a = Allocator::new(0x10000, 0x100000);
    let b = a.allocate(4096, 4096).unwrap();
    a.deallocate(b, 4096);
    // An equal request of the same class gets the just-freed block back.
    assert_eq!(a.allocate(4096, 4096), Some(b));
}

#[test]
fn smaller_request_of_same_class_reuses_freed_block() {
    let mut a = Allocator::new(0x10000, 0x100000);
    let b = a.allocate(4096, 4096).unwrap();
    a.deallocate(b, 4096);
    // 2049 bytes still falls in the 4096-byte class.
    assert_eq!(a.allocate(2049, 4096), Some(b));
}

#[test]
fn most_recently_freed_is_reused_before_older_blocks() {
    let mut a = Allocator::new(0x10000, 0x100000);
    let b1 = a.allocate(4096, 4096).unwrap();
    let b2 = a.allocate(4096, 4096).unwrap();
    a.deallocate(b1, 4096);
    a.deallocate(b2, 4096);
    assert_eq!(a.allocate(4096, 4096), Some(b2));
    assert_eq!(a.allocate(4096, 4096), Some(b1));
}

#[test]
fn misaligned_free_list_head_is_skipped() {
    let mut a = Allocator::new(0x10020, 0x100000);
    let b = a.allocate(32, 32).unwrap();
    assert_eq!(b, 0x10020);
    a.deallocate(b, 32);
    // The freed head does not satisfy the stronger alignment, so the
    // request is served from the bump pointer instead.
    let c = a.allocate(32, 4096).unwrap();
    assert_eq!(c, 0x11000);
}
