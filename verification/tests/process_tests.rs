use kern::allocator::Allocator;
use kern::oserror::OsError;
use kern::param::USER_IMG_BASE;
use kern::param::USER_STACK_BASE;
use kern::process::PollContext;
use kern::process::Process;
use kern::process::State;
use kern::process::WaitCondition;
use kern::vm::PhysicalAddr;
use kern::vm::VirtualAddr;

fn test_allocator() -> Allocator {
    Allocator::new(0x10000, 0x4000000)
}

#[test]
fn new_process_is_ready_with_zeroed_frame() {
    let mut alloc = test_allocator();
    let p = Process::new(&mut alloc).unwrap();
    assert_eq!(p.state, State::Ready);
    assert_eq!(p.context.tpidr_el, 0);
    assert_eq!(p.context.elr_el, 0);
    assert_eq!(p.context.sp_el, 0);
    assert!(p.context.xs.iter().all(|x| *x == 0));
    assert!(!p.vmap.is_mapped(VirtualAddr::from(USER_IMG_BASE)));
}

#[test]
fn process_creation_fails_cleanly_without_memory() {
    let mut alloc = Allocator::new(0x10000, 0x11000);
    match Process::new(&mut alloc) {
        Err(OsError::NoMemory) => {}
        _ => panic!("expected exhaustion"),
    }
    // The stack block taken for the failed process was given back.
    assert_eq!(alloc.allocate(4096, 4096), Some(0x10000));
}

#[test]
fn fixed_address_getters() {
    assert_eq!(Process::get_image_base().as_u64(), USER_IMG_BASE);
    assert_eq!(Process::get_stack_base().as_u64(), USER_STACK_BASE);
    assert_eq!(Process::get_stack_top().as_u64(), USER_STACK_BASE - 4096);
    assert_eq!(Process::get_max_va().as_u64(), USER_IMG_BASE + 100663296);
}

#[test]
fn readiness_follows_state_and_condition() {
    let mut alloc = test_allocator();
    let mut p = Process::new(&mut alloc).unwrap();
    let quiet = PollContext { now: 5, events: Vec::new() };

    p.state = State::Ready;
    assert!(p.is_ready(&quiet));

    p.state = State::Running;
    assert!(!p.is_ready(&quiet));

    p.state = State::Dead;
    assert!(!p.is_ready(&quiet));

    p.state = State::Waiting(WaitCondition::Timer { deadline: 9 });
    assert!(!p.is_ready(&quiet));
    // The failed poll re-arms the condition unchanged.
    assert_eq!(p.state, State::Waiting(WaitCondition::Timer { deadline: 9 }));
    let later = PollContext { now: 9, events: Vec::new() };
    assert!(p.is_ready(&later));
    // A satisfied wait leaves the process Ready.
    assert_eq!(p.state, State::Ready);

    p.state = State::Waiting(WaitCondition::Event { id: 4 });
    assert!(!p.is_ready(&later));
    let delivered = PollContext { now: 9, events: vec![4] };
    assert!(p.is_ready(&delivered));
}

#[test]
fn loader_maps_exactly_the_image_and_stack_pages() {
    let mut alloc = test_allocator();
    let image = vec![0xabu8; 9000];
    let kern_base = PhysicalAddr::from(0x123000);
    let p = Process::load(&image, kern_base, &mut alloc).unwrap();
    // ceil(9000 / 4096) = 3 image pages.
    assert!(p.vmap.is_mapped(VirtualAddr::from(USER_IMG_BASE)));
    assert!(p.vmap.is_mapped(VirtualAddr::from(USER_IMG_BASE + 0x1000)));
    assert!(p.vmap.is_mapped(VirtualAddr::from(USER_IMG_BASE + 0x2000)));
    assert!(!p.vmap.is_mapped(VirtualAddr::from(USER_IMG_BASE + 0x3000)));
    assert!(!p.vmap.is_mapped(VirtualAddr::from(USER_IMG_BASE + 0x4000)));
    // The fixed number of stack pages is mapped at the window's top.
    for i in 0..16u64 {
        assert!(p.vmap.is_mapped(VirtualAddr::from(USER_STACK_BASE - 4096 * i)));
    }
    assert!(!p.vmap.is_mapped(VirtualAddr::from(USER_STACK_BASE - 4096 * 16)));
    // The trap frame points at the fixed entry point and stack base and
    // at both translation tables.
    assert_eq!(p.context.elr_el, USER_IMG_BASE);
    assert_eq!(p.context.sp_el, USER_STACK_BASE);
    assert_eq!(p.context.ttbr0_el, 0x123000);
    assert_eq!(p.context.ttbr1_el, p.vmap.get_baddr().as_u64());
    assert_eq!(p.context.spsr_el, 0);
    assert_eq!(p.context.tpidr_el, 0);
    assert_eq!(p.state, State::Ready);
}

#[test]
fn loader_accepts_an_empty_image() {
    let mut alloc = test_allocator();
    let image: Vec<u8> = Vec::new();
    let p = Process::load(&image, PhysicalAddr::from(0x123000), &mut alloc).unwrap();
    assert!(!p.vmap.is_mapped(VirtualAddr::from(USER_IMG_BASE)));
    assert!(p.vmap.is_mapped(VirtualAddr::from(USER_STACK_BASE)));
}

#[test]
fn loader_rejects_an_image_too_large_for_the_window() {
    let mut alloc = test_allocator();
    // One byte more than the 24560 pages below the user stack can hold.
    let image = vec![0u8; 24560 * 4096 + 1];
    let r = Process::load(&image, PhysicalAddr::from(0x123000), &mut alloc);
    assert_eq!(r.err(), Some(OsError::NoVmSpace));
}

#[test]
fn loader_reports_exhaustion_and_releases_what_it_took() {
    // Room for the stack, the table and a few pages, but not for all
    // sixteen stack pages.
    let mut alloc = Allocator::new(0x10000, 0x60000);
    let image = vec![0u8; 100];
    let r = Process::load(&image, PhysicalAddr::from(0x123000), &mut alloc);
    assert_eq!(r.err(), Some(OsError::NoMemory));
    // Everything the failed load acquired is back in circulation: the
    // table block can be carved again.
    assert!(alloc.allocate(262144, 65536).is_some());
}
