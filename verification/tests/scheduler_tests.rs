use kern::allocator::Allocator;
use kern::process::PollContext;
use kern::process::Process;
use kern::process::State;
use kern::process::WaitCondition;
use kern::scheduler::GlobalScheduler;
use kern::scheduler::Scheduler;
use kern::traps::TrapFrame;

fn test_allocator() -> Allocator {
    Allocator::new(0x10000, 0x4000000)
}

fn quiet_ctx(now: u64) -> PollContext {
    PollContext { now, events: Vec::new() }
}

#[test]
fn ids_are_monotonic_and_nonzero() {
    let mut alloc = test_allocator();
    let mut s = Scheduler::new();
    let mut last: u64 = 0;
    for _ in 0..3 {
        let p = Process::new(&mut alloc).unwrap();
        let id = s.add(p).unwrap();
        assert!(id > 0);
        assert!(id > last);
        last = id;
    }
    assert_eq!(last, 3);
}

#[test]
fn round_robin_rotates_through_all_ready_processes() {
    let mut alloc = test_allocator();
    let mut s = Scheduler::new();
    for _ in 0..3 {
        let p = Process::new(&mut alloc).unwrap();
        s.add(p).unwrap();
    }
    let mut tf = TrapFrame::zeroed();
    let ctx = quiet_ctx(0);
    let mut seen = Vec::new();
    for _ in 0..9 {
        s.schedule_out(State::Ready, &mut tf);
        seen.push(s.switch_to(&mut tf, &ctx).unwrap());
    }
    assert_eq!(seen, vec![1, 2, 3, 1, 2, 3, 1, 2, 3]);
}

#[test]
fn switch_to_restores_saved_frame() {
    let mut alloc = test_allocator();
    let mut s = Scheduler::new();
    let mut p = Process::new(&mut alloc).unwrap();
    p.context.elr_el = 0xdead_0000;
    p.context.sp_el = 0xbeef_0000;
    let id = s.add(p).unwrap();
    let mut tf = TrapFrame::zeroed();
    let ctx = quiet_ctx(0);
    assert_eq!(s.switch_to(&mut tf, &ctx), Some(id));
    assert_eq!(tf.elr_el, 0xdead_0000);
    assert_eq!(tf.sp_el, 0xbeef_0000);
    assert_eq!(tf.tpidr_el, id);
}

#[test]
fn waiting_process_gates_until_third_poll() {
    let mut alloc = test_allocator();
    let mut s = Scheduler::new();
    let mut p = Process::new(&mut alloc).unwrap();
    p.state = State::Waiting(WaitCondition::Timer { deadline: 2 });
    let id = s.add(p).unwrap();
    // `add` makes the process Ready; re-arm the wait through a switch
    // cycle, as the sleep syscall path does.
    let mut tf = TrapFrame::zeroed();
    assert_eq!(s.switch_to(&mut tf, &quiet_ctx(0)), Some(id));
    assert!(s.schedule_out(State::Waiting(WaitCondition::Timer { deadline: 2 }), &mut tf));
    // Skipped on the first two polls, selected on the third.
    assert_eq!(s.switch_to(&mut tf, &quiet_ctx(0)), None);
    assert_eq!(s.switch_to(&mut tf, &quiet_ctx(1)), None);
    assert_eq!(s.switch_to(&mut tf, &quiet_ctx(2)), Some(id));
    // Only after selection does its state read as Running: the running
    // process is now found by schedule_out.
    assert!(s.schedule_out(State::Ready, &mut tf));
}

#[test]
fn waiting_on_event_releases_when_event_delivered() {
    let mut alloc = test_allocator();
    let mut s = Scheduler::new();
    let mut p = Process::new(&mut alloc).unwrap();
    p.state = State::Ready;
    let id = s.add(p).unwrap();
    let mut tf = TrapFrame::zeroed();
    assert_eq!(s.switch_to(&mut tf, &quiet_ctx(0)), Some(id));
    assert!(s.schedule_out(State::Waiting(WaitCondition::Event { id: 7 }), &mut tf));
    assert_eq!(s.switch_to(&mut tf, &quiet_ctx(9)), None);
    let ctx = PollContext { now: 9, events: vec![3, 7] };
    assert_eq!(s.switch_to(&mut tf, &ctx), Some(id));
}

#[test]
fn find_process_locates_exact_tag_and_rejects_unknown() {
    let mut alloc = test_allocator();
    let mut s = Scheduler::new();
    for _ in 0..3 {
        let p = Process::new(&mut alloc).unwrap();
        s.add(p).unwrap();
    }
    let mut tf = TrapFrame::zeroed();
    tf.tpidr_el = 2;
    let i = s.find_process(&tf).unwrap();
    assert_eq!(i, 1);
    assert_eq!(s.get_process(i).context.tpidr_el, 2);
    assert_eq!(s.len(), 3);
    tf.tpidr_el = 99;
    assert_eq!(s.find_process(&tf), None);
}

#[test]
fn empty_scheduler_selects_nothing_until_first_add() {
    let mut alloc = test_allocator();
    let mut s = Scheduler::new();
    let mut tf = TrapFrame::zeroed();
    let ctx = quiet_ctx(0);
    for _ in 0..3 {
        assert_eq!(s.switch_to(&mut tf, &ctx), None);
    }
    let p = Process::new(&mut alloc).unwrap();
    let id = s.add(p).unwrap();
    assert_eq!(s.switch_to(&mut tf, &ctx), Some(id));
}

#[test]
fn kill_removes_process_and_recycles_its_memory() {
    let mut alloc = test_allocator();
    let mut s = Scheduler::new();
    let mut p = Process::new(&mut alloc).unwrap();
    let page = p
        .vmap
        .map_page(
            kern::vm::VirtualAddr::from(kern::param::USER_IMG_BASE),
            kern::vm::PagePerm::RW,
            &mut alloc,
        )
        .unwrap();
    let id = s.add(p).unwrap();
    let mut tf = TrapFrame::zeroed();
    let ctx = quiet_ctx(0);
    assert_eq!(s.switch_to(&mut tf, &ctx), Some(id));
    assert_eq!(s.kill(&mut tf, &mut alloc), Some(id));
    // The killed process is gone from subsequent selections.
    assert_eq!(s.switch_to(&mut tf, &ctx), None);
    assert_eq!(s.find_process(&tf), None);
    // Its backing page was returned to the allocator: the most recently
    // freed page-class block is its mapped page.
    assert_eq!(alloc.allocate(4096, 4096), Some(page.as_u64()));
}

#[test]
fn kill_without_running_match_changes_nothing() {
    let mut alloc = test_allocator();
    let mut s = Scheduler::new();
    let p = Process::new(&mut alloc).unwrap();
    let id = s.add(p).unwrap();
    let mut tf = TrapFrame::zeroed();
    tf.tpidr_el = id;
    // The process exists but is Ready, not Running.
    assert_eq!(s.kill(&mut tf, &mut alloc), None);
    assert_eq!(s.find_process(&tf), Some(0));
}

#[test]
fn schedule_out_reports_no_match_before_first_run() {
    let mut alloc = test_allocator();
    let mut s = Scheduler::new();
    let p = Process::new(&mut alloc).unwrap();
    s.add(p).unwrap();
    let mut tf = TrapFrame::zeroed();
    assert!(!s.schedule_out(State::Ready, &mut tf));
}

#[test]
fn sleeping_process_yields_to_others_until_deadline() {
    // The sleep syscall path: the running process is switched out with a
    // time-based wait; the other process runs alone until the deadline
    // passes, then round-robin resumes.
    let mut alloc = test_allocator();
    let mut g = GlobalScheduler::uninitialized();
    g.initialize();
    let a = g.add(Process::new(&mut alloc).unwrap()).unwrap();
    let b = g.add(Process::new(&mut alloc).unwrap()).unwrap();
    let mut tf = TrapFrame::zeroed();
    assert_eq!(g.switch(State::Ready, &mut tf, &quiet_ctx(0)), Some(a));
    // Process a sleeps until tick 3.
    assert_eq!(
        g.switch(State::Waiting(WaitCondition::Timer { deadline: 3 }), &mut tf, &quiet_ctx(1)),
        Some(b)
    );
    assert_eq!(g.switch(State::Ready, &mut tf, &quiet_ctx(2)), Some(b));
    assert_eq!(g.switch(State::Ready, &mut tf, &quiet_ctx(3)), Some(a));
    assert_eq!(g.switch(State::Ready, &mut tf, &quiet_ctx(4)), Some(b));
}

#[test]
fn global_scheduler_initialize_then_switch() {
    let mut alloc = test_allocator();
    let mut g = GlobalScheduler::uninitialized();
    g.initialize();
    let p = Process::new(&mut alloc).unwrap();
    let id = g.add(p).unwrap();
    let mut tf = TrapFrame::zeroed();
    let ctx = quiet_ctx(0);
    assert_eq!(g.switch(State::Ready, &mut tf, &ctx), Some(id));
    // A second combined switch re-queues and re-selects the same lone
    // process.
    assert_eq!(g.switch(State::Ready, &mut tf, &ctx), Some(id));
    assert_eq!(g.kill(&mut tf, &mut alloc), Some(id));
    assert_eq!(g.switch_to(&mut tf, &ctx), None);
}
