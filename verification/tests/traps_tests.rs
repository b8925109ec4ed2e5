use kern::traps::Info;
use kern::traps::Kind;
use kern::traps::Source;
use kern::traps::Syndrome;
use kern::traps::TrapAction;
use kern::traps::TrapFrame;
use kern::traps::handle_exception;

#[test]
fn zeroed_frame_is_all_zero() {
    let tf = TrapFrame::zeroed();
    assert_eq!(tf.ttbr0_el, 0);
    assert_eq!(tf.ttbr1_el, 0);
    assert_eq!(tf.elr_el, 0);
    assert_eq!(tf.spsr_el, 0);
    assert_eq!(tf.sp_el, 0);
    assert_eq!(tf.tpidr_el, 0);
    assert!(tf.qs.iter().all(|q| *q == 0));
    assert!(tf.xs.iter().all(|x| *x == 0));
}

#[test]
fn syndrome_decodes_breakpoint_and_svc() {
    assert_eq!(Syndrome::from((0x3c << 26) | 0x1234), Syndrome::Brk(0x1234));
    assert_eq!(Syndrome::from((0x15 << 26) | 7), Syndrome::Svc(7));
    assert_eq!(Syndrome::from(0x25 << 26), Syndrome::Other(0x25));
}

#[test]
fn breakpoint_advances_saved_pc_and_requests_shell() {
    let mut tf = TrapFrame::zeroed();
    tf.elr_el = 0x8_0000;
    let info = Info { source: Source::LowerAArch64, kind: Kind::Synchronous };
    let action = handle_exception(info, (0x3c << 26) | 1, &mut tf);
    assert_eq!(action, TrapAction::Breakpoint);
    assert_eq!(tf.elr_el, 0x8_0004);
}

#[test]
fn svc_dispatches_syscall_without_touching_frame() {
    let mut tf = TrapFrame::zeroed();
    tf.elr_el = 0x8_0000;
    let info = Info { source: Source::LowerAArch64, kind: Kind::Synchronous };
    let action = handle_exception(info, (0x15 << 26) | 42, &mut tf);
    assert_eq!(action, TrapAction::Syscall(42));
    assert_eq!(tf.elr_el, 0x8_0000);
}

#[test]
fn timer_interrupt_requests_preemption() {
    let mut tf = TrapFrame::zeroed();
    let info = Info { source: Source::LowerAArch64, kind: Kind::Irq };
    assert_eq!(handle_exception(info, 0, &mut tf), TrapAction::TimerTick);
}

#[test]
fn other_exceptions_are_ignored() {
    let mut tf = TrapFrame::zeroed();
    let info = Info { source: Source::CurrentSpElx, kind: Kind::SError };
    assert_eq!(handle_exception(info, 0, &mut tf), TrapAction::Ignore);
    let info = Info { source: Source::CurrentSpElx, kind: Kind::Synchronous };
    // An unrecognized synchronous cause is ignored too.
    assert_eq!(handle_exception(info, 0x25 << 26, &mut tf), TrapAction::Ignore);
}

#[test]
fn breakpoint_pc_wraps_like_the_hardware_register() {
    let mut tf = TrapFrame::zeroed();
    tf.elr_el = u64::MAX - 1;
    let info = Info { source: Source::LowerAArch64, kind: Kind::Synchronous };
    handle_exception(info, 0x3c << 26, &mut tf);
    assert_eq!(tf.elr_el, 2);
}
