//! Trap frames and the decision core of the exception handler.
//!
//! A `TrapFrame` is the complete saved processor context of one process:
//! restoring it and performing an exception return reproduces the state
//! captured at the last exit.  Its binary layout is an ABI contract with
//! the trap-entry assembly and must not be reordered.
//!
//! `handle_exception` classifies a trap and returns the action the
//! surrounding handler performs; it touches no hardware itself.

use vstd::prelude::*;

verus! {

/// The complete saved processor state of one execution context: the two
/// translation-table bases, the saved program counter, processor status,
/// stack pointer, the unique process tag, and the vector and
/// general-purpose register files.  The field order is the layout the
/// trap-entry and trap-exit assembly expects.
#[derive(Clone, Copy, Debug)]
pub struct TrapFrame {
    /// Kernel translation-table base register value.
    pub ttbr0_el: u64,
    /// User translation-table base register value.
    pub ttbr1_el: u64,
    /// Saved program counter (exception link register).
    pub elr_el: u64,
    /// Saved processor status.
    pub spsr_el: u64,
    /// Saved stack pointer.
    pub sp_el: u64,
    /// The owning process's unique tag.
    pub tpidr_el: u64,
    /// Saved vector registers.
    pub qs: [u128; 32],
    /// Saved general-purpose registers.
    pub xs: [u64; 32],
}

impl TrapFrame {
    /// Every field of the frame is zero.
    pub open spec fn is_zeroed(self) -> bool {
        &&& self.ttbr0_el == 0
        &&& self.ttbr1_el == 0
        &&& self.elr_el == 0
        &&& self.spsr_el == 0
        &&& self.sp_el == 0
        &&& self.tpidr_el == 0
        &&& (forall|i: int| 0 <= i < 32 ==> self.qs@[i] == 0)
        &&& (forall|i: int| 0 <= i < 32 ==> self.xs@[i] == 0)
    }

    /// A frame with every field zero.
    pub fn zeroed() -> (r: TrapFrame)
        ensures
            r.is_zeroed(),
    {
        TrapFrame {
            ttbr0_el: 0,
            ttbr1_el: 0,
            elr_el: 0,
            spsr_el: 0,
            sp_el: 0,
            tpidr_el: 0,
            qs: [0u128; 32],
            xs: [0u64; 32],
        }
    }
}

/// The broad class of a taken exception.
#[derive(Debug, PartialEq, Eq, Structural, Copy, Clone)]
pub enum Kind {
    /// A synchronous exception: a system call, breakpoint or fault.
    Synchronous,
    /// An ordinary interrupt request.
    Irq,
    /// A fast interrupt request.
    Fiq,
    /// A system error.
    SError,
}

/// Where the exception was taken from.
#[derive(Debug, PartialEq, Eq, Structural, Copy, Clone)]
pub enum Source {
    /// Current exception level with the EL0 stack.
    CurrentSpEl0,
    /// Current exception level with its own stack.
    CurrentSpElx,
    /// A lower exception level running 64-bit code.
    LowerAArch64,
    /// A lower exception level running 32-bit code.
    LowerAArch32,
}

/// The source and kind of a taken exception, as the vector table reports
/// them.
#[derive(Debug, PartialEq, Eq, Structural, Copy, Clone)]
pub struct Info {
    /// Where the exception came from.
    pub source: Source,
    /// What class of exception it is.
    pub kind: Kind,
}

/// The decoded cause of a synchronous exception.
#[derive(Debug, PartialEq, Eq, Structural, Copy, Clone)]
pub enum Syndrome {
    /// A breakpoint instruction, with its comment field.
    Brk(u16),
    /// A supervisor call, with its immediate.
    Svc(u16),
    /// Any other cause, identified by its exception class.
    Other(u32),
}

/// Decoding of the exception syndrome register: the class field selects
/// breakpoint and supervisor-call causes; everything else is kept by
/// class only.
pub open spec fn spec_syndrome(esr: u32) -> Syndrome {
    if esr >> 26 == 0x3c {
        Syndrome::Brk((esr & 0xffff) as u16)
    } else if esr >> 26 == 0x15 {
        Syndrome::Svc((esr & 0xffff) as u16)
    } else {
        Syndrome::Other(esr >> 26)
    }
}

impl Syndrome {
    /// Decodes an exception syndrome register value.
    pub fn from(esr: u32) -> (r: Syndrome)
        ensures
            r == spec_syndrome(esr),
    {
        let ec = esr >> 26;
        if ec == 0x3c {
            Syndrome::Brk((esr & 0xffff) as u16)
        } else if ec == 0x15 {
            Syndrome::Svc((esr & 0xffff) as u16)
        } else {
            Syndrome::Other(ec)
        }
    }
}

/// What the surrounding exception handler must do after classification.
#[derive(Debug, PartialEq, Eq, Structural, Copy, Clone)]
pub enum TrapAction {
    /// A breakpoint was hit; the saved program counter has been advanced
    /// past it and a diagnostic shell should run.
    Breakpoint,
    /// Dispatch the system call with the given number.
    Syscall(u16),
    /// A timer interrupt: re-arm the tick and drive a preemptive switch.
    TimerTick,
    /// Nothing the kernel core acts on.
    Ignore,
}

/// Classifies a taken exception and returns the action to perform.  For a
/// breakpoint the saved program counter is advanced past the instruction,
/// with wraparound semantics matching the hardware register; no other
/// exception changes the frame.
pub fn handle_exception(info: Info, esr: u32, tf: &mut TrapFrame) -> (r: TrapAction)
    ensures
        info.kind is Irq ==> r == TrapAction::TimerTick && *final(tf) == *old(tf),
        (info.kind is Synchronous && (spec_syndrome(esr) matches Syndrome::Brk(_))) ==> (r
            == TrapAction::Breakpoint && final(tf).elr_el == (if old(tf).elr_el + 4 > u64::MAX {
            (old(tf).elr_el + 4 - 0x1_0000_0000_0000_0000) as u64
        } else {
            (old(tf).elr_el + 4) as u64
        }) && *final(tf) == (TrapFrame { elr_el: final(tf).elr_el, ..*old(tf) })),
        forall|n: u16|
            (info.kind is Synchronous && spec_syndrome(esr) == Syndrome::Svc(n)) ==> (r
                == TrapAction::Syscall(n) && *final(tf) == *old(tf)),
        (info.kind is Synchronous && (spec_syndrome(esr) matches Syndrome::Other(_))) ==> (r
            == TrapAction::Ignore && *final(tf) == *old(tf)),
        info.kind is Fiq || info.kind is SError ==> (r == TrapAction::Ignore && *final(tf) == *old(
            tf,
        )),
{
    match info.kind {
        Kind::Synchronous => {
            match Syndrome::from(esr) {
                Syndrome::Brk(_) => {
                    tf.elr_el = tf.elr_el.wrapping_add(4);
                    TrapAction::Breakpoint
                },
                Syndrome::Svc(n) => TrapAction::Syscall(n),
                Syndrome::Other(_) => TrapAction::Ignore,
            }
        },
        Kind::Irq => TrapAction::TimerTick,
        _ => TrapAction::Ignore,
    }
}

} // verus!
