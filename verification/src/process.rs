//! Process lifecycle: creation, image loading, readiness and teardown.
//!
//! A process owns its trap frame, a dedicated kernel stack and its user
//! page table exclusively; nothing else holds a reference to it.  The
//! scheduling state is a tagged value: a waiting process carries the data
//! needed to re-derive its wait condition deterministically, instead of an
//! opaque callable.
//!
//! The loader works on image bytes already read by the filesystem
//! collaborator; copying those bytes into the backing pages goes through
//! the identity map outside this crate.

use vstd::prelude::*;
use crate::allocator::Allocator;
use crate::allocator::AllocModel;
use crate::allocator::spec_alloc;
use crate::allocator::spec_dealloc;
use crate::oserror::OsError;
use crate::param::PAGE_ALIGN;
use crate::param::PAGE_SIZE;
use crate::param::PHYS_ADDR_END;
use crate::param::USER_IMG_BASE;
use crate::param::USER_MAX_VM_SIZE;
use crate::param::USER_STACK_BASE;
use crate::param::USER_STACK_PAGES;
use crate::traps::TrapFrame;
use crate::vm::NUM_SLOTS;
use crate::vm::PagePerm;
use crate::vm::PhysicalAddr;
use crate::vm::PT_BYTES;
use crate::vm::TABLE_BYTES;
use crate::vm::UserPageTable;
use crate::vm::VirtualAddr;
use crate::vm::in_user_window;
use crate::vm::spec_release_table;
use crate::vm::user_slot;

verus! {

/// Type alias for the type of a process ID.
pub type Id = u64;

/// Bytes of a process's dedicated kernel stack.
pub const STACK_SIZE: u64 = 4096;

/// Highest page slot (exclusive) an image may occupy: the slots above it
/// belong to the user stack.
pub const IMAGE_SLOTS: u64 = NUM_SLOTS - 16;

/// The condition a waiting process waits for, as inspectable data.
#[derive(Clone, Copy, Debug, PartialEq, Eq, Structural)]
pub enum WaitCondition {
    /// Runnable once the clock reading reaches `deadline`.
    Timer {
        /// The clock reading at or after which the wait is over.
        deadline: u64,
    },
    /// Runnable once the event with this identifier has been delivered.
    Event {
        /// The identifier of the awaited event.
        id: u64,
    },
}

/// The scheduling state of a process.
#[derive(Clone, Copy, Debug, PartialEq, Eq, Structural)]
pub enum State {
    /// Runnable, waiting for its turn.
    Ready,
    /// Currently executing on some core.
    Running,
    /// Not runnable until the carried condition holds.
    Waiting(WaitCondition),
    /// Terminal: the process's resources are reclaimed and it leaves the
    /// ring.
    Dead,
}

/// What one scheduling pass observes of the outside world: the current
/// clock reading and the identifiers of delivered events.
pub struct PollContext {
    /// The current clock reading.
    pub now: u64,
    /// Identifiers of the events delivered so far.
    pub events: Vec<u64>,
}

/// Whether a wait condition holds under the given observation.
pub open spec fn spec_cond_holds(c: WaitCondition, ctx: PollContext) -> bool {
    match c {
        WaitCondition::Timer { deadline } => ctx.now >= deadline,
        WaitCondition::Event { id } => ctx.events@.contains(id),
    }
}

/// A process's dedicated kernel stack: one block drawn from the physical
/// allocator.
pub struct Stack {
    base: u64,
}

impl Stack {
    /// The block's start address.
    pub closed spec fn spec_base(self) -> u64 {
        self.base
    }

    /// The stack block is a non-null address of the physical space.
    pub open spec fn wf(self) -> bool {
        0 < self.spec_base() < PHYS_ADDR_END
    }

    /// Allocates a new stack.  Returns `None` when the allocator cannot
    /// serve the block.
    pub fn new(alloc: &mut Allocator) -> (r: Option<Stack>)
        requires
            old(alloc)@.wf(),
        ensures
            final(alloc)@.wf(),
            ({
                let (m2, ob) = spec_alloc(old(alloc)@, STACK_SIZE, PAGE_ALIGN);
                final(alloc)@ =~~= m2 && match r {
                    Some(st) => ob == Some(st.spec_base()) && st.wf(),
                    None => ob is None,
                }
            }),
    {
        proof {
            vstd::arithmetic::power2::lemma2_to64();
            crate::util::lemma_pow2_is_pow2(12);
        }
        match alloc.allocate(STACK_SIZE, PAGE_ALIGN) {
            Some(base) => Some(Stack { base }),
            None => None,
        }
    }

    /// The lowest address of the stack block.
    pub fn bottom(&self) -> (r: PhysicalAddr)
        ensures
            r.0 == self.spec_base(),
    {
        PhysicalAddr(self.base)
    }

    /// One past the highest address of the stack block.
    pub fn top(&self) -> (r: PhysicalAddr)
        requires
            self.wf(),
        ensures
            r.0 == self.spec_base() + STACK_SIZE,
    {
        PhysicalAddr(self.base + STACK_SIZE)
    }
}

/// A structure that represents the complete state of a process.
pub struct Process {
    /// The saved trap frame of a process.
    pub context: TrapFrame,
    /// The memory allocation used for the process's kernel stack.
    pub stack: Stack,
    /// The page table describing the virtual memory of the process.
    pub vmap: UserPageTable,
    /// The scheduling state of the process.
    pub state: State,
}

/// Whether a process would be picked by a scheduling pass under the given
/// observation: it is ready, or its wait condition has come true.
pub open spec fn spec_ready_now(p: Process, ctx: PollContext) -> bool {
    match p.state {
        State::Ready => true,
        State::Waiting(c) => spec_cond_holds(c, ctx),
        _ => false,
    }
}

/// The allocator state after a process's resources are released: its
/// kernel stack first, then the backing pages and table block of its user
/// page table.
pub open spec fn spec_release_process(m: AllocModel, p: Process) -> AllocModel {
    spec_release_table(spec_dealloc(m, p.stack.spec_base(), STACK_SIZE), p.vmap.0)
}

impl Process {
    /// The process's unique tag, stamped into its trap frame.
    pub open spec fn id(self) -> Id {
        self.context.tpidr_el
    }

    /// Internal consistency: the stack block and the page table are
    /// well-formed, so the process's resources can be released.
    pub open spec fn wf(self) -> bool {
        &&& self.stack.wf()
        &&& self.vmap.wf()
    }

    /// Creates a new process with a zeroed trap frame, a fresh kernel
    /// stack, an empty user page table, and a state of `Ready`.
    ///
    /// Fails with `NoMemory`, leaving no resources behind, when the
    /// allocator cannot serve the stack or the table.
    pub fn new(alloc: &mut Allocator) -> (r: Result<Process, OsError>)
        requires
            old(alloc)@.wf(),
        ensures
            final(alloc)@.wf(),
            match r {
                Ok(p) => {
                    &&& p.wf()
                    &&& p.state == State::Ready
                    &&& p.context.is_zeroed()
                    &&& p.vmap.0.all_unmapped()
                    &&& ({
                        let (m1, os) = spec_alloc(old(alloc)@, STACK_SIZE, PAGE_ALIGN);
                        let (m2, ot) = spec_alloc(m1, PT_BYTES, TABLE_BYTES);
                        let mfinal = final(alloc)@;
                        os == Some(p.stack.spec_base()) && ot == Some(p.vmap.0.l2.base) && mfinal
                            =~~= m2
                    })
                },
                Err(e) => {
                    &&& e == OsError::NoMemory
                    &&& ({
                        let (m1, os) = spec_alloc(old(alloc)@, STACK_SIZE, PAGE_ALIGN);
                        let (m2, ot) = spec_alloc(m1, PT_BYTES, TABLE_BYTES);
                        match os {
                            None => final(alloc)@ =~~= m1,
                            Some(sb) => ot is None && final(alloc)@ =~~= spec_dealloc(
                                m2,
                                sb,
                                STACK_SIZE,
                            ),
                        }
                    })
                },
            },
    {
        let stack = match Stack::new(alloc) {
            Some(st) => st,
            None => {
                return Err(OsError::NoMemory);
            },
        };
        let vmap = match UserPageTable::new(alloc) {
            Ok(pt) => pt,
            Err(_) => {
                alloc.deallocate(stack.bottom().as_u64(), STACK_SIZE);
                return Err(OsError::NoMemory);
            },
        };
        Ok(Process { context: TrapFrame::zeroed(), stack, vmap, state: State::Ready })
    }

    /// Returns the highest `VirtualAddr` that is supported by this system.
    pub fn get_max_va() -> (r: VirtualAddr)
        ensures
            r.0 == USER_IMG_BASE + USER_MAX_VM_SIZE,
    {
        VirtualAddr(USER_IMG_BASE + USER_MAX_VM_SIZE)
    }

    /// Returns the `VirtualAddr` representing the base address of the user
    /// memory space.
    pub fn get_image_base() -> (r: VirtualAddr)
        ensures
            r.0 == USER_IMG_BASE,
    {
        VirtualAddr(USER_IMG_BASE)
    }

    /// Returns the `VirtualAddr` representing the base address of the user
    /// process's stack.
    pub fn get_stack_base() -> (r: VirtualAddr)
        ensures
            r.0 == USER_STACK_BASE,
    {
        VirtualAddr(USER_STACK_BASE)
    }

    /// Returns the `VirtualAddr` representing the top of the user
    /// process's stack.
    pub fn get_stack_top() -> (r: VirtualAddr)
        ensures
            r.0 == USER_STACK_BASE - STACK_SIZE,
    {
        VirtualAddr(USER_STACK_BASE - STACK_SIZE)
    }

    /// Returns `true` if this process is ready to be scheduled under the
    /// given observation.
    ///
    /// A `Ready` process is ready.  A `Waiting` process whose condition
    /// has come true becomes `Ready` and is ready; one whose condition
    /// still fails is left unchanged, condition re-armed.  A `Running` or
    /// `Dead` process is not ready.
    pub fn is_ready(&mut self, ctx: &PollContext) -> (r: bool)
        ensures
            r == spec_ready_now(*old(self), *ctx),
            r ==> *final(self) == (Process { state: State::Ready, ..*old(self) }),
            !r ==> *final(self) == *old(self),
    {
        match self.state {
            State::Ready => true,
            State::Waiting(c) => {
                if cond_holds(c, ctx) {
                    self.state = State::Ready;
                    true
                } else {
                    false
                }
            },
            _ => false,
        }
    }

    /// Returns the process's resources to the allocator: the kernel
    /// stack, then every backing page of its user table, then the table
    /// block.  Consumes the process.
    pub fn release(self, alloc: &mut Allocator)
        requires
            self.wf(),
            old(alloc)@.wf(),
        ensures
            final(alloc)@.wf(),
            final(alloc)@ =~~= spec_release_process(old(alloc)@, self),
    {
        let Process { context: _, stack, vmap, state: _ } = self;
        alloc.deallocate(stack.bottom().as_u64(), STACK_SIZE);
        vmap.release(alloc);
    }
}

/// The number of pages needed to hold `len` bytes of image.
pub open spec fn spec_image_pages(len: int) -> int {
    (len + PAGE_SIZE - 1) / PAGE_SIZE as int
}

/// The allocation requests one load makes, in order: the kernel stack
/// block, the page-table block, the user stack pages, and `n` image
/// pages.
pub open spec fn load_reqs(n: int) -> Seq<(u64, u64)> {
    Seq::new(
        (2 + USER_STACK_PAGES + n) as nat,
        |i: int|
            if i == 0 {
                (STACK_SIZE, PAGE_ALIGN)
            } else if i == 1 {
                (PT_BYTES, TABLE_BYTES)
            } else {
                (PAGE_SIZE, PAGE_ALIGN)
            },
    )
}

impl Process {
    /// Creates a process able to run an image of `image.len()` bytes:
    /// a fresh process whose user table maps the fixed number of stack
    /// pages read/write and exactly enough image pages
    /// read/write/execute, in ascending address order.  The trap frame is
    /// left zeroed; the caller copies the image bytes into the returned
    /// mappings through the identity map.
    ///
    /// Fails with `NoVmSpace` when the image cannot fit below the user
    /// stack, and with `NoMemory` when the allocator runs out part-way.
    /// A failed load hands what it had acquired back to the allocator;
    /// the contract pins the failure condition itself, leaving the free
    /// lists' exact order after the cleanup unspecified.
    pub fn do_load(image: &Vec<u8>, alloc: &mut Allocator) -> (r: Result<Process, OsError>)
        requires
            old(alloc)@.wf(),
        ensures
            final(alloc)@.wf(),
            ({
                let n = spec_image_pages(image@.len() as int);
                let (mr, obs) = crate::allocator::spec_alloc_run(old(alloc)@, load_reqs(n));
                match r {
                    Ok(p) => {
                        &&& n <= IMAGE_SLOTS
                        &&& obs is Some
                        &&& final(alloc)@ =~~= mr
                        &&& p.wf()
                        &&& p.state == State::Ready
                        &&& p.context.is_zeroed()
                        &&& (forall|s: int|
                            0 <= s < NUM_SLOTS ==> (#[trigger] p.vmap.0.slot_mapped(s) <==> (s < n
                                || NUM_SLOTS - USER_STACK_PAGES <= s)))
                        &&& (forall|j: int|
                            0 <= j < USER_STACK_PAGES ==> crate::vm::pte_addr(
                                #[trigger] p.vmap.0.entry_at(NUM_SLOTS - 1 - j),
                            ) == crate::allocator::run_step_addr(old(alloc)@, load_reqs(n), 2 + j))
                        &&& (forall|j: int|
                            0 <= j < n ==> crate::vm::pte_addr(#[trigger] p.vmap.0.entry_at(j))
                                == crate::allocator::run_step_addr(
                                old(alloc)@,
                                load_reqs(n),
                                2 + USER_STACK_PAGES + j,
                            ))
                    },
                    Err(OsError::NoVmSpace) => n > IMAGE_SLOTS && final(alloc)@ =~~= old(alloc)@,
                    Err(OsError::NoMemory) => n <= IMAGE_SLOTS && obs is None,
                    Err(_) => false,
                }
            }),
    {
        let ghost m0 = old(alloc)@;
        let len = image.len();
        let n: usize = if len == 0 {
            0
        } else {
            (len - 1) / (PAGE_SIZE as usize) + 1
        };
        proof {
            if len > 0 {
                crate::util::lemma_div_step((len - 1) as int, PAGE_SIZE as int);
            }
            assert(n as int == spec_image_pages(len as int));
        }
        if n > IMAGE_SLOTS as usize {
            return Err(OsError::NoVmSpace);
        }
        let ghost reqs = load_reqs(n as int);
        let mut p = match Process::new(alloc) {
            Ok(p) => p,
            Err(_) => {
                proof {
                    lemma_load_head_fail(m0, n as int);
                }
                return Err(OsError::NoMemory);
            },
        };
        proof {
            lemma_load_head_ok(m0, n as int, alloc@, p.stack.spec_base(), p.vmap.0.l2.base);
            crate::vm::lemma_zero_entry();
        }
        let mut i: usize = 0;
        while i < USER_STACK_PAGES
            invariant
                m0 == old(alloc)@,
                len == image@.len(),
                n as int == spec_image_pages(len as int),
                alloc@.wf(),
                p.wf(),
                p.state == State::Ready,
                p.context.is_zeroed(),
                i <= USER_STACK_PAGES,
                n <= IMAGE_SLOTS,
                reqs == load_reqs(n as int),
                crate::allocator::spec_alloc_run(m0, reqs.take(2 + i)).1 is Some,
                alloc@ =~~= crate::allocator::spec_alloc_run(m0, reqs.take(2 + i)).0,
                forall|s: int|
                    0 <= s < NUM_SLOTS ==> (#[trigger] p.vmap.0.slot_mapped(s) <==> NUM_SLOTS - i
                        <= s),
                forall|j: int|
                    0 <= j < i ==> crate::vm::pte_addr(
                        #[trigger] p.vmap.0.entry_at(NUM_SLOTS - 1 - j),
                    ) == crate::allocator::run_step_addr(m0, reqs, 2 + j),
            decreases USER_STACK_PAGES - i,
        {
            let va = USER_STACK_BASE - PAGE_SIZE * (i as u64);
            proof {
                vstd::arithmetic::div_mod::lemma_fundamental_div_mod_converse(
                    (va - USER_IMG_BASE) as int,
                    PAGE_SIZE as int,
                    NUM_SLOTS as int - 1 - i,
                    PAGE_SIZE as int - 16,
                );
                assert(user_slot(va) == NUM_SLOTS - 1 - i);
                assert(in_user_window(va));
            }
            let ghost mpre = alloc@;
            let ghost pold = p;
            match p.vmap.map_page(VirtualAddr(va), PagePerm::RW, alloc) {
                Ok(_) => {},
                Err(_) => {
                    proof {
                        crate::allocator::lemma_alloc_run_unfold(m0, reqs, 2 + i);
                        assert(reqs[2 + i] == (PAGE_SIZE, PAGE_ALIGN));
                        crate::allocator::lemma_alloc_run_prefix_fail(m0, reqs, 2 + i + 1);
                    }
                    p.release(alloc);
                    return Err(OsError::NoMemory);
                },
            }
            i = i + 1;
            proof {
                crate::allocator::lemma_alloc_run_unfold(m0, reqs, 2 + i - 1);
                assert(reqs[2 + i - 1] == (PAGE_SIZE, PAGE_ALIGN));
                assert(alloc@ =~~= crate::allocator::spec_alloc_run(m0, reqs.take(2 + i)).0);
                assert forall|s: int| 0 <= s < NUM_SLOTS implies (#[trigger] p.vmap.0.slot_mapped(s)
                    <==> NUM_SLOTS - i <= s) by {
                    if s != user_slot(va) {
                        assert(pold.vmap.0.slot_mapped(s) == (NUM_SLOTS - (i - 1) <= s));
                        assert(p.vmap.0.entry_at(s) == pold.vmap.0.entry_at(s));
                    }
                }
            }
        }
        let mut j: usize = 0;
        while j < n
            invariant
                m0 == old(alloc)@,
                len == image@.len(),
                n as int == spec_image_pages(len as int),
                alloc@.wf(),
                p.wf(),
                p.state == State::Ready,
                p.context.is_zeroed(),
                j <= n,
                n <= IMAGE_SLOTS,
                reqs == load_reqs(n as int),
                crate::allocator::spec_alloc_run(m0, reqs.take(2 + USER_STACK_PAGES + j)).1 is Some,
                alloc@ =~~= crate::allocator::spec_alloc_run(
                    m0,
                    reqs.take(2 + USER_STACK_PAGES + j),
                ).0,
                forall|s: int|
                    0 <= s < NUM_SLOTS ==> (#[trigger] p.vmap.0.slot_mapped(s) <==> (s < j
                        || NUM_SLOTS - USER_STACK_PAGES <= s)),
                forall|j2: int|
                    0 <= j2 < USER_STACK_PAGES ==> crate::vm::pte_addr(
                        #[trigger] p.vmap.0.entry_at(NUM_SLOTS - 1 - j2),
                    ) == crate::allocator::run_step_addr(m0, reqs, 2 + j2),
                forall|j2: int|
                    0 <= j2 < j ==> crate::vm::pte_addr(#[trigger] p.vmap.0.entry_at(j2))
                        == crate::allocator::run_step_addr(m0, reqs, 2 + USER_STACK_PAGES + j2),
            decreases n - j,
        {
            let va = USER_IMG_BASE + PAGE_SIZE * (j as u64);
            proof {
                vstd::arithmetic::div_mod::lemma_fundamental_div_mod_converse(
                    (va - USER_IMG_BASE) as int,
                    PAGE_SIZE as int,
                    j as int,
                    0,
                );
                assert(user_slot(va) == j);
                assert(in_user_window(va));
            }
            let ghost pold = p;
            match p.vmap.map_page(VirtualAddr(va), PagePerm::RWX, alloc) {
                Ok(_) => {},
                Err(_) => {
                    proof {
                        crate::allocator::lemma_alloc_run_unfold(m0, reqs, 2 + USER_STACK_PAGES + j);
                        assert(reqs[2 + USER_STACK_PAGES + j] == (PAGE_SIZE, PAGE_ALIGN));
                        crate::allocator::lemma_alloc_run_prefix_fail(
                            m0,
                            reqs,
                            2 + USER_STACK_PAGES + j + 1,
                        );
                    }
                    p.release(alloc);
                    return Err(OsError::NoMemory);
                },
            }
            j = j + 1;
            proof {
                crate::allocator::lemma_alloc_run_unfold(m0, reqs, 2 + USER_STACK_PAGES + j - 1);
                assert(reqs[2 + USER_STACK_PAGES + j - 1] == (PAGE_SIZE, PAGE_ALIGN));
                assert(alloc@ =~~= crate::allocator::spec_alloc_run(
                    m0,
                    reqs.take(2 + USER_STACK_PAGES + j),
                ).0);
                assert forall|s: int| 0 <= s < NUM_SLOTS implies (#[trigger] p.vmap.0.slot_mapped(s)
                    <==> (s < j || NUM_SLOTS - USER_STACK_PAGES <= s)) by {
                    if s != user_slot(va) {
                        assert(pold.vmap.0.slot_mapped(s) == (s < j - 1 || NUM_SLOTS
                            - USER_STACK_PAGES <= s));
                        assert(p.vmap.0.entry_at(s) == pold.vmap.0.entry_at(s));
                    }
                }
            }
        }
        proof {
            assert(reqs.take(2 + USER_STACK_PAGES + n) =~= reqs);
        }
        Ok(p)
    }

    /// Loads a process from an image already read from the filesystem:
    /// maps its memory as `do_load` does, then points the trap frame at
    /// the fixed entry point and stack base and at the two translation
    /// tables, the shared kernel table named by `kern_baddr` and the
    /// process's own.  Every other frame field stays zero.
    pub fn load(image: &Vec<u8>, kern_baddr: PhysicalAddr, alloc: &mut Allocator) -> (r: Result<
        Process,
        OsError,
    >)
        requires
            old(alloc)@.wf(),
        ensures
            final(alloc)@.wf(),
            ({
                let n = spec_image_pages(image@.len() as int);
                let (mr, obs) = crate::allocator::spec_alloc_run(old(alloc)@, load_reqs(n));
                match r {
                    Ok(p) => {
                        &&& n <= IMAGE_SLOTS
                        &&& obs is Some
                        &&& final(alloc)@ =~~= mr
                        &&& p.wf()
                        &&& p.state == State::Ready
                        &&& (forall|s: int|
                            0 <= s < NUM_SLOTS ==> (#[trigger] p.vmap.0.slot_mapped(s) <==> (s < n
                                || NUM_SLOTS - USER_STACK_PAGES <= s)))
                        &&& (forall|j: int|
                            0 <= j < USER_STACK_PAGES ==> crate::vm::pte_addr(
                                #[trigger] p.vmap.0.entry_at(NUM_SLOTS - 1 - j),
                            ) == crate::allocator::run_step_addr(old(alloc)@, load_reqs(n), 2 + j))
                        &&& (forall|j: int|
                            0 <= j < n ==> crate::vm::pte_addr(#[trigger] p.vmap.0.entry_at(j))
                                == crate::allocator::run_step_addr(
                                old(alloc)@,
                                load_reqs(n),
                                2 + USER_STACK_PAGES + j,
                            ))
                        &&& p.context.elr_el == USER_IMG_BASE
                        &&& p.context.sp_el == USER_STACK_BASE
                        &&& p.context.ttbr0_el == kern_baddr.0
                        &&& p.context.ttbr1_el == p.vmap.0.l2.base
                        &&& p.context.spsr_el == 0
                        &&& p.context.tpidr_el == 0
                        &&& (forall|k: int| 0 <= k < 32 ==> p.context.qs@[k] == 0)
                        &&& (forall|k: int| 0 <= k < 32 ==> p.context.xs@[k] == 0)
                    },
                    Err(OsError::NoVmSpace) => n > IMAGE_SLOTS && final(alloc)@ =~~= old(alloc)@,
                    Err(OsError::NoMemory) => n <= IMAGE_SLOTS && obs is None,
                    Err(_) => false,
                }
            }),
    {
        let mut p = match Self::do_load(image, alloc) {
            Ok(p) => p,
            Err(e) => {
                return Err(e);
            },
        };
        p.context.elr_el = Process::get_image_base().as_u64();
        p.context.ttbr0_el = kern_baddr.0;
        p.context.ttbr1_el = p.vmap.get_baddr().as_u64();
        p.context.sp_el = Process::get_stack_base().as_u64();
        Ok(p)
    }
}

/// The first two allocations of a load are the stack and table blocks of
/// `Process::new`; if one of them fails, the whole run fails.
proof fn lemma_load_head_fail(m0: AllocModel, n: int)
    requires
        n >= 0,
        ({
            let (m1, os) = spec_alloc(m0, STACK_SIZE, PAGE_ALIGN);
            let (m2, ot) = spec_alloc(m1, PT_BYTES, TABLE_BYTES);
            os is None || ot is None
        }),
    ensures
        crate::allocator::spec_alloc_run(m0, load_reqs(n)).1 is None,
{
    let reqs = load_reqs(n);
    assert(reqs.take(0) =~= Seq::<(u64, u64)>::empty());
    crate::allocator::lemma_alloc_run_unfold(m0, reqs, 0);
    let (m1, os) = spec_alloc(m0, STACK_SIZE, PAGE_ALIGN);
    if os is None {
        crate::allocator::lemma_alloc_run_prefix_fail(m0, reqs, 1);
    } else {
        crate::allocator::lemma_alloc_run_unfold(m0, reqs, 1);
        crate::allocator::lemma_alloc_run_prefix_fail(m0, reqs, 2);
    }
}

/// After `Process::new` succeeds, the run over the first two requests of
/// a load has succeeded and stands at the allocator's current state.
proof fn lemma_load_head_ok(m0: AllocModel, n: int, mcur: AllocModel, sb: u64, tb: u64)
    requires
        n >= 0,
        ({
            let (m1, os) = spec_alloc(m0, STACK_SIZE, PAGE_ALIGN);
            let (m2, ot) = spec_alloc(m1, PT_BYTES, TABLE_BYTES);
            os == Some(sb) && ot == Some(tb) && mcur =~~= m2
        }),
    ensures
        crate::allocator::spec_alloc_run(m0, load_reqs(n).take(2)).1 is Some,
        mcur =~~= crate::allocator::spec_alloc_run(m0, load_reqs(n).take(2)).0,
{
    let reqs = load_reqs(n);
    assert(reqs.take(0) =~= Seq::<(u64, u64)>::empty());
    crate::allocator::lemma_alloc_run_unfold(m0, reqs, 0);
    crate::allocator::lemma_alloc_run_unfold(m0, reqs, 1);
}

/// Runtime test of a wait condition against an observation.
fn cond_holds(c: WaitCondition, ctx: &PollContext) -> (r: bool)
    ensures
        r == spec_cond_holds(c, *ctx),
{
    match c {
        WaitCondition::Timer { deadline } => ctx.now >= deadline,
        WaitCondition::Event { id } => {
            let mut i: usize = 0;
            while i < ctx.events.len()
                invariant
                    c == (WaitCondition::Event { id }),
                    i <= ctx.events@.len(),
                    forall|j: int| 0 <= j < i ==> ctx.events@[j] != id,
                decreases ctx.events@.len() - i,
            {
                if ctx.events[i] == id {
                    proof {
                        assert(ctx.events@.contains(id)) by {
                            assert(ctx.events@[i as int] == id);
                        }
                        assert(spec_cond_holds(c, *ctx));
                    }
                    return true;
                }
                i = i + 1;
            }
            false
        },
    }
}

} // verus!
