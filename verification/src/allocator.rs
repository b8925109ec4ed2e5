//! Size-classed physical memory allocator.
//!
//! The allocator manages a flat physical region `[start, end)` purely by
//! address arithmetic: block sizes are powers of two from `2^MIN_CLASS` to
//! `2^MAX_CLASS`, each class keeps its own free list (a LIFO stack of block
//! addresses), and fresh blocks are carved from a monotonically increasing
//! bump pointer.  There is no coalescing and no splitting; fragmentation
//! across classes is accepted for O(1) allocation and deallocation.
//!
//! Whether a freed block really came from this allocator with the stated
//! layout cannot be checked here and remains the caller's obligation, as is
//! usual for a deallocation interface.

use vstd::prelude::*;
use vstd::arithmetic::power2::pow2;
use vstd::arithmetic::power2::is_pow2;
use vstd::arithmetic::power2::lemma_pow2_unfold;
use vstd::arithmetic::power2::lemma2_to64;
use crate::param::PHYS_ADDR_END;
use crate::util::align_up;
use crate::util::is_power_of_two;
use crate::util::spec_align_up;

verus! {

/// Exponent of the smallest block size handed out (32 bytes).
pub const MIN_CLASS: u64 = 5;

/// Exponent of the largest block size handed out (4 GiB).
pub const MAX_CLASS: u64 = 32;

/// Number of size classes, one free list each.
pub const NUM_BINS: usize = 28;

/// Largest request the allocator serves, `2^MAX_CLASS` bytes.
pub const MAX_BLOCK: u64 = 0x1_0000_0000;

/// The size class serving a request of `size` bytes: the smallest
/// `k` in `[MIN_CLASS, MAX_CLASS]` with `size <= 2^k`.
pub open spec fn class_of(size: u64) -> int {
    class_from(size, MIN_CLASS as int)
}

pub open spec fn class_from(size: u64, k: int) -> int
    decreases MAX_CLASS as int - k,
{
    if k >= MAX_CLASS as int {
        MAX_CLASS as int
    } else if size <= pow2(k as nat) {
        k
    } else {
        class_from(size, k + 1)
    }
}

proof fn lemma_class_from_bounds(size: u64, k: int)
    requires
        MIN_CLASS <= k <= MAX_CLASS,
    ensures
        k <= class_from(size, k) <= MAX_CLASS,
        0 < size <= MAX_BLOCK ==> size <= pow2(class_from(size, k) as nat),
    decreases MAX_CLASS as int - k,
{
    lemma2_to64();
    if k < MAX_CLASS as int && size > pow2(k as nat) {
        lemma_class_from_bounds(size, k + 1);
    }
}

/// The class picked for a request is large enough for it, and lies in
/// `[MIN_CLASS, MAX_CLASS]`.
pub proof fn lemma_class_of_bounds(size: u64)
    ensures
        MIN_CLASS <= class_of(size) <= MAX_CLASS,
        0 < size <= MAX_BLOCK ==> size <= pow2(class_of(size) as nat),
{
    lemma_class_from_bounds(size, MIN_CLASS as int);
}

/// Mathematical model of an allocator: the bump pointer, the region end,
/// and the free list of every size class (most recently freed block last).
#[verifier::ext_equal]
pub struct AllocModel {
    pub current: u64,
    pub end: u64,
    pub bins: Seq<Seq<u64>>,
}

impl AllocModel {
    /// The free list of size class `k`.
    pub open spec fn bin(self, k: int) -> Seq<u64> {
        self.bins[k - MIN_CLASS as int]
    }

    /// Internal consistency: the bump pointer stays inside the managed
    /// region, which lies in the 48-bit physical address space and starts
    /// above address zero, and every free block address is a non-null
    /// address of that space.
    pub open spec fn wf(self) -> bool {
        &&& self.bins.len() == NUM_BINS
        &&& 0 < self.current <= self.end <= PHYS_ADDR_END
        &&& forall|i: int, j: int|
            0 <= i < NUM_BINS && 0 <= j < self.bins[i].len() ==> 0 < #[trigger] self.bins[i][j]
                < PHYS_ADDR_END
    }
}

/// Whether a request of class `k` and alignment `align` can be served from
/// the class's free list: the most recently freed block must satisfy the
/// requested alignment.
pub open spec fn reuse_candidate(m: AllocModel, k: int, align: u64) -> bool {
    m.bin(k).len() > 0 && m.bin(k).last() % align == 0
}

/// Functional model of `Allocator::allocate`: the state after the call,
/// paired with the returned address, if any.
pub open spec fn spec_alloc(m: AllocModel, size: u64, align: u64) -> (AllocModel, Option<u64>) {
    if !is_pow2(align as int) || size == 0 || size > MAX_BLOCK {
        (m, None)
    } else {
        let k = class_of(size);
        if reuse_candidate(m, k, align) {
            let addr = m.bin(k).last();
            (
                AllocModel {
                    bins: m.bins.update(k - MIN_CLASS as int, m.bin(k).drop_last()),
                    ..m
                },
                Some(addr),
            )
        } else {
            let cur = spec_align_up(m.current as int, align as int);
            if cur + pow2(k as nat) > m.end {
                (m, None)
            } else {
                (AllocModel { current: (cur + pow2(k as nat)) as u64, ..m }, Some(cur as u64))
            }
        }
    }
}

/// Functional model of `Allocator::deallocate`: the freed block is pushed
/// onto the free list of its size class.
pub open spec fn spec_dealloc(m: AllocModel, addr: u64, size: u64) -> AllocModel {
    let k = class_of(size);
    AllocModel { bins: m.bins.update(k - MIN_CLASS as int, m.bin(k).push(addr)), ..m }
}

/// A simple allocator that allocates based on size classes.
pub struct Allocator {
    current: u64,
    end: u64,
    bins: Vec<Vec<u64>>,
}

impl View for Allocator {
    type V = AllocModel;

    closed spec fn view(&self) -> AllocModel {
        AllocModel {
            current: self.current,
            end: self.end,
            bins: self.bins@.map_values(|b: Vec<u64>| b@),
        }
    }
}

impl Allocator {
    /// Creates a new bin allocator that will allocate memory from the
    /// region starting at address `start` and ending at address `end`.
    pub fn new(start: u64, end: u64) -> (a: Allocator)
        requires
            0 < start <= end <= PHYS_ADDR_END,
        ensures
            a@.wf(),
            a@.current == start,
            a@.end == end,
            forall|k: int| MIN_CLASS <= k <= MAX_CLASS ==> #[trigger] a@.bin(k) =~= Seq::<u64>::empty(),
    {
        let mut bins: Vec<Vec<u64>> = Vec::new();
        while bins.len() < NUM_BINS
            invariant
                bins@.len() <= NUM_BINS,
                forall|i: int| 0 <= i < bins@.len() ==> #[trigger] bins@[i]@ =~= Seq::<u64>::empty(),
            decreases NUM_BINS - bins.len(),
        {
            bins.push(Vec::new());
        }
        Allocator { current: start, end, bins }
    }

    /// The size class serving `size`, with its block size in bytes.
    fn size_class(size: u64) -> (r: (u64, u64))
        requires
            0 < size <= MAX_BLOCK,
        ensures
            r.0 == class_of(size),
            r.1 == pow2(r.0 as nat),
    {
        proof {
            lemma2_to64();
        }
        let mut k: u64 = MIN_CLASS;
        let mut block: u64 = 32;
        while size > block && k < MAX_CLASS
            invariant
                MIN_CLASS <= k <= MAX_CLASS,
                0 < size <= MAX_BLOCK,
                block == pow2(k as nat),
                class_of(size) == class_from(size, k as int),
            decreases MAX_CLASS - k,
        {
            proof {
                lemma_pow2_unfold((k + 1) as nat);
            }
            block = block * 2;
            k = k + 1;
        }
        proof {
            if size <= block {
            } else {
                assert(k == MAX_CLASS);
                lemma2_to64();
                assert(size <= pow2(MAX_CLASS as nat));
            }
        }
        (k, block)
    }

    /// Allocates a block of at least `size` bytes aligned to `align`, from
    /// the free list of the matching size class if its most recently freed
    /// block fits the alignment, and otherwise from the bump pointer.
    ///
    /// Returns `None`, never panicking, if `align` is not a power of two,
    /// `size` is zero or beyond the largest class, or the region is
    /// exhausted.
    pub fn allocate(&mut self, size: u64, align: u64) -> (r: Option<u64>)
        requires
            old(self)@.wf(),
        ensures
            final(self)@.wf(),
            ({
                let (m2, rr) = spec_alloc(old(self)@, size, align);
                final(self)@ =~~= m2 && r == rr
            }),
            r matches Some(addr) ==> 0 < addr < PHYS_ADDR_END && addr % align == 0,
    {
        if !is_power_of_two(align) {
            return None;
        }
        if size == 0 || size > MAX_BLOCK {
            return None;
        }
        let (k, block) = Self::size_class(size);
        proof {
            lemma_class_of_bounds(size);
        }
        proof {
            assert(align > 0) by {
                reveal(is_pow2);
            }
        }
        let idx = (k - MIN_CLASS) as usize;
        let n = self.bins[idx].len();
        if n > 0 {
            let head = self.bins[idx][n - 1];
            if head % align == 0 {
                let b = &mut self.bins[idx];
                b.pop();
                proof {
                    let ghost m2 = spec_alloc(old(self)@, size, align).0;
                    assert(self@.bins =~~= m2.bins);
                    assert(self@.wf()) by {
                        assert(forall|i: int, j: int|
                            0 <= i < NUM_BINS && 0 <= j < self@.bins[i].len() ==> self@.bins[i][j]
                                == old(self)@.bins[i][j]);
                    }
                }
                return Some(head);
            }
        }
        proof {
            let c = self.current as int;
            let al = align as int;
            vstd::arithmetic::div_mod::lemma_mod_division_less_than_divisor(c, al);
            if al > c {
                vstd::arithmetic::div_mod::lemma_small_mod(c as nat, al as nat);
                assert(spec_align_up(c, al) <= al);
            } else {
                assert(spec_align_up(c, al) <= c + al);
            }
        }
        let cur = align_up(self.current, align);
        if cur > self.end || self.end - cur < block {
            return None;
        }
        self.current = cur + block;
        proof {
            assert(self@ =~~= spec_alloc(old(self)@, size, align).0);
        }
        Some(cur)
    }

    /// Returns the block at `addr`, previously allocated with the given
    /// `size`, to the free list of its size class.  The block becomes the
    /// most recently freed one of the class.
    pub fn deallocate(&mut self, addr: u64, size: u64)
        requires
            old(self)@.wf(),
            0 < addr < PHYS_ADDR_END,
            0 < size <= MAX_BLOCK,
        ensures
            final(self)@.wf(),
            final(self)@ =~~= spec_dealloc(old(self)@, addr, size),
    {
        let (k, _block) = Self::size_class(size);
        proof {
            lemma_class_of_bounds(size);
        }
        let idx = (k - MIN_CLASS) as usize;
        let b = &mut self.bins[idx];
        b.push(addr);
        proof {
            assert(self@ =~~= spec_dealloc(old(self)@, addr, size));
            assert(self@.wf()) by {
                assert(forall|i: int, j: int|
                    0 <= i < NUM_BINS && 0 <= j < self@.bins[i].len() && !(i == idx && j
                        == self@.bins[i].len() - 1) ==> self@.bins[i][j] == old(self)@.bins[i][j]);
            }
        }
    }
}

/// The outcome of a whole sequence of allocation requests, each a (size,
/// alignment) pair, served in order: the final allocator state, and the
/// addresses handed out, or `None` as soon as one request fails.
pub open spec fn spec_alloc_run(m: AllocModel, reqs: Seq<(u64, u64)>) -> (AllocModel, Option<
    Seq<u64>,
>)
    decreases reqs.len(),
{
    if reqs.len() == 0 {
        (m, Some(Seq::empty()))
    } else {
        let (m1, or) = spec_alloc_run(m, reqs.drop_last());
        match or {
            None => (m1, None),
            Some(addrs) => {
                let (m2, o) = spec_alloc(m1, reqs.last().0, reqs.last().1);
                match o {
                    None => (m2, None),
                    Some(a) => (m2, Some(addrs.push(a))),
                }
            },
        }
    }
}

/// Unfolds one step of `spec_alloc_run` along a growing prefix.
pub proof fn lemma_alloc_run_unfold(m: AllocModel, reqs: Seq<(u64, u64)>, k: int)
    requires
        0 <= k < reqs.len(),
    ensures
        ({
            let (mk, ok) = spec_alloc_run(m, reqs.take(k));
            spec_alloc_run(m, reqs.take(k + 1)) == match ok {
                None => (mk, None::<Seq<u64>>),
                Some(addrs) => {
                    let (m2, o) = spec_alloc(mk, reqs[k].0, reqs[k].1);
                    match o {
                        None => (m2, None::<Seq<u64>>),
                        Some(a) => (m2, Some(addrs.push(a))),
                    }
                },
            }
        }),
{
    assert(reqs.take(k + 1).drop_last() =~= reqs.take(k));
    assert(reqs.take(k + 1).last() == reqs[k]);
}

/// The address granted to the `k`-th request of a run, read off the
/// run's state just before that request.
pub open spec fn run_step_addr(m: AllocModel, reqs: Seq<(u64, u64)>, k: int) -> u64 {
    spec_alloc(spec_alloc_run(m, reqs.take(k)).0, reqs[k].0, reqs[k].1).1.unwrap()
}

/// A failed prefix dooms the whole run: once one request fails, the run
/// over any extension of the prefix fails too.
pub proof fn lemma_alloc_run_prefix_fail(m: AllocModel, reqs: Seq<(u64, u64)>, k: int)
    requires
        0 <= k <= reqs.len(),
        spec_alloc_run(m, reqs.take(k)).1 is None,
    ensures
        spec_alloc_run(m, reqs).1 is None,
    decreases reqs.len() - k,
{
    if k == reqs.len() {
        assert(reqs.take(k) =~= reqs);
    } else {
        lemma_alloc_run_unfold(m, reqs, k);
        lemma_alloc_run_prefix_fail(m, reqs, k + 1);
    }
}

/// Law: a freed block is the first candidate for reuse.  Deallocating a
/// block and then allocating any request of the same size class, with an
/// alignment the block satisfies, returns exactly that block.
pub proof fn lemma_freed_block_reused(m: AllocModel, addr: u64, size: u64, size2: u64, align: u64)
    requires
        m.wf(),
        0 < addr < PHYS_ADDR_END,
        0 < size <= MAX_BLOCK,
        0 < size2 <= MAX_BLOCK,
        class_of(size2) == class_of(size),
        is_pow2(align as int),
        addr % align == 0,
    ensures
        spec_alloc(spec_dealloc(m, addr, size), size2, align).1 == Some(addr),
{
    lemma_class_of_bounds(size);
    let m1 = spec_dealloc(m, addr, size);
    let k = class_of(size);
    assert(m1.bin(k) == m.bin(k).push(addr));
    assert(m1.bin(k).last() == addr);
}

} // verus!
