//! Two-level hardware translation tables.
//!
//! A `PageTable` is one level-2 table whose first `NUM_L3_TABLES` entries
//! point to the level-3 tables stored directly behind it in one physically
//! contiguous block; every level-3 entry maps one page.  A virtual address
//! decomposes by fixed bit shifts into a level-2 index and a level-3 index.
//!
//! Descriptors follow the hardware format in the low attribute bits: a
//! validity bit, a table/page type tag, a memory-attribute index, an access
//! permission field, a shareability field, an access flag, and a masked
//! physical-address field.  An entry is either fully valid or zero.

use vstd::prelude::*;
use vstd::arithmetic::power2::is_pow2;
use crate::allocator::Allocator;
use crate::allocator::AllocModel;
use crate::allocator::spec_alloc;
use crate::oserror::OsError;
use crate::param::NUM_L3_TABLES;
use crate::param::PAGE_ALIGN;
use crate::param::PAGE_SIZE;
use crate::param::PHYS_ADDR_END;
use crate::param::TABLE_ENTRIES;
use crate::param::IO_BASE;
use crate::param::IO_BASE_END;
use crate::param::USER_IMG_BASE;
use crate::param::USER_MAX_VM_SIZE;
use crate::param::VM_COVERAGE;

verus! {

/// A physical address: a 64-bit integer with no implicit conversion to or
/// from virtual addresses.
#[derive(Clone, Copy, Debug, PartialEq, Eq, Structural)]
pub struct PhysicalAddr(pub u64);

impl PhysicalAddr {
    /// Wraps a raw 64-bit physical address.
    pub fn from(v: u64) -> (r: PhysicalAddr)
        ensures
            r.0 == v,
    {
        PhysicalAddr(v)
    }

    /// The raw 64-bit value.
    pub fn as_u64(&self) -> (r: u64)
        ensures
            r == self.0,
    {
        self.0
    }
}

/// A virtual address: a 64-bit integer that yields a physical address only
/// by explicit translation through a page table.
#[derive(Clone, Copy, Debug, PartialEq, Eq, Structural)]
pub struct VirtualAddr(pub u64);

impl VirtualAddr {
    /// Wraps a raw 64-bit virtual address.
    pub fn from(v: u64) -> (r: VirtualAddr)
        ensures
            r.0 == v,
    {
        VirtualAddr(v)
    }

    /// The raw 64-bit value.
    pub fn as_u64(&self) -> (r: u64)
        ensures
            r == self.0,
    {
        self.0
    }
}

/// Bytes of one translation table (either level).
pub const TABLE_BYTES: u64 = 65536;

/// Bytes of one whole `PageTable` block: the level-2 table followed by its
/// `NUM_L3_TABLES` level-3 tables.
pub const PT_BYTES: u64 = 4 * TABLE_BYTES;

/// Validity bit of a descriptor.
pub const PTE_VALID: u64 = 0x1;

/// Type bit: a table descriptor at level 2, a page descriptor at level 3.
pub const PTE_TYPE: u64 = 0x2;

/// Memory-attribute index bit selecting the device attribute; zero selects
/// normal memory.
pub const PTE_ATTR_DEV: u64 = 0x4;

/// Access-permission field value for user read/write.
pub const ENTRY_PERM_USER_RW: u64 = 0x40;

/// Access-permission field value for kernel read/write.
pub const ENTRY_PERM_KERN_RW: u64 = 0x0;

/// Access-permission field value for read-only mappings.
pub const ENTRY_PERM_RO: u64 = 0xc0;

/// Shareability field value for the outer domain, used for device memory.
pub const PTE_SH_OUTER: u64 = 0x200;

/// Shareability field value for the inner domain, used for normal memory.
pub const PTE_SH_INNER: u64 = 0x300;

/// Access flag of a descriptor.
pub const PTE_AF: u64 = 0x400;

/// Mask of the physical-address field of a descriptor (bits 47 to 12).
pub const ADDR_MASK: u64 = 0x0000_ffff_ffff_f000;

/// Attribute bits of a level-3 entry mapping kernel read/write normal
/// memory: valid, page, normal, kernel read/write, inner-shared, accessed.
pub const KERN_RAM_ATTRS: u64 = 0x703;

/// Attribute bits of a level-3 entry mapping kernel read/write device
/// memory: valid, page, device, kernel read/write, outer-shared, accessed.
pub const KERN_DEV_ATTRS: u64 = 0x607;

/// A descriptor with physical address `pa` and low attribute bits `attrs`:
/// the address is masked to its field, exactly as the hardware reads it.
pub open spec fn descriptor(pa: u64, attrs: u64) -> u64 {
    (pa & ADDR_MASK) | attrs
}

/// Attribute bits of a level-2 table entry delegating to a level-3 table
/// with uniform permission `perm` for the governed region.
pub open spec fn l2_attrs(perm: u64) -> u64 {
    0x703u64 | perm
}

/// Attribute bits of a level-3 user mapping with permission class `perm`.
pub open spec fn user_attrs(perm: u64) -> u64 {
    0x703u64 | perm
}

/// Whether a descriptor's validity bit is set.
pub open spec fn pte_is_valid(e: u64) -> bool {
    e & PTE_VALID == PTE_VALID
}

/// The physical-address field of a descriptor.
pub open spec fn pte_addr(e: u64) -> u64 {
    e & ADDR_MASK
}

/// The attribute constants have their validity bit set, fit below the
/// address field, and compose as the permission-field joins say.
pub proof fn lemma_attr_consts()
    by (bit_vector)
    ensures
        KERN_RAM_ATTRS & PTE_VALID == PTE_VALID,
        KERN_RAM_ATTRS < 0x1000,
        KERN_DEV_ATTRS & PTE_VALID == PTE_VALID,
        KERN_DEV_ATTRS < 0x1000,
        0x743u64 & PTE_VALID == PTE_VALID,
        0x743u64 < 0x1000,
        0x703u64 | ENTRY_PERM_USER_RW == 0x743,
        0x7c3u64 & PTE_VALID == PTE_VALID,
        0x7c3u64 < 0x1000,
        0x703u64 | ENTRY_PERM_RO == 0x7c3,
{
}

/// A zero descriptor is invalid and carries a zero address field.
pub proof fn lemma_zero_entry()
    by (bit_vector)
    ensures
        !pte_is_valid(0),
        pte_addr(0) == 0,
{
}

/// The address field of any descriptor is page-aligned and lies in the
/// 48-bit physical address space.
pub proof fn lemma_pte_addr_in_range(e: u64)
    by (bit_vector)
    ensures
        pte_addr(e) % PAGE_SIZE == 0,
        pte_addr(e) < PHYS_ADDR_END,
{
}

/// Building a descriptor from an aligned 48-bit physical address and valid
/// low attributes gives back exactly those parts.
pub proof fn lemma_descriptor_roundtrip(pa: u64, attrs: u64)
    by (bit_vector)
    requires
        pa % PAGE_SIZE == 0,
        pa < PHYS_ADDR_END,
        attrs < 0x1000,
        attrs & PTE_VALID == PTE_VALID,
    ensures
        pte_is_valid(descriptor(pa, attrs)),
        pte_addr(descriptor(pa, attrs)) == pa,
        descriptor(pa, attrs) == pa | attrs,
{
}

/// The level-2 index of a virtual address: bits 37 to 25.
pub open spec fn spec_l2_index(va: u64) -> u64 {
    (va >> 25) & 0x1fff
}

/// The level-3 index of a virtual address: bits 24 to 12.
pub open spec fn spec_l3_index(va: u64) -> u64 {
    (va >> 12) & 0x1fff
}

/// The flat slot number of a virtual address within the covered window:
/// its page number.
pub open spec fn slot_of(va: u64) -> int {
    va as int / PAGE_SIZE as int
}

/// Number of page slots one `PageTable` governs.
pub const NUM_SLOTS: u64 = 3 * 8192;

/// Within the covered window the two indices agree with page-number
/// arithmetic: together they name the page slot.
pub proof fn lemma_locate(va: u64)
    by (bit_vector)
    requires
        va < VM_COVERAGE,
    ensures
        spec_l2_index(va) < NUM_L3_TABLES,
        spec_l3_index(va) < TABLE_ENTRIES,
        spec_l2_index(va) * TABLE_ENTRIES + spec_l3_index(va) == slot_of(va),
        0 <= slot_of(va) < NUM_SLOTS,
        spec_l2_index(va) == slot_of(va) / TABLE_ENTRIES as int,
        spec_l3_index(va) == slot_of(va) % TABLE_ENTRIES as int,
{
}

/// One level-2 translation table.
pub struct L2PageTable {
    /// The raw descriptors; only the first `NUM_L3_TABLES` are populated.
    pub entries: Vec<u64>,
    /// Physical address of this table.
    pub base: u64,
}

impl L2PageTable {
    /// Returns a `PhysicalAddr` of the pagetable.
    pub fn as_ptr(&self) -> (r: PhysicalAddr)
        ensures
            r.0 == self.base,
    {
        PhysicalAddr(self.base)
    }
}

/// One level-3 entry: a page descriptor, or zero when nothing is mapped.
#[derive(Clone, Copy, Debug, PartialEq, Eq, Structural)]
pub struct L3Entry(pub u64);

impl L3Entry {
    /// Returns `true` if the L3Entry is valid and `false` otherwise.
    pub fn is_valid(&self) -> (r: bool)
        ensures
            r == pte_is_valid(self.0),
    {
        self.0 & PTE_VALID == PTE_VALID
    }

    /// Extracts the address field of the entry, as a `PhysicalAddr` if the
    /// entry is valid, and `None` otherwise.
    pub fn get_page_addr(&self) -> (r: Option<PhysicalAddr>)
        ensures
            pte_is_valid(self.0) ==> r == Some(PhysicalAddr(pte_addr(self.0))),
            !pte_is_valid(self.0) ==> r is None,
    {
        if self.is_valid() {
            Some(PhysicalAddr(self.0 & ADDR_MASK))
        } else {
            None
        }
    }
}

/// One level-3 translation table.
pub struct L3PageTable {
    /// The raw page descriptors.
    pub entries: Vec<L3Entry>,
    /// Physical address of this table.
    pub base: u64,
}

impl L3PageTable {
    /// Returns a `PhysicalAddr` of the pagetable.
    pub fn as_ptr(&self) -> (r: PhysicalAddr)
        ensures
            r.0 == self.base,
    {
        PhysicalAddr(self.base)
    }
}

/// A two-level translation table: one level-2 table and its level-3
/// tables, occupying one physically contiguous block.
pub struct PageTable {
    /// The level-2 table.
    pub l2: L2PageTable,
    /// The level-3 tables, governing 32 MiB of address space each.
    pub l3: Vec<L3PageTable>,
    /// The uniform access-permission field of the level-2 entries.
    pub perm: u64,
}

impl PageTable {
    /// The descriptor in page slot `s`.
    pub open spec fn entry_at(self, s: int) -> u64 {
        self.l3@[s / TABLE_ENTRIES as int].entries@[s % TABLE_ENTRIES as int].0
    }

    /// Whether the page slot `s` holds a valid mapping.
    pub open spec fn slot_mapped(self, s: int) -> bool {
        pte_is_valid(self.entry_at(s))
    }

    /// A descriptor a well-formed table may hold: zero, or fully valid.
    pub open spec fn entry_ok(e: u64) -> bool {
        e == 0 || pte_is_valid(e)
    }

    /// Structural invariant: the tables have their fixed sizes and lie
    /// consecutively in one block; the first `NUM_L3_TABLES` level-2
    /// entries delegate to the level-3 tables with the table's uniform
    /// permission and the rest are zero; every level-3 entry is either
    /// zero or fully valid.
    pub open spec fn wf(self) -> bool {
        &&& self.l2.entries@.len() == TABLE_ENTRIES
        &&& self.l3@.len() == NUM_L3_TABLES
        &&& (forall|i: int|
            0 <= i < NUM_L3_TABLES ==> (#[trigger] self.l3@[i]).entries@.len() == TABLE_ENTRIES)
        &&& self.l2.base % TABLE_BYTES == 0
        &&& 0 < self.l2.base < PHYS_ADDR_END
        &&& (forall|i: int|
            0 <= i < NUM_L3_TABLES ==> (#[trigger] self.l3@[i]).base == self.l2.base + TABLE_BYTES * (
            i + 1))
        &&& (forall|i: int|
            0 <= i < NUM_L3_TABLES ==> #[trigger] self.l2.entries@[i] == descriptor(
                self.l3@[i].base,
                l2_attrs(self.perm),
            ))
        &&& (forall|i: int| NUM_L3_TABLES <= i < TABLE_ENTRIES ==> #[trigger] self.l2.entries@[i] == 0)
        &&& (forall|s: int| 0 <= s < NUM_SLOTS ==> Self::entry_ok(#[trigger] self.entry_at(s)))
        &&& (self.perm == ENTRY_PERM_KERN_RW || self.perm == ENTRY_PERM_USER_RW)
    }

    /// All slots of the table are unmapped.
    pub open spec fn all_unmapped(self) -> bool {
        forall|s: int| 0 <= s < NUM_SLOTS ==> #[trigger] self.entry_at(s) == 0
    }

    /// Builds an empty table with uniform permission `perm`, its block
    /// drawn from `alloc`.  Fails exactly when the allocator cannot serve
    /// the block.
    pub fn new(perm: u64, alloc: &mut Allocator) -> (r: Result<PageTable, OsError>)
        requires
            old(alloc)@.wf(),
            perm == ENTRY_PERM_KERN_RW || perm == ENTRY_PERM_USER_RW,
        ensures
            final(alloc)@.wf(),
            ({
                let (m2, ob) = spec_alloc(old(alloc)@, PT_BYTES, TABLE_BYTES);
                final(alloc)@ =~~= m2 && match r {
                    Ok(pt) => ob matches Some(b) && pt.wf() && pt.l2.base == b && pt.perm == perm
                        && pt.all_unmapped(),
                    Err(e) => e == OsError::NoMemory && ob is None,
                }
            }),
    {
        let base_opt = alloc.allocate(PT_BYTES, TABLE_BYTES);
        let base = match base_opt {
            Some(b) => b,
            None => {
                return Err(OsError::NoMemory);
            },
        };
        proof {
            vstd::arithmetic::power2::lemma2_to64();
            crate::util::lemma_pow2_is_pow2(16);
            assert(base % TABLE_BYTES == 0);
        }
        let mut l3: Vec<L3PageTable> = Vec::new();
        let mut i: usize = 0;
        while i < NUM_L3_TABLES
            invariant
                i == l3@.len() <= NUM_L3_TABLES,
                0 < base < PHYS_ADDR_END,
                forall|t: int|
                    0 <= t < i ==> (#[trigger] l3@[t]).base == base + TABLE_BYTES * (t + 1),
                forall|t: int| 0 <= t < i ==> (#[trigger] l3@[t]).entries@.len() == TABLE_ENTRIES,
                forall|t: int, j: int|
                    0 <= t < i && 0 <= j < TABLE_ENTRIES ==> (#[trigger] l3@[t].entries@[j]).0 == 0,
            decreases NUM_L3_TABLES - i,
        {
            let mut entries: Vec<L3Entry> = Vec::new();
            while entries.len() < TABLE_ENTRIES
                invariant
                    entries@.len() <= TABLE_ENTRIES,
                    forall|j: int| 0 <= j < entries@.len() ==> (#[trigger] entries@[j]).0 == 0,
                decreases TABLE_ENTRIES - entries.len(),
            {
                entries.push(L3Entry(0));
            }
            let tbase = base + TABLE_BYTES * (i as u64 + 1);
            l3.push(L3PageTable { entries, base: tbase });
            i = i + 1;
        }
        let mut l2e: Vec<u64> = Vec::new();
        let mut t: usize = 0;
        while t < NUM_L3_TABLES
            invariant
                t == l2e@.len() <= NUM_L3_TABLES,
                0 < base < PHYS_ADDR_END,
                base % TABLE_BYTES == 0,
                l3@.len() == NUM_L3_TABLES,
                perm == ENTRY_PERM_KERN_RW || perm == ENTRY_PERM_USER_RW,
                forall|i2: int|
                    0 <= i2 < NUM_L3_TABLES ==> (#[trigger] l3@[i2]).base == base + TABLE_BYTES * (
                    i2 + 1),
                forall|i2: int|
                    0 <= i2 < t ==> #[trigger] l2e@[i2] == descriptor(l3@[i2].base, l2_attrs(perm)),
            decreases NUM_L3_TABLES - t,
        {
            let tbase = l3[t].base;
            l2e.push((tbase & ADDR_MASK) | (0x703u64 | perm));
            t = t + 1;
        }
        while l2e.len() < TABLE_ENTRIES
            invariant
                NUM_L3_TABLES <= l2e@.len() <= TABLE_ENTRIES,
                forall|i2: int|
                    0 <= i2 < NUM_L3_TABLES ==> #[trigger] l2e@[i2] == descriptor(
                        l3@[i2].base,
                        l2_attrs(perm),
                    ),
                forall|i2: int| NUM_L3_TABLES <= i2 < l2e@.len() ==> #[trigger] l2e@[i2] == 0,
            decreases TABLE_ENTRIES - l2e.len(),
        {
            l2e.push(0);
        }
        let pt = PageTable { l2: L2PageTable { entries: l2e, base }, l3, perm };
        proof {
            assert forall|s: int| 0 <= s < NUM_SLOTS implies #[trigger] pt.entry_at(s) == 0 by {
                assert(0 <= s / (TABLE_ENTRIES as int) && s / (TABLE_ENTRIES as int)
                    < NUM_L3_TABLES);
                assert(0 <= s % (TABLE_ENTRIES as int) && s % (TABLE_ENTRIES as int)
                    < TABLE_ENTRIES);
            }
        }
        Ok(pt)
    }

    /// Returns the (L2 index, L3 index) pair of the given virtual address
    /// within the covered window.
    fn locate(va: VirtualAddr) -> (r: (usize, usize))
        requires
            va.0 < VM_COVERAGE,
        ensures
            r.0 == spec_l2_index(va.0) && r.0 < NUM_L3_TABLES,
            r.1 == spec_l3_index(va.0) && r.1 < TABLE_ENTRIES,
            r.0 * TABLE_ENTRIES + r.1 == slot_of(va.0),
    {
        proof {
            lemma_locate(va.0);
        }
        let l2idx = ((va.0 >> 25) & 0x1fff) as usize;
        let l3idx = ((va.0 >> 12) & 0x1fff) as usize;
        (l2idx, l3idx)
    }

    /// Returns `true` if the L3 entry indicated by the given virtual
    /// address is valid; the address must lie in the covered window.
    pub fn is_valid(&self, va: VirtualAddr) -> (r: bool)
        requires
            self.wf(),
            va.0 < VM_COVERAGE,
        ensures
            r == self.slot_mapped(slot_of(va.0)),
    {
        proof {
            lemma_locate(va.0);
        }
        let (l2idx, l3idx) = Self::locate(va);
        self.l3[l2idx].entries[l3idx].is_valid()
    }

    /// Returns `true` if the L3 entry indicated by the given virtual
    /// address is invalid; the address must lie in the covered window.
    pub fn is_invalid(&self, va: VirtualAddr) -> (r: bool)
        requires
            self.wf(),
            va.0 < VM_COVERAGE,
        ensures
            r == !self.slot_mapped(slot_of(va.0)),
    {
        !self.is_valid(va)
    }

    /// Writes the raw descriptor `entry` into the L3 slot of the given
    /// virtual address; the entry must be zero or fully valid, so the
    /// table's invariant is preserved.
    pub fn set_entry(&mut self, va: VirtualAddr, entry: u64)
        requires
            old(self).wf(),
            va.0 < VM_COVERAGE,
            PageTable::entry_ok(entry),
        ensures
            final(self).wf(),
            final(self).entry_at(slot_of(va.0)) == entry,
            final(self).perm == old(self).perm,
            final(self).l2 == old(self).l2,
            forall|s: int|
                0 <= s < NUM_SLOTS && s != slot_of(va.0) ==> #[trigger] final(self).entry_at(s)
                    == old(self).entry_at(s),
    {
        proof {
            lemma_locate(va.0);
        }
        let (l2idx, l3idx) = Self::locate(va);
        let t = &mut self.l3[l2idx];
        let es = &mut t.entries;
        let e = &mut es[l3idx];
        *e = L3Entry(entry);
        proof {
            assert forall|s: int|
                0 <= s < NUM_SLOTS && s != slot_of(va.0) implies #[trigger] self.entry_at(s) == old(
                self,
            ).entry_at(s) by {
                assert(0 <= s / (TABLE_ENTRIES as int) && s / (TABLE_ENTRIES as int)
                    < NUM_L3_TABLES);
                assert(0 <= s % (TABLE_ENTRIES as int) && s % (TABLE_ENTRIES as int)
                    < TABLE_ENTRIES);
            }
        }
    }

    /// Returns the base address of the pagetable: the physical address of
    /// its level-2 table, the value loaded into a translation-table base
    /// register.
    pub fn get_baddr(&self) -> (r: PhysicalAddr)
        ensures
            r.0 == self.l2.base,
    {
        self.l2.as_ptr()
    }

    /// The addresses of the pages mapped by the first `n` slots, in slot
    /// order.
    pub open spec fn mapped_pages_prefix(self, n: int) -> Seq<u64>
        decreases n,
    {
        if n <= 0 {
            Seq::empty()
        } else if pte_is_valid(self.entry_at(n - 1)) {
            self.mapped_pages_prefix(n - 1).push(pte_addr(self.entry_at(n - 1)))
        } else {
            self.mapped_pages_prefix(n - 1)
        }
    }

    /// The addresses of all pages mapped by this table, in slot order.
    pub open spec fn mapped_pages(self) -> Seq<u64> {
        self.mapped_pages_prefix(NUM_SLOTS as int)
    }
}

/// The permission classes a user mapping can request.
#[derive(Clone, Copy, Debug, PartialEq, Eq, Structural)]
pub enum PagePerm {
    /// Readable and writable data.
    RW,
    /// Read-only data.
    RO,
    /// Readable, writable and executable memory, for loaded images.
    RWX,
}

/// The access-permission field value of a user mapping with the given
/// permission class.
pub open spec fn perm_bits(perm: PagePerm) -> u64 {
    match perm {
        PagePerm::RO => ENTRY_PERM_RO,
        _ => ENTRY_PERM_USER_RW,
    }
}

/// Whether `va` lies in the virtual address window reserved for user
/// processes.
pub open spec fn in_user_window(va: u64) -> bool {
    USER_IMG_BASE <= va < USER_IMG_BASE + USER_MAX_VM_SIZE
}

/// The page slot a user virtual address occupies in its process's table.
pub open spec fn user_slot(va: u64) -> int {
    slot_of((va - USER_IMG_BASE) as u64)
}

/// The identity mapping the kernel table establishes: every page of RAM up
/// to `end_ram` maps to itself as normal memory, every page of the device
/// window maps to itself as device memory, and nothing else is mapped.
pub open spec fn kern_mapped(pt: PageTable, end_ram: u64) -> bool {
    &&& (forall|s: int|
        0 <= s < end_ram / PAGE_SIZE ==> #[trigger] pt.entry_at(s) == descriptor(
            (s * PAGE_SIZE) as u64,
            KERN_RAM_ATTRS,
        ))
    &&& (forall|s: int|
        IO_BASE / PAGE_SIZE <= s < IO_BASE_END / PAGE_SIZE ==> #[trigger] pt.entry_at(s)
            == descriptor((s * PAGE_SIZE) as u64, KERN_DEV_ATTRS))
    &&& (forall|s: int|
        end_ram / PAGE_SIZE <= s < IO_BASE / PAGE_SIZE ==> #[trigger] pt.entry_at(s) == 0)
    &&& (forall|s: int|
        IO_BASE_END / PAGE_SIZE <= s < NUM_SLOTS ==> #[trigger] pt.entry_at(s) == 0)
}

/// The kernel's page table: built once at boot, identity-mapping all
/// managed RAM and the device window with kernel read/write permission,
/// and shared read-only in effect by every process's kernel-mode
/// execution.
pub struct KernPageTable(pub PageTable);

impl KernPageTable {
    /// Builds the kernel table for a machine whose usable RAM ends at
    /// `end_ram`.  Fails exactly when the allocator cannot serve the
    /// table block.
    pub fn new(end_ram: u64, alloc: &mut Allocator) -> (r: Result<KernPageTable, OsError>)
        requires
            old(alloc)@.wf(),
            end_ram % PAGE_SIZE == 0,
            end_ram <= IO_BASE,
        ensures
            final(alloc)@.wf(),
            ({
                let (m2, ob) = spec_alloc(old(alloc)@, PT_BYTES, TABLE_BYTES);
                final(alloc)@ =~~= m2 && match r {
                    Ok(kpt) => ob matches Some(b) && kpt.0.wf() && kpt.0.l2.base == b && kpt.0.perm
                        == ENTRY_PERM_KERN_RW && kern_mapped(kpt.0, end_ram),
                    Err(e) => e == OsError::NoMemory && ob is None,
                }
            }),
    {
        let mut pt = match PageTable::new(ENTRY_PERM_KERN_RW, alloc) {
            Ok(pt) => pt,
            Err(e) => {
                return Err(e);
            },
        };
        let ghost base = pt.l2.base;
        let mut addr: u64 = 0;
        while addr < end_ram
            invariant
                pt.wf(),
                pt.perm == ENTRY_PERM_KERN_RW,
                pt.l2.base == base,
                addr % PAGE_SIZE == 0,
                end_ram % PAGE_SIZE == 0,
                addr <= end_ram <= IO_BASE,
                forall|s: int|
                    0 <= s < addr / PAGE_SIZE ==> #[trigger] pt.entry_at(s) == descriptor(
                        (s * PAGE_SIZE) as u64,
                        KERN_RAM_ATTRS,
                    ),
                forall|s: int|
                    addr / PAGE_SIZE <= s < NUM_SLOTS ==> #[trigger] pt.entry_at(s) == 0,
            decreases IO_BASE - addr,
        {
            proof {
                lemma_attr_consts();
                lemma_descriptor_roundtrip(addr, KERN_RAM_ATTRS);
                assert(slot_of(addr) == addr / PAGE_SIZE);
                crate::util::lemma_aligned_lt_step(addr as int, end_ram as int, PAGE_SIZE as int);
            }
            pt.set_entry(VirtualAddr(addr), addr | KERN_RAM_ATTRS);
            addr = addr + PAGE_SIZE;
            proof {
                crate::util::lemma_div_step(addr as int - PAGE_SIZE, PAGE_SIZE as int);
            }
        }
        let mut dev: u64 = IO_BASE;
        while dev < IO_BASE_END
            invariant
                pt.wf(),
                pt.perm == ENTRY_PERM_KERN_RW,
                pt.l2.base == base,
                dev % PAGE_SIZE == 0,
                IO_BASE <= dev <= IO_BASE_END,
                end_ram % PAGE_SIZE == 0,
                end_ram <= IO_BASE,
                forall|s: int|
                    0 <= s < end_ram / PAGE_SIZE ==> #[trigger] pt.entry_at(s) == descriptor(
                        (s * PAGE_SIZE) as u64,
                        KERN_RAM_ATTRS,
                    ),
                forall|s: int|
                    IO_BASE / PAGE_SIZE <= s < dev / PAGE_SIZE ==> #[trigger] pt.entry_at(s)
                        == descriptor((s * PAGE_SIZE) as u64, KERN_DEV_ATTRS),
                forall|s: int|
                    end_ram / PAGE_SIZE <= s < IO_BASE / PAGE_SIZE ==> #[trigger] pt.entry_at(s)
                        == 0,
                forall|s: int| dev / PAGE_SIZE <= s < NUM_SLOTS ==> #[trigger] pt.entry_at(s) == 0,
            decreases IO_BASE_END - dev,
        {
            proof {
                lemma_attr_consts();
                lemma_descriptor_roundtrip(dev, KERN_DEV_ATTRS);
                assert(slot_of(dev) == dev / PAGE_SIZE);
                crate::util::lemma_aligned_lt_step(dev as int, IO_BASE_END as int, PAGE_SIZE as int);
            }
            pt.set_entry(VirtualAddr(dev), dev | KERN_DEV_ATTRS);
            dev = dev + PAGE_SIZE;
            proof {
                crate::util::lemma_div_step(dev as int - PAGE_SIZE, PAGE_SIZE as int);
            }
        }
        Ok(KernPageTable(pt))
    }

    /// The base address loaded into the kernel translation-table base
    /// register.
    pub fn get_baddr(&self) -> (r: PhysicalAddr)
        ensures
            r.0 == self.0.l2.base,
    {
        self.0.get_baddr()
    }

    /// Whether the page containing `va` is mapped; `va` must lie in the
    /// covered window.
    pub fn is_valid(&self, va: VirtualAddr) -> (r: bool)
        requires
            self.0.wf(),
            va.0 < VM_COVERAGE,
        ensures
            r == self.0.slot_mapped(slot_of(va.0)),
    {
        self.0.is_valid(va)
    }
}

/// A user process's page table: created empty, populated one page at a
/// time by the loader, and exclusively owned by its process.
pub struct UserPageTable(pub PageTable);

impl UserPageTable {
    /// Well-formedness: the underlying table is well-formed with user
    /// permission, and every valid entry carries a non-null page address,
    /// so the backing pages can be returned to the allocator.
    pub open spec fn wf(self) -> bool {
        &&& self.0.wf()
        &&& self.0.perm == ENTRY_PERM_USER_RW
        &&& (forall|s: int|
            0 <= s < NUM_SLOTS && pte_is_valid(#[trigger] self.0.entry_at(s)) ==> pte_addr(
                self.0.entry_at(s),
            ) != 0)
    }

    /// Whether the page containing the user virtual address `va` is
    /// mapped.
    pub open spec fn spec_is_mapped(self, va: u64) -> bool {
        self.0.slot_mapped(user_slot(va))
    }

    /// Builds an empty user table.  Fails exactly when the allocator
    /// cannot serve the table block.
    pub fn new(alloc: &mut Allocator) -> (r: Result<UserPageTable, OsError>)
        requires
            old(alloc)@.wf(),
        ensures
            final(alloc)@.wf(),
            ({
                let (m2, ob) = spec_alloc(old(alloc)@, PT_BYTES, TABLE_BYTES);
                final(alloc)@ =~~= m2 && match r {
                    Ok(upt) => ob matches Some(b) && upt.wf() && upt.0.l2.base == b
                        && upt.0.all_unmapped(),
                    Err(e) => e == OsError::NoMemory && ob is None,
                }
            }),
    {
        match PageTable::new(ENTRY_PERM_USER_RW, alloc) {
            Ok(pt) => {
                proof {
                    lemma_zero_entry();
                }
                Ok(UserPageTable(pt))
            },
            Err(e) => Err(e),
        }
    }

    /// Whether the page containing `va` is mapped; `va` must lie in the
    /// user window.
    pub fn is_mapped(&self, va: VirtualAddr) -> (r: bool)
        requires
            self.wf(),
            in_user_window(va.0),
        ensures
            r == self.spec_is_mapped(va.0),
    {
        self.0.is_valid(VirtualAddr(va.0 - USER_IMG_BASE))
    }

    /// Allocates one physical page and maps the page containing `va` to it
    /// with the requested permission class.  Returns the address of the
    /// backing page, for the caller to populate through the identity map.
    ///
    /// Fails with `InvalidArgument` when `va` lies outside the user
    /// window, with `AlreadyMapped` when the page is mapped already
    /// (remapping would leak the old backing page), and with `NoMemory`
    /// when the allocator is exhausted; the table is unchanged in every
    /// failure case.
    pub fn map_page(&mut self, va: VirtualAddr, perm: PagePerm, alloc: &mut Allocator) -> (r:
        Result<PhysicalAddr, OsError>)
        requires
            old(self).wf(),
            old(alloc)@.wf(),
        ensures
            final(self).wf(),
            final(alloc)@.wf(),
            match r {
                Ok(pa) => {
                    &&& in_user_window(va.0)
                    &&& !old(self).spec_is_mapped(va.0)
                    &&& ({
                        let (m2, ob) = spec_alloc(old(alloc)@, PAGE_SIZE, PAGE_ALIGN);
                        ob == Some(pa.0) && final(alloc)@ =~~= m2
                    })
                    &&& 0 < pa.0 < PHYS_ADDR_END && pa.0 % PAGE_SIZE == 0
                    &&& final(self).0.entry_at(user_slot(va.0)) == descriptor(
                        pa.0,
                        user_attrs(perm_bits(perm)),
                    )
                    &&& final(self).spec_is_mapped(va.0)
                    &&& pte_addr(final(self).0.entry_at(user_slot(va.0))) == pa.0
                    &&& forall|s: int|
                        0 <= s < NUM_SLOTS && s != user_slot(va.0)
                            ==> #[trigger] final(self).0.entry_at(s) == old(self).0.entry_at(s)
                    &&& final(self).0.l2 == old(self).0.l2
                },
                Err(OsError::InvalidArgument) => !in_user_window(va.0) && *final(self) == *old(self)
                    && *final(alloc) == *old(alloc),
                Err(OsError::AlreadyMapped) => in_user_window(va.0) && old(self).spec_is_mapped(
                    va.0,
                ) && *final(self) == *old(self) && *final(alloc) == *old(alloc),
                Err(OsError::NoMemory) => in_user_window(va.0) && !old(self).spec_is_mapped(va.0)
                    && spec_alloc(old(alloc)@, PAGE_SIZE, PAGE_ALIGN).1 is None && *final(self)
                    == *old(self) && final(alloc)@ =~~= old(alloc)@,
                Err(_) => false,
            },
    {
        if va.0 < USER_IMG_BASE || va.0 >= USER_IMG_BASE + USER_MAX_VM_SIZE {
            return Err(OsError::InvalidArgument);
        }
        let off = va.0 - USER_IMG_BASE;
        if self.0.is_valid(VirtualAddr(off)) {
            return Err(OsError::AlreadyMapped);
        }
        let pa = match alloc.allocate(PAGE_SIZE, PAGE_ALIGN) {
            Some(p) => p,
            None => {
                proof {
                    vstd::arithmetic::power2::lemma2_to64();
                    crate::util::lemma_pow2_is_pow2(12);
                }
                return Err(OsError::NoMemory);
            },
        };
        proof {
            vstd::arithmetic::power2::lemma2_to64();
            crate::util::lemma_pow2_is_pow2(12);
        }
        let attrs: u64 = match perm {
            PagePerm::RO => 0x7c3,
            _ => 0x743,
        };
        proof {
            lemma_attr_consts();
            assert(attrs == user_attrs(perm_bits(perm)));
            lemma_descriptor_roundtrip(pa, attrs);
        }
        self.0.set_entry(VirtualAddr(off), pa | attrs);
        Ok(PhysicalAddr(pa))
    }

    /// The base address loaded into the user translation-table base
    /// register of the owning process.
    pub fn get_baddr(&self) -> (r: PhysicalAddr)
        ensures
            r.0 == self.0.l2.base,
    {
        self.0.get_baddr()
    }
}

/// Law: page-table mapping is exact and isolated.  In a fresh table no
/// user address is mapped; a step that validates one page slot and
/// leaves every other slot unchanged (what `map_page` does) makes
/// exactly the addresses of that page mapped, and no step changes
/// whether any other address is mapped.
pub proof fn lemma_map_page_isolation(pre: UserPageTable, post: UserPageTable, va: u64)
    requires
        in_user_window(va),
        pte_is_valid(post.0.entry_at(user_slot(va))),
        forall|s: int|
            0 <= s < NUM_SLOTS && s != user_slot(va) ==> #[trigger] post.0.entry_at(s)
                == pre.0.entry_at(s),
    ensures
        post.spec_is_mapped(va),
        forall|va2: u64|
            in_user_window(va2) && user_slot(va2) != user_slot(va)
                ==> #[trigger] post.spec_is_mapped(va2) == pre.spec_is_mapped(va2),
        pre.0.all_unmapped() ==> (forall|va2: u64|
            in_user_window(va2) && user_slot(va2) != user_slot(va) ==> !(
            #[trigger] post.spec_is_mapped(va2))),
{
    lemma_zero_entry();
    assert forall|va2: u64| in_user_window(va2) && user_slot(va2) != user_slot(va) implies (
    #[trigger] post.spec_is_mapped(va2)) == pre.spec_is_mapped(va2) by {
        lemma_locate((va2 - USER_IMG_BASE) as u64);
        assert(post.0.entry_at(user_slot(va2)) == pre.0.entry_at(user_slot(va2)));
    }
}

/// Law: before any page is mapped, no user address is mapped.
pub proof fn lemma_fresh_table_unmapped(upt: UserPageTable)
    requires
        upt.0.all_unmapped(),
    ensures
        forall|va: u64| in_user_window(va) ==> !(#[trigger] upt.spec_is_mapped(va)),
{
    lemma_zero_entry();
    assert forall|va: u64| in_user_window(va) implies !(#[trigger] upt.spec_is_mapped(va)) by {
        lemma_locate((va - USER_IMG_BASE) as u64);
        assert(upt.0.entry_at(user_slot(va)) == 0);
    }
}

/// The allocator state after returning the pages of `pages` to it, in
/// order.
pub open spec fn spec_dealloc_pages(m: AllocModel, pages: Seq<u64>) -> AllocModel
    decreases pages.len(),
{
    if pages.len() == 0 {
        m
    } else {
        crate::allocator::spec_dealloc(spec_dealloc_pages(m, pages.drop_last()), pages.last(), PAGE_SIZE)
    }
}

/// The allocator state after releasing a whole user table: first each
/// mapped page in slot order, then the table block itself.
pub open spec fn spec_release_table(m: AllocModel, pt: PageTable) -> AllocModel {
    crate::allocator::spec_dealloc(spec_dealloc_pages(m, pt.mapped_pages()), pt.l2.base, PT_BYTES)
}

impl UserPageTable {
    /// Returns every backing page of a valid entry, and then the table
    /// block itself, to the allocator.  Consumes the table.
    pub fn release(self, alloc: &mut Allocator)
        requires
            self.wf(),
            old(alloc)@.wf(),
        ensures
            final(alloc)@.wf(),
            final(alloc)@ =~~= spec_release_table(old(alloc)@, self.0),
    {
        let ghost pt = self.0;
        let mut s: usize = 0;
        while s < NUM_SLOTS as usize
            invariant
                self.wf(),
                self.0 == pt,
                alloc@.wf(),
                s <= NUM_SLOTS,
                alloc@ =~~= spec_dealloc_pages(old(alloc)@, pt.mapped_pages_prefix(s as int)),
            decreases NUM_SLOTS as usize - s,
        {
            let l2i = s / TABLE_ENTRIES;
            let l3i = s % TABLE_ENTRIES;
            proof {
                assert(l2i < NUM_L3_TABLES && l3i < TABLE_ENTRIES);
            }
            let e = self.0.l3[l2i].entries[l3i];
            proof {
                assert(pt.entry_at(s as int) == e.0);
            }
            let ghost pre = alloc@;
            if e.is_valid() {
                proof {
                    lemma_pte_addr_in_range(e.0);
                    assert(pte_addr(e.0) != 0);
                }
                alloc.deallocate(e.0 & ADDR_MASK, PAGE_SIZE);
            }
            s = s + 1;
            proof {
                let n = s as int;
                if pte_is_valid(pt.entry_at(n - 1)) {
                    let pages = pt.mapped_pages_prefix(n);
                    assert(pages == pt.mapped_pages_prefix(n - 1).push(pte_addr(pt.entry_at(n - 1))));
                    assert(pages.drop_last() =~= pt.mapped_pages_prefix(n - 1));
                    assert(pages.last() == pte_addr(pt.entry_at(n - 1)));
                    assert(alloc@ =~~= crate::allocator::spec_dealloc(pre, pages.last(), PAGE_SIZE));
                    assert(spec_dealloc_pages(old(alloc)@, pages) =~~= crate::allocator::spec_dealloc(
                        spec_dealloc_pages(old(alloc)@, pages.drop_last()),
                        pages.last(),
                        PAGE_SIZE,
                    ));
                } else {
                    assert(pt.mapped_pages_prefix(n) == pt.mapped_pages_prefix(n - 1));
                }
            }
        }
        alloc.deallocate(self.0.l2.base, PT_BYTES);
    }
}

} // verus!
