//! Boot-time memory bookkeeping on the primary core: checking the memory
//! map the bootloader handed over, allocating page table frames straight
//! out of it, computing the linear map, and handing the remaining usable
//! memory to the page frame allocator.
use vstd::prelude::*;

use crate::paging::{has_bits, PageTableEntry, PagingLevel, ADDRESS_MASK, NON_ADDRESS_MASK};
use crate::phys::{table_index, PageFrameAllocator};
use crate::segment::{sign_extend_48, sign_extend_57, sign_extend_l4, sign_extend_l5};

verus! {

/// The physical address width of the architecture: no physical address
/// reaches `1 << 52`.
pub const PHYS_LIMIT: u64 = 0x0010_0000_0000_0000;

/// The type of a memory map region.
#[derive(Debug, Clone, Copy, PartialEq, Eq, Structural)]
pub enum MemoryMapEntryType {
    /// Not known to be usable.
    Unknown,
    /// Usable memory (minus the entry's `used` bytes).
    Usable,
}

/// A region of the memory map handed over by the bootloader.
#[derive(Debug, Clone, Copy, PartialEq, Eq, Structural)]
pub struct MemoryMapEntry {
    /// The base physical address of the region.
    pub base: u64,
    /// The length of the region in bytes.
    pub length: u64,
    /// The type of the region.
    pub ty: MemoryMapEntryType,
    /// How many bytes at the start of the region the bootloader used.
    pub used: u64,
    /// The physical address of the next entry (0 for the last).
    pub next: u64,
}

impl Default for MemoryMapEntry {
    fn default() -> (r: Self)
        ensures
            r == (MemoryMapEntry { base: 0, length: 0, ty: MemoryMapEntryType::Unknown, used: 0, next: 0 }),
    {
        MemoryMapEntry { base: 0, length: 0, ty: MemoryMapEntryType::Unknown, used: 0, next: 0 }
    }
}

/// A memory map entry describes physical memory: it ends below
/// [`PHYS_LIMIT`] and uses no more than its length.
pub open spec fn entry_wf(e: MemoryMapEntry) -> bool {
    e.base + e.length <= PHYS_LIMIT && e.used <= e.length
}

/// Every entry of `entries` is well formed.
pub open spec fn entries_wf(entries: Seq<MemoryMapEntry>) -> bool {
    forall|i: int| 0 <= i < entries.len() ==> entry_wf(#[trigger] entries[i])
}

/// A region that starts below 1 MiB marks as used at least the bytes it
/// has below 1 MiB.
pub open spec fn low_memory_ok(e: MemoryMapEntry) -> bool {
    e.base < 0x100000 ==> e.used >= (if e.base + e.length < 0x100000 {
        e.base + e.length
    } else {
        0x100000
    }) - e.base
}

/// The region starts below 1 MiB and covers the page at `page`.
pub open spec fn covers_low_page(e: MemoryMapEntry, page: u64) -> bool {
    e.base < 0x100000 && e.base <= page && e.base + e.length >= page + 0x1000
}

/// The index of the first region in `entries` from `i` on that breaks
/// [`low_memory_ok`], if any.
pub open spec fn first_low_memory_violation(entries: Seq<MemoryMapEntry>, i: int) -> Option<int>
    decreases entries.len() - i,
{
    if i >= entries.len() || i < 0 {
        None
    } else if !low_memory_ok(entries[i]) {
        Some(i)
    } else {
        first_low_memory_violation(entries, i + 1)
    }
}

pub(crate) proof fn lemma_first_violation(entries: Seq<MemoryMapEntry>, i: int)
    requires
        0 <= i <= entries.len(),
    ensures
        first_low_memory_violation(entries, i) is None <==> forall|j: int|
            i <= j < entries.len() ==> low_memory_ok(#[trigger] entries[j]),
        first_low_memory_violation(entries, i) matches Some(k) ==> i <= k < entries.len()
            && !low_memory_ok(entries[k]) && forall|j: int|
            i <= j < k ==> low_memory_ok(#[trigger] entries[j]),
    decreases entries.len() - i,
{
    if i < entries.len() {
        lemma_first_violation(entries, i + 1);
    }
}

/// Checks the first 1 MiB of the memory map: every region reaching into it
/// must mark those bytes as used. Returns the index of the first region
/// that does not, or whether the pages at `0x8000` and `0x9000` (which the
/// secondary cores boot from) are both covered by regions below 1 MiB.
pub fn check_low_memory(entries: &Vec<MemoryMapEntry>) -> (r: Result<bool, usize>)
    requires
        entries_wf(entries@),
    ensures
        match first_low_memory_violation(entries@, 0) {
            Some(k) => r == Err::<bool, usize>(k as usize),
            None => r == Ok::<bool, usize>(
                (exists|i: int| 0 <= i < entries@.len() && covers_low_page(#[trigger] entries@[i], 0x8000))
                    && (exists|i: int| 0 <= i < entries@.len() && covers_low_page(#[trigger] entries@[i], 0x9000)),
            ),
        },
{
    proof {
        lemma_first_violation(entries@, 0);
    }
    let mut has_cs8 = false;
    let mut has_cs9 = false;
    let mut i: usize = 0;
    while i < entries.len()
        invariant
            i <= entries@.len(),
            entries_wf(entries@),
            forall|j: int| 0 <= j < i ==> low_memory_ok(#[trigger] entries@[j]),
            has_cs8 == exists|j: int| 0 <= j < i && covers_low_page(#[trigger] entries@[j], 0x8000),
            has_cs9 == exists|j: int| 0 <= j < i && covers_low_page(#[trigger] entries@[j], 0x9000),
        decreases entries@.len() - i,
    {
        let region = entries[i];
        proof {
            assert(entry_wf(entries@[i as int]));
        }
        if region.base < 0x100000 {
            let end = region.base + region.length;
            let end_1mib = if end < 0x100000 {
                end
            } else {
                0x100000
            };
            let min_used = end_1mib - region.base;
            if region.used < min_used {
                proof {
                    lemma_first_violation(entries@, 0);
                    assert(!low_memory_ok(entries@[i as int]));
                    let k = first_low_memory_violation(entries@, 0)->0;
                    assert(first_low_memory_violation(entries@, 0) is Some);
                    if k < i {
                        assert(low_memory_ok(entries@[k]));
                    }
                    assert(k == i);
                }
                return Err(i);
            }
            if region.base <= 0x8000 && end >= 0x9000 {
                has_cs8 = true;
            }
            if region.base <= 0x9000 && end >= 0xA000 {
                has_cs9 = true;
            }
        }
        proof {
            assert(covers_low_page(entries@[i as int], 0x8000) == (region.base < 0x100000 && region.base <= 0x8000
                && region.base + region.length >= 0x9000));
        }
        i = i + 1;
    }
    Ok(has_cs8 && has_cs9)
}

/// An entry whose `used` bytes are given up and whose base is moved up to
/// a page boundary, as [`MemoryMapPfa`] takes it in.
pub open spec fn adjust_entry(e: MemoryMapEntry) -> MemoryMapEntry {
    let e1 = if e.used > 0 {
        MemoryMapEntry { used: 0, base: (e.base + e.used) as u64, length: (e.length - e.used) as u64, ..e }
    } else {
        e
    };
    if e1.base % 4096 != 0 {
        let align = (4096 - e1.base % 4096) as u64;
        MemoryMapEntry {
            base: (e1.base + align) as u64,
            length: if e1.length >= align {
                (e1.length - align) as u64
            } else {
                0u64
            },
            ..e1
        }
    } else {
        e1
    }
}

/// Whether [`MemoryMapPfa`] can take a page from the start of `e`.
pub open spec fn pfa_can_take(e: MemoryMapEntry) -> bool {
    e.length >= 4096 && e.ty == MemoryMapEntryType::Usable
}

/// What the next allocation of a [`MemoryMapPfa`] at entry index `i` with
/// current entry `cur` yields: the frame, the new index and the new current
/// entry.
pub open spec fn pfa_next(entries: Seq<MemoryMapEntry>, i: int, cur: MemoryMapEntry) -> (
    Option<u64>,
    int,
    MemoryMapEntry,
)
    decreases entries.len() - i,
{
    if pfa_can_take(cur) {
        (
            Some(cur.base),
            i,
            MemoryMapEntry { base: (cur.base + 4096) as u64, length: (cur.length - 4096) as u64, ..cur },
        )
    } else if i >= entries.len() || i < 0 {
        (None, i, cur)
    } else {
        pfa_next(entries, i + 1, adjust_entry(entries[i]))
    }
}

proof fn lemma_adjust_wf(e: MemoryMapEntry)
    requires
        entry_wf(e),
    ensures
        entry_wf(adjust_entry(e)),
        adjust_entry(e).used == 0,
        adjust_entry(e).length > 0 ==> adjust_entry(e).base % 4096 == 0,
{
}

/// A page frame allocator that takes frames straight out of the usable
/// regions of the memory map, skipping the bytes the bootloader used.
#[derive(Debug)]
pub struct MemoryMapPfa {
    entries: Vec<MemoryMapEntry>,
    index: usize,
    current_entry: MemoryMapEntry,
}

impl MemoryMapPfa {
    /// The memory map.
    pub closed spec fn spec_entries(&self) -> Seq<MemoryMapEntry> {
        self.entries@
    }

    /// The index of the next entry to take in.
    pub closed spec fn spec_index(&self) -> int {
        self.index as int
    }

    /// The entry frames are taken from.
    pub closed spec fn spec_current(&self) -> MemoryMapEntry {
        self.current_entry
    }

    /// The allocator's invariant.
    pub closed spec fn wf(&self) -> bool {
        &&& entries_wf(self.entries@)
        &&& self.index <= self.entries@.len()
        &&& entry_wf(self.current_entry)
        &&& self.current_entry.used == 0
        &&& self.current_entry.length > 0 ==> self.current_entry.base % 4096 == 0
    }

    /// The index of the next entry lies within the memory map.
    pub proof fn lemma_index_bound(&self)
        requires
            self.wf(),
        ensures
            0 <= self.spec_index() <= self.spec_entries().len(),
            entries_wf(self.spec_entries()),
    {
    }

    /// An allocator over the memory map `entries`.
    pub fn new(entries: Vec<MemoryMapEntry>) -> (r: Self)
        requires
            entries_wf(entries@),
        ensures
            r.wf(),
            r.spec_entries() == entries@,
            r.spec_index() == 0,
            r.spec_current() == MemoryMapEntry::default_spec(),
    {
        MemoryMapPfa { entries, index: 0, current_entry: MemoryMapEntry::default() }
    }

    /// Allocates the next frame: the first page-aligned page of a usable
    /// region past what the bootloader used and what was handed out before.
    pub fn next(&mut self) -> (r: Option<u64>)
        requires
            old(self).wf(),
        ensures
            final(self).wf(),
            final(self).spec_entries() == old(self).spec_entries(),
            (r, final(self).spec_index(), final(self).spec_current()) == pfa_next(
                old(self).spec_entries(),
                old(self).spec_index(),
                old(self).spec_current(),
            ),
            r matches Some(p) ==> p % 4096 == 0 && p + 4096 <= PHYS_LIMIT,
    {
        while !(self.current_entry.length >= 4096 && self.current_entry.ty == MemoryMapEntryType::Usable)
            invariant
                self.wf(),
                self.entries@ == old(self).entries@,
                pfa_next(self.entries@, self.index as int, self.current_entry) == pfa_next(
                    old(self).entries@,
                    old(self).index as int,
                    old(self).current_entry,
                ),
            decreases self.entries@.len() - self.index, if pfa_can_take(self.current_entry) { 0int } else { 1int },
        {
            if self.index >= self.entries.len() {
                return None;
            }
            let mut entry = self.entries[self.index];
            proof {
                assert(entry_wf(self.entries@[self.index as int]));
            }
            if entry.used > 0 {
                let used = entry.used;
                entry.used = 0;
                entry.base = entry.base + used;
                entry.length = entry.length - used;
            }
            if entry.base % 4096 != 0 {
                let align = 4096 - entry.base % 4096;
                entry.base = entry.base + align;
                entry.length = if entry.length >= align {
                    entry.length - align
                } else {
                    0
                };
            }
            proof {
                lemma_adjust_wf(self.entries@[self.index as int]);
                assert(entry == adjust_entry(self.entries@[self.index as int]));
            }
            self.current_entry = entry;
            self.index = self.index + 1;
        }
        let result = self.current_entry.base;
        proof {
            assert(result % 4096 == 0);
            assert((result + 4096) % 4096 == 0) by (nonlinear_arith)
                requires
                    result % 4096 == 0,
            ;
        }
        self.current_entry.base = self.current_entry.base + 4096;
        self.current_entry.length = self.current_entry.length - 4096;
        Some(result)
    }

    /// Consumes the allocator, returning the entry frames were being taken
    /// from and the entries it has not taken in yet.
    pub fn into_inner(self) -> (r: (MemoryMapEntry, Vec<MemoryMapEntry>))
        requires
            self.wf(),
        ensures
            r.0 == self.spec_current(),
            r.1@ == self.spec_entries().subrange(self.spec_index(), self.spec_entries().len() as int),
    {
        let mut rest: Vec<MemoryMapEntry> = Vec::new();
        let mut i = self.index;
        while i < self.entries.len()
            invariant
                self.index <= i <= self.entries@.len(),
                rest@ == self.entries@.subrange(self.index as int, i as int),
            decreases self.entries@.len() - i,
        {
            rest.push(self.entries[i]);
            i = i + 1;
        }
        (self.current_entry, rest)
    }
}

impl MemoryMapEntry {
    /// The value [`Default::default`] gives.
    pub open spec fn default_spec() -> MemoryMapEntry {
        MemoryMapEntry { base: 0, length: 0, ty: MemoryMapEntryType::Unknown, used: 0, next: 0 }
    }
}

/// `x` rounded up to a multiple of `align`.
pub open spec fn align_up(x: int, align: int) -> int {
    if x % align == 0 {
        x
    } else {
        x + (align - x % align)
    }
}

/// The pages of a usable region, past the bytes the bootloader used, that
/// go to the page frame allocator once the linear map is in place. Other
/// regions give none.
pub open spec fn region_free_pages(e: MemoryMapEntry) -> Seq<u64> {
    if e.ty != MemoryMapEntryType::Usable {
        Seq::empty()
    } else {
        let base = e.base + e.used;
        let length = e.length - e.used;
        let aligned = align_up(base, 4096);
        let rest = if length >= aligned - base {
            length - (aligned - base)
        } else {
            0
        };
        Seq::new(((rest + 4095) / 4096) as nat, |k: int| (aligned + 4096 * k) as u64)
    }
}

/// The pages that [`free_regions`] hands to the allocator for `entries`,
/// in order.
pub open spec fn free_pages(entries: Seq<MemoryMapEntry>) -> Seq<u64>
    decreases entries.len(),
{
    if entries.len() == 0 {
        Seq::empty()
    } else {
        free_pages(entries.drop_last()) + region_free_pages(entries.last())
    }
}

/// Frees the usable pages of `region` (past its used bytes, from the first
/// page boundary) into `pfa`.
fn free_region(region: MemoryMapEntry, pfa: &mut PageFrameAllocator)
    requires
        entry_wf(region),
    ensures
        final(pfa)@ == old(pfa)@ + region_free_pages(region),
{
    if region.ty != MemoryMapEntryType::Usable {
        assert(old(pfa)@ + region_free_pages(region) =~= old(pfa)@);
        return;
    }
    let base = region.base + region.used;
    let length = region.length - region.used;
    let aligned_base = if base % 4096 == 0 {
        base
    } else {
        base + (4096 - base % 4096)
    };
    let length = if length >= aligned_base - base {
        length - (aligned_base - base)
    } else {
        0
    };
    let ghost pages = region_free_pages(region);
    assert(pages.len() == (length + 4095) / 4096);
    let mut page = aligned_base;
    let mut k: u64 = 0;
    while page < aligned_base + length
        invariant
            aligned_base + length <= PHYS_LIMIT + 4096,
            pages == region_free_pages(region),
            pages.len() == (length + 4095) / 4096,
            forall|j: int| 0 <= j < pages.len() ==> pages[j] == aligned_base + 4096 * j,
            page == aligned_base + 4096 * k,
            k <= pages.len(),
            k < pages.len() <==> page < aligned_base + length,
            pfa@ == old(pfa)@ + pages.subrange(0, k as int),
        decreases pages.len() - k,
    {
        pfa.free(page);
        proof {
            assert(pages.subrange(0, k + 1) == pages.subrange(0, k as int).push(pages[k as int]));
        }
        page = page + 4096;
        k = k + 1;
    }
    assert(pages.subrange(0, k as int) == pages);
}

/// Frees the usable memory that remains once the linear map is in place:
/// the pages of `current` (the region frames were last taken from) and of
/// the regions after it, in that order.
pub fn free_regions(current: MemoryMapEntry, rest: &Vec<MemoryMapEntry>, pfa: &mut PageFrameAllocator)
    requires
        entry_wf(current),
        entries_wf(rest@),
    ensures
        final(pfa)@ == old(pfa)@ + free_pages(seq![current] + rest@),
{
    free_region(current, pfa);
    let ghost all = seq![current] + rest@;
    proof {
        assert(all.subrange(0, 1).drop_last() =~= Seq::<MemoryMapEntry>::empty());
        assert(free_pages(all.subrange(0, 1)) == free_pages(Seq::<MemoryMapEntry>::empty()) + region_free_pages(current));
        assert(free_pages(Seq::<MemoryMapEntry>::empty()) =~= Seq::<u64>::empty());
        assert(free_pages(all.subrange(0, 1)) =~= region_free_pages(current));
    }
    let mut i: usize = 0;
    while i < rest.len()
        invariant
            i <= rest@.len(),
            entries_wf(rest@),
            all == seq![current] + rest@,
            pfa@ == old(pfa)@ + free_pages(all.subrange(0, i + 1)),
        decreases rest@.len() - i,
    {
        let ghost before = pfa@;
        free_region(rest[i], pfa);
        proof {
            assert(all.subrange(0, i + 2).drop_last() =~= all.subrange(0, i + 1));
            assert(all.subrange(0, i + 2).last() == rest@[i as int]);
        }
        i = i + 1;
    }
    assert(all.subrange(0, rest@.len() as int + 1) =~= all);
}

/// The offset of the linear map: what added to a physical address gives
/// the virtual address at which the linear map shows it. Every region is
/// placed at its physical address plus the linear map segment's base (see
/// [`linear_region_spec`]), so the offset is that base, and an offset
/// translator built from it finds every mapped byte.
pub fn linear_map_offset(linear_map_base: u64) -> (r: u64)
    ensures
        r == linear_map_base,
        forall|e: MemoryMapEntry, last: u64|
            #[trigger] linear_region_spec(e, linear_map_base, last) matches Some((v, p, _)) ==> v == p + r,
{
    linear_map_base
}

/// What the linear map does at one level of the walk for a 2 MiB page,
/// given the entry found there.
#[derive(Debug, Clone, Copy)]
pub enum LinearMapStep {
    /// The entry is present: a table already leads on (or, at the level of
    /// 2 MiB pages, overlapping regions mapped this page already).
    Skip,
    /// Write this 2 MiB page entry.
    WriteHuge(PageTableEntry),
    /// Take a frame, zero it and link it with [`linear_table_entry`].
    AllocateTable,
}

/// The decision the linear map takes at `level` (2 being the level of
/// 2 MiB pages) of the walk for the page at physical address `base_phys`,
/// given the entry found there: nothing where it is present, else a 2 MiB
/// page entry at level 2 and a new table above.
pub fn linear_map_step(level: u64, entry: PageTableEntry, base_phys: u64) -> (r: LinearMapStep)
    requires
        2 <= level <= 5,
    ensures
        has_bits(entry@, 0x1u64) ==> r is Skip,
        !has_bits(entry@, 0x1u64) && level == 2 ==> (r matches LinearMapStep::WriteHuge(e) && e@ == (
        0x8000_0000_0000_0183u64 & NON_ADDRESS_MASK) | (base_phys & ADDRESS_MASK)),
        !has_bits(entry@, 0x1u64) && level > 2 ==> r is AllocateTable,
{
    if entry.present() {
        LinearMapStep::Skip
    } else if level == 2 {
        LinearMapStep::WriteHuge(linear_huge_entry(base_phys))
    } else {
        LinearMapStep::AllocateTable
    }
}

/// Where the linear map puts region `e`: the virtual base, the physical
/// base and the length, all moved out to 2 MiB boundaries; `None` where the
/// region would fall outside the linear map segment `[base, last]`.
pub open spec fn linear_region_spec(e: MemoryMapEntry, base: u64, last: u64) -> Option<(u64, u64, u64)> {
    let aligned = e.base - e.base % 0x20_0000;
    let length = align_up(e.length + (e.base - aligned), 0x20_0000);
    if aligned + base > u64::MAX {
        None
    } else if aligned + base + length > last {
        None
    } else {
        Some(((aligned + base) as u64, aligned as u64, length as u64))
    }
}

/// Where the linear map puts region `region`, for the linear map segment
/// `[linear_map_base, linear_map_last]`: the virtual base, the physical
/// base and the length, moved out to 2 MiB boundaries. `None` where the
/// region falls outside the segment and is skipped.
pub fn linear_region(region: MemoryMapEntry, linear_map_base: u64, linear_map_last: u64) -> (r: Option<
    (u64, u64, u64),
>)
    requires
        entry_wf(region),
    ensures
        r == linear_region_spec(region, linear_map_base, linear_map_last),
{
    let aligned = region.base - region.base % 0x20_0000;
    let alignment_offset = region.base - aligned;
    let length = region.length + alignment_offset;
    let length = if length % 0x20_0000 == 0 {
        length
    } else {
        length + (0x20_0000 - length % 0x20_0000)
    };
    let base_virt = aligned.wrapping_add(linear_map_base);
    if base_virt < linear_map_base {
        return None;
    }
    if base_virt > linear_map_last || length > linear_map_last - base_virt {
        return None;
    }
    Some((base_virt, aligned, length))
}

/// The root table index the on-the-fly mapper uses for its window.
pub const OTF_IDX: u64 = 254;

proof fn lemma_recursive_window_values()
    by (bit_vector)
    ensures
        (256u64 << 39u64) | (256u64 << 30u64) | (256u64 << 21u64) | (256u64 << 12u64) < 0x1_0000_0000_0000u64,
        (256u64 << 48u64) | (256u64 << 39u64) | (256u64 << 30u64) | (256u64 << 21u64) | (256u64 << 12u64)
            < 0x200_0000_0000_0000u64,
        sign_extend_48((256u64 << 39u64) | (256u64 << 30u64) | (256u64 << 21u64) | (256u64 << 12u64))
            == 0xFFFF_8040_2010_0000u64,
        sign_extend_57(
            (256u64 << 48u64) | (256u64 << 39u64) | (256u64 << 30u64) | (256u64 << 21u64) | (256u64
                << 12u64),
        ) == 0xFF00_8040_2010_0000u64,
        sign_extend_48((256u64 << 39u64) | (256u64 << 30u64) | (256u64 << 21u64) | (254u64 << 12u64))
            == 0xFFFF_8040_200F_E000u64,
        sign_extend_57(
            (256u64 << 48u64) | (256u64 << 39u64) | (256u64 << 30u64) | (256u64 << 21u64) | (254u64
                << 12u64),
        ) == 0xFF00_8040_200F_E000u64,
        sign_extend_48((((256u64 << 39u64) | (256u64 << 30u64) | (256u64 << 21u64) | (256u64 << 12u64))
            + 254u64 * 8) as u64) == 0xFFFF_8040_2010_07F0u64,
        sign_extend_57(
            (((256u64 << 48u64) | (256u64 << 39u64) | (256u64 << 30u64) | (256u64 << 21u64) | (256u64
                << 12u64)) + 254u64 * 8) as u64,
        ) == 0xFF00_8040_2010_07F0u64,
{
}

/// The virtual address at which the root table shows through the recursive
/// slot at every level.
pub fn recursive_root_address(paging_level: PagingLevel) -> (r: u64)
    ensures
        paging_level == PagingLevel::Level4 ==> r == 0xFFFF_8040_2010_0000u64,
        paging_level == PagingLevel::Level5 ==> r == 0xFF00_8040_2010_0000u64,
{
    proof {
        lemma_recursive_window_values();
    }
    match paging_level {
        PagingLevel::Level4 => sign_extend_l4((256u64 << 39u64) | (256u64 << 30u64) | (256u64 << 21u64) | (256u64
            << 12u64)),
        PagingLevel::Level5 => sign_extend_l5(
            (256u64 << 48u64) | (256u64 << 39u64) | (256u64 << 30u64) | (256u64 << 21u64) | (256u64 << 12u64),
        ),
    }
}

/// Reads physical memory through a one-page window: the root table's entry
/// [`OTF_IDX`], reached as a leaf entry through the recursive slot, maps
/// the page to read.
#[derive(Debug, Clone, Copy)]
pub struct OnTheFlyMapper {
    /// The virtual address of the window.
    pub base_virt: u64,
    /// The virtual address of the entry that maps the window.
    pub l1_page_table_entry: u64,
}

impl OnTheFlyMapper {
    /// The window of the on-the-fly mapper for the given paging level.
    pub fn new(paging_level: PagingLevel) -> (r: Self)
        ensures
            paging_level == PagingLevel::Level4 ==> r.base_virt == 0xFFFF_8040_200F_E000u64
                && r.l1_page_table_entry == 0xFFFF_8040_2010_07F0u64,
            paging_level == PagingLevel::Level5 ==> r.base_virt == 0xFF00_8040_200F_E000u64
                && r.l1_page_table_entry == 0xFF00_8040_2010_07F0u64,
    {
        proof {
            lemma_recursive_window_values();
        }
        match paging_level {
            PagingLevel::Level4 => OnTheFlyMapper {
                base_virt: sign_extend_l4(
                    (256u64 << 39u64) | (256u64 << 30u64) | (256u64 << 21u64) | (OTF_IDX << 12u64),
                ),
                l1_page_table_entry: sign_extend_l4(
                    ((256u64 << 39u64) | (256u64 << 30u64) | (256u64 << 21u64) | (256u64 << 12u64)) + OTF_IDX * 8,
                ),
            },
            PagingLevel::Level5 => OnTheFlyMapper {
                base_virt: sign_extend_l5(
                    (256u64 << 48u64) | (256u64 << 39u64) | (256u64 << 30u64) | (256u64 << 21u64) | (OTF_IDX
                        << 12u64),
                ),
                l1_page_table_entry: sign_extend_l5(
                    ((256u64 << 48u64) | (256u64 << 39u64) | (256u64 << 30u64) | (256u64 << 21u64) | (256u64
                        << 12u64)) + OTF_IDX * 8,
                ),
            },
        }
    }

    /// The entry that maps the physical page `phys` into the window:
    /// present, writable, write-through and non-executable.
    pub fn window_entry(&self, phys: u64) -> (r: PageTableEntry)
        ensures
            r@ == (0x8000_0000_0000_000Bu64 & NON_ADDRESS_MASK) | (phys & ADDRESS_MASK),
    {
        proof {
            lemma_window_flags();
        }
        PageTableEntry::new().with_present().with_writable().with_write_through().with_no_exec().with_address(phys)
    }
}

proof fn lemma_window_flags()
    by (bit_vector)
    ensures
        (((0u64 | 0x1u64) | 0x2u64) | 0x8u64) | 0x8000000000000000u64 == 0x8000_0000_0000_000Bu64,
{
}

/// How reading `size` bytes at physical address `addr` goes through the
/// one-page window: the page to map first, the offset in it, the bytes read
/// from it, and the bytes read from the start of the following page.
pub fn read_phys_split(addr: u64, size: u64) -> (r: (u64, u64, u64, u64))
    requires
        size <= 4096,
    ensures
        r.0 == addr - addr % 4096,
        r.1 == addr % 4096,
        r.2 == (if addr % 4096 + size < 4096 {
            addr % 4096 + size
        } else {
            4096
        }) - addr % 4096,
        r.3 == (if addr % 4096 + size > 4096 {
            addr % 4096 + size - 4096
        } else {
            0
        }),
        r.2 + r.3 == size,
{
    let offset = addr % 4096;
    let phys_base = addr - offset;
    let end_offset = offset + size;
    let this_page_end = if end_offset < 4096 {
        end_offset
    } else {
        4096
    };
    let first = this_page_end - offset;
    let second = if end_offset > 4096 {
        end_offset - 4096
    } else {
        0
    };
    (phys_base, offset, first, second)
}

/// The `size` bytes at `offset` of a page followed by the next page, read
/// from the two pages' bytes: those of the first page from `offset` on,
/// then those of the second from its start.
pub fn read_phys_bytes(first: &Vec<u8>, second: &Vec<u8>, offset: u64, size: u64) -> (r: Vec<u8>)
    requires
        first@.len() == 4096,
        second@.len() == 4096,
        offset < 4096,
        size <= 4096,
    ensures
        r@.len() == size,
        forall|i: int|
            0 <= i < size ==> #[trigger] r@[i] == if offset + i < 4096 {
                first@[offset + i]
            } else {
                second@[offset + i - 4096]
            },
{
    let mut out: Vec<u8> = Vec::new();
    let mut i: u64 = 0;
    while i < size
        invariant
            i <= size <= 4096,
            offset < 4096,
            first@.len() == 4096,
            second@.len() == 4096,
            out@.len() == i,
            forall|j: int|
                0 <= j < i ==> #[trigger] out@[j] == if offset + j < 4096 {
                    first@[offset + j]
                } else {
                    second@[offset + j - 4096]
                },
        decreases size - i,
    {
        let at = offset + i;
        if at < 4096 {
            out.push(first[at as usize]);
        } else {
            out.push(second[(at - 4096) as usize]);
        }
        i = i + 1;
    }
    out
}

/// Whether the root table `root` (its 512 raw entries), which sits at
/// `cr3`, holds the recursive mapping: its entry 256 is present and
/// references the table itself.
pub fn recursive_entry_mapped(root: &Vec<u64>, cr3: u64) -> (r: bool)
    requires
        root@.len() == 512,
    ensures
        r == (root@[256] & 0x1u64 != 0 && root@[256] & ADDRESS_MASK == cr3),
{
    let e = PageTableEntry::from(root[256]);
    proof {
        crate::paging::lemma_entry_from_bits(root@[256]);
    }
    e.present() && e.address() == cr3
}

/// Tears down the bootloader's lower half and the recursive mapping once
/// the linear map is in place: entries 0 to 256 of the root table `root`
/// (its 512 raw entries) are reset.
pub fn unmap_lower_half_and_recursive(root: &mut Vec<u64>)
    requires
        old(root)@.len() == 512,
    ensures
        final(root)@.len() == 512,
        forall|i: int| 0 <= i <= 256 ==> final(root)@[i] == 0,
        forall|i: int| 256 < i < 512 ==> final(root)@[i] == old(root)@[i],
{
    let mut i: usize = 0;
    while i <= 256
        invariant
            i <= 257,
            root@.len() == 512,
            forall|j: int| 0 <= j < i ==> root@[j] == 0,
            forall|j: int| 256 < j < 512 ==> root@[j] == old(root)@[j],
        decreases 257 - i,
    {
        root.set(i, 0);
        i = i + 1;
    }
}

proof fn lemma_recursive_table_address(virt: u64, a42: u64, a43: u64, a44: u64, a52: u64, a53: u64, a54: u64, a55: u64)
    by (bit_vector)
    requires
        a42 == sign_extend_48((((virt >> 30u64) & 0x3FFFFu64) | (256u64 << 18u64) | (256u64 << 27u64)) << 12u64),
        a43 == sign_extend_48((((virt >> 39u64) & 0x1FFu64) | (256u64 << 9u64) | (256u64 << 18u64) | (256u64 << 27u64)) << 12u64),
        a44 == sign_extend_48(((256u64 << 0u64) | (256u64 << 9u64) | (256u64 << 18u64) | (256u64 << 27u64)) << 12u64),
        a52 == sign_extend_57((((virt >> 30u64) & 0x7FFFFFFu64) | (256u64 << 27u64) | (256u64 << 36u64)) << 12u64),
        a53 == sign_extend_57((((virt >> 39u64) & 0x3FFFFu64) | (256u64 << 18u64) | (256u64 << 27u64) | (256u64 << 36u64)) << 12u64),
        a54 == sign_extend_57((((virt >> 48u64) & 0x1FFu64) | (256u64 << 9u64) | (256u64 << 18u64) | (256u64 << 27u64) | (256u64 << 36u64)) << 12u64),
        a55 == sign_extend_57(((256u64 << 0u64) | (256u64 << 9u64) | (256u64 << 18u64) | (256u64 << 27u64) | (256u64 << 36u64)) << 12u64),
    ensures
        (a42 >> 12u64) & 0x1FFu64 == (virt >> 30u64) & 0x1FFu64,
        (a42 >> 21u64) & 0x1FFu64 == (virt >> 39u64) & 0x1FFu64,
        (a42 >> 30u64) & 0x1FFu64 == 256,
        (a42 >> 39u64) & 0x1FFu64 == 256,
        a42 & 0xFFFu64 == 0,
        (a43 >> 12u64) & 0x1FFu64 == (virt >> 39u64) & 0x1FFu64,
        (a43 >> 21u64) & 0x1FFu64 == 256,
        (a43 >> 30u64) & 0x1FFu64 == 256,
        (a43 >> 39u64) & 0x1FFu64 == 256,
        a43 & 0xFFFu64 == 0,
        (a44 >> 12u64) & 0x1FFu64 == 256,
        (a44 >> 21u64) & 0x1FFu64 == 256,
        (a44 >> 30u64) & 0x1FFu64 == 256,
        (a44 >> 39u64) & 0x1FFu64 == 256,
        a44 & 0xFFFu64 == 0,
        (a52 >> 12u64) & 0x1FFu64 == (virt >> 30u64) & 0x1FFu64,
        (a52 >> 21u64) & 0x1FFu64 == (virt >> 39u64) & 0x1FFu64,
        (a52 >> 30u64) & 0x1FFu64 == (virt >> 48u64) & 0x1FFu64,
        (a52 >> 39u64) & 0x1FFu64 == 256,
        (a52 >> 48u64) & 0x1FFu64 == 256,
        a52 & 0xFFFu64 == 0,
        (a53 >> 12u64) & 0x1FFu64 == (virt >> 39u64) & 0x1FFu64,
        (a53 >> 21u64) & 0x1FFu64 == (virt >> 48u64) & 0x1FFu64,
        (a53 >> 30u64) & 0x1FFu64 == 256,
        (a53 >> 39u64) & 0x1FFu64 == 256,
        (a53 >> 48u64) & 0x1FFu64 == 256,
        a53 & 0xFFFu64 == 0,
        (a54 >> 12u64) & 0x1FFu64 == (virt >> 48u64) & 0x1FFu64,
        (a54 >> 21u64) & 0x1FFu64 == 256,
        (a54 >> 30u64) & 0x1FFu64 == 256,
        (a54 >> 39u64) & 0x1FFu64 == 256,
        (a54 >> 48u64) & 0x1FFu64 == 256,
        a54 & 0xFFFu64 == 0,
        (a55 >> 12u64) & 0x1FFu64 == 256,
        (a55 >> 21u64) & 0x1FFu64 == 256,
        (a55 >> 30u64) & 0x1FFu64 == 256,
        (a55 >> 39u64) & 0x1FFu64 == 256,
        (a55 >> 48u64) & 0x1FFu64 == 256,
        a55 & 0xFFFu64 == 0,
{
}

/// The virtual address, through the recursive slot, of the page table at
/// `level` (counted from the leaf tables, 1 being the leaf level) that the
/// walk for `virt` passes through: the recursive index at the top `level`
/// positions, then the indices `virt` uses above that level.
pub fn recursive_table_address(paging_level: PagingLevel, virt: u64, level: u64) -> (r: u64)
    requires
        2 <= level <= paging_level.levels(),
    ensures
        forall|d: nat|
            d < paging_level.levels() ==> #[trigger] table_index(r, d) == if d + level >= paging_level.levels() {
                256
            } else {
                table_index(virt, (d + level) as nat)
            },
        r & 0xFFFu64 == 0,
{
    proof {
        let a42 = sign_extend_48((((virt >> 30u64) & 0x3FFFFu64) | (256u64 << 18u64) | (256u64 << 27u64)) << 12u64);
        let a43 = sign_extend_48((((virt >> 39u64) & 0x1FFu64) | (256u64 << 9u64) | (256u64 << 18u64) | (256u64 << 27u64)) << 12u64);
        let a44 = sign_extend_48(((256u64 << 0u64) | (256u64 << 9u64) | (256u64 << 18u64) | (256u64 << 27u64)) << 12u64);
        let a52 = sign_extend_57((((virt >> 30u64) & 0x7FFFFFFu64) | (256u64 << 27u64) | (256u64 << 36u64)) << 12u64);
        let a53 = sign_extend_57((((virt >> 39u64) & 0x3FFFFu64) | (256u64 << 18u64) | (256u64 << 27u64) | (256u64 << 36u64)) << 12u64);
        let a54 = sign_extend_57((((virt >> 48u64) & 0x1FFu64) | (256u64 << 9u64) | (256u64 << 18u64) | (256u64 << 27u64) | (256u64 << 36u64)) << 12u64);
        let a55 = sign_extend_57(((256u64 << 0u64) | (256u64 << 9u64) | (256u64 << 18u64) | (256u64 << 27u64) | (256u64 << 36u64)) << 12u64);
        lemma_recursive_table_address(virt, a42, a43, a44, a52, a53, a54, a55);
    }
    let r = match (paging_level, level) {
        (PagingLevel::Level4, 2) => sign_extend_l4((((virt >> 30u64) & 0x3FFFFu64) | (256u64 << 18u64) | (256u64 << 27u64)) << 12u64),
        (PagingLevel::Level4, 3) => sign_extend_l4((((virt >> 39u64) & 0x1FFu64) | (256u64 << 9u64) | (256u64 << 18u64) | (256u64 << 27u64)) << 12u64),
        (PagingLevel::Level4, 4) => sign_extend_l4(((256u64 << 0u64) | (256u64 << 9u64) | (256u64 << 18u64) | (256u64 << 27u64)) << 12u64),
        (PagingLevel::Level5, 2) => sign_extend_l5((((virt >> 30u64) & 0x7FFFFFFu64) | (256u64 << 27u64) | (256u64 << 36u64)) << 12u64),
        (PagingLevel::Level5, 3) => sign_extend_l5((((virt >> 39u64) & 0x3FFFFu64) | (256u64 << 18u64) | (256u64 << 27u64) | (256u64 << 36u64)) << 12u64),
        (PagingLevel::Level5, 4) => sign_extend_l5((((virt >> 48u64) & 0x1FFu64) | (256u64 << 9u64) | (256u64 << 18u64) | (256u64 << 27u64) | (256u64 << 36u64)) << 12u64),
        (PagingLevel::Level5, 5) => sign_extend_l5(((256u64 << 0u64) | (256u64 << 9u64) | (256u64 << 18u64) | (256u64 << 27u64) | (256u64 << 36u64)) << 12u64),
        _ => 0,
    };
    proof {
        assert forall|d: nat| d < paging_level.levels() implies #[trigger] table_index(r, d) == if d + level
            >= paging_level.levels() {
            256
        } else {
            table_index(virt, (d + level) as nat)
        } by {
            if d == 0 {
            } else if d == 1 {
            } else if d == 2 {
            } else if d == 3 {
            } else {
            }
        }
    }
    r
}

proof fn lemma_linear_flags()
    by (bit_vector)
    ensures
        (((0u64 | 0x2u64) | 0x1u64) | 0x100u64) | 0x8000000000000000u64 == 0x8000_0000_0000_0103u64,
        ((((0u64 | 0x2u64) | 0x1u64) | 0x100u64) | 0x8000000000000000u64) | 0x80u64 == 0x8000_0000_0000_0183u64,
{
}

/// The entry through which the linear map reaches a page table it created
/// in the frame `pt_phys`: writable, present, global, non-executable.
pub fn linear_table_entry(pt_phys: u64) -> (r: PageTableEntry)
    ensures
        r@ == (0x8000_0000_0000_0103u64 & NON_ADDRESS_MASK) | (pt_phys & ADDRESS_MASK),
{
    proof {
        lemma_linear_flags();
    }
    PageTableEntry::new().with_writable().with_present().with_global().with_no_exec().with_address(pt_phys)
}

/// The 2 MiB page entry with which the linear map maps `base_phys`:
/// writable, present, global, non-executable, huge.
pub fn linear_huge_entry(base_phys: u64) -> (r: PageTableEntry)
    ensures
        r@ == (0x8000_0000_0000_0183u64 & NON_ADDRESS_MASK) | (base_phys & ADDRESS_MASK),
{
    proof {
        lemma_linear_flags();
    }
    PageTableEntry::new().with_writable().with_present().with_global().with_no_exec().with_huge().with_address(
        base_phys,
    )
}

/// The index into the page table at `level` (1 being the leaf level) that
/// the walk for `virt` uses.
pub fn linear_entry_index(virt: u64, level: u64) -> (r: usize)
    requires
        1 <= level <= 5,
    ensures
        r == table_index(virt, (level - 1) as nat),
{
    let bits = (virt >> (12 + 9 * (level - 1))) & 0x1FF;
    proof {
        crate::phys::lemma_table_index_bound(virt, (level - 1) as nat);
    }
    bits as usize
}

/// The 2 MiB pages of a region placed by [`linear_region`]: the virtual and
/// physical address of each, in order.
pub fn linear_steps(base_virt: u64, base_phys: u64, length: u64) -> (r: Vec<(u64, u64)>)
    requires
        length % 0x20_0000 == 0,
        base_virt + length <= u64::MAX,
        base_phys + length <= u64::MAX,
    ensures
        r@.len() == length / 0x20_0000,
        forall|k: int|
            0 <= k < r@.len() ==> #[trigger] r@[k] == ((base_virt + k * 0x20_0000) as u64, (base_phys + k
                * 0x20_0000) as u64),
{
    let mut out: Vec<(u64, u64)> = Vec::new();
    let mut virt = base_virt;
    let mut phys = base_phys;
    let mut remaining = length;
    while remaining > 0
        invariant
            remaining % 0x20_0000 == 0,
            remaining <= length,
            out@.len() == (length - remaining) / 0x20_0000,
            virt == base_virt + (length - remaining),
            phys == base_phys + (length - remaining),
            length % 0x20_0000 == 0,
            base_virt + length <= u64::MAX,
            base_phys + length <= u64::MAX,
            forall|k: int|
                0 <= k < out@.len() ==> #[trigger] out@[k] == ((base_virt + k * 0x20_0000) as u64, (base_phys
                    + k * 0x20_0000) as u64),
        decreases remaining,
    {
        proof {
            assert((length - remaining) == out@.len() * 0x20_0000) by (nonlinear_arith)
                requires
                    out@.len() == (length - remaining) / 0x20_0000,
                    (length - remaining) % 0x20_0000 == 0,
            ;
        }
        out.push((virt, phys));
        virt = virt + 0x20_0000;
        phys = phys + 0x20_0000;
        remaining = remaining - 0x20_0000;
    }
    out
}

} // verus!
