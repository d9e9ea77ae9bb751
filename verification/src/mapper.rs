//! The boot-time and runtime mappers: the recursive mapper, which edits the
//! active page tables through the recursive slot of the root table, and the
//! translator mapper, which edits an address space's tables by their
//! physical addresses.
use vstd::prelude::*;

use crate::address_space::AddressSpaceHandle;
use crate::paging::{has_bits, table_zeroed, PageTableEntry, PagingLevel, ADDRESS_MASK};
use crate::phys::{
    entry_address, entry_present, frames_fresh, lemma_table_index_bound, leaf_entry, memory_wf,
    only_resets, path_valid, preserves_present, read, table_index, translate, valid_table,
    PageFrameAllocator, PhysicalMemory,
};
use crate::segment::{
    changes_flagged, freed_are_empty_tables, unmap_changes_on_walk, unmap_frees_emptied, is_prefix_of, leaf_cleared, leaf_slot, map_result,
    remap_result, root_depth, template_entry, walk_revisits_leaf, sign_extend_48, sign_extend_57,
    sign_extend_l4, sign_extend_l5, lookup_walk, unmap_walk, walk_ready, AddressSegment, MapError,
    UnmapError,
};

verus! {

/// The index range and the entry flags of an address space segment.
#[derive(Debug, Clone, Copy)]
pub struct Descriptor {
    /// The valid range of L4/L5 indices for this segment.
    pub valid_range: (usize, usize),
    /// A template for the page table entries of this segment.
    pub entry_template: PageTableEntry,
}

/// Whether the root table index of `v` under `level` (the L4 index with
/// four levels, the L5 index with five) lies in the range of `d`.
pub open spec fn descriptor_in_range(d: Descriptor, v: u64, level: PagingLevel) -> bool {
    d.valid_range.0 <= table_index(v, root_depth(level)) <= d.valid_range.1
}

/// The segment through which a descriptor's mappings are made once its
/// top-level range has been checked: every index, the descriptor's flags for
/// leaf and intermediate entries alike.
pub open spec fn descriptor_segment(d: Descriptor) -> AddressSegment {
    AddressSegment {
        valid_range: (0usize, 511usize),
        entry_template: d.entry_template,
        intermediate_entry_template: d.entry_template,
    }
}

/// The layout of the kernel executable segments of the address space.
pub struct Layout;

proof fn lemma_layout_values()
    by (bit_vector)
    ensures
        ((0u64 | 0x4u64) | 0x100u64) | 0x1u64 == 0x105u64,
        (((0u64 | 0x100u64) | 0x1u64) | 0x8000000000000000u64) | 0x2u64 == 0x8000000000000103u64,
        ((0u64 | 0x100u64) | 0x1u64) | 0x8000000000000000u64 == 0x8000000000000101u64,
{
}

impl Layout {
    /// The recursive index for the page table.
    pub const RECURSIVE_IDX: usize = 256;

    /// The kernel code segment.
    pub fn kernel_code() -> (r: Descriptor)
        ensures
            r.valid_range == (511usize, 511usize),
            r.entry_template@ == 0x105u64,
    {
        proof {
            lemma_layout_values();
        }
        Descriptor {
            valid_range: (511, 511),
            entry_template: PageTableEntry::new().with_user().with_global().with_present(),
        }
    }

    /// The kernel data segment.
    pub fn kernel_data() -> (r: Descriptor)
        ensures
            r.valid_range == (511usize, 511usize),
            r.entry_template@ == 0x8000000000000103u64,
    {
        proof {
            lemma_layout_values();
        }
        Descriptor {
            valid_range: (511, 511),
            entry_template: PageTableEntry::new().with_global().with_present().with_no_exec().with_writable(),
        }
    }

    /// The kernel read-only data segment.
    pub fn kernel_rodata() -> (r: Descriptor)
        ensures
            r.valid_range == (511usize, 511usize),
            r.entry_template@ == 0x8000000000000101u64,
    {
        proof {
            lemma_layout_values();
        }
        Descriptor {
            valid_range: (511, 511),
            entry_template: PageTableEntry::new().with_global().with_present().with_no_exec(),
        }
    }
}

/// The address, before sign extension, at which a four-level address space
/// whose root slot 256 references the root itself shows entry `i1` of the
/// table that the indices `i4, i3, i2` lead to from that slot.
pub open spec fn recursive_bits_l4(i4: u64, i3: u64, i2: u64, i1: u64) -> u64 {
    (256u64 << 39u64) | (i4 << 30u64) | (i3 << 21u64) | (i2 << 12u64) | (i1 << 3u64)
}

/// The five-level counterpart of [`recursive_bits_l4`].
pub open spec fn recursive_bits_l5(i5: u64, i4: u64, i3: u64, i2: u64, i1: u64) -> u64 {
    (256u64 << 48u64) | (i5 << 39u64) | (i4 << 30u64) | (i3 << 21u64) | (i2 << 12u64) | (i1 << 3u64)
}

/// The canonical virtual address, through the recursive slot of a
/// four-level address space, of entry `i1` of the table reached by the
/// indices `i4, i3, i2`.
pub fn encode_to_entry_l4(i4: u64, i3: u64, i2: u64, i1: u64) -> (r: u64)
    requires
        i4 < 512,
        i3 < 512,
        i2 < 512,
        i1 < 512,
    ensures
        r == sign_extend_48(recursive_bits_l4(i4, i3, i2, i1)),
{
    let vaddr = (256u64 << 39u64) | (i4 << 30u64) | (i3 << 21u64) | (i2 << 12u64);
    let vaddr = vaddr | (i1 << 3u64);
    sign_extend_l4(vaddr)
}

/// The canonical virtual address, through the recursive slot of a
/// five-level address space, of entry `i1` of the table reached by the
/// indices `i5, i4, i3, i2`.
pub fn encode_to_entry_l5(i5: u64, i4: u64, i3: u64, i2: u64, i1: u64) -> (r: u64)
    requires
        i5 < 512,
        i4 < 512,
        i3 < 512,
        i2 < 512,
        i1 < 512,
    ensures
        r == sign_extend_57(recursive_bits_l5(i5, i4, i3, i2, i1)),
{
    let vaddr = (256u64 << 48u64) | (i5 << 39u64) | (i4 << 30u64) | (i3 << 21u64) | (i2 << 12u64);
    let vaddr = vaddr | (i1 << 3u64);
    sign_extend_l5(vaddr)
}

/// The kernel's runtime mapper: it reaches the active page tables through
/// the recursive slot of the root table whose address `cr3` holds.
#[derive(Debug)]
pub struct RecursiveMapper {
    current_cr3: u64,
    paging_level: PagingLevel,
}

impl RecursiveMapper {
    /// The physical address of the root table this mapper works on.
    pub closed spec fn spec_cr3(&self) -> u64 {
        self.current_cr3
    }

    /// The paging level this mapper works with.
    pub closed spec fn spec_paging_level(&self) -> PagingLevel {
        self.paging_level
    }

    /// Takes over the address space whose root table is at `cr3`, whose
    /// recursive slot must already reference that table. The slot is made
    /// supervisor-only and non-executable.
    pub fn take(mem: &mut PhysicalMemory, cr3: u64, paging_level: PagingLevel) -> (r: Self)
        requires
            memory_wf(old(mem)@),
            valid_table(old(mem)@, cr3),
            entry_present(read(old(mem)@, cr3, 256)),
            entry_address(read(old(mem)@, cr3, 256)) == cr3,
        ensures
            r.spec_cr3() == cr3,
            r.spec_paging_level() == paging_level,
            final(mem)@ == old(mem)@.update(
                (cr3 / 4096) as int,
                old(mem)@[(cr3 / 4096) as int].update(256, final(mem)@[(cr3 / 4096) as int][256]),
            ),
            read(final(mem)@, cr3, 256) == (read(old(mem)@, cr3, 256) & !0x4u64) | 0x8000000000000000u64,
    {
        let mut entry = mem.read_entry(cr3, Layout::RECURSIVE_IDX);
        entry.clear_user();
        entry.set_no_exec();
        let ghost m0 = mem@;
        proof {
            assert(m0[(cr3 / 4096) as int].len() == 512);
        }
        mem.write_entry(cr3, Layout::RECURSIVE_IDX, entry);
        proof {
            assert(mem@[(cr3 / 4096) as int][256] == entry);
            assert(read(mem@, cr3, 256) == entry@);
            assert(mem@ == m0.update((cr3 / 4096) as int, m0[(cr3 / 4096) as int].update(256, mem@[(cr3 / 4096) as int][256])));
        }
        RecursiveMapper { current_cr3: cr3, paging_level }
    }

    /// The handle of the active address space: its root table's address.
    pub fn handle(&self) -> (r: u64)
        ensures
            r == self.spec_cr3(),
    {
        self.current_cr3
    }

    /// Makes `handle` the active address space, returning the handle that
    /// was active before. `cr3` is to be loaded with `handle` only where the
    /// two differ.
    pub fn make_active(&mut self, handle: u64) -> (r: u64)
        ensures
            r == old(self).spec_cr3(),
            final(self).spec_cr3() == handle,
            final(self).spec_paging_level() == old(self).spec_paging_level(),
    {
        let previous = self.current_cr3;
        self.current_cr3 = handle;
        previous
    }

    /// The segment of the active address space that `descriptor` describes.
    pub fn for_supervisor_segment(&self, descriptor: Descriptor) -> (r: RecursiveSupervisorSegment)
        ensures
            r.paging_level == self.spec_paging_level(),
            r.root == self.spec_cr3(),
            r.descriptor == descriptor,
    {
        RecursiveSupervisorSegment {
            paging_level: self.paging_level,
            descriptor,
            root: self.current_cr3,
        }
    }
}

/// What mapping `v` through a descriptor yields: alignment and the
/// descriptor's range first, then the walk of the address space.
pub open spec fn descriptor_map_result(
    d: Descriptor,
    m: Seq<Seq<PageTableEntry>>,
    free: Seq<u64>,
    space: AddressSpaceHandle,
    v: u64,
) -> Result<(), MapError> {
    if v & 0xFFF != 0 {
        Err(MapError::VirtNotAligned)
    } else if !descriptor_in_range(d, v, space.paging_level) {
        Err(MapError::VirtOutOfRange)
    } else {
        map_result(descriptor_segment(d), m, free, space, v)
    }
}

/// What unmapping `v` through a descriptor from the address space `space`
/// yields: alignment and the descriptor's range first, then the address
/// the walk ends at.
pub open spec fn descriptor_unmap_result(
    d: Descriptor,
    m: Seq<Seq<PageTableEntry>>,
    space: AddressSpaceHandle,
    v: u64,
) -> Result<u64, UnmapError> {
    if v & 0xFFF != 0 {
        Err(UnmapError::VirtNotAligned)
    } else if !descriptor_in_range(d, v, space.paging_level) {
        Err(UnmapError::VirtOutOfRange)
    } else {
        match translate(m, space.base_phys, space.paging_level.levels(), v) {
            Some(p) => Ok(p),
            None => Err(UnmapError::NotMapped),
        }
    }
}

/// A segment of the active address space, edited through the recursive slot.
#[derive(Debug, Clone, Copy)]
pub struct RecursiveSupervisorSegment {
    /// The paging level of the CPU.
    pub paging_level: PagingLevel,
    /// The segment descriptor for this segment.
    pub descriptor: Descriptor,
    /// The physical address of the active root table.
    pub root: u64,
}

impl RecursiveSupervisorSegment {
    /// The address space this segment belongs to.
    pub open spec fn space(&self) -> AddressSpaceHandle {
        AddressSpaceHandle { base_phys: self.root, paging_level: self.paging_level }
    }

    /// Maps the frame at `phys` at `virt`, creating zeroed intermediate
    /// tables from `alloc` as needed.
    ///
    /// The descriptor's template is a present entry, as are those of all
    /// the layout's descriptors; intermediate and leaf entries are written
    /// from it.
    pub fn map(
        &mut self,
        mem: &mut PhysicalMemory,
        alloc: &mut PageFrameAllocator,
        virt: u64,
        phys: u64,
    ) -> (r: Result<(), MapError>)
        requires
            walk_ready(old(mem)@, old(alloc)@, old(self).space(), virt),
            has_bits(old(self).descriptor.entry_template@, 0x1u64),
        ensures
            *final(self) == *old(self),
            r == descriptor_map_result(old(self).descriptor, old(mem)@, old(alloc)@, old(self).space(), virt),
            memory_wf(final(mem)@),
            preserves_present(old(mem)@, final(mem)@, old(alloc)@),
            is_prefix_of(final(alloc)@, old(alloc)@),
            r is Ok ==> translate(
                final(mem)@,
                old(self).root,
                old(self).paging_level.levels(),
                virt,
            ) == Some(phys & ADDRESS_MASK),
            r is Ok ==> leaf_slot(final(mem)@, old(self).root, root_depth(old(self).paging_level), virt)
                == Some(template_entry(old(self).descriptor.entry_template@, phys)),
            changes_flagged(
                old(mem)@,
                final(mem)@,
                old(self).descriptor.entry_template@,
                old(self).descriptor.entry_template@,
            ),
            r == Err::<(), MapError>(MapError::VirtNotAligned) || r == Err::<(), MapError>(
                MapError::VirtOutOfRange,
            ) ==> final(mem)@ == old(mem)@ && final(alloc)@ == old(alloc)@,
    {
        descriptor_map(self.descriptor, mem, &self.space_handle(), alloc, virt, phys)
    }

    /// Unmaps `virt`, returning the physical address that was mapped there.
    /// Page tables left without a present entry are freed into `alloc`.
    pub fn unmap(&mut self, mem: &mut PhysicalMemory, alloc: &mut PageFrameAllocator, virt: u64) -> (r:
        Result<u64, UnmapError>)
        requires
            memory_wf(old(mem)@),
            valid_table(old(mem)@, old(self).root),
            path_valid(old(mem)@, old(self).root, root_depth(old(self).paging_level), virt),
        ensures
            *final(self) == *old(self),
            r == descriptor_unmap_result(old(self).descriptor, old(mem)@, old(self).space(), virt),
            r is Err ==> final(mem)@ == old(mem)@ && final(alloc)@ == old(alloc)@,
            virt & 0xFFF == 0 && descriptor_in_range(old(self).descriptor, virt, old(self).paging_level) ==> translate(
                final(mem)@,
                old(self).root,
                old(self).paging_level.levels(),
                virt,
            ) is None,
            r is Ok ==> leaf_cleared(old(mem)@, final(mem)@, old(self).root, root_depth(old(self).paging_level), virt),
            r is Ok ==> unmap_changes_on_walk(
                old(mem)@,
                final(mem)@,
                old(alloc)@,
                final(alloc)@,
                old(self).root,
                root_depth(old(self).paging_level),
                virt,
            ),
            r is Ok ==> unmap_frees_emptied(
                old(mem)@,
                final(mem)@,
                old(alloc)@,
                final(alloc)@,
                old(self).root,
                root_depth(old(self).paging_level),
                virt,
            ),
            memory_wf(final(mem)@),
            only_resets(old(mem)@, final(mem)@),
            is_prefix_of(old(alloc)@, final(alloc)@),
            freed_are_empty_tables(final(mem)@, old(alloc)@, final(alloc)@),
    {
        proof {
            assert(alloc@ == alloc@.subrange(0, alloc@.len() as int));
        }
        if virt & 0xFFF != 0 {
            return Err(UnmapError::VirtNotAligned);
        }
        if !descriptor_contains(&self.descriptor, virt, self.paging_level) {
            return Err(UnmapError::VirtOutOfRange);
        }
        let depth: u64 = match self.paging_level {
            PagingLevel::Level4 => 3,
            PagingLevel::Level5 => 4,
        };
        if lookup_walk(mem, self.root, depth, virt).is_none() {
            return Err(UnmapError::NotMapped);
        }
        match unmap_walk(mem, alloc, self.root, depth, virt) {
            Some(p) => Ok(p),
            None => Err(UnmapError::NotMapped),
        }
    }

    fn space_handle(&self) -> (r: AddressSpaceHandle)
        ensures
            r == self.space(),
    {
        AddressSpaceHandle { base_phys: self.root, paging_level: self.paging_level }
    }
}

/// Whether the root table index of `virt` under `level` lies in the range
/// of `d`.
fn descriptor_contains(d: &Descriptor, virt: u64, level: PagingLevel) -> (r: bool)
    ensures
        r == descriptor_in_range(*d, virt, level),
{
    let bits = match level {
        PagingLevel::Level4 => (virt >> 39u64) & 0x1FF,
        PagingLevel::Level5 => (virt >> 48u64) & 0x1FF,
    };
    proof {
        assert(bits == table_index(virt, root_depth(level)));
        lemma_table_index_bound(virt, root_depth(level));
    }
    let index = bits as usize;
    d.valid_range.0 <= index && index <= d.valid_range.1
}

/// Maps `phys` at `virt` of `space` with the flags of `d`, once alignment
/// and the range of `d` have been checked.
fn descriptor_map(
    d: Descriptor,
    mem: &mut PhysicalMemory,
    space: &AddressSpaceHandle,
    alloc: &mut PageFrameAllocator,
    virt: u64,
    phys: u64,
) -> (r: Result<(), MapError>)
    requires
        walk_ready(old(mem)@, old(alloc)@, *space, virt),
        has_bits(d.entry_template@, 0x1u64),
    ensures
        r == descriptor_map_result(d, old(mem)@, old(alloc)@, *space, virt),
        memory_wf(final(mem)@),
        preserves_present(old(mem)@, final(mem)@, old(alloc)@),
        is_prefix_of(final(alloc)@, old(alloc)@),
        r is Ok ==> translate(final(mem)@, space.base_phys, space.paging_level.levels(), virt)
            == Some(phys & ADDRESS_MASK),
        r is Ok ==> leaf_slot(final(mem)@, space.base_phys, root_depth(space.paging_level), virt)
            == Some(template_entry(d.entry_template@, phys)),
        changes_flagged(old(mem)@, final(mem)@, d.entry_template@, d.entry_template@),
        r == Err::<(), MapError>(MapError::VirtNotAligned) || r == Err::<(), MapError>(
            MapError::VirtOutOfRange,
        ) ==> final(mem)@ == old(mem)@ && final(alloc)@ == old(alloc)@,
{
    proof {
        assert(alloc@ == alloc@.subrange(0, alloc@.len() as int));
    }
    if virt & 0xFFF != 0 {
        return Err(MapError::VirtNotAligned);
    }
    if !descriptor_contains(&d, virt, space.paging_level) {
        return Err(MapError::VirtOutOfRange);
    }
    let segment = AddressSegment {
        valid_range: (0, 511),
        entry_template: d.entry_template,
        intermediate_entry_template: d.entry_template,
    };
    proof {
        lemma_table_index_bound(virt, root_depth(space.paging_level));
        assert(segment == descriptor_segment(d));
    }
    segment.map(mem, space, alloc, virt, phys)
}

/// What remapping `virt` through a descriptor yields.
pub open spec fn descriptor_remap_result(
    d: Descriptor,
    m: Seq<Seq<PageTableEntry>>,
    free: Seq<u64>,
    space: AddressSpaceHandle,
    virt: u64,
) -> Result<(), MapError> {
    if virt & 0xFFF != 0 {
        Err(MapError::VirtNotAligned)
    } else if !descriptor_in_range(d, virt, space.paging_level) {
        Err(MapError::VirtOutOfRange)
    } else {
        match remap_result(descriptor_segment(d), m, free, space, virt) {
            Ok(_) => Ok(()),
            Err(e) => Err(e),
        }
    }
}

/// A mapper that edits an address space's page tables by their physical
/// addresses, before the kernel's own mappings are in place.
#[derive(Debug, Clone, Copy)]
pub struct TranslatorMapper {
    page_table_phys: u64,
    paging_level: PagingLevel,
}

/// What a [`TranslatorMapper`] hands on: the address of its root table.
#[derive(Debug, Clone, Copy)]
pub struct PrebootAddressSpaceClone {
    page_table_phys: u64,
}

impl PrebootAddressSpaceClone {
    /// The physical address of the root table of the originating space.
    pub closed spec fn spec_page_table_phys(&self) -> u64 {
        self.page_table_phys
    }
}

impl TranslatorMapper {
    /// The physical address of the root table.
    pub closed spec fn spec_page_table_phys(&self) -> u64 {
        self.page_table_phys
    }

    /// The paging level of the CPU.
    pub closed spec fn spec_paging_level(&self) -> PagingLevel {
        self.paging_level
    }

    /// The address space this mapper edits.
    pub open spec fn space(&self) -> AddressSpaceHandle {
        AddressSpaceHandle { base_phys: self.spec_page_table_phys(), paging_level: self.spec_paging_level() }
    }

    /// A mapper for the active page tables, whose root is at `cr3`.
    pub fn get_current(cr3: u64, paging_level: PagingLevel) -> (r: Self)
        ensures
            r.spec_page_table_phys() == cr3,
            r.spec_paging_level() == paging_level,
    {
        TranslatorMapper { page_table_phys: cr3, paging_level }
    }

    /// Creates a mapper for a new address space whose root table is a frame
    /// from `alloc`, zeroed. `None` if no frame is free.
    pub fn new(mem: &mut PhysicalMemory, alloc: &mut PageFrameAllocator, paging_level: PagingLevel) -> (r:
        Option<Self>)
        requires
            forall|j: int|
                0 <= j < old(alloc)@.len() ==> valid_table(old(mem)@, #[trigger] old(alloc)@[j]),
        ensures
            old(alloc)@.len() == 0 <==> r is None,
            r is None ==> final(mem)@ == old(mem)@ && final(alloc)@ == old(alloc)@,
            r is Some ==> {
                &&& r->0.spec_page_table_phys() == old(alloc)@.last()
                &&& r->0.spec_paging_level() == paging_level
                &&& final(alloc)@ == old(alloc)@.drop_last()
                &&& final(mem)@ == old(mem)@.update(
                    (old(alloc)@.last() / 4096) as int,
                    final(mem)@[(old(alloc)@.last() / 4096) as int],
                )
                &&& table_zeroed(final(mem)@[(old(alloc)@.last() / 4096) as int])
            },
    {
        let page_table_phys = match alloc.allocate() {
            Some(f) => f,
            None => {
                return None;
            },
        };
        proof {
            assert(old(alloc)@.contains(page_table_phys));
        }
        mem.zero_frame(page_table_phys);
        Some(TranslatorMapper { page_table_phys, paging_level })
    }

    /// Returns the physical address of the root page table.
    pub fn page_table_phys(&self) -> (r: u64)
        ensures
            r == self.spec_page_table_phys(),
    {
        self.page_table_phys
    }

    /// A new mapper whose root table is a copy of this one's, in a frame
    /// from `alloc`.
    pub fn clone_top_level(&self, mem: &mut PhysicalMemory, alloc: &mut PageFrameAllocator) -> (r: Self)
        requires
            old(alloc)@.len() > 0,
            valid_table(old(mem)@, self.spec_page_table_phys()),
            forall|j: int|
                0 <= j < old(alloc)@.len() ==> valid_table(old(mem)@, #[trigger] old(alloc)@[j]),
        ensures
            r.spec_page_table_phys() == old(alloc)@.last(),
            r.spec_paging_level() == self.spec_paging_level(),
            final(alloc)@ == old(alloc)@.drop_last(),
            final(mem)@ == old(mem)@.update(
                (old(alloc)@.last() / 4096) as int,
                old(mem)@[(self.spec_page_table_phys() / 4096) as int],
            ),
    {
        let page_table_phys = match alloc.allocate() {
            Some(f) => f,
            None => {
                return *self;
            },
        };
        proof {
            assert(old(alloc)@.contains(page_table_phys));
        }
        mem.copy_frame(page_table_phys, self.page_table_phys);
        TranslatorMapper { page_table_phys, paging_level: self.paging_level }
    }

    /// The token from which [`Self::from_token`] rebuilds this mapper.
    pub fn clone_token(&self) -> (r: PrebootAddressSpaceClone)
        ensures
            r.spec_page_table_phys() == self.spec_page_table_phys(),
    {
        PrebootAddressSpaceClone { page_table_phys: self.page_table_phys }
    }

    /// Rebuilds a mapper from a token, with the paging level of the CPU.
    pub fn from_token(token: PrebootAddressSpaceClone, paging_level: PagingLevel) -> (r: Self)
        ensures
            r.spec_page_table_phys() == token.spec_page_table_phys(),
            r.spec_paging_level() == paging_level,
    {
        TranslatorMapper { page_table_phys: token.page_table_phys, paging_level }
    }

    /// The segment of this address space that `descriptor` describes.
    pub fn for_supervisor_segment(&self, descriptor: Descriptor) -> (r: TranslatorSupervisorSegment)
        ensures
            r.space() == self.space(),
            r.descriptor == descriptor,
    {
        TranslatorSupervisorSegment {
            base_phys: self.page_table_phys,
            paging_level: self.paging_level,
            descriptor,
        }
    }
}

/// A segment of an address space edited by physical address.
#[derive(Debug, Clone, Copy)]
pub struct TranslatorSupervisorSegment {
    /// The physical address of the root table.
    pub base_phys: u64,
    /// The paging level of the CPU.
    pub paging_level: PagingLevel,
    /// The segment descriptor for this segment.
    pub descriptor: Descriptor,
}

impl TranslatorSupervisorSegment {
    /// The address space this segment belongs to.
    pub open spec fn space(&self) -> AddressSpaceHandle {
        AddressSpaceHandle { base_phys: self.base_phys, paging_level: self.paging_level }
    }

    fn space_handle(&self) -> (r: AddressSpaceHandle)
        ensures
            r == self.space(),
    {
        AddressSpaceHandle { base_phys: self.base_phys, paging_level: self.paging_level }
    }

    /// Maps `phys` at `virt`, creating zeroed intermediate tables from
    /// `alloc` as needed. An existing mapping is replaced when `remap` is
    /// set and refused otherwise.
    fn maybe_remap(
        &mut self,
        mem: &mut PhysicalMemory,
        alloc: &mut PageFrameAllocator,
        virt: u64,
        phys: u64,
        remap: bool,
    ) -> (r: Result<(), MapError>)
        requires
            walk_ready(old(mem)@, old(alloc)@, old(self).space(), virt),
            has_bits(old(self).descriptor.entry_template@, 0x1u64),
        ensures
            *final(self) == *old(self),
            !remap ==> r == descriptor_map_result(
                old(self).descriptor,
                old(mem)@,
                old(alloc)@,
                old(self).space(),
                virt,
            ),
            remap ==> r == descriptor_remap_result(
                old(self).descriptor,
                old(mem)@,
                old(alloc)@,
                old(self).space(),
                virt,
            ),
            memory_wf(final(mem)@),
            is_prefix_of(final(alloc)@, old(alloc)@),
            !remap ==> preserves_present(old(mem)@, final(mem)@, old(alloc)@),
            !remap && r is Ok ==> translate(
                final(mem)@,
                old(self).base_phys,
                old(self).paging_level.levels(),
                virt,
            ) == Some(phys & ADDRESS_MASK),
            r is Ok && (!remap || !walk_revisits_leaf(
                old(mem)@,
                old(self).base_phys,
                root_depth(old(self).paging_level),
                virt,
            )) ==> leaf_slot(final(mem)@, old(self).base_phys, root_depth(old(self).paging_level), virt)
                == Some(template_entry(old(self).descriptor.entry_template@, phys)),
            r is Ok && (!remap || !walk_revisits_leaf(
                old(mem)@,
                old(self).base_phys,
                root_depth(old(self).paging_level),
                virt,
            )) ==> translate(
                final(mem)@,
                old(self).base_phys,
                old(self).paging_level.levels(),
                virt,
            ) == Some(phys & ADDRESS_MASK),
            changes_flagged(
                old(mem)@,
                final(mem)@,
                old(self).descriptor.entry_template@,
                old(self).descriptor.entry_template@,
            ),
            r == Err::<(), MapError>(MapError::VirtNotAligned) || r == Err::<(), MapError>(
                MapError::VirtOutOfRange,
            ) ==> final(mem)@ == old(mem)@ && final(alloc)@ == old(alloc)@,
    {
        proof {
            assert(alloc@ == alloc@.subrange(0, alloc@.len() as int));
        }
        if !remap {
            return descriptor_map(self.descriptor, mem, &self.space_handle(), alloc, virt, phys);
        }
        if virt & 0xFFF != 0 {
            return Err(MapError::VirtNotAligned);
        }
        if !descriptor_contains(&self.descriptor, virt, self.paging_level) {
            return Err(MapError::VirtOutOfRange);
        }
        let segment = AddressSegment {
            valid_range: (0, 511),
            entry_template: self.descriptor.entry_template,
            intermediate_entry_template: self.descriptor.entry_template,
        };
        proof {
            lemma_table_index_bound(virt, root_depth(self.paging_level));
            assert(segment == descriptor_segment(self.descriptor));
        }
        match segment.remap(mem, &self.space_handle(), alloc, virt, phys) {
            Ok(_) => Ok(()),
            Err(e) => Err(e),
        }
    }

    /// Maps `phys` at `virt`; an existing mapping is an error.
    ///
    /// The descriptor's template is a present entry, as are those of all
    /// the layout's descriptors; intermediate and leaf entries are written
    /// from it.
    pub fn map(&mut self, mem: &mut PhysicalMemory, alloc: &mut PageFrameAllocator, virt: u64, phys: u64) -> (r:
        Result<(), MapError>)
        requires
            walk_ready(old(mem)@, old(alloc)@, old(self).space(), virt),
            has_bits(old(self).descriptor.entry_template@, 0x1u64),
        ensures
            *final(self) == *old(self),
            r == descriptor_map_result(old(self).descriptor, old(mem)@, old(alloc)@, old(self).space(), virt),
            memory_wf(final(mem)@),
            is_prefix_of(final(alloc)@, old(alloc)@),
            preserves_present(old(mem)@, final(mem)@, old(alloc)@),
            r is Ok ==> translate(
                final(mem)@,
                old(self).base_phys,
                old(self).paging_level.levels(),
                virt,
            ) == Some(phys & ADDRESS_MASK),
            r is Ok ==> leaf_slot(final(mem)@, old(self).base_phys, root_depth(old(self).paging_level), virt)
                == Some(template_entry(old(self).descriptor.entry_template@, phys)),
            changes_flagged(
                old(mem)@,
                final(mem)@,
                old(self).descriptor.entry_template@,
                old(self).descriptor.entry_template@,
            ),
            r == Err::<(), MapError>(MapError::VirtNotAligned) || r == Err::<(), MapError>(
                MapError::VirtOutOfRange,
            ) ==> final(mem)@ == old(mem)@ && final(alloc)@ == old(alloc)@,
    {
        self.maybe_remap(mem, alloc, virt, phys, false)
    }

    /// Maps `phys` at `virt`, replacing any existing mapping.
    ///
    /// The descriptor's template is a present entry, as are those of all
    /// the layout's descriptors; intermediate and leaf entries are written
    /// from it.
    pub fn remap(&mut self, mem: &mut PhysicalMemory, alloc: &mut PageFrameAllocator, virt: u64, phys: u64) -> (r:
        Result<(), MapError>)
        requires
            walk_ready(old(mem)@, old(alloc)@, old(self).space(), virt),
            has_bits(old(self).descriptor.entry_template@, 0x1u64),
        ensures
            *final(self) == *old(self),
            r == descriptor_remap_result(old(self).descriptor, old(mem)@, old(alloc)@, old(self).space(), virt),
            memory_wf(final(mem)@),
            is_prefix_of(final(alloc)@, old(alloc)@),
            r is Ok && !walk_revisits_leaf(
                old(mem)@,
                old(self).base_phys,
                root_depth(old(self).paging_level),
                virt,
            ) ==> leaf_slot(final(mem)@, old(self).base_phys, root_depth(old(self).paging_level), virt)
                == Some(template_entry(old(self).descriptor.entry_template@, phys)),
            r is Ok && !walk_revisits_leaf(
                old(mem)@,
                old(self).base_phys,
                root_depth(old(self).paging_level),
                virt,
            ) ==> translate(
                final(mem)@,
                old(self).base_phys,
                old(self).paging_level.levels(),
                virt,
            ) == Some(phys & ADDRESS_MASK),
            changes_flagged(
                old(mem)@,
                final(mem)@,
                old(self).descriptor.entry_template@,
                old(self).descriptor.entry_template@,
            ),
            r == Err::<(), MapError>(MapError::VirtNotAligned) || r == Err::<(), MapError>(
                MapError::VirtOutOfRange,
            ) ==> final(mem)@ == old(mem)@ && final(alloc)@ == old(alloc)@,
    {
        self.maybe_remap(mem, alloc, virt, phys, true)
    }

    /// Unmaps `virt`, returning the physical address that was mapped there.
    /// Page tables left without a present entry are freed into `alloc`.
    ///
    /// The walk takes the indices the mapping walk takes: with five levels,
    /// the L5 index (bits 48..56) at the root down to the leaf index (bits
    /// 12..20), not the L4 index at the root and bits 3..11 at the bottom.
    pub fn unmap(&mut self, mem: &mut PhysicalMemory, alloc: &mut PageFrameAllocator, virt: u64) -> (r:
        Result<u64, UnmapError>)
        requires
            memory_wf(old(mem)@),
            valid_table(old(mem)@, old(self).base_phys),
            path_valid(old(mem)@, old(self).base_phys, root_depth(old(self).paging_level), virt),
        ensures
            *final(self) == *old(self),
            r == descriptor_unmap_result(old(self).descriptor, old(mem)@, old(self).space(), virt),
            r is Err ==> final(mem)@ == old(mem)@ && final(alloc)@ == old(alloc)@,
            virt & 0xFFF == 0 && descriptor_in_range(old(self).descriptor, virt, old(self).paging_level) ==> translate(
                final(mem)@,
                old(self).base_phys,
                old(self).paging_level.levels(),
                virt,
            ) is None,
            r is Ok ==> leaf_cleared(
                old(mem)@,
                final(mem)@,
                old(self).base_phys,
                root_depth(old(self).paging_level),
                virt,
            ),
            r is Ok ==> unmap_changes_on_walk(
                old(mem)@,
                final(mem)@,
                old(alloc)@,
                final(alloc)@,
                old(self).base_phys,
                root_depth(old(self).paging_level),
                virt,
            ),
            r is Ok ==> unmap_frees_emptied(
                old(mem)@,
                final(mem)@,
                old(alloc)@,
                final(alloc)@,
                old(self).base_phys,
                root_depth(old(self).paging_level),
                virt,
            ),
            memory_wf(final(mem)@),
            only_resets(old(mem)@, final(mem)@),
            is_prefix_of(old(alloc)@, final(alloc)@),
            freed_are_empty_tables(final(mem)@, old(alloc)@, final(alloc)@),
    {
        proof {
            assert(alloc@ == alloc@.subrange(0, alloc@.len() as int));
        }
        if virt & 0xFFF != 0 {
            return Err(UnmapError::VirtNotAligned);
        }
        if !descriptor_contains(&self.descriptor, virt, self.paging_level) {
            return Err(UnmapError::VirtOutOfRange);
        }
        let depth: u64 = match self.paging_level {
            PagingLevel::Level4 => 3,
            PagingLevel::Level5 => 4,
        };
        if lookup_walk(mem, self.base_phys, depth, virt).is_none() {
            return Err(UnmapError::NotMapped);
        }
        match unmap_walk(mem, alloc, self.base_phys, depth, virt) {
            Some(p) => Ok(p),
            None => Err(UnmapError::NotMapped),
        }
    }
}

/// The entry with which a [`FixedAddressPageFrameManager`] maps `address`
/// into its window: present, writable, non-executable.
pub open spec fn window_entry(address: u64) -> u64 {
    (0x8000_0000_0000_0003u64 & crate::paging::NON_ADDRESS_MASK) | (address & ADDRESS_MASK)
}

proof fn lemma_window_flags()
    by (bit_vector)
    ensures
        ((0u64 | 0x1u64) | 0x2u64) | 0x8000000000000000u64 == 0x8000000000000003u64,
{
}

/// Loads page frames one at a time into a fixed virtual window, through the
/// page table entry that maps that window, to reach the frames of a
/// first-in-last-out free list.
#[derive(Debug)]
pub struct FixedAddressPageFrameManager {
    virtual_address: u64,
    page_table_entry: PageTableEntry,
    currently_allocated: u64,
}

impl FixedAddressPageFrameManager {
    /// The virtual address of the window.
    pub closed spec fn spec_virtual_address(&self) -> u64 {
        self.virtual_address
    }

    /// The entry that maps the window.
    pub closed spec fn spec_entry(&self) -> u64 {
        self.page_table_entry@
    }

    /// The frame loaded in the window (`u64::MAX` before the first load).
    pub closed spec fn spec_loaded(&self) -> u64 {
        self.currently_allocated
    }

    /// A manager whose window is at `virtual_address`, mapped by `entry`;
    /// no frame is loaded yet.
    pub fn new(virtual_address: u64, entry: PageTableEntry) -> (r: Self)
        ensures
            r.spec_virtual_address() == virtual_address,
            r.spec_entry() == entry@,
            r.spec_loaded() == u64::MAX,
    {
        FixedAddressPageFrameManager { virtual_address, page_table_entry: entry, currently_allocated: u64::MAX }
    }

    /// The entry that maps the window.
    pub fn entry(&self) -> (r: PageTableEntry)
        ensures
            r@ == self.spec_entry(),
    {
        self.page_table_entry
    }

    /// The virtual address of the window.
    pub fn virtual_address(&self) -> (r: u64)
        ensures
            r == self.spec_virtual_address(),
    {
        self.virtual_address
    }

    /// Loads the frame at `address` into the window; nothing changes if it
    /// is loaded already. Returns whether the window's entry changed, in
    /// which case the window's translation is to be invalidated.
    pub fn load_page_frame(&mut self, address: u64) -> (r: bool)
        ensures
            r == (old(self).spec_loaded() != address),
            final(self).spec_virtual_address() == old(self).spec_virtual_address(),
            final(self).spec_loaded() == address,
            r ==> final(self).spec_entry() == window_entry(address),
            !r ==> final(self).spec_entry() == old(self).spec_entry(),
    {
        if self.currently_allocated != address {
            proof {
                lemma_window_flags();
            }
            self.page_table_entry = PageTableEntry::new().with_present().with_writable().with_no_exec().with_address(
                address,
            );
            self.currently_allocated = address;
            true
        } else {
            false
        }
    }

    /// Reads the first word of the frame at `address` through the window.
    pub fn read_u64(&mut self, mem: &PhysicalMemory, address: u64) -> (r: u64)
        requires
            valid_table(mem@, address),
        ensures
            r == read(mem@, address, 0),
            final(self).spec_loaded() == address,
            final(self).spec_virtual_address() == old(self).spec_virtual_address(),
            old(self).spec_loaded() != address ==> final(self).spec_entry() == window_entry(address),
            old(self).spec_loaded() == address ==> final(self).spec_entry() == old(self).spec_entry(),
    {
        self.load_page_frame(address);
        mem.read_entry(address, 0).bits()
    }

    /// Writes the first word of the frame at `address` through the window.
    pub fn write_u64(&mut self, mem: &mut PhysicalMemory, address: u64, value: u64)
        requires
            valid_table(old(mem)@, address),
            memory_wf(old(mem)@),
        ensures
            memory_wf(final(mem)@),
            final(mem)@ == old(mem)@.update(
                (address / 4096) as int,
                old(mem)@[(address / 4096) as int].update(0, final(mem)@[(address / 4096) as int][0]),
            ),
            read(final(mem)@, address, 0) == value,
            final(self).spec_loaded() == address,
            final(self).spec_virtual_address() == old(self).spec_virtual_address(),
            old(self).spec_loaded() != address ==> final(self).spec_entry() == window_entry(address),
            old(self).spec_loaded() == address ==> final(self).spec_entry() == old(self).spec_entry(),
    {
        self.load_page_frame(address);
        let ghost m0 = mem@;
        proof {
            assert(m0[(address / 4096) as int].len() == 512);
            crate::paging::lemma_entry_from_bits(value);
        }
        mem.write_entry(address, 0, PageTableEntry::from(value));
        proof {
            assert forall|k: int| 0 <= k < mem@.len() implies #[trigger] mem@[k].len() == 512 by {
                if k != address / 4096 {
                    assert(mem@[k] == m0[k]);
                }
            }
        }
    }
}

} // verus!
