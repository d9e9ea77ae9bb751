//! The decisions of the Limine boot stage that loads the kernel: how the
//! bootloader's memory map is read and allocated from, where the kernel's
//! stack and boot structures go, which module is the kernel, and how the
//! kernel's ELF segments are laid out in memory.
use vstd::prelude::*;

use crate::boot_memory::PHYS_LIMIT;

verus! {

/// The memory map entry types of the Limine boot protocol.
#[derive(Debug, Clone, Copy, PartialEq, Eq, Structural)]
pub enum LimineMemoryType {
    Usable,
    Reserved,
    AcpiReclaimable,
    AcpiNvs,
    BadMemory,
    BootloaderReclaimable,
    KernelAndModules,
    Framebuffer,
}

/// A memory map entry of the Limine boot protocol.
#[derive(Debug, Clone, Copy, PartialEq, Eq, Structural)]
pub struct LimineMemmapEntry {
    /// The base physical address of the region.
    pub base: u64,
    /// The length of the region in bytes.
    pub len: u64,
    /// The type of the region.
    pub typ: LimineMemoryType,
}

/// The kind of a memory region as the kernel is told of it.
#[derive(Debug, Clone, Copy, PartialEq, Eq, Structural)]
pub enum MemoryRegionKind {
    /// Memory the kernel may use.
    Usable,
    /// Memory holding the kernel and its modules.
    Modules,
    /// Memory the kernel must leave alone.
    Reserved,
}

/// A memory region as the kernel is told of it.
#[derive(Debug, Clone, Copy, PartialEq, Eq, Structural)]
pub struct MemoryRegion {
    /// The base physical address of the region.
    pub base: u64,
    /// The length of the region in bytes.
    pub length: u64,
    /// The kind of the region.
    pub kind: MemoryRegionKind,
}

/// The kernel's view of a Limine region type: usable and bootloader
/// reclaimable memory is usable, the kernel and modules are modules, and
/// everything else is reserved.
pub open spec fn oro_region_kind(kind: LimineMemoryType) -> MemoryRegionKind {
    match kind {
        LimineMemoryType::Usable => MemoryRegionKind::Usable,
        LimineMemoryType::KernelAndModules => MemoryRegionKind::Modules,
        LimineMemoryType::BootloaderReclaimable => MemoryRegionKind::Usable,
        _ => MemoryRegionKind::Reserved,
    }
}

/// Maps a Limine memory map entry type to the kernel's region kind.
pub fn map_limine_to_oro_region(kind: &LimineMemoryType) -> (r: MemoryRegionKind)
    ensures
        r == oro_region_kind(*kind),
{
    match kind {
        LimineMemoryType::Usable => MemoryRegionKind::Usable,
        LimineMemoryType::KernelAndModules => MemoryRegionKind::Modules,
        LimineMemoryType::BootloaderReclaimable => MemoryRegionKind::Usable,
        _ => MemoryRegionKind::Reserved,
    }
}

/// Whether frames may be allocated from a region of kind `kind`.
pub fn is_oro_region_allocatable(kind: &MemoryRegionKind) -> (r: bool)
    ensures
        r == (*kind == MemoryRegionKind::Usable),
{
    match kind {
        MemoryRegionKind::Usable => true,
        _ => false,
    }
}

/// Whether the boot stage allocates frames from a Limine region.
pub open spec fn limine_allocatable(e: LimineMemmapEntry) -> bool {
    oro_region_kind(e.typ) == MemoryRegionKind::Usable
}

/// The index of the first region from `i` on that frames may be allocated
/// from; the length of the map if there is none.
pub open spec fn first_allocatable_from(m: Seq<LimineMemmapEntry>, i: int) -> int
    decreases m.len() - i,
{
    if i >= m.len() {
        m.len() as int
    } else if limine_allocatable(m[i]) {
        if i < 0 {
            0
        } else {
            i
        }
    } else {
        first_allocatable_from(m, i + 1)
    }
}

proof fn lemma_first_allocatable(m: Seq<LimineMemmapEntry>, i: int)
    requires
        0 <= i,
    ensures
        i <= first_allocatable_from(m, i) <= m.len() || (i > m.len() && first_allocatable_from(m, i) == m.len()),
        first_allocatable_from(m, i) < m.len() ==> limine_allocatable(m[first_allocatable_from(m, i)]),
    decreases m.len() - i,
{
    if i < m.len() && !limine_allocatable(m[i]) {
        lemma_first_allocatable(m, i + 1);
    }
}

/// The index of the first region from `from` on that frames may be
/// allocated from; the length of the map if there is none.
fn first_allocatable(m: &Vec<LimineMemmapEntry>, from: usize) -> (r: usize)
    requires
        from <= m@.len(),
    ensures
        r == first_allocatable_from(m@, from as int),
{
    let mut i = from;
    while i < m.len()
        invariant
            from <= i <= m@.len(),
            first_allocatable_from(m@, i as int) == first_allocatable_from(m@, from as int),
        decreases m@.len() - i,
    {
        let kind = map_limine_to_oro_region(&m[i].typ);
        if is_oro_region_allocatable(&kind) {
            return i;
        }
        i = i + 1;
    }
    i
}

/// Limine memory map entries describe physical memory.
pub open spec fn limine_map_wf(m: Seq<LimineMemmapEntry>) -> bool {
    forall|i: int| 0 <= i < m.len() ==> (#[trigger] m[i]).base + m[i].len <= PHYS_LIMIT
}

/// A simple page frame allocator over the Limine memory map, handing out
/// the pages of the allocatable regions in order.
#[derive(Debug)]
pub struct LiminePageFrameAllocator {
    bios_mapping: Vec<LimineMemmapEntry>,
    bios_mapping_offset: usize,
    byte_offset: u64,
    byte_offset_max: u64,
    total_allocations: u64,
}

impl LiminePageFrameAllocator {
    /// The memory map.
    pub closed spec fn spec_map(&self) -> Seq<LimineMemmapEntry> {
        self.bios_mapping@
    }

    /// The index of the region frames come from.
    pub closed spec fn spec_region(&self) -> int {
        self.bios_mapping_offset as int
    }

    /// The next address handed out in the current region.
    pub closed spec fn spec_offset(&self) -> u64 {
        self.byte_offset
    }

    /// The end of the current region.
    pub closed spec fn spec_offset_max(&self) -> u64 {
        self.byte_offset_max
    }

    /// How many frames were handed out.
    pub closed spec fn spec_total(&self) -> u64 {
        self.total_allocations
    }

    /// The allocator's invariant.
    pub closed spec fn wf(&self) -> bool {
        &&& limine_map_wf(self.bios_mapping@)
        &&& self.bios_mapping_offset <= self.bios_mapping@.len()
        &&& self.byte_offset_max <= PHYS_LIMIT
        &&& self.byte_offset <= PHYS_LIMIT + 4096
    }

    /// An allocator over `bios_mapping`, starting at the first region
    /// (whatever its type).
    pub fn new(bios_mapping: Vec<LimineMemmapEntry>) -> (r: Self)
        requires
            limine_map_wf(bios_mapping@),
        ensures
            r.wf(),
            r.spec_map() == bios_mapping@,
            r.spec_region() == 0,
            r.spec_total() == 0,
            bios_mapping@.len() == 0 ==> r.spec_offset() == 0 && r.spec_offset_max() == 0,
            bios_mapping@.len() > 0 ==> r.spec_offset() == bios_mapping@[0].base && r.spec_offset_max() == bios_mapping@[0].base
                + bios_mapping@[0].len,
    {
        let (byte_offset, byte_offset_max) = if bios_mapping.len() == 0 {
            (0, 0)
        } else {
            proof {
                assert(bios_mapping@[0].base + bios_mapping@[0].len <= PHYS_LIMIT);
            }
            (bios_mapping[0].base, bios_mapping[0].base + bios_mapping[0].len)
        };
        LiminePageFrameAllocator {
            bios_mapping,
            bios_mapping_offset: 0,
            byte_offset,
            byte_offset_max,
            total_allocations: 0,
        }
    }

    /// How many frames were handed out.
    pub fn total_allocations(&self) -> (r: u64)
        ensures
            r == self.spec_total(),
    {
        self.total_allocations
    }

    /// Allocates a 4 KiB frame: the next page of the current region, or the
    /// first page of the next allocatable region once the current one is
    /// used up. `None` once no region is left.
    pub fn allocate_frame(&mut self) -> (r: Option<u64>)
        requires
            old(self).wf(),
            old(self).spec_total() < u64::MAX,
        ensures
            final(self).wf(),
            final(self).spec_map() == old(self).spec_map(),
            old(self).spec_offset() < old(self).spec_offset_max() ==> {
                &&& r == Some(old(self).spec_offset())
                &&& final(self).spec_region() == old(self).spec_region()
                &&& final(self).spec_offset() == old(self).spec_offset() + 4096
                &&& final(self).spec_offset_max() == old(self).spec_offset_max()
                &&& final(self).spec_total() == old(self).spec_total() + 1
            },
            old(self).spec_offset() >= old(self).spec_offset_max() ==> {
                let j = first_allocatable_from(old(self).spec_map(), old(self).spec_region() + 1);
                if j < old(self).spec_map().len() {
                    &&& r == Some(old(self).spec_map()[j].base)
                    &&& final(self).spec_region() == j
                    &&& final(self).spec_offset() == old(self).spec_map()[j].base + 4096
                    &&& final(self).spec_offset_max() == old(self).spec_map()[j].base + old(
                        self,
                    ).spec_map()[j].len
                    &&& final(self).spec_total() == old(self).spec_total() + 1
                } else {
                    &&& r is None
                    &&& final(self).spec_region() == old(self).spec_map().len()
                    &&& final(self).spec_offset() == old(self).spec_offset()
                    &&& final(self).spec_offset_max() == old(self).spec_offset_max()
                    &&& final(self).spec_total() == old(self).spec_total()
                }
            },
    {
        if self.byte_offset >= self.byte_offset_max {
            let n = self.bios_mapping.len();
            let from = if self.bios_mapping_offset < n {
                self.bios_mapping_offset + 1
            } else {
                n
            };
            let i = first_allocatable(&self.bios_mapping, from);
            proof {
                lemma_first_allocatable(self.bios_mapping@, from as int);
                if self.bios_mapping_offset >= n {
                    assert(first_allocatable_from(self.bios_mapping@, self.bios_mapping_offset + 1)
                        == self.bios_mapping@.len());
                }
            }
            if i >= n {
                self.bios_mapping_offset = n;
                return None;
            }
            proof {
                assert(self.bios_mapping@[i as int].base + self.bios_mapping@[i as int].len <= PHYS_LIMIT);
            }
            self.bios_mapping_offset = i;
            self.byte_offset = self.bios_mapping[i].base;
            self.byte_offset_max = self.byte_offset + self.bios_mapping[i].len;
        }
        let offset = self.byte_offset;
        self.byte_offset = self.byte_offset + 4096;
        self.total_allocations = self.total_allocations + 1;
        Some(offset)
    }
}

/// The uppercase hexadecimal digit for `v`, which is below 16.
pub open spec fn hex_digit(v: u64) -> u8 {
    if v < 10 {
        (48 + v) as u8
    } else {
        (55 + v) as u8
    }
}

/// The sixteen uppercase hexadecimal digits of `v`, most significant first,
/// as the boot stage prints a number.
pub fn hex_digits(v: u64) -> (r: Vec<u8>)
    ensures
        r@.len() == 16,
        forall|i: int| 0 <= i < 16 ==> r@[i] == hex_digit((v >> (4 * (15 - i)) as u64) & 0xFu64),
{
    let mut out: Vec<u8> = Vec::new();
    let mut i: u64 = 0;
    while i < 16
        invariant
            i <= 16,
            out@.len() == i,
            forall|k: int| 0 <= k < i ==> out@[k] == hex_digit((v >> (4 * (15 - k)) as u64) & 0xFu64),
        decreases 16 - i,
    {
        let shift = 4 * (15 - i);
        let nibble = (v >> shift) & 0xF;
        assert(nibble <= 0xF) by (bit_vector)
            requires
                nibble == (v >> shift) & 0xF,
        ;
        let c: u8 = if nibble < 10 {
            (48 + nibble) as u8
        } else {
            (55 + nibble) as u8
        };
        out.push(c);
        i = i + 1;
    }
    out
}

/// The index of the first nul byte of `s` from `i` on (`s.len()` if none).
pub open spec fn first_nul_from(s: Seq<u8>, i: int) -> int
    decreases s.len() - i,
{
    if i >= s.len() || i < 0 {
        s.len() as int
    } else if s[i] == 0 {
        i
    } else {
        first_nul_from(s, i + 1)
    }
}

proof fn lemma_first_nul(s: Seq<u8>, i: int)
    requires
        0 <= i <= s.len(),
    ensures
        i <= first_nul_from(s, i) <= s.len(),
        first_nul_from(s, i) < s.len() ==> s[first_nul_from(s, i)] == 0,
        forall|j: int| i <= j < first_nul_from(s, i) ==> s[j] != 0,
    decreases s.len() - i,
{
    if i < s.len() && s[i] != 0 {
        lemma_first_nul(s, i + 1);
    }
}

/// Whether the nul-terminated string `cstr` equals `bytestring` up to and
/// including the first nul of `bytestring`.
pub open spec fn cstr_matches(cstr: Seq<u8>, bytestring: Seq<u8>) -> bool {
    let k = first_nul_from(bytestring, 0);
    k < cstr.len() && cstr.subrange(0, k + 1) == bytestring.subrange(0, k + 1)
}

/// Compares the nul-terminated string `cstr` (its bytes with the nul)
/// against `bytestring` up to the first nul of `bytestring`.
pub fn cstr_eq(cstr: &[u8], bytestring: &[u8]) -> (r: bool)
    requires
        first_nul_from(cstr@, 0) < cstr@.len(),
        first_nul_from(bytestring@, 0) < bytestring@.len(),
    ensures
        r == cstr_matches(cstr@, bytestring@),
{
    proof {
        lemma_first_nul(cstr@, 0);
        lemma_first_nul(bytestring@, 0);
    }
    let ghost k = first_nul_from(bytestring@, 0);
    let ghost kc = first_nul_from(cstr@, 0);
    let mut i: usize = 0;
    loop
        invariant
            i <= k,
            i <= kc,
            k < bytestring@.len(),
            kc < cstr@.len(),
            k == first_nul_from(bytestring@, 0),
            kc == first_nul_from(cstr@, 0),
            bytestring@[k] == 0,
            cstr@[kc] == 0,
            forall|j: int| 0 <= j < k ==> bytestring@[j] != 0,
            forall|j: int| 0 <= j < kc ==> cstr@[j] != 0,
            forall|j: int| 0 <= j < i ==> cstr@[j] == bytestring@[j],
        decreases k - i,
    {
        let bsc = bytestring[i];
        if cstr[i] != bsc {
            proof {
                if cstr_matches(cstr@, bytestring@) {
                    assert(cstr@.subrange(0, k + 1)[i as int] == bytestring@.subrange(0, k + 1)[i as int]);
                }
            }
            return false;
        }
        if bsc == 0 {
            proof {
                assert(i == k);
                assert(cstr@.subrange(0, k + 1) =~= bytestring@.subrange(0, k + 1));
            }
            return true;
        }
        i = i + 1;
    }
}

/// The page-table flag bit of a present entry.
pub const PAGE_PRESENT: u64 = 0x1;

/// The page-table flag bit of a writable entry.
pub const PAGE_WRITABLE: u64 = 0x2;

/// The page-table flag bit of a non-executable entry.
pub const PAGE_NO_EXECUTE: u64 = 0x8000_0000_0000_0000;

/// The loadable-segment program header type.
pub const PT_LOAD: u32 = 1;

/// The executable segment flag.
pub const PF_X: u32 = 1;

/// The writable segment flag.
pub const PF_W: u32 = 2;

/// How the pages of one loadable ELF segment are laid out.
#[derive(Debug, Clone, Copy, PartialEq, Eq, Structural)]
pub struct SegmentLoad {
    /// The first virtual page number of the segment.
    pub start_page: u64,
    /// The last virtual page number (inclusive).
    pub end_page: u64,
    /// The page table flags of the segment's pages.
    pub flags: u64,
    /// Where the segment starts in the file.
    pub file_offset: u64,
    /// How many bytes of the segment the file holds.
    pub file_size: u64,
}

/// A program header as the loader reads it: type, flags, file offset,
/// virtual address, file size, memory size.
pub open spec fn segment_load_spec(h: (u32, u32, u64, u64, u64, u64)) -> SegmentLoad {
    SegmentLoad {
        start_page: h.3 >> 12u64,
        end_page: ((h.3 >> 12u64) + (h.5 >> 12u64)) as u64,
        flags: PAGE_PRESENT | (if h.1 & PF_W != 0 {
            PAGE_WRITABLE
        } else {
            0u64
        }) | (if h.1 & PF_X == 0 {
            PAGE_NO_EXECUTE
        } else {
            0u64
        }),
        file_offset: h.2,
        file_size: h.4,
    }
}

/// The loadable segments among the program headers `hs`, in order.
pub open spec fn load_plan(hs: Seq<(u32, u32, u64, u64, u64, u64)>) -> Seq<SegmentLoad>
    decreases hs.len(),
{
    if hs.len() == 0 {
        Seq::empty()
    } else if hs.last().0 == PT_LOAD {
        load_plan(hs.drop_last()).push(segment_load_spec(hs.last()))
    } else {
        load_plan(hs.drop_last())
    }
}

proof fn lemma_shift_bound(x: u64)
    by (bit_vector)
    ensures
        x >> 12u64 <= 0x000F_FFFF_FFFF_FFFFu64,
{
}

/// Lays out the loadable segments of the program headers `headers`.
pub fn plan_segments(headers: &Vec<(u32, u32, u64, u64, u64, u64)>) -> (r: Vec<SegmentLoad>)
    ensures
        r@ == load_plan(headers@),
{
    let mut plan: Vec<SegmentLoad> = Vec::new();
    let mut i: usize = 0;
    while i < headers.len()
        invariant
            i <= headers@.len(),
            plan@ == load_plan(headers@.subrange(0, i as int)),
        decreases headers@.len() - i,
    {
        let h = headers[i];
        proof {
            assert(headers@.subrange(0, i + 1).drop_last() =~= headers@.subrange(0, i as int));
            assert(headers@.subrange(0, i + 1).last() == h);
        }
        if h.0 == PT_LOAD {
            proof {
                lemma_shift_bound(h.3);
                lemma_shift_bound(h.5);
            }
            let start_page = h.3 >> 12;
            let end_page = start_page + (h.5 >> 12);
            let writable = if h.1 & PF_W != 0 {
                PAGE_WRITABLE
            } else {
                0
            };
            let no_exec = if h.1 & PF_X == 0 {
                PAGE_NO_EXECUTE
            } else {
                0
            };
            let flags = PAGE_PRESENT | writable | no_exec;
            plan.push(SegmentLoad { start_page, end_page, flags, file_offset: h.2, file_size: h.4 });
        }
        i = i + 1;
    }
    proof {
        assert(headers@.subrange(0, headers@.len() as int) =~= headers@);
    }
    plan
}

/// How one page of a segment is filled: from which offset of the file, how
/// many bytes are copied, and how many zeroed after them.
pub open spec fn page_fill_spec(load: SegmentLoad, page: u64) -> (u64, u64, u64) {
    let start = ((page - load.start_page) * 4096) as int;
    let end = if start + 4096 < load.file_size {
        start + 4096
    } else {
        load.file_size as int
    };
    let copy = if end > start {
        end - start
    } else {
        0
    };
    (((load.file_offset + start) % 0x1_0000_0000_0000_0000) as u64, copy as u64, (4096 - copy) as u64)
}

/// How the page `page` of the segment `load` is filled: the file offset to
/// copy from (wrapping around the address space as the loader's address
/// arithmetic does), the bytes copied, and the bytes zeroed after them.
pub fn page_fill(load: &SegmentLoad, page: u64) -> (r: (u64, u64, u64))
    requires
        load.start_page <= page <= load.end_page,
        load.end_page - load.start_page < 0x000F_FFFF_FFFF_FFFF,
    ensures
        r == page_fill_spec(*load, page),
{
    let start_segment_offset = (page - load.start_page) * 4096;
    let end_segment_offset = start_segment_offset + 0x1000;
    let end_segment_offset = if end_segment_offset < load.file_size {
        end_segment_offset
    } else {
        load.file_size
    };
    let total_copy_bytes = if end_segment_offset > start_segment_offset {
        end_segment_offset - start_segment_offset
    } else {
        0
    };
    let total_zero_bytes = 0x1000 - total_copy_bytes;
    (load.file_offset.wrapping_add(start_segment_offset), total_copy_bytes, total_zero_bytes)
}

#[verifier::external_type_specification]
#[verifier::external_body]
pub struct ExParseError(elf::ParseError);

/// What the `elf` crate reads from the bytes of an ELF file: the entry
/// point and, where the file has a program header table, its headers (type,
/// flags, file offset, virtual address, file size, memory size); `None`
/// where the crate refuses the file.
pub uninterp spec fn elf_program_headers(bytes: Seq<u8>) -> Option<
    (u64, Option<Seq<(u32, u32, u64, u64, u64, u64)>>),
>;

/// Parses `bytes` with `elf::ElfBytes::minimal_parse` (any endianness) and
/// reads the entry point of its file header and the program headers of its
/// segment table. The contract claims that the result is what the `elf`
/// crate gives for these bytes, and that a parse error is returned exactly
/// where the crate refuses them; what the crate accepts is not stated.
#[verifier::external_body]
fn parse_elf_headers(bytes: &[u8]) -> (r: Result<(u64, Option<Vec<(u32, u32, u64, u64, u64, u64)>>), elf::ParseError>)
    ensures
        r is Err <==> elf_program_headers(bytes@) is None,
        r matches Ok((e, Some(hs))) ==> elf_program_headers(bytes@) == Some((e, Some(hs@))),
        r matches Ok((e, None)) ==> elf_program_headers(bytes@) == Some((e, None::<Seq<(u32, u32, u64, u64, u64, u64)>>)),
{
    let file = elf::ElfBytes::<elf::endian::AnyEndian>::minimal_parse(bytes)?;
    let headers = file.segments().map(
        |table| table.iter().map(|h| (h.p_type, h.p_flags, h.p_offset, h.p_vaddr, h.p_filesz, h.p_memsz)).collect(),
    );
    Ok((file.ehdr.e_entry, headers))
}

/// Why the kernel image cannot be loaded.
#[derive(Debug, Clone, Copy, PartialEq, Eq, Structural)]
pub enum KernelElfError {
    /// The file is not an ELF file the parser accepts.
    Parse,
    /// The file has no program header table, hence no loadable segments.
    NoSegments,
}

/// Reads the kernel's ELF image: its entry point and the layout of its
/// loadable segments.
pub fn load_kernel_elf_err(elf_bytes: &[u8]) -> (r: Result<(u64, Vec<SegmentLoad>), KernelElfError>)
    ensures
        match elf_program_headers(elf_bytes@) {
            None => r matches Err(KernelElfError::Parse),
            Some((_, None)) => r matches Err(KernelElfError::NoSegments),
            Some((e, Some(hs))) => r matches Ok((entry, plan)) && entry == e && plan@ == load_plan(hs),
        },
{
    match parse_elf_headers(elf_bytes) {
        Err(_) => Err(KernelElfError::Parse),
        Ok((_, None)) => Err(KernelElfError::NoSegments),
        Ok((entry, Some(headers))) => Ok((entry, plan_segments(&headers))),
    }
}

/// The pages `[first, last]` without those up to `allocated`, in order.
pub open spec fn new_pages(first: int, last: int, allocated: int) -> Seq<u64> {
    let start = if first > allocated {
        first
    } else {
        allocated + 1
    };
    if last >= start {
        Seq::new((last - start + 1) as nat, |k: int| (start + k) as u64)
    } else {
        Seq::empty()
    }
}

/// Hands out the memory of the boot protocol structures: a position that
/// only grows, backed by pages mapped as it reaches them.
#[derive(Debug)]
pub struct OroBootAllocator {
    current_position: u64,
    last_allocated_page: u64,
}

impl OroBootAllocator {
    /// The address the next structure goes to.
    pub closed spec fn spec_position(&self) -> u64 {
        self.current_position
    }

    /// The last page that was backed.
    pub closed spec fn spec_last_page(&self) -> u64 {
        self.last_allocated_page
    }

    /// An allocator starting at `start`, with no page backed yet.
    pub fn new(start: u64) -> (r: Self)
        ensures
            r.spec_position() == start,
            r.spec_last_page() == 0,
    {
        OroBootAllocator { current_position: start, last_allocated_page: 0 }
    }

    /// The address the next structure goes to.
    pub fn position(&self) -> (r: u64)
        ensures
            r == self.spec_position(),
    {
        self.current_position
    }

    /// Reserves `sz` bytes at the current position. Returns the page
    /// numbers, in order, that must be backed by a new frame first: those
    /// the reservation reaches beyond the last page backed before.
    pub fn allocate(&mut self, sz: u64) -> (r: Vec<u64>)
        requires
            old(self).spec_position() + sz <= u64::MAX,
        ensures
            r@ == new_pages(
                (old(self).spec_position() >> 12u64) as int,
                (((old(self).spec_position() + sz) as u64) >> 12u64) as int,
                old(self).spec_last_page() as int,
            ),
            final(self).spec_position() == old(self).spec_position() + sz,
            final(self).spec_last_page() == ((old(self).spec_position() + sz) as u64) >> 12u64,
    {
        let position = self.current_position;
        let current_page = position >> 12;
        let end = position + sz;
        let last_page = end >> 12;
        assert(last_page <= 0x000F_FFFF_FFFF_FFFF && current_page <= last_page) by (bit_vector)
            requires
                last_page == end >> 12,
                current_page == position >> 12,
                position <= end,
        ;
        let ghost pages = new_pages(current_page as int, last_page as int, self.last_allocated_page as int);
        let mut out: Vec<u64> = Vec::new();
        let mut page = current_page;
        while page <= last_page
            invariant
                current_page <= page <= last_page + 1,
                last_page <= 0x000F_FFFF_FFFF_FFFF,
                pages == new_pages(current_page as int, last_page as int, self.last_allocated_page as int),
                out@ == new_pages(current_page as int, page - 1, self.last_allocated_page as int),
            decreases last_page + 1 - page,
        {
            if self.last_allocated_page < page {
                out.push(page);
            }
            proof {
                assert(out@ =~= new_pages(current_page as int, page as int, self.last_allocated_page as int));
            }
            page = page + 1;
        }
        proof {
            assert(out@ =~= pages);
        }
        self.current_position = self.current_position + sz;
        self.last_allocated_page = last_page;
        out
    }
}

/// The memory map handed to the kernel: each Limine region with its kind.
pub fn boot_memory_map(mmap: &Vec<LimineMemmapEntry>) -> (r: Vec<MemoryRegion>)
    ensures
        r@.len() == mmap@.len(),
        forall|i: int|
            0 <= i < mmap@.len() ==> #[trigger] r@[i] == (MemoryRegion {
                base: mmap@[i].base,
                length: mmap@[i].len,
                kind: oro_region_kind(mmap@[i].typ),
            }),
{
    let mut out: Vec<MemoryRegion> = Vec::new();
    let mut i: usize = 0;
    while i < mmap.len()
        invariant
            i <= mmap@.len(),
            out@.len() == i,
            forall|k: int|
                0 <= k < i ==> #[trigger] out@[k] == (MemoryRegion {
                    base: mmap@[k].base,
                    length: mmap@[k].len,
                    kind: oro_region_kind(mmap@[k].typ),
                }),
        decreases mmap@.len() - i,
    {
        let e = mmap[i];
        out.push(MemoryRegion { base: e.base, length: e.len, kind: map_limine_to_oro_region(&e.typ) });
        i = i + 1;
    }
    out
}

/// The initial kernel stack below the top of its segment, whose last byte
/// is `stack_last_addr`: the stack pointer the stubs load, and the 16 pages
/// `[first, end)` backed with frames (the last page stays unmapped as a
/// guard).
pub fn kernel_stack_layout(stack_last_addr: u64) -> (r: (u64, u64, u64))
    requires
        stack_last_addr >> 12u64 >= 16,
    ensures
        r.0 == stack_last_addr & !0xFFFu64,
        r.2 == stack_last_addr >> 12u64,
        r.1 == r.2 - 16,
{
    let stack_init_addr = stack_last_addr & !0xFFFu64;
    let stack_page_end = stack_last_addr >> 12u64;
    let stack_page_start = stack_page_end - 16;
    (stack_init_addr, stack_page_start, stack_page_end)
}

/// The path of the kernel module, with its nul terminator.
pub open spec fn kernel_path() -> Seq<u8> {
    seq![47u8, 111u8, 114u8, 111u8, 45u8, 107u8, 101u8, 114u8, 110u8, 101u8, 108u8, 0u8]
}

/// The index of the first module whose path is `/oro-kernel`, if any.
pub fn find_kernel_module(paths: &Vec<Vec<u8>>) -> (r: Option<usize>)
    requires
        forall|i: int| 0 <= i < paths@.len() ==> first_nul_from((#[trigger] paths@[i])@, 0) < paths@[i]@.len(),
    ensures
        r matches Some(i) ==> i < paths@.len() && cstr_matches(paths@[i as int]@, kernel_path()) && forall|j: int|
            0 <= j < i ==> !cstr_matches((#[trigger] paths@[j])@, kernel_path()),
        r is None ==> forall|j: int| 0 <= j < paths@.len() ==> !cstr_matches((#[trigger] paths@[j])@, kernel_path()),
{
    let wanted: [u8; 12] = [47, 111, 114, 111, 45, 107, 101, 114, 110, 101, 108, 0];
    proof {
        assert(wanted@ =~= kernel_path());
        reveal_with_fuel(first_nul_from, 13);
        assert(first_nul_from(kernel_path(), 0) == 11);
    }
    let mut i: usize = 0;
    while i < paths.len()
        invariant
            i <= paths@.len(),
            wanted@ == kernel_path(),
            first_nul_from(kernel_path(), 0) == 11,
            forall|k: int| 0 <= k < paths@.len() ==> first_nul_from((#[trigger] paths@[k])@, 0) < paths@[k]@.len(),
            forall|j: int| 0 <= j < i ==> !cstr_matches((#[trigger] paths@[j])@, kernel_path()),
        decreases paths@.len() - i,
    {
        assert(first_nul_from(paths@[i as int]@, 0) < paths@[i as int]@.len());
        if cstr_eq(paths[i].as_slice(), wanted.as_slice()) {
            return Some(i);
        }
        i = i + 1;
    }
    None
}

} // verus!
