//! Properties that relate the operations of the library to one another.
use vstd::prelude::*;

use crate::address_space::{AddressSpaceHandle, AddressSpaceLayout};
use crate::paging::{has_bits, PageTableEntry, PagingLevel, ADDRESS_MASK, NON_ADDRESS_MASK};
use crate::phys::{
    frames_fresh, lemma_leaf_stable, lemma_leaf_via_reach, leaf_entry, memory_wf, missing_tables,
    only_resets, path_valid, preserves_present, reach, table_index, translate, valid_table,
};
use crate::segment::{
    freed_are_empty_tables, lemma_unmap_other_walk, map_result, root_depth, same_leaf_slot,
    sign_extend_48, sign_extend_57, unmap_changes_on_walk, unmap_result, walk_levels_consistent,
    AddressSegment, MapError, UnmapError,
};

use crate::mapper::{recursive_bits_l4, recursive_bits_l5};
use crate::preboot::{
    cstr_matches, first_nul_from, limine_allocatable, new_pages, oro_region_kind, segment_load_spec,
    LimineMemmapEntry, LimineMemoryType, MemoryRegionKind,
};
use crate::boot_memory::{
    adjust_entry, covers_low_page, entry_wf, first_low_memory_violation, lemma_first_violation,
    low_memory_ok, pfa_can_take, region_free_pages, MemoryMapEntry, MemoryMapEntryType,
};
use crate::preboot::{first_allocatable_from, load_plan, page_fill_spec, SegmentLoad};
use crate::task::irq_stack_frame;
use crate::lapic::ApicTimerMode;
use crate::lapic::ApicTimerDivideBy;
use crate::syscall::{syscall_exit_spec, Switch, SyscallExit, SyscallResponse, UserContext};

verus! {

/// Unmapping an address that translates to a frame gives back that frame.
pub proof fn law_unmap_returns_mapped_frame(
    seg: AddressSegment,
    m: Seq<Seq<PageTableEntry>>,
    space: AddressSpaceHandle,
    v: u64,
    p: u64,
)
    requires
        v & 0xFFF == 0,
        seg.in_range(v, space.paging_level),
        translate(m, space.base_phys, space.paging_level.levels(), v) == Some(p),
    ensures
        unmap_result(seg, m, space, v) == Ok::<u64, UnmapError>(p),
{
}

/// Unmapping `v` (from the memory `m1` and the free frames `a1` to `m2` and
/// `a2`, as the unmap functions' contracts describe) leaves the translation
/// of every other address `w` as it was: every address whose walk ends at
/// another leaf slot than `v`'s, where the two walks share tables only at
/// the same level.
pub proof fn law_unmap_keeps_other_translations(
    m1: Seq<Seq<PageTableEntry>>,
    m2: Seq<Seq<PageTableEntry>>,
    a1: Seq<u64>,
    a2: Seq<u64>,
    space: AddressSpaceHandle,
    v: u64,
    w: u64,
)
    requires
        memory_wf(m2),
        m1.len() == m2.len(),
        valid_table(m1, space.base_phys),
        path_valid(m1, space.base_phys, root_depth(space.paging_level), w),
        only_resets(m1, m2),
        unmap_changes_on_walk(m1, m2, a1, a2, space.base_phys, root_depth(space.paging_level), v),
        freed_are_empty_tables(m2, a1, a2),
        walk_levels_consistent(m1, space.base_phys, root_depth(space.paging_level), v, w),
        !same_leaf_slot(m1, space.base_phys, root_depth(space.paging_level), v, w),
    ensures
        translate(m2, space.base_phys, space.paging_level.levels(), w) == translate(
            m1,
            space.base_phys,
            space.paging_level.levels(),
            w,
        ),
{
    let depth = root_depth(space.paging_level);
    assert(reach(m1, space.base_phys, depth, depth, w) == Some(space.base_phys));
    assert(reach(m2, space.base_phys, depth, depth, w) == Some(space.base_phys));
    lemma_unmap_other_walk(m1, m2, a1, a2, space.base_phys, depth, v, w, space.base_phys, depth);
}

/// Changing only entries that were not present (and frames that were free)
/// never alters an existing translation; in particular mapping one address
/// keeps every address that was mapped before mapped to the same frame.
pub proof fn law_existing_translations_survive(
    m1: Seq<Seq<PageTableEntry>>,
    m2: Seq<Seq<PageTableEntry>>,
    free: Seq<u64>,
    space: AddressSpaceHandle,
    v: u64,
)
    requires
        frames_fresh(m1, free),
        preserves_present(m1, m2, free),
        !free.contains(space.base_phys),
        translate(m1, space.base_phys, space.paging_level.levels(), v) is Some,
    ensures
        translate(m2, space.base_phys, space.paging_level.levels(), v) == translate(
            m1,
            space.base_phys,
            space.paging_level.levels(),
            v,
        ),
{
    lemma_leaf_stable(m1, m2, free, space.base_phys, root_depth(space.paging_level), v);
}

/// Mapping an address that is already mapped fails with `Exists`.
pub proof fn law_map_of_mapped_address_exists(
    seg: AddressSegment,
    m: Seq<Seq<PageTableEntry>>,
    free: Seq<u64>,
    space: AddressSpaceHandle,
    v: u64,
)
    requires
        v & 0xFFF == 0,
        seg.in_range(v, space.paging_level),
        translate(m, space.base_phys, space.paging_level.levels(), v) is Some,
    ensures
        map_result(seg, m, free, space, v) == Err::<(), MapError>(MapError::Exists),
{
    lemma_leaf_via_reach(m, space.base_phys, root_depth(space.paging_level), 0, v);
}

/// Mapping an aligned, in-range address that is not mapped succeeds as long
/// as enough frames are free for the missing tables.
pub proof fn law_map_of_unmapped_address_succeeds(
    seg: AddressSegment,
    m: Seq<Seq<PageTableEntry>>,
    free: Seq<u64>,
    space: AddressSpaceHandle,
    v: u64,
)
    requires
        v & 0xFFF == 0,
        seg.in_range(v, space.paging_level),
        translate(m, space.base_phys, space.paging_level.levels(), v) is None,
        missing_tables(m, space.base_phys, root_depth(space.paging_level), v) <= free.len(),
    ensures
        map_result(seg, m, free, space, v) == Ok::<(), MapError>(()),
{
}

/// Replacing the address of an entry keeps every flag bit and yields the
/// (truncated) new address.
pub proof fn law_with_address_roundtrip(entry: u64, address: u64)
    by (bit_vector)
    ensures
        ((entry & NON_ADDRESS_MASK) | (address & ADDRESS_MASK)) & ADDRESS_MASK == address
            & ADDRESS_MASK,
        ((entry & NON_ADDRESS_MASK) | (address & ADDRESS_MASK)) & NON_ADDRESS_MASK == entry
            & NON_ADDRESS_MASK,
{
}

/// Setting a flag bit makes it read as set, clearing it makes it read as
/// clear, and neither touches any other bit.
pub proof fn law_flag_set_clear(v: u64, n: u64, k: u64)
    by (bit_vector)
    requires
        n < 64,
        k < 64,
        k != n,
    ensures
        has_bits(v | (1u64 << n), 1u64 << n),
        !has_bits(v & !(1u64 << n), 1u64 << n),
        has_bits(v | (1u64 << n), 1u64 << k) == has_bits(v, 1u64 << k),
        has_bits(v & !(1u64 << n), 1u64 << k) == has_bits(v, 1u64 << k),
{
}

/// The range of a four-level segment starts at the first byte of its first
/// top-level slot and ends at the last byte of its last one.
pub proof fn law_segment_range_l4(lo: u64, hi: u64)
    by (bit_vector)
    requires
        lo < 512,
        hi < 512,
    ensures
        (sign_extend_48(lo << 39u64) >> 39u64) & 0x1FF == lo,
        sign_extend_48(lo << 39u64) & 0x0000_007F_FFFF_FFFFu64 == 0,
        (sign_extend_48((hi << 39u64) | 0x0000_007F_FFFF_FFFFu64) >> 39u64) & 0x1FF == hi,
        sign_extend_48((hi << 39u64) | 0x0000_007F_FFFF_FFFFu64) & 0x0000_007F_FFFF_FFFFu64
            == 0x0000_007F_FFFF_FFFFu64,
{
}

/// The range of a five-level segment starts at the first byte of its first
/// top-level slot and ends at the last byte of its last one.
pub proof fn law_segment_range_l5(lo: u64, hi: u64)
    by (bit_vector)
    requires
        lo < 512,
        hi < 512,
    ensures
        (sign_extend_57(lo << 48u64) >> 48u64) & 0x1FF == lo,
        sign_extend_57(lo << 48u64) & 0x0000_FFFF_FFFF_FFFFu64 == 0,
        (sign_extend_57((hi << 48u64) | 0x0000_FFFF_FFFF_FFFFu64) >> 48u64) & 0x1FF == hi,
        sign_extend_57((hi << 48u64) | 0x0000_FFFF_FFFF_FFFFu64) & 0x0000_FFFF_FFFF_FFFFu64
            == 0x0000_FFFF_FFFF_FFFFu64,
{
}

/// The recursive address of an entry in a four-level space walks through
/// the recursive slot and then the given indices, and lands on the entry's
/// byte offset within its table.
pub proof fn law_recursive_address_l4(i4: u64, i3: u64, i2: u64, i1: u64)
    requires
        i4 < 512,
        i3 < 512,
        i2 < 512,
        i1 < 512,
    ensures
        table_index(sign_extend_48(recursive_bits_l4(i4, i3, i2, i1)), 3) == 256,
        table_index(sign_extend_48(recursive_bits_l4(i4, i3, i2, i1)), 2) == i4,
        table_index(sign_extend_48(recursive_bits_l4(i4, i3, i2, i1)), 1) == i3,
        table_index(sign_extend_48(recursive_bits_l4(i4, i3, i2, i1)), 0) == i2,
        sign_extend_48(recursive_bits_l4(i4, i3, i2, i1)) & 0xFFFu64 == i1 * 8,
{
    let a = sign_extend_48(recursive_bits_l4(i4, i3, i2, i1));
    assert((a >> 39u64) & 0x1FFu64 == 256 && (a >> 30u64) & 0x1FFu64 == i4 && (a >> 21u64) & 0x1FFu64 == i3
        && (a >> 12u64) & 0x1FFu64 == i2 && a & 0xFFFu64 == i1 * 8) by (bit_vector)
        requires
            i4 < 512,
            i3 < 512,
            i2 < 512,
            i1 < 512,
            a == sign_extend_48(recursive_bits_l4(i4, i3, i2, i1)),
    ;
}

/// The recursive address of an entry in a five-level space walks through
/// the recursive slot and then the given indices, and lands on the entry's
/// byte offset within its table.
pub proof fn law_recursive_address_l5(i5: u64, i4: u64, i3: u64, i2: u64, i1: u64)
    requires
        i5 < 512,
        i4 < 512,
        i3 < 512,
        i2 < 512,
        i1 < 512,
    ensures
        table_index(sign_extend_57(recursive_bits_l5(i5, i4, i3, i2, i1)), 4) == 256,
        table_index(sign_extend_57(recursive_bits_l5(i5, i4, i3, i2, i1)), 3) == i5,
        table_index(sign_extend_57(recursive_bits_l5(i5, i4, i3, i2, i1)), 2) == i4,
        table_index(sign_extend_57(recursive_bits_l5(i5, i4, i3, i2, i1)), 1) == i3,
        table_index(sign_extend_57(recursive_bits_l5(i5, i4, i3, i2, i1)), 0) == i2,
        sign_extend_57(recursive_bits_l5(i5, i4, i3, i2, i1)) & 0xFFFu64 == i1 * 8,
{
    let a = sign_extend_57(recursive_bits_l5(i5, i4, i3, i2, i1));
    assert((a >> 48u64) & 0x1FFu64 == 256 && (a >> 39u64) & 0x1FFu64 == i5 && (a >> 30u64) & 0x1FFu64 == i4
        && (a >> 21u64) & 0x1FFu64 == i3 && (a >> 12u64) & 0x1FFu64 == i2 && a & 0xFFFu64 == i1 * 8)
        by (bit_vector)
        requires
            i5 < 512,
            i4 < 512,
            i3 < 512,
            i2 < 512,
            i1 < 512,
            a == sign_extend_57(recursive_bits_l5(i5, i4, i3, i2, i1)),
    ;
}

/// Splitting a model-specific register value into the halves `wrmsr`
/// takes and joining them as `rdmsr` does gives the value back.
pub proof fn law_msr_roundtrip(value: u64)
    ensures
        ((((value >> 32u64) as u32) as u64) << 32u64) | ((value as u32) as u64) == value,
{
    assert(((((value >> 32u64) as u32) as u64) << 32u64) | ((value as u32) as u64) == value) by (bit_vector);
}

/// A nul-terminated string matches itself.
pub proof fn law_cstr_matches_self(s: Seq<u8>)
    requires
        first_nul_from(s, 0) < s.len(),
    ensures
        cstr_matches(s, s),
{
}

/// Two successive reservations of the boot structure allocator never back
/// the same page twice: every page the second one backs lies above every
/// page the first one backed.
pub proof fn law_boot_pages_disjoint(first: int, boundary: int, last: int, allocated: int, x: int, y: int)
    requires
        0 <= first <= 0x000F_FFFF_FFFF_FFFF,
        0 <= boundary <= 0x000F_FFFF_FFFF_FFFF,
        0 <= last <= 0x000F_FFFF_FFFF_FFFF,
        0 <= allocated <= 0x000F_FFFF_FFFF_FFFF,
        0 <= x < new_pages(first, boundary, allocated).len(),
        0 <= y < new_pages(boundary, last, boundary).len(),
    ensures
        new_pages(first, boundary, allocated)[x] < new_pages(boundary, last, boundary)[y],
{
    let s1 = if first > allocated {
        first
    } else {
        allocated + 1
    };
    assert(new_pages(first, boundary, allocated)[x] == (s1 + x) as u64);
    assert(s1 + x <= boundary);
    assert(new_pages(boundary, last, boundary)[y] == (boundary + 1 + y) as u64);
}

/// The address space layout's indices are sorted and do not overlap: the
/// user segments (boot stubs, system ABI, module executables and stacks)
/// lie in the lower half of the root table, the recursive slot and the
/// kernel segments in the upper half.
pub proof fn law_layout_indices()
    ensures
        AddressSpaceLayout::KERNEL_SECONDARY_BOOT_IDX < AddressSpaceLayout::SYSABI,
        AddressSpaceLayout::SYSABI < AddressSpaceLayout::MODULE_EXE_IDX.0,
        AddressSpaceLayout::MODULE_EXE_IDX.0 <= AddressSpaceLayout::MODULE_EXE_IDX.1,
        AddressSpaceLayout::MODULE_EXE_IDX.1 < AddressSpaceLayout::MODULE_THREAD_STACK_IDX,
        AddressSpaceLayout::MODULE_THREAD_STACK_IDX < AddressSpaceLayout::MODULE_INTERRUPT_STACK_IDX,
        AddressSpaceLayout::MODULE_INTERRUPT_STACK_IDX < 256,
        256 <= AddressSpaceLayout::RECURSIVE_IDX,
        AddressSpaceLayout::RECURSIVE_IDX < AddressSpaceLayout::KERNEL_STACK_IDX,
        AddressSpaceLayout::KERNEL_STACK_IDX < AddressSpaceLayout::LINEAR_MAP_IDX.0,
        AddressSpaceLayout::LINEAR_MAP_IDX.0 <= AddressSpaceLayout::LINEAR_MAP_IDX.1,
        AddressSpaceLayout::LINEAR_MAP_IDX.1 < AddressSpaceLayout::KERNEL_CORE_LOCAL_IDX,
        AddressSpaceLayout::KERNEL_CORE_LOCAL_IDX < AddressSpaceLayout::KERNEL_SYSCALL_STACK_IDX,
        AddressSpaceLayout::KERNEL_SYSCALL_STACK_IDX < AddressSpaceLayout::KERNEL_EXE_IDX,
        AddressSpaceLayout::KERNEL_EXE_IDX < 512,
{
}

/// The kernel learns of usable memory from the Limine types `Usable` and
/// `BootloaderReclaimable`, of its modules from `KernelAndModules`; every
/// other Limine type (reserved, ACPI, bad memory, framebuffer) is reserved
/// memory, and frames are allocated from the usable kinds only.
pub proof fn law_limine_region_kinds(k: LimineMemoryType, e: LimineMemmapEntry)
    ensures
        k == LimineMemoryType::Usable ==> oro_region_kind(k) == MemoryRegionKind::Usable,
        k == LimineMemoryType::BootloaderReclaimable ==> oro_region_kind(k) == MemoryRegionKind::Usable,
        k == LimineMemoryType::KernelAndModules ==> oro_region_kind(k) == MemoryRegionKind::Modules,
        k != LimineMemoryType::Usable && k != LimineMemoryType::BootloaderReclaimable && k
            != LimineMemoryType::KernelAndModules ==> oro_region_kind(k) == MemoryRegionKind::Reserved,
        oro_region_kind(LimineMemoryType::Reserved) == MemoryRegionKind::Reserved,
        oro_region_kind(LimineMemoryType::AcpiReclaimable) == MemoryRegionKind::Reserved,
        oro_region_kind(LimineMemoryType::AcpiNvs) == MemoryRegionKind::Reserved,
        oro_region_kind(LimineMemoryType::BadMemory) == MemoryRegionKind::Reserved,
        oro_region_kind(LimineMemoryType::Framebuffer) == MemoryRegionKind::Reserved,
        limine_allocatable(e) <==> (e.typ == LimineMemoryType::Usable || e.typ
            == LimineMemoryType::BootloaderReclaimable),
{
}

proof fn lemma_segment_flag_bits(x: u32, w: u64, n: u64, va: u64, ms: u64)
    by (bit_vector)
    requires
        w == (if x & 2u32 != 0 {
            2u64
        } else {
            0u64
        }),
        n == (if x & 1u32 == 0 {
            0x8000_0000_0000_0000u64
        } else {
            0u64
        }),
    ensures
        ((1u64 | w | n) & 0x2u64 != 0) == (x & 2u32 != 0),
        ((1u64 | w | n) & 0x8000_0000_0000_0000u64 != 0) == (x & 1u32 == 0),
        (1u64 | w | n) & 0x1u64 != 0,
        (1u64 | w | n) & !0x8000_0000_0000_0003u64 == 0,
        va >> 12u64 == va / 4096,
        ms >> 12u64 == ms / 4096,
{
}

/// The pages of a loadable segment are present; writable exactly when the
/// segment's `PF_W` flag (bit 1) is set; non-executable exactly when its
/// `PF_X` flag (bit 0) is clear; and carry no other flag. They run from the
/// page of the segment's virtual address over as many pages as its memory
/// size spans in whole pages, and are filled from its file offset and file
/// size.
pub proof fn law_segment_flags(h: (u32, u32, u64, u64, u64, u64))
    ensures
        segment_load_spec(h).start_page == h.3 / 4096,
        segment_load_spec(h).end_page == h.3 / 4096 + h.5 / 4096,
        segment_load_spec(h).file_offset == h.2,
        segment_load_spec(h).file_size == h.4,
        (segment_load_spec(h).flags & 0x2u64 != 0) == (h.1 & 2u32 != 0),
        (segment_load_spec(h).flags & 0x8000_0000_0000_0000u64 != 0) == (h.1 & 1u32 == 0),
        segment_load_spec(h).flags & 0x1u64 != 0,
        segment_load_spec(h).flags & !0x8000_0000_0000_0003u64 == 0,
{
    let w: u64 = if h.1 & 2u32 != 0 {
        2u64
    } else {
        0u64
    };
    let n: u64 = if h.1 & 1u32 == 0 {
        0x8000_0000_0000_0000u64
    } else {
        0u64
    };
    lemma_segment_flag_bits(h.1, w, n, h.3, h.5);
    assert(segment_load_spec(h).flags == 1u64 | w | n);
}

/// A system call's exit hands the calling or next task the scheduler's
/// response through `sysret` whenever there is one (the error and the
/// return value as given), and resumes it through `iretq` where there is
/// none; either way into the task's address space and onto its IRQ stack,
/// with the IRQ stack base as `rsp0`.
pub proof fn law_syscall_exit_response(ctx: UserContext, resp: SyscallResponse, base: u64)
    ensures
        syscall_exit_spec(Switch::UserResume(ctx, Some(resp)), base) == (SyscallExit::UserToUserSysret {
            cr3: ctx.cr3,
            rsp: ctx.irq_stack_ptr,
            error: resp.error,
            ret: resp.ret,
            rsp0: base,
        }),
        syscall_exit_spec(Switch::UserToUser(ctx, Some(resp)), base) == (SyscallExit::UserToUserSysret {
            cr3: ctx.cr3,
            rsp: ctx.irq_stack_ptr,
            error: resp.error,
            ret: resp.ret,
            rsp0: base,
        }),
        syscall_exit_spec(Switch::UserResume(ctx, None), base) == (SyscallExit::UserToUser {
            cr3: ctx.cr3,
            rsp: ctx.irq_stack_ptr,
            rsp0: base,
        }),
        syscall_exit_spec(Switch::UserToUser(ctx, None), base) == (SyscallExit::UserToUser {
            cr3: ctx.cr3,
            rsp: ctx.irq_stack_ptr,
            rsp0: base,
        }),
        syscall_exit_spec(Switch::UserToKernel, base) == SyscallExit::ReturnToKernel,
{
}

/// The divide configuration register encodes each divisor of the LAPIC
/// timer as the Intel SDM gives it (bits 0, 1 and 3), and no two divisors
/// share an encoding.
pub proof fn law_timer_divider_encoding(a: ApicTimerDivideBy, b: ApicTimerDivideBy)
    ensures
        ApicTimerDivideBy::Div2.value() == 0b0000u32,
        ApicTimerDivideBy::Div4.value() == 0b0001u32,
        ApicTimerDivideBy::Div8.value() == 0b0010u32,
        ApicTimerDivideBy::Div16.value() == 0b0011u32,
        ApicTimerDivideBy::Div32.value() == 0b1000u32,
        ApicTimerDivideBy::Div64.value() == 0b1001u32,
        ApicTimerDivideBy::Div128.value() == 0b1010u32,
        ApicTimerDivideBy::Div1.value() == 0b1011u32,
        a.value() == b.value() ==> a == b,
{
}

/// The page at `0x8000` counts as covered by a region exactly when the
/// region starts below 1 MiB, at or below `0x8000`, and reaches to
/// `0x9000`; the page at `0x9000`, independently, exactly when the region
/// starts below 1 MiB, at or below `0x9000`, and reaches to `0xA000`.
pub proof fn law_low_pages_covered(e: MemoryMapEntry)
    ensures
        covers_low_page(e, 0x8000) <==> (e.base < 0x100000 && e.base <= 0x8000 && e.base + e.length >= 0x9000),
        covers_low_page(e, 0x9000) <==> (e.base < 0x100000 && e.base <= 0x9000 && e.base + e.length >= 0xA000),
{
}

/// The loader plans exactly the headers of type `PT_LOAD` (type 1), in the
/// order of the program header table, and skips every other one.
pub proof fn law_load_plan(hs: Seq<(u32, u32, u64, u64, u64, u64)>, h: (u32, u32, u64, u64, u64, u64))
    ensures
        h.0 == 1u32 ==> load_plan(hs.push(h)) == load_plan(hs).push(segment_load_spec(h)),
        h.0 != 1u32 ==> load_plan(hs.push(h)) == load_plan(hs),
        load_plan(Seq::<(u32, u32, u64, u64, u64, u64)>::empty()).len() == 0,
{
    assert(hs.push(h).drop_last() =~= hs);
}

/// Each page of a segment takes the next 4096 bytes of the segment's file
/// image, as far as the file size reaches, and zeroes the rest of the page:
/// nothing past the file size is copied, and a page is copied or zeroed in
/// full.
pub proof fn law_page_fill(load: SegmentLoad, page: u64)
    requires
        load.start_page <= page,
    ensures
        ({
            let off = (page - load.start_page) * 4096;
            let (src, copy, zero) = page_fill_spec(load, page);
            &&& copy + zero == 4096
            &&& load.file_size <= off ==> copy == 0
            &&& off + 4096 <= load.file_size ==> copy == 4096
            &&& off < load.file_size < off + 4096 ==> copy == load.file_size - off
            &&& src == (load.file_offset + off) % 0x1_0000_0000_0000_0000
        }),
{
}

/// The Limine allocator moves on, from index `i`, to the first region that
/// is `Usable` or `BootloaderReclaimable`: every region it skips is of
/// another type.
pub proof fn law_first_allocatable(m: Seq<LimineMemmapEntry>, i: int)
    requires
        0 <= i <= m.len(),
    ensures
        i <= first_allocatable_from(m, i) <= m.len(),
        first_allocatable_from(m, i) < m.len() ==> (m[first_allocatable_from(m, i)].typ == LimineMemoryType::Usable
            || m[first_allocatable_from(m, i)].typ == LimineMemoryType::BootloaderReclaimable),
        forall|j: int|
            i <= j < first_allocatable_from(m, i) ==> #[trigger] m[j].typ != LimineMemoryType::Usable && m[j].typ
                != LimineMemoryType::BootloaderReclaimable,
    decreases m.len() - i,
{
    if i < m.len() {
        law_limine_region_kinds(m[i].typ, m[i]);
        if !limine_allocatable(m[i]) {
            law_first_allocatable(m, i + 1);
        }
    }
}

/// A region that reaches into the first 1 MiB must mark every byte it has
/// there as used: all its bytes when it ends within 1 MiB, those up to
/// 1 MiB otherwise; a region starting at or above 1 MiB is never at fault.
/// The low-memory check reports the first region at fault.
pub proof fn law_low_memory(e: MemoryMapEntry, entries: Seq<MemoryMapEntry>)
    ensures
        e.base >= 0x100000 ==> low_memory_ok(e),
        e.base < 0x100000 && e.base + e.length <= 0x100000 ==> (low_memory_ok(e) <==> e.used >= e.length),
        e.base < 0x100000 && e.base + e.length > 0x100000 ==> (low_memory_ok(e) <==> e.used + e.base >= 0x100000),
        first_low_memory_violation(entries, 0) is None <==> forall|j: int|
            0 <= j < entries.len() ==> low_memory_ok(#[trigger] entries[j]),
        first_low_memory_violation(entries, 0) matches Some(k) ==> 0 <= k < entries.len() && !low_memory_ok(
            entries[k],
        ) && forall|j: int| 0 <= j < k ==> low_memory_ok(#[trigger] entries[j]),
{
    lemma_first_violation(entries, 0);
}

/// The frame allocator over the memory map takes frames from `Usable`
/// regions only, a whole page at a time; it takes a region in past the
/// bytes the bootloader used, from the next page boundary, without going
/// past the region's end.
pub proof fn law_memory_map_frames(e: MemoryMapEntry)
    requires
        entry_wf(e),
    ensures
        pfa_can_take(e) <==> (e.ty == MemoryMapEntryType::Usable && e.length >= 4096),
        adjust_entry(e).ty == e.ty,
        adjust_entry(e).used == 0,
        adjust_entry(e).base >= e.base + e.used,
        adjust_entry(e).length > 0 ==> adjust_entry(e).base % 4096 == 0 && adjust_entry(e).base
            + adjust_entry(e).length <= e.base + e.length,
{
}

/// Once the linear map is in place, the pages of a `Usable` region past
/// the bytes the bootloader used go to the page frame allocator: each is
/// page-aligned and starts within the region, past the used bytes; other
/// regions give no pages.
pub proof fn law_region_free_pages(e: MemoryMapEntry, k: int)
    requires
        entry_wf(e),
        0 <= k < region_free_pages(e).len(),
    ensures
        e.ty == MemoryMapEntryType::Usable,
        region_free_pages(e)[k] % 4096 == 0,
        region_free_pages(e)[k] >= e.base + e.used,
        region_free_pages(e)[k] < e.base + e.length,
{
    let base = e.base + e.used;
    let length = e.length - e.used;
    let aligned = if base % 4096 == 0 { base } else { base + (4096 - base % 4096) };
    let rest = if length >= aligned - base { length - (aligned - base) } else { 0 };
    assert(aligned % 4096 == 0);
    assert(k < (rest + 4095) / 4096);
    assert(4096 * k < rest) by (nonlinear_arith)
        requires
            0 <= k < (rest + 4095) / 4096,
            rest >= 0,
    ;
    assert((aligned + 4096 * k) % 4096 == 0) by (nonlinear_arith)
        requires
            aligned % 4096 == 0,
            k >= 0,
    ;
}

proof fn lemma_irq_frame_bits(rflags: u64)
    by (bit_vector)
    ensures
        (0x18u16 | 3u16) as u64 == 0x1Bu64,
        (0x20u16 | 3u16) as u64 == 0x23u64,
        (rflags | 0x200u64) & 0x200u64 != 0,
        (rflags | 0x200u64) & !0x200u64 == rflags & !0x200u64,
{
}

/// A user thread's first switch pops, from the top of its IRQ stack, the
/// entry point, the user code selector with RPL 3 (`0x1B`), the flags with
/// interrupts enabled and every other flag as given, the stack pointer, and
/// the user data selector with RPL 3 (`0x23`); the 16 words below them
/// (the general registers) start zeroed.
pub proof fn law_irq_stack_frame(entry_point: u64, stack_ptr: u64, rflags: u64)
    ensures
        irq_stack_frame(entry_point, stack_ptr, rflags).len() == 21,
        forall|i: int| 0 <= i < 16 ==> #[trigger] irq_stack_frame(entry_point, stack_ptr, rflags)[i] == 0,
        irq_stack_frame(entry_point, stack_ptr, rflags)[16] == entry_point,
        irq_stack_frame(entry_point, stack_ptr, rflags)[17] == 0x1Bu64,
        irq_stack_frame(entry_point, stack_ptr, rflags)[18] & 0x200u64 != 0,
        irq_stack_frame(entry_point, stack_ptr, rflags)[18] & !0x200u64 == rflags & !0x200u64,
        irq_stack_frame(entry_point, stack_ptr, rflags)[19] == stack_ptr,
        irq_stack_frame(entry_point, stack_ptr, rflags)[20] == 0x23u64,
{
    lemma_irq_frame_bits(rflags);
}

/// The LVT timer register's mode field (bits 17 and 18) holds 0 for one-shot,
/// 1 for periodic and 2 for TSC-deadline mode.
pub proof fn law_timer_mode_encoding()
    ensures
        ApicTimerMode::OneShot.value() == 0u32,
        ApicTimerMode::Periodic.value() == 0x2_0000u32,
        ApicTimerMode::TscDeadline.value() == 0x4_0000u32,
{
}

} // verus!
