//! Loading the root ring's modules: which address segment each ELF segment
//! of a module goes to, and how its pages are filled.
use vstd::prelude::*;

use crate::address_space::AddressSpaceLayout;
use crate::segment::AddressSegment;

verus! {

/// How the kernel classifies an ELF segment of a module.
#[derive(Debug, Clone, Copy, PartialEq, Eq, Structural)]
pub enum ElfSegmentType {
    /// A segment the loader does not load.
    Ignored,
    /// A segment whose type and flags make no sense to the kernel.
    Invalid { flags: u32, ptype: u32 },
    /// Kernel code.
    KernelCode,
    /// Kernel data.
    KernelData,
    /// Kernel read-only data.
    KernelRoData,
    /// Module code.
    ModuleCode,
    /// Module data.
    ModuleData,
    /// Module read-only data.
    ModuleRoData,
}

/// The segment layout a module segment is mapped with: the valid range of
/// its top-level indices, and its leaf and intermediate entry flags.
pub open spec fn segment_layout(s: AddressSegment) -> ((usize, usize), u64, u64) {
    (s.valid_range, s.entry_template@, s.intermediate_entry_template@)
}

/// The address segment a module's ELF segment of type `ty` is mapped into:
/// module code, data and read-only data go to the user segments of the
/// same kind. Any other type stops the loading of the whole module
/// (`None`).
pub fn module_segment(ty: ElfSegmentType) -> (r: Option<AddressSegment>)
    ensures
        ty == ElfSegmentType::ModuleCode ==> r is Some && segment_layout(r->0) == ((5usize, 16usize), 0x5u64, 0x7u64),
        ty == ElfSegmentType::ModuleData ==> r is Some && segment_layout(r->0) == (
            (5usize, 16usize),
            0x8000000000000007u64,
            0x7u64,
        ),
        ty == ElfSegmentType::ModuleRoData ==> r is Some && segment_layout(r->0) == (
            (5usize, 16usize),
            0x8000000000000005u64,
            0x7u64,
        ),
        !(ty == ElfSegmentType::ModuleCode || ty == ElfSegmentType::ModuleData || ty == ElfSegmentType::ModuleRoData)
            ==> r is None,
{
    match ty {
        ElfSegmentType::ModuleCode => Some(AddressSpaceLayout::user_code()),
        ElfSegmentType::ModuleData => Some(AddressSpaceLayout::user_data()),
        ElfSegmentType::ModuleRoData => Some(AddressSpaceLayout::user_rodata()),
        _ => None,
    }
}

/// How many pages a segment of `target_size` bytes in memory takes.
pub fn module_page_count(target_size: u64) -> (r: u64)
    ensures
        r == (if target_size + 0xFFF > u64::MAX {
            u64::MAX
        } else {
            (target_size + 0xFFF) as u64
        }) >> 12u64,
{
    target_size.saturating_add(0xFFF) >> 12u64
}

/// How page `page` of a segment with `load_size` bytes in the file is
/// filled: its byte offset in the segment, and how many bytes are copied
/// from the file (the rest of the page is zeroed).
pub fn module_page_fill(load_size: u64, page: u64) -> (r: (u64, u64))
    requires
        page < 0x0010_0000_0000_0000,
    ensures
        r.0 == page * 4096,
        r.1 == (if load_size >= page * 4096 {
            if load_size - page * 4096 < 4096 {
                load_size - page * 4096
            } else {
                4096
            }
        } else {
            0
        }),
{
    let byte_offset = page << 12u64;
    assert(byte_offset == page * 4096) by (bit_vector)
        requires
            byte_offset == page << 12u64,
            page < 0x0010_0000_0000_0000,
    ;
    let remaining = load_size.saturating_sub(byte_offset);
    let copy = if remaining < 4096 {
        remaining
    } else {
        4096
    };
    (byte_offset, copy)
}

} // verus!
