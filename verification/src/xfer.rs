//! Where the transfer stubs, which switch from the boot stage to the
//! kernel, are placed in the address space.
use vstd::prelude::*;

use crate::address_space::AddressSpaceLayout;
use crate::paging::PagingLevel;

verus! {

/// The virtual address at which the boot stage maps the transfer stubs:
/// the start of root slot [`AddressSpaceLayout::STUBS_IDX`] under four
/// levels.
pub const STUBS_ADDR: u64 = 0x0000_6000_0000_0000;

/// The most pages the transfer stubs may take up.
pub const STUBS_MAX_PAGES: u64 = 512;

/// The target virtual address of the stubs for the paging level.
pub fn target_address(paging_level: PagingLevel) -> (r: u64)
    ensures
        paging_level == PagingLevel::Level4 ==> r == (AddressSpaceLayout::STUBS_IDX as u64) << 39u64,
        paging_level == PagingLevel::Level5 ==> r == (AddressSpaceLayout::STUBS_IDX as u64) << 48u64,
{
    let idx = AddressSpaceLayout::STUBS_IDX as u64;
    assert(idx << 39u64 == 0x0000_6000_0000_0000u64) by (bit_vector)
        requires
            idx == 192,
    ;
    match paging_level {
        PagingLevel::Level4 => idx << 39u64,
        PagingLevel::Level5 => idx << 48u64,
    }
}

/// Transfer token passed from the preparation of the transfer to the
/// transfer itself.
#[derive(Debug, Clone, Copy)]
pub struct TransferToken {
    /// The stack address for the kernel. Core-local.
    pub stack_ptr: u64,
    /// The physical address of the root page table entry for the kernel.
    pub page_table_phys: u64,
    /// The core ID.
    pub core_id: u64,
    /// Whether or not the core is the primary core.
    pub core_is_primary: bool,
}

/// The mappings that place the stubs, which occupy the pages
/// `start_page..end_page` (page numbers) of the boot stage's image, at
/// [`STUBS_ADDR`]: for each page in order, the virtual address it goes to
/// and the virtual address it is read from. `None` where the stubs take up
/// more than [`STUBS_MAX_PAGES`] pages.
pub fn stubs_layout(start_page: u64, end_page: u64) -> (r: Option<Vec<(u64, u64)>>)
    requires
        start_page <= end_page < 0x10_0000_0000_0000,
    ensures
        end_page - start_page > STUBS_MAX_PAGES <==> r is None,
        r matches Some(v) ==> v@.len() == end_page - start_page && forall|k: int|
            0 <= k < v@.len() ==> #[trigger] v@[k] == (
                (STUBS_ADDR + k * 4096) as u64,
                ((start_page + k) * 4096) as u64,
            ),
{
    if end_page - start_page > STUBS_MAX_PAGES {
        return None;
    }
    let mut out: Vec<(u64, u64)> = Vec::new();
    let mut page = start_page;
    while page < end_page
        invariant
            start_page <= page <= end_page < 0x10_0000_0000_0000,
            end_page - start_page <= STUBS_MAX_PAGES,
            out@.len() == page - start_page,
            forall|k: int|
                0 <= k < out@.len() ==> #[trigger] out@[k] == (
                    (STUBS_ADDR + k * 4096) as u64,
                    ((start_page + k) * 4096) as u64,
                ),
        decreases end_page - page,
    {
        let k = page - start_page;
        out.push((STUBS_ADDR + k * 4096, page * 4096));
        page = page + 1;
    }
    Some(out)
}

} // verus!
