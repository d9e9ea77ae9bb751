//! Booting the secondary cores: the values handed to a secondary core's
//! boot stub, and the primary core's decisions while it waits for the
//! secondary to come up.
use vstd::prelude::*;

use crate::address_space::AddressSpaceLayout;
use crate::paging::PagingLevel;
use crate::reg::Cr4;
use crate::segment::{sign_extend_48, sign_extend_57, MapError, UnmapError};

verus! {

/// Why a secondary core could not be booted.
#[derive(Debug, Clone, Copy, PartialEq, Eq, Structural)]
pub enum BootError {
    /// No frame was left for the secondary's address space or stack.
    OutOfMemory,
    /// Mapping the secondary's boot stub or stack failed.
    MapError(MapError),
    /// Unmapping the secondary's stack guard pages failed.
    UnmapError(UnmapError),
    /// The secondary reported this error code.
    SecondaryError(u64),
    /// The secondary did not report back in time.
    SecondaryTimeout,
}

/// How many times the primary core reads the secondary's flag before it
/// gives up.
pub const SECONDARY_POLL_LIMIT: u64 = 10_000_000;

/// The value the primary core stores in its own flag to tell a secondary
/// that failed or timed out to give up.
pub const SECONDARY_ABORT_FLAG: u64 = 0xFFFF_FFFF_FFFF_FFFE;

/// What the primary core does on reading `flag` from the secondary's flag
/// at the `attempt`-th read (counted from 0): `None` to spin and read
/// again; otherwise the outcome of the boot.
pub fn secondary_poll(flag: u64, attempt: u64) -> (r: Option<Result<(), BootError>>)
    ensures
        flag == 1 ==> r == Some(Ok::<(), BootError>(())),
        flag != 0 && flag != 1 ==> r == Some(Err::<(), BootError>(BootError::SecondaryError(flag))),
        flag == 0 && attempt + 1 >= SECONDARY_POLL_LIMIT ==> r == Some(
            Err::<(), BootError>(BootError::SecondaryTimeout),
        ),
        flag == 0 && attempt + 1 < SECONDARY_POLL_LIMIT ==> r is None,
{
    if flag == 1 {
        Some(Ok(()))
    } else if flag != 0 {
        Some(Err(BootError::SecondaryError(flag)))
    } else if attempt >= SECONDARY_POLL_LIMIT - 1 {
        Some(Err(BootError::SecondaryTimeout))
    } else {
        None
    }
}

/// The CR4 bits the secondary's boot stub loads: the primary's CR4 with
/// global pages disabled, truncated to 32 bits.
pub fn secondary_cr4_bits(cr4: Cr4) -> (r: u32)
    ensures
        r == (cr4@ & !0x80u64) as u32,
{
    cr4.with_pge(false).bits() as u32
}

/// The six bytes of the GDT descriptor the secondary's boot stub loads: the
/// limit (the GDT's size less one), then the base, both little-endian.
pub fn gdtr_bytes(gdt_len: u16, base: u32) -> (r: [u8; 6])
    requires
        gdt_len > 0,
    ensures
        r@ == seq![
            (gdt_len - 1) as u8,
            ((gdt_len - 1) as u16 >> 8u16) as u8,
            base as u8,
            (base >> 8u32) as u8,
            (base >> 16u32) as u8,
            (base >> 24u32) as u8,
        ],
{
    let limit = gdt_len - 1;
    [limit as u8, (limit >> 8u16) as u8, base as u8, (base >> 8u32) as u8, (base >> 16u32) as u8, (base >> 24u32) as u8]
}

proof fn lemma_stack_top_values()
    by (bit_vector)
    ensures
        sign_extend_48((257u64 << 39u64) | 0x0000_007F_FFFF_FFFFu64) & !0xFFFu64 == 0xFFFF_80FF_FFFF_F000u64,
        sign_extend_57((257u64 << 48u64) | 0x0000_FFFF_FFFF_FFFFu64) & !0xFFFu64 == 0xFF01_FFFF_FFFF_F000u64,
{
}

/// The kernel stack of a secondary core: the top page of the kernel stack
/// segment (left unmapped as the high guard, and the initial stack
/// pointer), the `stack_pages` pages below it from the highest down, and
/// the low guard page below those. The stack and its guard pages must fit
/// in the segment (a single root slot: 2^27 pages with four levels).
pub fn secondary_stack_pages(paging_level: PagingLevel, stack_pages: u64) -> (r: (u64, Vec<u64>, u64))
    requires
        stack_pages + 2 <= 0x800_0000,
    ensures
        paging_level == PagingLevel::Level4 ==> r.0 == 0xFFFF_80FF_FFFF_F000u64,
        paging_level == PagingLevel::Level5 ==> r.0 == 0xFF01_FFFF_FFFF_F000u64,
        r.1@.len() == stack_pages,
        forall|k: int| 0 <= k < stack_pages ==> #[trigger] r.1@[k] == r.0 - 4096 * (k + 1),
        r.2 == r.0 - 4096 * (stack_pages + 1),
{
    proof {
        lemma_stack_top_values();
    }
    let last = AddressSpaceLayout::kernel_stack().range(paging_level).1 & !0xFFFu64;
    let mut pages: Vec<u64> = Vec::new();
    let mut bottom = last;
    let mut k: u64 = 0;
    while k < stack_pages
        invariant
            k <= stack_pages,
            stack_pages + 2 <= 0x800_0000,
            last >= 0xFF01_FFFF_FFFF_F000u64,
            bottom == last - 4096 * k,
            pages@.len() == k,
            forall|j: int| 0 <= j < k ==> #[trigger] pages@[j] == last - 4096 * (j + 1),
        decreases stack_pages - k,
    {
        bottom = bottom - 4096;
        pages.push(bottom);
        k = k + 1;
    }
    (last, pages, bottom - 4096)
}

} // verus!
