//! Preparing a user task for its first switch from the kernel.
use vstd::prelude::*;

use crate::gdt::{USER_CS, USER_DS};
use crate::paging::PagingLevel;
use crate::syscall::irq_stack_base;

verus! {

/// The words that [`initialize_user_irq_stack`] leaves at the top of a
/// task's IRQ stack, lowest address first: the sixteen general purpose
/// register slots (zero), then the `iretq` frame (instruction pointer, code
/// selector, flags with interrupts enabled, stack pointer, stack selector).
pub open spec fn irq_stack_frame(entry_point: u64, stack_ptr: u64, rflags: u64) -> Seq<u64> {
    Seq::new(16, |i: int| 0u64) + seq![
        entry_point,
        (USER_CS | 3) as u64,
        rflags | 0x200u64,
        stack_ptr,
        (USER_DS | 3) as u64,
    ]
}

/// Initializes a thread's IRQ stack, the page `page_slice`, priming it for
/// its first context switch: the frame is written at the top of the page,
/// with `rflags` (the flags of the current core) and interrupts enabled.
///
/// Returns the number of _bytes_ written.
pub fn initialize_user_irq_stack(page_slice: &mut Vec<u64>, entry_point: u64, stack_ptr: u64, rflags: u64) -> (r:
    u64)
    requires
        old(page_slice)@.len() >= 21,
    ensures
        r == 168,
        final(page_slice)@ == old(page_slice)@.subrange(0, old(page_slice)@.len() - 21) + irq_stack_frame(
            entry_point,
            stack_ptr,
            rflags,
        ),
{
    let n = page_slice.len();
    let values: [u64; 5] = [(USER_DS | 3) as u64, stack_ptr, rflags | 0x200, (USER_CS | 3) as u64, entry_point];
    let mut top: usize = n;
    let mut written: u64 = 0;
    let mut k: usize = 0;
    while k < 21
        invariant
            n == old(page_slice)@.len(),
            n >= 21,
            k <= 21,
            top == n - k,
            written == 8 * k,
            values@ == seq![
                (USER_DS | 3) as u64,
                stack_ptr,
                rflags | 0x200u64,
                (USER_CS | 3) as u64,
                entry_point,
            ],
            page_slice@.len() == n,
            forall|i: int| 0 <= i < n - k ==> page_slice@[i] == old(page_slice)@[i],
            forall|i: int|
                n - k <= i < n ==> page_slice@[i] == irq_stack_frame(entry_point, stack_ptr, rflags)[i
                    - (n - 21)],
        decreases 21 - k,
    {
        let val: u64 = if k < 5 {
            values[k]
        } else {
            0
        };
        top = top - 1;
        written = written + 8;
        page_slice.set(top, val);
        k = k + 1;
    }
    assert(page_slice@ =~= old(page_slice)@.subrange(0, n - 21) + irq_stack_frame(
        entry_point,
        stack_ptr,
        rflags,
    ));
    written
}

/// Where a user task's IRQ stack lives in the interrupt stack segment: the
/// high guard page (the segment's last page, which also is the initial
/// stack pointer), the one stack page below it, and the low guard page below
/// that.
pub fn irq_stack_layout(paging_level: PagingLevel) -> (r: (u64, u64, u64))
    ensures
        paging_level == PagingLevel::Level4 ==> r == (
            0x0000_097F_FFFF_F000u64,
            0x0000_097F_FFFF_E000u64,
            0x0000_097F_FFFF_D000u64,
        ),
        paging_level == PagingLevel::Level5 ==> r == (
            0x0012_FFFF_FFFF_F000u64,
            0x0012_FFFF_FFFF_E000u64,
            0x0012_FFFF_FFFF_D000u64,
        ),
{
    let stack_high_guard = irq_stack_base(paging_level);
    let stack_start = stack_high_guard - 0x1000;
    let stack_low_guard = stack_start - 0x1000;
    (stack_high_guard, stack_start, stack_low_guard)
}

} // verus!
