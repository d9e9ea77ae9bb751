//! The architecture's per-thread state and the preparation of a thread's
//! IRQ stack.
use vstd::prelude::*;

use crate::address_space::{AddressSpaceHandle, AddressSpaceLayout};
use crate::paging::PagingLevel;
use crate::phys::{
    frames_fresh, leaf_entry, memory_wf, missing_tables, path_valid, preserves_present, read, translate,
    valid_table, PageFrameAllocator, PhysicalMemory,
};
use crate::segment::{
    lemma_walk_frame_write, refs_avoid, root_depth, walk_meets_no_empty_table, MapError, UnmapError,
};
use crate::paging::ADDRESS_MASK;
use crate::task::{initialize_user_irq_stack, irq_stack_frame, irq_stack_layout};

verus! {

/// The high guard page, the stack page and the low guard page of a user
/// task's IRQ stack for the given paging level.
pub open spec fn irq_stack_pages(level: PagingLevel) -> (u64, u64, u64) {
    match level {
        PagingLevel::Level4 => (0x0000_097F_FFFF_F000u64, 0x0000_097F_FFFF_E000u64, 0x0000_097F_FFFF_D000u64),
        PagingLevel::Level5 => (0x0012_FFFF_FFFF_F000u64, 0x0012_FFFF_FFFF_E000u64, 0x0012_FFFF_FFFF_D000u64),
    }
}

proof fn lemma_irq_stack_pages()
    by (bit_vector)
    ensures
        (0x0000_097F_FFFF_F000u64 >> 39u64) & 0x1FFu64 == 18,
        (0x0000_097F_FFFF_E000u64 >> 39u64) & 0x1FFu64 == 18,
        (0x0000_097F_FFFF_D000u64 >> 39u64) & 0x1FFu64 == 18,
        (0x0012_FFFF_FFFF_F000u64 >> 48u64) & 0x1FFu64 == 18,
        (0x0012_FFFF_FFFF_E000u64 >> 48u64) & 0x1FFu64 == 18,
        (0x0012_FFFF_FFFF_D000u64 >> 48u64) & 0x1FFu64 == 18,
        0x0000_097F_FFFF_F000u64 & 0xFFFu64 == 0,
        0x0000_097F_FFFF_E000u64 & 0xFFFu64 == 0,
        0x0000_097F_FFFF_D000u64 & 0xFFFu64 == 0,
        0x0012_FFFF_FFFF_F000u64 & 0xFFFu64 == 0,
        0x0012_FFFF_FFFF_E000u64 & 0xFFFu64 == 0,
        0x0012_FFFF_FFFF_D000u64 & 0xFFFu64 == 0,
{
}

/// The state the preparation of a thread's IRQ stack needs: the thread's
/// tables are sound along the walks it takes, its guard pages are not
/// mapped (and unmapping them frees nothing), and the allocator's frames
/// are fresh.
pub open spec fn irq_stack_ready(m: Seq<Seq<crate::paging::PageTableEntry>>, free: Seq<u64>, space: AddressSpaceHandle) -> bool {
    let (high, start, low) = irq_stack_pages(space.paging_level);
    let depth = root_depth(space.paging_level);
    &&& memory_wf(m)
    &&& valid_table(m, space.base_phys)
    &&& path_valid(m, space.base_phys, depth, high)
    &&& path_valid(m, space.base_phys, depth, low)
    &&& path_valid(m, space.base_phys, depth, start)
    &&& translate(m, space.base_phys, space.paging_level.levels(), high) is None
    &&& translate(m, space.base_phys, space.paging_level.levels(), low) is None
    &&& walk_meets_no_empty_table(m, space.base_phys, depth, high)
    &&& walk_meets_no_empty_table(m, space.base_phys, depth, low)
    &&& !free.contains(space.base_phys)
    &&& free.len() > 0 ==> frames_fresh(m, free) && frames_fresh(m, free.drop_last()) && valid_table(m, free.last())
}

/// What preparing the IRQ stack yields: the stack page is mapped with a
/// frame from the allocator, which must hold one, and the walk must find
/// enough frames for its tables and no mapping in place.
pub open spec fn irq_stack_result(
    m: Seq<Seq<crate::paging::PageTableEntry>>,
    free: Seq<u64>,
    space: AddressSpaceHandle,
) -> Result<(), MapError> {
    let start = irq_stack_pages(space.paging_level).1;
    let depth = root_depth(space.paging_level);
    if free.len() == 0 {
        Err(MapError::OutOfMemory)
    } else if missing_tables(m, space.base_phys, depth, start) > free.len() - 1 {
        Err(MapError::OutOfMemory)
    } else if leaf_entry(m, space.base_phys, depth, start) is Some {
        Err(MapError::Exists)
    } else {
        Ok(())
    }
}

/// The frames an IRQ stack preparation that succeeds leaves in the
/// allocator: the stack page's frame (the last one) and the frames of the
/// tables its walk had to create are taken.
pub open spec fn irq_stack_frames_left(
    m: Seq<Seq<crate::paging::PageTableEntry>>,
    free: Seq<u64>,
    space: AddressSpaceHandle,
) -> Seq<u64> {
    let start = irq_stack_pages(space.paging_level).1;
    free.subrange(0, free.len() - 1 - missing_tables(m, space.base_phys, root_depth(space.paging_level), start))
}

/// Keeping the present entries of frames outside a set of free frames
/// keeps those outside any larger set.
proof fn lemma_preserves_widen(
    m1: Seq<Seq<crate::paging::PageTableEntry>>,
    m2: Seq<Seq<crate::paging::PageTableEntry>>,
    small: Seq<u64>,
    big: Seq<u64>,
)
    requires
        preserves_present(m1, m2, small),
        forall|x: u64| small.contains(x) ==> big.contains(x),
    ensures
        preserves_present(m1, m2, big),
{
}

/// The architecture's state of a thread.
#[derive(Debug)]
pub struct ThreadHandle {
    /// The thread's address space.
    pub mapper: AddressSpaceHandle,
    /// The stack pointer of the thread's IRQ stack.
    pub irq_stack_ptr: u64,
    /// The thread's entry point.
    pub entry_point: u64,
    /// The thread's initial stack pointer.
    pub stack_ptr: u64,
}

impl ThreadHandle {
    /// Maps the thread's IRQ stack page with a frame from `alloc` and primes
    /// it for the thread's first switch; `rflags` are the flags of the
    /// current core. The guard pages around the stack page must not be
    /// mapped.
    fn prepare_mappings(&mut self, mem: &mut PhysicalMemory, alloc: &mut PageFrameAllocator, rflags: u64) -> (r:
        Result<(), MapError>)
        requires
            irq_stack_ready(old(mem)@, old(alloc)@, old(self).mapper),
        ensures
            r == irq_stack_result(old(mem)@, old(alloc)@, old(self).mapper),
            final(self).mapper == old(self).mapper,
            final(self).entry_point == old(self).entry_point,
            final(self).stack_ptr == old(self).stack_ptr,
            memory_wf(final(mem)@),
            preserves_present(old(mem)@, final(mem)@, old(alloc)@),
            r is Err ==> final(self).irq_stack_ptr == irq_stack_pages(old(self).mapper.paging_level).0,
            r is Ok ==> {
                &&& final(self).irq_stack_ptr == irq_stack_pages(old(self).mapper.paging_level).0 - 168
                &&& final(alloc)@ == irq_stack_frames_left(old(mem)@, old(alloc)@, old(self).mapper)
                &&& translate(
                    final(mem)@,
                    old(self).mapper.base_phys,
                    old(self).mapper.paging_level.levels(),
                    irq_stack_pages(old(self).mapper.paging_level).1,
                ) == Some(old(alloc)@.last() & ADDRESS_MASK)
                &&& forall|i: int|
                    491 <= i < 512 ==> #[trigger] read(final(mem)@, old(alloc)@.last(), i) == irq_stack_frame(
                        old(self).entry_point,
                        old(self).stack_ptr,
                        rflags,
                    )[i - 491]
            },
    {
        proof {
            lemma_irq_stack_pages();
        }
        let (stack_high_guard, stack_start, stack_low_guard) = irq_stack_layout(self.mapper.paging_level);
        self.irq_stack_ptr = stack_high_guard;
        let segment = AddressSpaceLayout::interrupt_stack();
        let high = segment.unmap(mem, &self.mapper, alloc, stack_high_guard);
        proof {
            assert(high == Err::<u64, UnmapError>(UnmapError::NotMapped));
        }
        let low = segment.unmap(mem, &self.mapper, alloc, stack_low_guard);
        proof {
            assert(low == Err::<u64, UnmapError>(UnmapError::NotMapped));
        }
        let phys = match alloc.allocate() {
            Some(p) => p,
            None => {
                return Err(MapError::OutOfMemory);
            },
        };
        proof {
            assert(old(alloc)@.contains(phys));
        }
        let ghost m1 = mem@;
        let ghost a1 = alloc@;
        proof {
            assert(a1 == old(alloc)@.drop_last());
            assert(m1 == old(mem)@);
            assert(old(alloc)@.no_duplicates());
            assert(!a1.contains(phys)) by {
                if a1.contains(phys) {
                    let j = choose|j: int| 0 <= j < a1.len() && a1[j] == phys;
                    assert(old(alloc)@[j] == old(alloc)@[old(alloc)@.len() - 1]);
                }
            }
            assert(refs_avoid(m1, a1, phys)) by {
                assert forall|t: u64, i: int|
                    #![trigger read(m1, t, i)]
                    valid_table(m1, t) && !a1.contains(t) && t != phys && 0 <= i < 512 && crate::phys::entry_present(
                        read(m1, t, i),
                    ) implies crate::phys::entry_address(read(m1, t, i)) != phys by {
                    assert(!old(alloc)@.contains(t)) by {
                        if old(alloc)@.contains(t) {
                            let j = choose|j: int| 0 <= j < old(alloc)@.len() && old(alloc)@[j] == t;
                            if j < old(alloc)@.len() - 1 {
                                assert(a1[j] == t);
                            }
                        }
                    }
                    assert(old(alloc)@.contains(phys));
                }
            }
        }
        match segment.map(mem, &self.mapper, alloc, stack_start, phys) {
            Ok(()) => {},
            Err(e) => {
                proof {
                    lemma_preserves_widen(old(mem)@, mem@, a1, old(alloc)@);
                }
                return Err(e);
            },
        }
        let ghost m2 = mem@;
        let mut page = mem.read_words(phys);
        let written = initialize_user_irq_stack(&mut page, self.entry_point, self.stack_ptr, rflags);
        mem.write_words(phys, &page);
        proof {
            lemma_walk_frame_write(m2, mem@, self.mapper.base_phys, root_depth(self.mapper.paging_level), stack_start, phys);
            lemma_preserves_widen(old(mem)@, m2, a1, old(alloc)@);
            assert forall|t: u64, i: int|
                #![trigger read(mem@, t, i)]
                valid_table(old(mem)@, t) && !old(alloc)@.contains(t) && 0 <= i < 512 && crate::phys::entry_present(
                    read(old(mem)@, t, i),
                ) implies read(mem@, t, i) == read(old(mem)@, t, i) by {
                assert(t != phys);
                assert(t / 4096 != phys / 4096);
                assert(mem@[(t / 4096) as int] == m2[(t / 4096) as int]);
                assert(read(m2, t, i) == read(old(mem)@, t, i));
            }
        }
        self.irq_stack_ptr = self.irq_stack_ptr - written;
        Ok(())
    }

    /// Creates the state of a thread living in `mapper` that starts at
    /// `entry_point` with the stack pointer `stack_ptr`, mapping and priming
    /// its IRQ stack.
    pub fn new(
        mapper: AddressSpaceHandle,
        stack_ptr: u64,
        entry_point: u64,
        mem: &mut PhysicalMemory,
        alloc: &mut PageFrameAllocator,
        rflags: u64,
    ) -> (r: Result<Self, MapError>)
        requires
            irq_stack_ready(old(mem)@, old(alloc)@, mapper),
        ensures
            match irq_stack_result(old(mem)@, old(alloc)@, mapper) {
                Ok(()) => r matches Ok(t) && t.mapper == mapper && t.entry_point == entry_point && t.stack_ptr
                    == stack_ptr && t.irq_stack_ptr == irq_stack_pages(mapper.paging_level).0 - 168,
                Err(e) => r == Err::<Self, MapError>(e),
            },
            memory_wf(final(mem)@),
            preserves_present(old(mem)@, final(mem)@, old(alloc)@),
            r is Ok ==> final(alloc)@ == irq_stack_frames_left(old(mem)@, old(alloc)@, mapper),
            r is Ok ==> translate(
                final(mem)@,
                mapper.base_phys,
                mapper.paging_level.levels(),
                irq_stack_pages(mapper.paging_level).1,
            ) == Some(old(alloc)@.last() & ADDRESS_MASK),
            r is Ok ==> forall|i: int|
                491 <= i < 512 ==> #[trigger] read(final(mem)@, old(alloc)@.last(), i) == irq_stack_frame(
                    entry_point,
                    stack_ptr,
                    rflags,
                )[i - 491],
    {
        let mut r = ThreadHandle { mapper, irq_stack_ptr: 0, entry_point, stack_ptr };
        match r.prepare_mappings(mem, alloc, rflags) {
            Ok(()) => Ok(r),
            Err(e) => Err(e),
        }
    }

    /// The thread's address space.
    pub fn mapper(&self) -> (r: &AddressSpaceHandle)
        ensures
            *r == self.mapper,
    {
        &self.mapper
    }
}

} // verus!
