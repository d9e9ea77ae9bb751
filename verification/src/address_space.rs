//! The overall address space layout used by the kernel and userspace
//! processes on `x86_64`: the page table indices of each logical segment,
//! the flags used for each segment, and the creation, duplication and
//! release of whole address spaces.
use vstd::prelude::*;

use crate::paging::{table_zeroed, PageTableEntry, PagingLevel};
use crate::phys::{
    entry_address, entry_present, lemma_frame_address_fits, memory_wf, read, valid_table,
    PageFrameAllocator, PhysicalMemory,
};
use crate::segment::{AddressSegment, template_entry};

verus! {

/// A handle to an address space for the x86_64 architecture.
///
/// Address spaces are created for each process, as well as once for the kernel.
#[derive(Debug, Clone, Copy)]
pub struct AddressSpaceHandle {
    /// The base physical address of the L4 table for this address space.
    /// This is the value set to the CR3 register.
    pub base_phys: u64,
    /// The paging level of this address space. This is simply cached
    /// to avoid repeated register lookups.
    pub paging_level: PagingLevel,
}

/// A utility trait for extracting information about a mapper handle.
pub trait MapperHandle {
    /// Returns the base physical address of the page table.
    fn base_phys(&self) -> u64;

    /// Returns the paging level of the page table.
    fn paging_level(&self) -> PagingLevel;
}

impl MapperHandle for AddressSpaceHandle {
    fn base_phys(&self) -> (r: u64) {
        self.base_phys
    }

    fn paging_level(&self) -> (r: PagingLevel) {
        self.paging_level
    }
}

/// The frames that freeing entries `0..count` of table `t` (at `depth`
/// levels above the leaves) releases, in the order they are released:
/// everything below a present entry first, then the frame it references.
pub open spec fn deep_frees(m: Seq<Seq<PageTableEntry>>, t: u64, depth: nat, count: nat) -> Seq<u64>
    decreases depth, count,
{
    if count == 0 {
        Seq::empty()
    } else {
        let prev = deep_frees(m, t, depth, (count - 1) as nat);
        let e = read(m, t, count - 1);
        if entry_present(e) {
            if depth == 0 {
                prev.push(entry_address(e))
            } else {
                (prev + deep_frees(m, entry_address(e), (depth - 1) as nat, 512)).push(
                    entry_address(e),
                )
            }
        } else {
            prev
        }
    }
}

/// Every table below `t` (at `depth` levels above the leaves) that present
/// entries lead to is a frame of `m`.
pub open spec fn deep_valid(m: Seq<Seq<PageTableEntry>>, t: u64, depth: nat) -> bool
    decreases depth,
{
    &&& valid_table(m, t)
    &&& forall|i: int|
        0 <= i < 512 && depth > 0 && entry_present(#[trigger] read(m, t, i)) ==> deep_valid(
            m,
            entry_address(read(m, t, i)),
            (depth - 1) as nat,
        )
}

/// Frees everything below entries `0..count` of table `table`.
fn free_below(
    mem: &PhysicalMemory,
    alloc: &mut PageFrameAllocator,
    table: u64,
    depth: u64,
    count: usize,
)
    requires
        memory_wf(mem@),
        deep_valid(mem@, table, depth as nat),
        count <= 512,
        depth <= 4,
    ensures
        final(alloc)@ == old(alloc)@ + deep_frees(mem@, table, depth as nat, count as nat),
    decreases depth, count,
{
    let mut i: usize = 0;
    proof {
        assert(old(alloc)@ + Seq::<u64>::empty() == old(alloc)@);
    }
    while i < count
        invariant
            i <= count,
            count <= 512,
            depth <= 4,
            memory_wf(mem@),
            deep_valid(mem@, table, depth as nat),
            alloc@ == old(alloc)@ + deep_frees(mem@, table, depth as nat, i as nat),
        decreases count - i,
    {
        let e = mem.read_entry(table, i);
        let ghost prev = deep_frees(mem@, table, depth as nat, i as nat);
        if e.present() {
            let child = e.address();
            if depth > 0 {
                let ghost before = alloc@;
                free_below(mem, alloc, child, depth - 1, 512);
                proof {
                    assert(before + deep_frees(mem@, child, (depth - 1) as nat, 512) == old(alloc)@
                        + (prev + deep_frees(mem@, child, (depth - 1) as nat, 512)));
                }
            }
            alloc.free(child);
        }
        proof {
            assert(deep_frees(mem@, table, depth as nat, (i + 1) as nat) == if entry_present(
                read(mem@, table, i as int),
            ) {
                if depth == 0 {
                    prev.push(entry_address(read(mem@, table, i as int)))
                } else {
                    (prev + deep_frees(
                        mem@,
                        entry_address(read(mem@, table, i as int)),
                        (depth - 1) as nat,
                        512,
                    )).push(entry_address(read(mem@, table, i as int)))
                }
            } else {
                prev
            });
        }
        i = i + 1;
    }
}

/// The flag combinations the segment templates are built from.
proof fn lemma_template_values()
    by (bit_vector)
    ensures
        (((((0u64 | 0x100u64) | 0x1u64) | 0x8000000000000000u64) | 0x2u64) | 0x8u64) == 0x800000000000010bu64,
        ((((0u64 | 0x100u64) | 0x1u64) | 0x8000000000000000u64) | 0x2u64) == 0x8000000000000103u64,
        ((((0u64 | 0x4u64) | 0x1u64) | 0x2u64) | 0x8000000000000000u64) == 0x8000000000000007u64,
        ((((0u64 | 0x4u64) | 0x2u64) | 0x8000000000000000u64) | 0x1u64) == 0x8000000000000007u64,
        (((0u64 | 0x100u64) | 0x1u64) | 0x8000000000000000u64) == 0x8000000000000101u64,
        (((0u64 | 0x1u64) | 0x2u64) | 0x8000000000000000u64) == 0x8000000000000003u64,
        (((0u64 | 0x1u64) | 0x8000000000000000u64) | 0x2u64) == 0x8000000000000003u64,
        (((0u64 | 0x4u64) | 0x1u64) | 0x2u64) == 0x7u64,
        (((0u64 | 0x4u64) | 0x1u64) | 0x8000000000000000u64) == 0x8000000000000005u64,
        ((0u64 | 0x100u64) | 0x1u64) == 0x101u64,
        ((0u64 | 0x1u64) | 0x2u64) == 0x3u64,
        ((0u64 | 0x1u64) | 0x8000000000000000u64) == 0x8000000000000001u64,
        ((0u64 | 0x4u64) | 0x1u64) == 0x5u64,
        (0u64 | 0x1u64) == 0x1u64,
        0x3u64 & 0x1u64 != 0,
        0x7u64 & 0x1u64 != 0,
        0x8000000000000001u64 & 0x1u64 != 0,
        0x8000000000000003u64 & 0x1u64 != 0,
{
}

/// The main layout description for the x86_64 architecture.
///
/// This struct describes not only the page table indices for each
/// logical kernel / userspace memory segment, but also the flags
/// used for each segment.
pub struct AddressSpaceLayout;

impl AddressSpaceLayout {
    /// The index for the secondary core boot stubs.
    /// Only used during boot; do not change. Can overlap
    /// if the segment is used for userspace.
    pub const KERNEL_SECONDARY_BOOT_IDX: usize = 0;

    /// The index for the system ABI segment.
    ///
    /// Must be placed in the lower half.
    pub const SYSABI: usize = 1;

    /// The index at which the transfer stubs are mapped, in the lower half
    /// (address `0x0000_6000_0000_0000` with four levels), which the kernel
    /// reclaims once it runs.
    pub const STUBS_IDX: usize = 192;

    /// The index for the module segments.
    pub const MODULE_EXE_IDX: (usize, usize) = (5, 16);

    /// The index for the module thread stack segment.
    pub const MODULE_THREAD_STACK_IDX: usize = 17;

    /// The index for the module thread interrupt stack.
    pub const MODULE_INTERRUPT_STACK_IDX: usize = 18;

    /// The recursive index for the page table.
    pub const RECURSIVE_IDX: usize = 256;

    /// The stack space range
    pub const KERNEL_STACK_IDX: usize = 257;

    /// The direct map range
    pub const LINEAR_MAP_IDX: (usize, usize) = (259, 320);

    /// The index for the kernel core-local segment.
    pub const KERNEL_CORE_LOCAL_IDX: usize = 350;

    /// The index for the kernel syscall stack.
    /// This is a core-local stack that is used for handling syscalls.
    pub const KERNEL_SYSCALL_STACK_IDX: usize = 355;

    /// The kernel executable range, shared by the RX, RO, and RW segments.
    ///
    /// MUST BE 511.
    pub const KERNEL_EXE_IDX: usize = 511;

    /// Returns the linear map segment for the supervisor space.
    pub fn linear_map() -> (r: AddressSegment)
        ensures
            r.valid_range == (259usize, 320usize),
            r.entry_template@ == 0x800000000000010bu64,
            r.intermediate_entry_template@ == 0x8000000000000003u64,
            r.wf(),
    {
        let entry_template = PageTableEntry::new().with_global().with_present().with_no_exec().with_writable().with_write_through();
        let intermediate_entry_template = PageTableEntry::new().with_present().with_no_exec().with_writable();
        proof {
            lemma_template_values();
        }
        AddressSegment {
            valid_range: (AddressSpaceLayout::LINEAR_MAP_IDX.0, AddressSpaceLayout::LINEAR_MAP_IDX.1),
            entry_template,
            intermediate_entry_template,
        }
    }

    /// Returns the kernel syscall stack segment.
    pub fn kernel_syscall_stack() -> (r: AddressSegment)
        ensures
            r.valid_range == (355usize, 355usize),
            r.entry_template@ == 0x8000000000000003u64,
            r.intermediate_entry_template@ == 0x8000000000000003u64,
            r.wf(),
    {
        let entry_template = PageTableEntry::new().with_present().with_writable().with_no_exec();
        let intermediate_entry_template = PageTableEntry::new().with_present().with_writable().with_no_exec();
        proof {
            lemma_template_values();
        }
        AddressSegment {
            valid_range: (AddressSpaceLayout::KERNEL_SYSCALL_STACK_IDX, AddressSpaceLayout::KERNEL_SYSCALL_STACK_IDX),
            entry_template,
            intermediate_entry_template,
        }
    }

    /// Returns a segment for the secondary core boot stub.
    pub fn secondary_boot_stub_code() -> (r: AddressSegment)
        ensures
            r.valid_range == (0usize, 0usize),
            r.entry_template@ == 0x1u64,
            r.intermediate_entry_template@ == 0x3u64,
            r.wf(),
    {
        let entry_template = PageTableEntry::new().with_present();
        let intermediate_entry_template = PageTableEntry::new().with_present().with_writable();
        proof {
            lemma_template_values();
        }
        AddressSegment {
            valid_range: (AddressSpaceLayout::KERNEL_SECONDARY_BOOT_IDX, AddressSpaceLayout::KERNEL_SECONDARY_BOOT_IDX),
            entry_template,
            intermediate_entry_template,
        }
    }

    /// Returns a segment for the secondary core boot stub's stack
    /// mapping.
    pub fn secondary_boot_stub_stack() -> (r: AddressSegment)
        ensures
            r.valid_range == (0usize, 0usize),
            r.entry_template@ == 0x8000000000000003u64,
            r.intermediate_entry_template@ == 0x3u64,
            r.wf(),
    {
        let entry_template = PageTableEntry::new().with_present().with_writable().with_no_exec();
        let intermediate_entry_template = PageTableEntry::new().with_present().with_writable();
        proof {
            lemma_template_values();
        }
        AddressSegment {
            valid_range: (AddressSpaceLayout::KERNEL_SECONDARY_BOOT_IDX, AddressSpaceLayout::KERNEL_SECONDARY_BOOT_IDX),
            entry_template,
            intermediate_entry_template,
        }
    }

    /// Returns a segment for the module's interrupt thread stack.
    ///
    /// This MUST NOT overlap with any other segment, must be
    /// writable, and must NOT be user-accessible (despite being
    /// in the user address space). It must also not be executable.
    pub fn interrupt_stack() -> (r: AddressSegment)
        ensures
            r.valid_range == (18usize, 18usize),
            r.entry_template@ == 0x8000000000000003u64,
            r.intermediate_entry_template@ == 0x8000000000000003u64,
            r.wf(),
    {
        let entry_template = PageTableEntry::new().with_present().with_writable().with_no_exec();
        let intermediate_entry_template = PageTableEntry::new().with_present().with_writable().with_no_exec();
        proof {
            lemma_template_values();
        }
        AddressSegment {
            valid_range: (AddressSpaceLayout::MODULE_INTERRUPT_STACK_IDX, AddressSpaceLayout::MODULE_INTERRUPT_STACK_IDX),
            entry_template,
            intermediate_entry_template,
        }
    }

    /// Returns the segment for module thread stacks.
    pub fn user_thread_stack() -> (r: AddressSegment)
        ensures
            r.valid_range == (17usize, 17usize),
            r.entry_template@ == 0x8000000000000007u64,
            r.intermediate_entry_template@ == 0x7u64,
            r.wf(),
    {
        let entry_template = PageTableEntry::new().with_user().with_writable().with_no_exec().with_present();
        let intermediate_entry_template = PageTableEntry::new().with_user().with_present().with_writable();
        proof {
            lemma_template_values();
        }
        AddressSegment {
            valid_range: (AddressSpaceLayout::MODULE_THREAD_STACK_IDX, AddressSpaceLayout::MODULE_THREAD_STACK_IDX),
            entry_template,
            intermediate_entry_template,
        }
    }

    /// Returns the segment for module code.
    pub fn user_code() -> (r: AddressSegment)
        ensures
            r.valid_range == (5usize, 16usize),
            r.entry_template@ == 0x5u64,
            r.intermediate_entry_template@ == 0x7u64,
            r.wf(),
    {
        let entry_template = PageTableEntry::new().with_user().with_present();
        let intermediate_entry_template = PageTableEntry::new().with_user().with_present().with_writable();
        proof {
            lemma_template_values();
        }
        AddressSegment {
            valid_range: (AddressSpaceLayout::MODULE_EXE_IDX.0, AddressSpaceLayout::MODULE_EXE_IDX.1),
            entry_template,
            intermediate_entry_template,
        }
    }

    /// Returns the segment for module data.
    pub fn user_data() -> (r: AddressSegment)
        ensures
            r.valid_range == (5usize, 16usize),
            r.entry_template@ == 0x8000000000000007u64,
            r.intermediate_entry_template@ == 0x7u64,
            r.wf(),
    {
        let entry_template = PageTableEntry::new().with_user().with_present().with_writable().with_no_exec();
        let intermediate_entry_template = PageTableEntry::new().with_user().with_present().with_writable();
        proof {
            lemma_template_values();
        }
        AddressSegment {
            valid_range: (AddressSpaceLayout::MODULE_EXE_IDX.0, AddressSpaceLayout::MODULE_EXE_IDX.1),
            entry_template,
            intermediate_entry_template,
        }
    }

    /// Returns the segment for module read-only data.
    pub fn user_rodata() -> (r: AddressSegment)
        ensures
            r.valid_range == (5usize, 16usize),
            r.entry_template@ == 0x8000000000000005u64,
            r.intermediate_entry_template@ == 0x7u64,
            r.wf(),
    {
        let entry_template = PageTableEntry::new().with_user().with_present().with_no_exec();
        let intermediate_entry_template = PageTableEntry::new().with_user().with_present().with_writable();
        proof {
            lemma_template_values();
        }
        AddressSegment {
            valid_range: (AddressSpaceLayout::MODULE_EXE_IDX.0, AddressSpaceLayout::MODULE_EXE_IDX.1),
            entry_template,
            intermediate_entry_template,
        }
    }

    /// Returns the segment for the system ABI.
    pub fn sysabi() -> (r: AddressSegment)
        ensures
            r.valid_range == (1usize, 1usize),
            r.entry_template@ == 0x8000000000000005u64,
            r.intermediate_entry_template@ == 0x8000000000000001u64,
            r.wf(),
    {
        let entry_template = PageTableEntry::new().with_user().with_present().with_no_exec();
        let intermediate_entry_template = PageTableEntry::new().with_present().with_no_exec();
        proof {
            lemma_template_values();
        }
        AddressSegment {
            valid_range: (AddressSpaceLayout::SYSABI, AddressSpaceLayout::SYSABI),
            entry_template,
            intermediate_entry_template,
        }
    }

    /// Returns the kernel code segment.
    pub fn kernel_code() -> (r: AddressSegment)
        ensures
            r.valid_range == (511usize, 511usize),
            r.entry_template@ == 0x101u64,
            r.intermediate_entry_template@ == 0x3u64,
            r.wf(),
    {
        let entry_template = PageTableEntry::new().with_global().with_present();
        let intermediate_entry_template = PageTableEntry::new().with_present().with_writable();
        proof {
            lemma_template_values();
        }
        AddressSegment {
            valid_range: (AddressSpaceLayout::KERNEL_EXE_IDX, AddressSpaceLayout::KERNEL_EXE_IDX),
            entry_template,
            intermediate_entry_template,
        }
    }

    /// Returns the kernel data segment.
    pub fn kernel_data() -> (r: AddressSegment)
        ensures
            r.valid_range == (511usize, 511usize),
            r.entry_template@ == 0x8000000000000103u64,
            r.intermediate_entry_template@ == 0x3u64,
            r.wf(),
    {
        let entry_template = PageTableEntry::new().with_global().with_present().with_no_exec().with_writable();
        let intermediate_entry_template = PageTableEntry::new().with_present().with_writable();
        proof {
            lemma_template_values();
        }
        AddressSegment {
            valid_range: (AddressSpaceLayout::KERNEL_EXE_IDX, AddressSpaceLayout::KERNEL_EXE_IDX),
            entry_template,
            intermediate_entry_template,
        }
    }

    /// Returns the kernel read-only data segment.
    pub fn kernel_rodata() -> (r: AddressSegment)
        ensures
            r.valid_range == (511usize, 511usize),
            r.entry_template@ == 0x8000000000000101u64,
            r.intermediate_entry_template@ == 0x3u64,
            r.wf(),
    {
        let entry_template = PageTableEntry::new().with_global().with_present().with_no_exec();
        let intermediate_entry_template = PageTableEntry::new().with_present().with_writable();
        proof {
            lemma_template_values();
        }
        AddressSegment {
            valid_range: (AddressSpaceLayout::KERNEL_EXE_IDX, AddressSpaceLayout::KERNEL_EXE_IDX),
            entry_template,
            intermediate_entry_template,
        }
    }

    /// Returns the kernel stack segment.
    pub fn kernel_stack() -> (r: AddressSegment)
        ensures
            r.valid_range == (257usize, 257usize),
            r.entry_template@ == 0x8000000000000003u64,
            r.intermediate_entry_template@ == 0x8000000000000003u64,
            r.wf(),
    {
        let entry_template = PageTableEntry::new().with_present().with_writable().with_no_exec();
        let intermediate_entry_template = PageTableEntry::new().with_present().with_writable().with_no_exec();
        proof {
            lemma_template_values();
        }
        AddressSegment {
            valid_range: (AddressSpaceLayout::KERNEL_STACK_IDX, AddressSpaceLayout::KERNEL_STACK_IDX),
            entry_template,
            intermediate_entry_template,
        }
    }

    /// Returns the kernel core-local segment.
    pub fn kernel_core_local() -> (r: AddressSegment)
        ensures
            r.valid_range == (350usize, 350usize),
            r.entry_template@ == 0x8000000000000103u64,
            r.intermediate_entry_template@ == 0x8000000000000003u64,
            r.wf(),
    {
        let entry_template = PageTableEntry::new().with_global().with_present().with_no_exec().with_writable();
        let intermediate_entry_template = PageTableEntry::new().with_present().with_no_exec().with_writable();
        proof {
            lemma_template_values();
        }
        AddressSegment {
            valid_range: (AddressSpaceLayout::KERNEL_CORE_LOCAL_IDX, AddressSpaceLayout::KERNEL_CORE_LOCAL_IDX),
            entry_template,
            intermediate_entry_template,
        }
    }

    /// Adds the recursive mapping to the page table of `handle`: the entry
    /// at [`Self::RECURSIVE_IDX`] references the table itself.
    pub fn map_recursive_entry(mem: &mut PhysicalMemory, handle: &AddressSpaceHandle)
        requires
            memory_wf(old(mem)@),
            valid_table(old(mem)@, handle.base_phys),
        ensures
            final(mem)@ == old(mem)@.update(
                (handle.base_phys / 4096) as int,
                final(mem)@[(handle.base_phys / 4096) as int],
            ),
            final(mem)@[(handle.base_phys / 4096) as int] == old(mem)@[(handle.base_phys
                / 4096) as int].update(256, final(mem)@[(handle.base_phys / 4096) as int][256]),
            read(final(mem)@, handle.base_phys, 256) == template_entry(
                0x8000_0000_0000_0003u64,
                handle.base_phys,
            ),
            entry_present(read(final(mem)@, handle.base_phys, 256)),
            entry_address(read(final(mem)@, handle.base_phys, 256)) == handle.base_phys,
    {
        let e = PageTableEntry::new().with_present().with_writable().with_no_exec().with_address(
            handle.base_phys,
        );
        proof {
            lemma_template_values();
            lemma_frame_address_fits(old(mem)@, handle.base_phys);
            crate::segment::lemma_template_present_pub(0x8000_0000_0000_0003u64, handle.base_phys);
        }
        mem.write_entry(handle.base_phys, Self::RECURSIVE_IDX, e);
    }

    /// Shallow-duplicates the address space of `handle` into the table at
    /// `into_phys`: the new top-level table references the same lower tables.
    pub fn copy_shallow_into(mem: &mut PhysicalMemory, handle: &AddressSpaceHandle, into_phys: u64)
        requires
            valid_table(old(mem)@, into_phys),
            valid_table(old(mem)@, handle.base_phys),
        ensures
            final(mem)@ == old(mem)@.update(
                (into_phys / 4096) as int,
                old(mem)@[(handle.base_phys / 4096) as int],
            ),
    {
        mem.copy_frame(into_phys, handle.base_phys);
    }

    /// Creates a new, empty supervisor address space from a frame of `alloc`.
    /// Returns `None` if no frame is free.
    pub fn new_supervisor_space_in(
        mem: &mut PhysicalMemory,
        alloc: &mut PageFrameAllocator,
        paging_level: PagingLevel,
    ) -> (r: Option<AddressSpaceHandle>)
        requires
            forall|j: int|
                0 <= j < old(alloc)@.len() ==> valid_table(old(mem)@, #[trigger] old(alloc)@[j]),
        ensures
            old(alloc)@.len() == 0 <==> r is None,
            r is None ==> final(mem)@ == old(mem)@ && final(alloc)@ == old(alloc)@,
            r is Some ==> {
                &&& r->0.base_phys == old(alloc)@.last()
                &&& r->0.paging_level == paging_level
                &&& final(alloc)@ == old(alloc)@.drop_last()
                &&& final(mem)@ == old(mem)@.update(
                    (r->0.base_phys / 4096) as int,
                    final(mem)@[(r->0.base_phys / 4096) as int],
                )
                &&& table_zeroed(final(mem)@[(r->0.base_phys / 4096) as int])
            },
    {
        let base_phys = match alloc.allocate() {
            Some(f) => f,
            None => {
                return None;
            },
        };
        proof {
            assert(old(alloc)@.contains(base_phys));
        }
        mem.zero_frame(base_phys);
        Some(AddressSpaceHandle { base_phys, paging_level })
    }

    /// Creates a new user address space from the supervisor space `space`:
    /// a shallow copy of its top-level table without the core-local and
    /// kernel stack segments (which are dropped, not released).
    /// Returns `None` if no frame is free.
    pub fn new_user_space_in(
        mem: &mut PhysicalMemory,
        space: &AddressSpaceHandle,
        alloc: &mut PageFrameAllocator,
        paging_level: PagingLevel,
    ) -> (r: Option<AddressSpaceHandle>)
        requires
            memory_wf(old(mem)@),
            valid_table(old(mem)@, space.base_phys),
            forall|j: int|
                0 <= j < old(alloc)@.len() ==> valid_table(old(mem)@, #[trigger] old(alloc)@[j]),
        ensures
            old(alloc)@.len() == 0 <==> r is None,
            r is None ==> final(mem)@ == old(mem)@ && final(alloc)@ == old(alloc)@,
            r is Some ==> {
                &&& r->0.base_phys == old(alloc)@.last()
                &&& r->0.paging_level == paging_level
                &&& final(alloc)@ == old(alloc)@.drop_last()
                &&& forall|t: u64, i: int|
                    #![trigger read(final(mem)@, t, i)]
                    valid_table(old(mem)@, t) && t != r->0.base_phys && 0 <= i < 512 ==> read(
                        final(mem)@,
                        t,
                        i,
                    ) == read(old(mem)@, t, i)
                &&& forall|i: int|
                    0 <= i < 512 ==> #[trigger] read(final(mem)@, r->0.base_phys, i) == if i
                        == Self::KERNEL_CORE_LOCAL_IDX || i == Self::KERNEL_STACK_IDX {
                        0
                    } else {
                        read(old(mem)@, space.base_phys, i)
                    }
            },
    {
        let duplicated = match Self::duplicate_supervisor_space_shallow_in(
            mem,
            space,
            alloc,
            paging_level,
        ) {
            Some(d) => d,
            None => {
                return None;
            },
        };
        let ghost m1 = mem@;
        proof {
            assert(old(alloc)@.contains(duplicated.base_phys));
            assert forall|k: int| 0 <= k < m1.len() implies #[trigger] m1[k].len() == 512 by {}
        }
        Self::kernel_core_local().unmap_all_without_reclaim(mem, &duplicated);
        let ghost m2 = mem@;
        Self::kernel_stack().unmap_all_without_reclaim(mem, &duplicated);
        proof {
            assert forall|t: u64, i: int|
                #![trigger read(mem@, t, i)]
                valid_table(old(mem)@, t) && t != duplicated.base_phys && 0 <= i < 512 implies read(
                mem@,
                t,
                i,
            ) == read(old(mem)@, t, i) by {
                crate::phys::lemma_frame_distinct(t, duplicated.base_phys);
                assert(read(m2, t, i) == read(m1, t, i));
            }
            assert forall|i: int| 0 <= i < 512 implies #[trigger] read(
                mem@,
                duplicated.base_phys,
                i,
            ) == if i == Self::KERNEL_CORE_LOCAL_IDX || i == Self::KERNEL_STACK_IDX {
                0
            } else {
                read(old(mem)@, space.base_phys, i)
            } by {
                assert(read(m2, duplicated.base_phys, i) == read(m2, duplicated.base_phys, i));
                assert(read(m1, duplicated.base_phys, i) == read(old(mem)@, space.base_phys, i));
            }
        }
        Some(duplicated)
    }

    /// Creates a new, empty user address space from a frame of `alloc`.
    /// Returns `None` if no frame is free.
    pub fn new_user_space_empty_in(
        mem: &mut PhysicalMemory,
        alloc: &mut PageFrameAllocator,
        paging_level: PagingLevel,
    ) -> (r: Option<AddressSpaceHandle>)
        requires
            forall|j: int|
                0 <= j < old(alloc)@.len() ==> valid_table(old(mem)@, #[trigger] old(alloc)@[j]),
        ensures
            old(alloc)@.len() == 0 <==> r is None,
            r is None ==> final(mem)@ == old(mem)@ && final(alloc)@ == old(alloc)@,
            r is Some ==> {
                &&& r->0.base_phys == old(alloc)@.last()
                &&& r->0.paging_level == paging_level
                &&& final(alloc)@ == old(alloc)@.drop_last()
                &&& final(mem)@ == old(mem)@.update(
                    (r->0.base_phys / 4096) as int,
                    final(mem)@[(r->0.base_phys / 4096) as int],
                )
                &&& table_zeroed(final(mem)@[(r->0.base_phys / 4096) as int])
            },
    {
        let base_phys = match alloc.allocate() {
            Some(f) => f,
            None => {
                return None;
            },
        };
        proof {
            assert(old(alloc)@.contains(base_phys));
        }
        mem.zero_frame(base_phys);
        Some(AddressSpaceHandle { base_phys, paging_level })
    }

    /// Creates a new supervisor address space whose top-level table is a copy
    /// of the one of `space`. Returns `None` if no frame is free.
    pub fn duplicate_supervisor_space_shallow_in(
        mem: &mut PhysicalMemory,
        space: &AddressSpaceHandle,
        alloc: &mut PageFrameAllocator,
        paging_level: PagingLevel,
    ) -> (r: Option<AddressSpaceHandle>)
        requires
            valid_table(old(mem)@, space.base_phys),
            forall|j: int|
                0 <= j < old(alloc)@.len() ==> valid_table(old(mem)@, #[trigger] old(alloc)@[j]),
        ensures
            old(alloc)@.len() == 0 <==> r is None,
            r is None ==> final(mem)@ == old(mem)@ && final(alloc)@ == old(alloc)@,
            r is Some ==> {
                &&& r->0.base_phys == old(alloc)@.last()
                &&& r->0.paging_level == paging_level
                &&& final(alloc)@ == old(alloc)@.drop_last()
                &&& final(mem)@ == old(mem)@.update(
                    (r->0.base_phys / 4096) as int,
                    old(mem)@[(space.base_phys / 4096) as int],
                )
            },
    {
        let base_phys = match alloc.allocate() {
            Some(f) => f,
            None => {
                return None;
            },
        };
        proof {
            assert(old(alloc)@.contains(base_phys));
        }
        mem.copy_frame(base_phys, space.base_phys);
        Some(AddressSpaceHandle { base_phys, paging_level })
    }

    /// Creates a new user address space whose top-level table is a copy
    /// of the one of `space`. Returns `None` if no frame is free.
    pub fn duplicate_user_space_shallow_in(
        mem: &mut PhysicalMemory,
        space: &AddressSpaceHandle,
        alloc: &mut PageFrameAllocator,
        paging_level: PagingLevel,
    ) -> (r: Option<AddressSpaceHandle>)
        requires
            valid_table(old(mem)@, space.base_phys),
            forall|j: int|
                0 <= j < old(alloc)@.len() ==> valid_table(old(mem)@, #[trigger] old(alloc)@[j]),
        ensures
            old(alloc)@.len() == 0 <==> r is None,
            r is None ==> final(mem)@ == old(mem)@ && final(alloc)@ == old(alloc)@,
            r is Some ==> {
                &&& r->0.base_phys == old(alloc)@.last()
                &&& r->0.paging_level == paging_level
                &&& final(alloc)@ == old(alloc)@.drop_last()
                &&& final(mem)@ == old(mem)@.update(
                    (r->0.base_phys / 4096) as int,
                    old(mem)@[(space.base_phys / 4096) as int],
                )
            },
    {
        Self::duplicate_supervisor_space_shallow_in(mem, space, alloc, paging_level)
    }

    /// Releases the top-level table of a user address space, and nothing else.
    pub fn free_user_space_handle_in(space: AddressSpaceHandle, alloc: &mut PageFrameAllocator)
        ensures
            final(alloc)@ == old(alloc)@.push(space.base_phys),
    {
        alloc.free(space.base_phys);
    }

    /// Releases a user address space entirely: every frame that the lower
    /// half (top-level indices `0..256`) references, directly or through
    /// lower tables, then the top-level table itself.
    pub fn free_user_space_deep_in(
        mem: &PhysicalMemory,
        space: AddressSpaceHandle,
        alloc: &mut PageFrameAllocator,
    )
        requires
            memory_wf(mem@),
            deep_valid(mem@, space.base_phys, (space.paging_level.levels() - 1) as nat),
        ensures
            final(alloc)@ == (old(alloc)@ + deep_frees(
                mem@,
                space.base_phys,
                (space.paging_level.levels() - 1) as nat,
                256,
            )).push(space.base_phys),
    {
        let depth: u64 = match space.paging_level {
            PagingLevel::Level4 => 3,
            PagingLevel::Level5 => 4,
        };
        free_below(mem, alloc, space.base_phys, depth, 256);
        alloc.free(space.base_phys);
    }
}

impl AddressSegment {
    /// Unmaps the whole segment from `space` without releasing anything: the
    /// top-level entries of the segment's range are reset.
    pub fn unmap_all_without_reclaim(&self, mem: &mut PhysicalMemory, space: &AddressSpaceHandle)
        requires
            memory_wf(old(mem)@),
            valid_table(old(mem)@, space.base_phys),
            self.valid_range.1 < 512,
        ensures
            memory_wf(final(mem)@),
            final(mem)@.len() == old(mem)@.len(),
            forall|t: u64, i: int|
                #![trigger read(final(mem)@, t, i)]
                valid_table(old(mem)@, t) && 0 <= i < 512 ==> read(final(mem)@, t, i) == if t
                    == space.base_phys && self.valid_range.0 <= i <= self.valid_range.1 {
                    0
                } else {
                    read(old(mem)@, t, i)
                },
    {
        let mut i = self.valid_range.0;
        while i <= self.valid_range.1
            invariant
                self.valid_range.1 < 512,
                i == self.valid_range.0 || (self.valid_range.0 < i <= self.valid_range.1 + 1),
                memory_wf(mem@),
                valid_table(mem@, space.base_phys),
                mem@.len() == old(mem)@.len(),
                forall|t: u64, j: int|
                    #![trigger read(mem@, t, j)]
                    valid_table(old(mem)@, t) && 0 <= j < 512 ==> read(mem@, t, j) == if t
                        == space.base_phys && self.valid_range.0 <= j < i {
                        0
                    } else {
                        read(old(mem)@, t, j)
                    },
            decreases 512 - i,
        {
            let ghost m1 = mem@;
            let z = PageTableEntry::new();
            mem.write_entry(space.base_phys, i, z);
            proof {
                let kb = (space.base_phys / 4096) as int;
                assert(mem@[kb] == m1[kb].update(i as int, z));
                assert forall|k: int| 0 <= k < mem@.len() implies #[trigger] mem@[k].len() == 512 by {}
                assert forall|t: u64, j: int|
                    #![trigger read(mem@, t, j)]
                    valid_table(old(mem)@, t) && 0 <= j < 512 implies read(mem@, t, j) == if t
                        == space.base_phys && self.valid_range.0 <= j < i + 1 {
                        0
                    } else {
                        read(old(mem)@, t, j)
                    } by {
                    if t != space.base_phys {
                        crate::phys::lemma_frame_distinct(t, space.base_phys);
                        assert(read(mem@, t, j) == read(m1, t, j));
                    } else if j == i {
                        assert(read(mem@, t, j) == z@);
                    } else {
                        assert(read(mem@, t, j) == read(m1, t, j));
                    }
                }
            }
            i = i + 1;
        }
    }
}

} // verus!
