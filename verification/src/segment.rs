//! Address space segments: the mapping logic whereby a physical frame is
//! mapped at a virtual address inside a fixed range of top-level indices.
use vstd::prelude::*;

use crate::address_space::AddressSpaceHandle;
use crate::paging::{
    has_bits, table_empty, table_zeroed, PageTableEntry, PagingLevel, ADDRESS_MASK, NON_ADDRESS_MASK,
};
use crate::phys::{
    entry_address, entry_present, frames_fresh, lemma_frame_address_fits, lemma_frame_distinct,
    lemma_leaf_stable, lemma_leaf_via_reach, lemma_only_resets_trans, lemma_reach_stable, lemma_reach_step,
    lemma_table_index_bound, lemma_zeroed_walk, leaf_entry, memory_wf, missing_tables, only_resets,
    path_valid, preserves_present, reach, read, table_index, translate, valid_table,
    PageFrameAllocator, PhysicalMemory,
};

verus! {

/// Errors that can occur when mapping a virtual address.
#[derive(Debug, Clone, Copy, PartialEq, Eq, Structural)]
pub enum MapError {
    /// The virtual address is not page aligned.
    VirtNotAligned,
    /// The virtual address lies outside the segment.
    VirtOutOfRange,
    /// A page table frame could not be allocated.
    OutOfMemory,
    /// The virtual address is already mapped.
    Exists,
}

/// Errors that can occur when unmapping a virtual address.
#[derive(Debug, Clone, Copy, PartialEq, Eq, Structural)]
pub enum UnmapError {
    /// The virtual address is not page aligned.
    VirtNotAligned,
    /// The virtual address lies outside the segment.
    VirtOutOfRange,
    /// The virtual address is not mapped.
    NotMapped,
}

/// The depth, counted from the leaf tables, of the root table.
pub open spec fn root_depth(level: PagingLevel) -> nat {
    (level.levels() - 1) as nat
}

/// Sign-extends a 48-bit address (four-level paging).
pub open spec fn sign_extend_48(x: u64) -> u64 {
    if has_bits(x, 0x0000_8000_0000_0000u64) {
        x | 0xFFFF_0000_0000_0000u64
    } else {
        x & 0x0000_FFFF_FFFF_FFFFu64
    }
}

/// Sign-extends a 57-bit address (five-level paging).
pub open spec fn sign_extend_57(x: u64) -> u64 {
    if has_bits(x, 0x0100_0000_0000_0000u64) {
        x | 0xFE00_0000_0000_0000u64
    } else {
        x & 0x01FF_FFFF_FFFF_FFFFu64
    }
}

/// Sign-extends `x` from bit 47: the canonical form of a four-level address.
pub fn sign_extend_l4(x: u64) -> (r: u64)
    ensures
        r == sign_extend_48(x),
{
    if (x & 0x0000_8000_0000_0000u64) != 0 {
        x | 0xFFFF_0000_0000_0000u64
    } else {
        x & 0x0000_FFFF_FFFF_FFFFu64
    }
}

/// Sign-extends `x` from bit 56: the canonical form of a five-level address.
pub fn sign_extend_l5(x: u64) -> (r: u64)
    ensures
        r == sign_extend_57(x),
{
    if (x & 0x0100_0000_0000_0000u64) != 0 {
        x | 0xFE00_0000_0000_0000u64
    } else {
        x & 0x01FF_FFFF_FFFF_FFFFu64
    }
}

/// A segment of the address space. Constructed as a constant value by
/// [`crate::address_space::AddressSpaceLayout`].
#[derive(Debug, Clone, Copy)]
pub struct AddressSegment {
    /// The valid range of L4/L5 indices.
    pub valid_range: (usize, usize),
    /// A template for the leaf page table entries of this segment. It holds
    /// all flags except the address, which is filled in per mapping.
    pub entry_template: PageTableEntry,
    /// A template for the intermediate page table entries created when
    /// mapping into this segment.
    pub intermediate_entry_template: PageTableEntry,
}

/// Preconditions shared by the walks over an address space's tables.
pub open spec fn walk_ready(
    m: Seq<Seq<crate::paging::PageTableEntry>>,
    free: Seq<u64>,
    space: AddressSpaceHandle,
    v: u64,
) -> bool {
    &&& memory_wf(m)
    &&& frames_fresh(m, free)
    &&& valid_table(m, space.base_phys)
    &&& !free.contains(space.base_phys)
    &&& path_valid(m, space.base_phys, root_depth(space.paging_level), v)
}

/// `m2` adds nothing to `m1` but a suffix.
pub open spec fn is_prefix_of(m1: Seq<u64>, m2: Seq<u64>) -> bool {
    m1.len() <= m2.len() && m1 == m2.subrange(0, m1.len() as int)
}

proof fn lemma_preserves_trans(
    m0: Seq<Seq<PageTableEntry>>,
    m1: Seq<Seq<PageTableEntry>>,
    m2: Seq<Seq<PageTableEntry>>,
    f0: Seq<u64>,
    f1: Seq<u64>,
)
    requires
        preserves_present(m0, m1, f0),
        preserves_present(m1, m2, f1),
        forall|x: u64| f1.contains(x) ==> f0.contains(x),
    ensures
        preserves_present(m0, m2, f0),
{
    assert forall|t: u64, i: int|
        valid_table(m0, t) && !f0.contains(t) && 0 <= i < 512 && entry_present(read(m0, t, i))
            implies read(m2, t, i) == read(m0, t, i) by {
        assert(read(m1, t, i) == read(m0, t, i));
    }
}

proof fn lemma_path_valid_step(m: Seq<Seq<PageTableEntry>>, t: u64, d: nat, v: u64)
    requires
        path_valid(m, t, d, v),
        d > 0,
        valid_table(m, t),
        entry_present(read(m, t, table_index(v, d))),
    ensures
        path_valid(m, entry_address(read(m, t, table_index(v, d))), (d - 1) as nat, v),
        valid_table(m, entry_address(read(m, t, table_index(v, d)))),
{
    let c = entry_address(read(m, t, table_index(v, d)));
    assert forall|x: nat| x <= d - 1 implies match #[trigger] reach(m, c, (d - 1) as nat, x, v) {
        Some(z) => valid_table(m, z),
        None => true,
    } by {
        assert(reach(m, t, d, x, v) == reach(m, c, (d - 1) as nat, x, v));
    }
    assert(reach(m, t, d, (d - 1) as nat, v) == reach(m, c, (d - 1) as nat, (d - 1) as nat, v));
}

/// Allocating a fresh frame, zeroing it and linking it from a non-present
/// entry of a frame in use keeps the free frames fresh and every present
/// entry in place.
proof fn lemma_link_fresh_frame(
    m1: Seq<Seq<PageTableEntry>>,
    m2: Seq<Seq<PageTableEntry>>,
    free: Seq<u64>,
    cur: u64,
    idx: int,
    ne: PageTableEntry,
)
    requires
        memory_wf(m1),
        frames_fresh(m1, free),
        free.len() > 0,
        valid_table(m1, cur),
        !free.contains(cur),
        0 <= idx < 512,
        !entry_present(read(m1, cur, idx)),
        entry_address(ne@) == free.last(),
        m2.len() == m1.len(),
        m2[(cur / 4096) as int] == m1[(cur / 4096) as int].update(idx, ne),
        table_zeroed(m2[(free.last() / 4096) as int]),
        forall|k: int|
            0 <= k < m1.len() && k != cur / 4096 && k != free.last() / 4096 ==> #[trigger] m2[k]
                == m1[k],
    ensures
        memory_wf(m2),
        frames_fresh(m2, free.drop_last()),
        preserves_present(m1, m2, free),
{
    let f = free.last();
    let free2 = free.drop_last();
    assert(free.contains(f));
    assert(valid_table(m1, f));
    assert(f != cur);
    lemma_frame_distinct(f, cur);
    assert(!free2.contains(f)) by {
        if free2.contains(f) {
            let j = choose|j: int| 0 <= j < free2.len() && free2[j] == f;
            assert(free[j] == free[free.len() - 1]);
        }
    }
    assert forall|k: int| 0 <= k < m2.len() implies #[trigger] m2[k].len() == 512 by {
        if k != cur / 4096 && k != f / 4096 {
            assert(m2[k] == m1[k]);
        }
    }
    assert forall|t: u64, i: int|
        #![trigger read(m2, t, i)]
        valid_table(m2, t) && !free2.contains(t) && 0 <= i < 512 && entry_present(read(m2, t, i))
            implies !free2.contains(entry_address(read(m2, t, i))) by {
        if t == f {
            assert(read(m2, t, i) == 0);
            assert(0u64 & 0x1u64 == 0) by (bit_vector);
        } else if t == cur {
            lemma_frame_distinct(t, f);
            if i == idx {
                assert(read(m2, t, i) == ne@);
            } else {
                assert(read(m2, t, i) == read(m1, t, i));
                assert(!free.contains(entry_address(read(m1, t, i))));
            }
        } else {
            lemma_frame_distinct(t, f);
            lemma_frame_distinct(t, cur);
            assert(!free.contains(t)) by {
                if free.contains(t) {
                    let j = choose|j: int| 0 <= j < free.len() && free[j] == t;
                    assert(j != free.len() - 1);
                    assert(free2[j] == t);
                }
            }
            assert(m2[(t / 4096) as int] == m1[(t / 4096) as int]);
            assert(read(m2, t, i) == read(m1, t, i));
            assert(!free.contains(entry_address(read(m1, t, i))));
        }
    }
    assert forall|j: int| 0 <= j < free2.len() implies valid_table(m2, #[trigger] free2[j]) by {
        assert(free2[j] == free[j]);
    }
    assert forall|t: u64, i: int|
        #![trigger read(m2, t, i)]
        valid_table(m1, t) && !free.contains(t) && 0 <= i < 512 && entry_present(read(m1, t, i))
            implies read(m2, t, i) == read(m1, t, i) by {
        lemma_frame_distinct(t, f);
        if t != cur {
            lemma_frame_distinct(t, cur);
        }
    }
}

/// Overwriting one entry keeps every present entry of the other locations.
proof fn lemma_write_one(
    m1: Seq<Seq<PageTableEntry>>,
    m2: Seq<Seq<PageTableEntry>>,
    free: Seq<u64>,
    t0: u64,
    i0: int,
    ne: PageTableEntry,
)
    requires
        memory_wf(m1),
        valid_table(m1, t0),
        0 <= i0 < 512,
        m2 == m1.update((t0 / 4096) as int, m1[(t0 / 4096) as int].update(i0, ne)),
    ensures
        memory_wf(m2),
        forall|t: u64, i: int|
            #![trigger read(m2, t, i)]
            valid_table(m1, t) && 0 <= i < 512 && !(t == t0 && i == i0) ==> read(m2, t, i) == read(
                m1,
                t,
                i,
            ),
        read(m2, t0, i0) == ne@,
        !entry_present(read(m1, t0, i0)) ==> preserves_present(m1, m2, free),
{
    assert forall|t: u64, i: int|
        #![trigger read(m2, t, i)]
        valid_table(m1, t) && 0 <= i < 512 && !(t == t0 && i == i0) implies read(m2, t, i) == read(
            m1,
            t,
            i,
        ) by {
        if t != t0 {
            lemma_frame_distinct(t, t0);
        }
    }
    assert forall|k: int| 0 <= k < m2.len() implies #[trigger] m2[k].len() == 512 by {}
}

/// A written entry built from a template and a frame address references
/// that frame and is present when the template is.
proof fn lemma_template_entry(template: u64, addr: u64)
    requires
        addr & ADDRESS_MASK == addr,
        addr & NON_ADDRESS_MASK == 0,
    ensures
        ((template & NON_ADDRESS_MASK) | (addr & ADDRESS_MASK)) & ADDRESS_MASK == addr,
        has_bits((template & NON_ADDRESS_MASK) | (addr & ADDRESS_MASK), 0x1u64) == has_bits(
            template,
            0x1u64,
        ),
{
    assert(((template & 0xFFF0_0000_0000_0FFFu64) | (addr & 0x000F_FFFF_FFFF_F000u64))
        & 0x000F_FFFF_FFFF_F000u64 == addr && ((((template & 0xFFF0_0000_0000_0FFFu64) | (addr
        & 0x000F_FFFF_FFFF_F000u64)) & 0x1u64 != 0) == (template & 0x1u64 != 0))) by (bit_vector)
        requires
            addr & 0x000F_FFFF_FFFF_F000u64 == addr,
            addr & 0xFFF0_0000_0000_0FFFu64 == 0,
    ;
}

/// The raw value of the leaf entry slot for `v`, if the walk reaches the
/// leaf table.
pub open spec fn leaf_slot(m: Seq<Seq<PageTableEntry>>, root: u64, depth: nat, v: u64) -> Option<u64> {
    match reach(m, root, depth, 0, v) {
        Some(c) => if valid_table(m, c) {
            Some(read(m, c, table_index(v, 0)))
        } else {
            None
        },
        None => None,
    }
}

/// Whether the walk for `v` reads, above the leaf level, the very entry it
/// ends at (which takes a cycle through the leaf table).
pub open spec fn walk_revisits_leaf(m: Seq<Seq<PageTableEntry>>, root: u64, depth: nat, v: u64) -> bool {
    exists|d: nat|
        0 < d <= depth && #[trigger] reach(m, root, depth, d, v) is Some && reach(
            m,
            root,
            depth,
            d,
            v,
        ) == reach(m, root, depth, 0, v) && table_index(v, d) == table_index(v, 0)
}

/// A walk that reaches the leaf table needs no new tables.
proof fn lemma_missing_zero(m: Seq<Seq<PageTableEntry>>, t: u64, depth: nat, v: u64)
    requires
        reach(m, t, depth, 0, v) is Some,
    ensures
        missing_tables(m, t, depth, v) == 0,
{
    lemma_leaf_via_reach(m, t, depth, 0, v);
}

/// Overwriting an entry that a walk never reads leaves the walk unchanged.
pub(crate) proof fn lemma_reach_after_write(
    m1: Seq<Seq<PageTableEntry>>,
    m2: Seq<Seq<PageTableEntry>>,
    t: u64,
    depth: nat,
    target: nat,
    v: u64,
    t0: u64,
    i0: int,
)
    requires
        m1.len() == m2.len(),
        forall|tt: u64, ii: int|
            #![trigger read(m2, tt, ii)]
            valid_table(m1, tt) && 0 <= ii < 512 && !(tt == t0 && ii == i0) ==> read(m2, tt, ii)
                == read(m1, tt, ii),
        forall|d: nat|
            target < d <= depth && #[trigger] reach(m1, t, depth, d, v) == Some(t0) ==> table_index(
                v,
                d,
            ) != i0,
    ensures
        reach(m2, t, depth, target, v) == reach(m1, t, depth, target, v),
    decreases depth,
{
    if depth > target && valid_table(m1, t) {
        lemma_table_index_bound(v, depth);
        let e = read(m1, t, table_index(v, depth));
        assert(reach(m1, t, depth, depth, v) == Some(t));
        assert(read(m2, t, table_index(v, depth)) == e);
        if entry_present(e) {
            assert forall|d: nat|
                target < d <= depth - 1 && #[trigger] reach(
                    m1,
                    entry_address(e),
                    (depth - 1) as nat,
                    d,
                    v,
                ) == Some(t0) implies table_index(v, d) != i0 by {
                assert(reach(m1, t, depth, d, v) == reach(
                    m1,
                    entry_address(e),
                    (depth - 1) as nat,
                    d,
                    v,
                ));
            }
            lemma_reach_after_write(m1, m2, entry_address(e), (depth - 1) as nat, target, v, t0, i0);
        }
    }
}

/// The entry a template yields for the frame at `addr`.
pub open spec fn template_entry(template: u64, addr: u64) -> u64 {
    (template & NON_ADDRESS_MASK) | (addr & ADDRESS_MASK)
}

/// An entry built from a template references the (truncated) address it
/// was built with.
proof fn lemma_template_address(tv: u64, a: u64)
    ensures
        entry_address(template_entry(tv, a)) == a & ADDRESS_MASK,
        template_entry(tv, a) & NON_ADDRESS_MASK == tv & NON_ADDRESS_MASK,
{
    assert((((tv & 0xFFF0_0000_0000_0FFFu64) | (a & 0x000F_FFFF_FFFF_F000u64))
        & 0x000F_FFFF_FFFF_F000u64) == a & 0x000F_FFFF_FFFF_F000u64 && (((tv & 0xFFF0_0000_0000_0FFFu64)
        | (a & 0x000F_FFFF_FFFF_F000u64)) & 0xFFF0_0000_0000_0FFFu64) == tv & 0xFFF0_0000_0000_0FFFu64)
        by (bit_vector);
}

/// Every entry of `m1` that `m2` changes is zero in `m2` (a fresh table) or
/// carries the flags of the template `a` or of the template `b`.
pub open spec fn changes_flagged(m1: Seq<Seq<PageTableEntry>>, m2: Seq<Seq<PageTableEntry>>, a: u64, b: u64) -> bool {
    &&& m1.len() == m2.len()
    &&& forall|t: u64, i: int|
        #![trigger read(m2, t, i)]
        valid_table(m1, t) && 0 <= i < 512 && read(m2, t, i) != read(m1, t, i) ==> read(m2, t, i) == 0
            || read(m2, t, i) & NON_ADDRESS_MASK == a & NON_ADDRESS_MASK || read(m2, t, i)
            & NON_ADDRESS_MASK == b & NON_ADDRESS_MASK
}

proof fn lemma_flagged_trans(
    m0: Seq<Seq<PageTableEntry>>,
    m1: Seq<Seq<PageTableEntry>>,
    m2: Seq<Seq<PageTableEntry>>,
    a: u64,
    b: u64,
)
    requires
        changes_flagged(m0, m1, a, b),
        changes_flagged(m1, m2, a, b),
    ensures
        changes_flagged(m0, m2, a, b),
{
    assert forall|t: u64, i: int|
        #![trigger read(m2, t, i)]
        valid_table(m0, t) && 0 <= i < 512 && read(m2, t, i) != read(m0, t, i) implies read(m2, t, i) == 0
            || read(m2, t, i) & NON_ADDRESS_MASK == a & NON_ADDRESS_MASK || read(m2, t, i)
            & NON_ADDRESS_MASK == b & NON_ADDRESS_MASK by {
        if read(m2, t, i) == read(m1, t, i) {
            assert(read(m1, t, i) != read(m0, t, i));
        }
    }
}

proof fn lemma_flagged_widen(m1: Seq<Seq<PageTableEntry>>, m2: Seq<Seq<PageTableEntry>>, a: u64, b: u64)
    requires
        changes_flagged(m1, m2, a, a),
    ensures
        changes_flagged(m1, m2, a, b),
{
}

proof fn lemma_flagged_write(
    m1: Seq<Seq<PageTableEntry>>,
    m2: Seq<Seq<PageTableEntry>>,
    t0: u64,
    i0: int,
    ne: PageTableEntry,
    a: u64,
    b: u64,
)
    requires
        memory_wf(m1),
        valid_table(m1, t0),
        0 <= i0 < 512,
        m2 == m1.update((t0 / 4096) as int, m1[(t0 / 4096) as int].update(i0, ne)),
        ne@ & NON_ADDRESS_MASK == a & NON_ADDRESS_MASK || ne@ & NON_ADDRESS_MASK == b & NON_ADDRESS_MASK,
    ensures
        changes_flagged(m1, m2, a, b),
{
    assert forall|t: u64, i: int|
        #![trigger read(m2, t, i)]
        valid_table(m1, t) && 0 <= i < 512 && read(m2, t, i) != read(m1, t, i) implies read(m2, t, i) == 0
            || read(m2, t, i) & NON_ADDRESS_MASK == a & NON_ADDRESS_MASK || read(m2, t, i)
            & NON_ADDRESS_MASK == b & NON_ADDRESS_MASK by {
        if t / 4096 != t0 / 4096 {
            assert(m2[(t / 4096) as int] == m1[(t / 4096) as int]);
        } else if i != i0 {
            assert(m1[(t0 / 4096) as int].len() == 512);
            assert(m2[(t / 4096) as int][i] == m1[(t / 4096) as int][i]);
        } else {
            assert(m1[(t0 / 4096) as int].len() == 512);
            assert(m2[(t / 4096) as int][i] == ne);
        }
    }
}

proof fn lemma_flagged_zero(
    m1: Seq<Seq<PageTableEntry>>,
    m2: Seq<Seq<PageTableEntry>>,
    f: u64,
    a: u64,
    b: u64,
)
    requires
        valid_table(m1, f),
        m2 == m1.update((f / 4096) as int, m2[(f / 4096) as int]),
        table_zeroed(m2[(f / 4096) as int]),
    ensures
        changes_flagged(m1, m2, a, b),
{
    assert forall|t: u64, i: int|
        #![trigger read(m2, t, i)]
        valid_table(m1, t) && 0 <= i < 512 && read(m2, t, i) != read(m1, t, i) implies read(m2, t, i) == 0
            || read(m2, t, i) & NON_ADDRESS_MASK == a & NON_ADDRESS_MASK || read(m2, t, i)
            & NON_ADDRESS_MASK == b & NON_ADDRESS_MASK by {
        if t / 4096 != f / 4096 {
            assert(m2[(t / 4096) as int] == m1[(t / 4096) as int]);
        }
    }
}

/// An entry built from a present template is present and references the
/// (truncated) address it was built with.
pub proof fn lemma_template_present_pub(tv: u64, a: u64)
    requires
        has_bits(tv, 0x1u64),
    ensures
        entry_present(template_entry(tv, a)),
        entry_address(template_entry(tv, a)) == a & ADDRESS_MASK,
{
    lemma_template_present(tv, a);
}

/// An entry built from a present template is present and references the
/// (truncated) address it was built with.
proof fn lemma_template_present(tv: u64, a: u64)
    requires
        has_bits(tv, 0x1u64),
    ensures
        entry_present(template_entry(tv, a)),
        entry_address(template_entry(tv, a)) == a & ADDRESS_MASK,
{
    assert(((tv & 0xFFF0_0000_0000_0FFFu64) | (a & 0x000F_FFFF_FFFF_F000u64)) & 0x1u64 != 0 && (((tv
        & 0xFFF0_0000_0000_0FFFu64) | (a & 0x000F_FFFF_FFFF_F000u64)) & 0x000F_FFFF_FFFF_F000u64)
        == a & 0x000F_FFFF_FFFF_F000u64) by (bit_vector)
        requires
            tv & 0x1u64 != 0,
    ;
}

/// Resetting an entry to zero makes the walk through it stop there.
proof fn lemma_reset_walk(m: Seq<Seq<PageTableEntry>>, t: u64, d: nat, v: u64)
    requires
        valid_table(m, t),
        read(m, t, table_index(v, d)) == 0,
    ensures
        leaf_entry(m, t, d, v) is None,
{
    assert(0u64 & 0x1u64 == 0) by (bit_vector);
    if d == 0 {
        assert(reach(m, t, 0, 0, v) == Some(t));
    }
}

/// Tables whose entries were only reset stay empty.
proof fn lemma_empty_stable(m1: Seq<Seq<PageTableEntry>>, m2: Seq<Seq<PageTableEntry>>, c: u64)
    requires
        memory_wf(m1),
        memory_wf(m2),
        only_resets(m1, m2),
        valid_table(m1, c),
        table_empty(m1[(c / 4096) as int]),
    ensures
        table_empty(m2[(c / 4096) as int]),
{
    assert(0u64 & 0x1u64 == 0) by (bit_vector);
    assert forall|i: int| 0 <= i < m2[(c / 4096) as int].len() implies !has_bits(
        #[trigger] m2[(c / 4096) as int][i]@,
        0x1u64,
    ) by {
        assert(m1[(c / 4096) as int].len() == 512);
        assert(m2[(c / 4096) as int].len() == 512);
        assert(read(m2, c, i) == read(m1, c, i) || read(m2, c, i) == 0);
        assert(!has_bits(m1[(c / 4096) as int][i]@, 0x1u64));
    }
}

/// Resets entry `idx` of table `t` to zero, unlinking whatever it referenced.
fn reset_entry(mem: &mut PhysicalMemory, t: u64, idx: usize)
    requires
        memory_wf(old(mem)@),
        valid_table(old(mem)@, t),
        idx < 512,
    ensures
        memory_wf(final(mem)@),
        only_resets(old(mem)@, final(mem)@),
        read(final(mem)@, t, idx as int) == 0,
        forall|t2: u64, i: int|
            #![trigger read(final(mem)@, t2, i)]
            valid_table(old(mem)@, t2) && 0 <= i < 512 && !(t2 == t && i == idx) ==> read(
                final(mem)@,
                t2,
                i,
            ) == read(old(mem)@, t2, i),
{
    let z = PageTableEntry::new();
    let ghost m1 = mem@;
    mem.write_entry(t, idx, z);
    proof {
        lemma_write_one(m1, mem@, Seq::empty(), t, idx as int, z);
    }
}

/// Whether the walk for `v` from the table at `t` (`depth` levels above the
/// leaves) meets no table without a present entry below `t`: then
/// unmapping an address that is not mapped frees no table.
pub open spec fn walk_meets_no_empty_table(m: Seq<Seq<PageTableEntry>>, t: u64, depth: nat, v: u64) -> bool
    decreases depth,
{
    if depth == 0 {
        true
    } else if valid_table(m, t) && entry_present(read(m, t, table_index(v, depth))) {
        let c = entry_address(read(m, t, table_index(v, depth)));
        valid_table(m, c) && !table_empty(m[(c / 4096) as int]) && walk_meets_no_empty_table(
            m,
            c,
            (depth - 1) as nat,
            v,
        )
    } else {
        true
    }
}

/// Whether the leaf slot that the walk for `v` from `root` (`depth` levels
/// above the leaves) reaches in `m1` holds zero in `m2`.
pub open spec fn leaf_cleared(
    m1: Seq<Seq<PageTableEntry>>,
    m2: Seq<Seq<PageTableEntry>>,
    root: u64,
    depth: nat,
    v: u64,
) -> bool {
    match reach(m1, root, depth, 0, v) {
        Some(c) => read(m2, c, table_index(v, 0)) == 0,
        None => false,
    }
}

/// Whether `x` is one of the frames handed back to an allocator that went
/// from `a1` to `a2`.
pub open spec fn freed_frame(a1: Seq<u64>, a2: Seq<u64>, x: u64) -> bool {
    exists|j: int| a1.len() <= j < a2.len() && #[trigger] a2[j] == x
}

/// Every entry that unmapping `v` below `root` (`depth` levels above the
/// leaves) changed from `m1` to `m2` is an entry the walk for `v` reads in
/// `m1`: the leaf slot, or an entry above it whose table was freed.
pub open spec fn unmap_changes_on_walk(
    m1: Seq<Seq<PageTableEntry>>,
    m2: Seq<Seq<PageTableEntry>>,
    a1: Seq<u64>,
    a2: Seq<u64>,
    root: u64,
    depth: nat,
    v: u64,
) -> bool {
    forall|t: u64, i: int|
        #![trigger read(m2, t, i)]
        valid_table(m1, t) && 0 <= i < 512 && read(m2, t, i) != read(m1, t, i) ==> exists|d: nat|
            d <= depth && #[trigger] reach(m1, root, depth, d, v) == Some(t) && i == table_index(v, d) && (d
                == 0 || freed_frame(a1, a2, entry_address(read(m1, t, i))))
}

/// Every table the walk for `v` below `root` passes (the root aside) that
/// is left without a present entry in `m2` was freed, unless the walk meets
/// it again higher up.
pub open spec fn unmap_frees_emptied(
    m1: Seq<Seq<PageTableEntry>>,
    m2: Seq<Seq<PageTableEntry>>,
    a1: Seq<u64>,
    a2: Seq<u64>,
    root: u64,
    depth: nat,
    v: u64,
) -> bool {
    forall|d: nat|
        #![trigger reach(m1, root, depth, d, v)]
        d < depth && reach(m1, root, depth, d, v) is Some && valid_table(m1, reach(m1, root, depth, d, v)->0)
            && table_empty(m2[(reach(m1, root, depth, d, v)->0 / 4096) as int]) && (forall|d2: nat|
            d < d2 <= depth ==> reach(m1, root, depth, d2, v) != reach(m1, root, depth, d, v)) ==> freed_frame(
            a1,
            a2,
            reach(m1, root, depth, d, v)->0,
        )
}

/// A frame freed into `a1` stays among the frames freed into any
/// allocator that extends `a1`.
proof fn lemma_freed_extend(a0: Seq<u64>, a1: Seq<u64>, a2: Seq<u64>, x: u64)
    requires
        freed_frame(a0, a1, x),
        is_prefix_of(a1, a2),
    ensures
        freed_frame(a0, a2, x),
{
    let j = choose|j: int| a0.len() <= j < a1.len() && #[trigger] a1[j] == x;
    assert(a2[j] == a1[j]);
}

/// The frame conditions of an unmap below a child table carry over to the
/// walk from its parent, whose entry `idx` references the child and is
/// either kept (the child still holds a present entry) or reset with the
/// child freed.
proof fn lemma_unmap_lift(
    m0: Seq<Seq<PageTableEntry>>,
    m1: Seq<Seq<PageTableEntry>>,
    m2: Seq<Seq<PageTableEntry>>,
    a0: Seq<u64>,
    a1: Seq<u64>,
    a2: Seq<u64>,
    table: u64,
    child: u64,
    depth: nat,
    v: u64,
    freed: bool,
)
    requires
        memory_wf(m0),
        memory_wf(m1),
        memory_wf(m2),
        m0.len() == m1.len(),
        depth > 0,
        valid_table(m0, table),
        valid_table(m0, child),
        entry_present(read(m0, table, table_index(v, depth))),
        entry_address(read(m0, table, table_index(v, depth))) == child,
        unmap_changes_on_walk(m0, m1, a0, a1, child, (depth - 1) as nat, v),
        unmap_frees_emptied(m0, m1, a0, a1, child, (depth - 1) as nat, v),
        is_prefix_of(a0, a1),
        freed ==> a2 == a1.push(child) && table_empty(m1[(child / 4096) as int]) && m2.len() == m1.len()
            && read(m2, table, table_index(v, depth)) == 0 && forall|t: u64, i: int|
            #![trigger read(m2, t, i)]
            valid_table(m1, t) && 0 <= i < 512 && !(t == table && i == table_index(v, depth)) ==> read(m2, t, i)
                == read(m1, t, i),
        !freed ==> a2 == a1 && m2 == m1 && !table_empty(m1[(child / 4096) as int]),
    ensures
        unmap_changes_on_walk(m0, m2, a0, a2, table, depth, v),
        unmap_frees_emptied(m0, m2, a0, a2, table, depth, v),
{
    let idx = table_index(v, depth);
    lemma_table_index_bound(v, depth);
    assert(is_prefix_of(a1, a2)) by {
        assert(a2.subrange(0, a1.len() as int) =~= a1);
    }
    assert forall|d: nat| d < depth implies reach(m0, table, depth, d, v) == reach(
        m0,
        child,
        (depth - 1) as nat,
        d,
        v,
    ) by {}
    assert(reach(m0, table, depth, depth, v) == Some(table));
    assert forall|t: u64, i: int|
        #![trigger read(m2, t, i)]
        valid_table(m0, t) && 0 <= i < 512 && read(m2, t, i) != read(m0, t, i) implies exists|d: nat|
        d <= depth && #[trigger] reach(m0, table, depth, d, v) == Some(t) && i == table_index(v, d) && (d == 0
            || freed_frame(a0, a2, entry_address(read(m0, t, i)))) by {
        if freed && t == table && i == idx {
            assert(a2[a1.len() as int] == child);
            assert(freed_frame(a0, a2, entry_address(read(m0, t, i))));
            assert(reach(m0, table, depth, depth, v) == Some(t));
        } else {
            assert(read(m2, t, i) == read(m1, t, i));
            let d = choose|d: nat|
                d <= (depth - 1) as nat && #[trigger] reach(m0, child, (depth - 1) as nat, d, v) == Some(t)
                    && i == table_index(v, d) && (d == 0 || freed_frame(a0, a1, entry_address(read(m0, t, i))));
            assert(reach(m0, table, depth, d, v) == Some(t));
            if d != 0 {
                lemma_freed_extend(a0, a1, a2, entry_address(read(m0, t, i)));
            }
        }
    }
    assert forall|d: nat|
        #![trigger reach(m0, table, depth, d, v)]
        d < depth && reach(m0, table, depth, d, v) is Some && valid_table(m0, reach(m0, table, depth, d, v)->0)
            && table_empty(m2[(reach(m0, table, depth, d, v)->0 / 4096) as int]) && (forall|d2: nat|
            d < d2 <= depth ==> reach(m0, table, depth, d2, v) != reach(m0, table, depth, d, v)) implies freed_frame(
        a0,
        a2,
        reach(m0, table, depth, d, v)->0,
    ) by {
        let c = reach(m0, table, depth, d, v)->0;
        assert(reach(m0, table, depth, depth, v) != reach(m0, table, depth, d, v));
        assert(c != table);
        assert(c / 4096 != table / 4096);
        assert(table_empty(m1[(c / 4096) as int])) by {
            if freed {
                assert forall|k: int| 0 <= k < m1[(c / 4096) as int].len() implies !has_bits(
                    #[trigger] m1[(c / 4096) as int][k]@,
                    0x1u64,
                ) by {
                    assert(m1[(c / 4096) as int].len() == 512);
                    assert(read(m2, c, k) == read(m1, c, k));
                    assert(m2[(c / 4096) as int][k]@ == read(m2, c, k));
                }
            }
        }
        if d == depth - 1 {
            assert(c == child);
            if freed {
                assert(a2[a1.len() as int] == child);
            }
        } else {
            assert forall|d2: nat| d < d2 <= (depth - 1) as nat implies #[trigger] reach(m0, child, (depth - 1) as nat, d2, v)
                != reach(m0, child, (depth - 1) as nat, d, v) by {
                assert(reach(m0, table, depth, d2, v) != reach(m0, table, depth, d, v));
            }
            assert(reach(m0, child, (depth - 1) as nat, d, v) is Some);
            lemma_freed_extend(a0, a1, a2, c);
        }
    }
}

/// Whether the walks for `v` and `w` from `root` meet a common table only
/// at one and the same level (as they do in a hierarchy without cycles).
pub open spec fn walk_levels_consistent(m: Seq<Seq<PageTableEntry>>, root: u64, depth: nat, v: u64, w: u64) -> bool {
    forall|dv: nat, dw: nat|
        dv <= depth && dw <= depth && #[trigger] reach(m, root, depth, dv, v) is Some && reach(
            m,
            root,
            depth,
            dv,
            v,
        ) == #[trigger] reach(m, root, depth, dw, w) ==> dv == dw
}

/// Whether the walks for `v` and `w` end at the same leaf slot.
pub open spec fn same_leaf_slot(m: Seq<Seq<PageTableEntry>>, root: u64, depth: nat, v: u64, w: u64) -> bool {
    reach(m, root, depth, 0, v) is Some && reach(m, root, depth, 0, w) == reach(m, root, depth, 0, v)
        && table_index(w, 0) == table_index(v, 0)
}

/// Below a table that an unmap of `v` emptied, the walk for `w` in the
/// memory before the unmap found no leaf, unless it ends at `v`'s leaf
/// slot.
proof fn lemma_unmap_emptied_chain(
    m1: Seq<Seq<PageTableEntry>>,
    m2: Seq<Seq<PageTableEntry>>,
    a1: Seq<u64>,
    a2: Seq<u64>,
    root: u64,
    depth: nat,
    v: u64,
    w: u64,
    c: u64,
    d: nat,
)
    requires
        memory_wf(m2),
        m1.len() == m2.len(),
        d <= depth,
        path_valid(m1, root, depth, w),
        only_resets(m1, m2),
        unmap_changes_on_walk(m1, m2, a1, a2, root, depth, v),
        freed_are_empty_tables(m2, a1, a2),
        walk_levels_consistent(m1, root, depth, v, w),
        !same_leaf_slot(m1, root, depth, v, w),
        reach(m1, root, depth, d, w) == Some(c),
        valid_table(m2, c),
        table_empty(m2[(c / 4096) as int]),
    ensures
        leaf_entry(m1, c, d, w) is None,
    decreases d,
{
    let i = table_index(w, d);
    lemma_table_index_bound(w, d);
    assert(valid_table(m1, c));
    let e = read(m1, c, i);
    assert(m2[(c / 4096) as int].len() == 512);
    assert(!has_bits(m2[(c / 4096) as int][i]@, 0x1u64));
    if entry_present(e) {
        assert(read(m2, c, i) != read(m1, c, i));
        let dv = choose|dv: nat|
            dv <= depth && #[trigger] reach(m1, root, depth, dv, v) == Some(c) && i == table_index(v, dv) && (dv
                == 0 || freed_frame(a1, a2, entry_address(read(m1, c, i))));
        assert(dv == d);
        if d == 0 {
            assert(same_leaf_slot(m1, root, depth, v, w));
        } else {
            let c2 = entry_address(e);
            let j = choose|j: int| a1.len() <= j < a2.len() && #[trigger] a2[j] == c2;
            assert(valid_table(m2, a2[j]) && table_empty(m2[(a2[j] / 4096) as int]));
            lemma_reach_step(m1, root, depth, d, w);
            lemma_unmap_emptied_chain(m1, m2, a1, a2, root, depth, v, w, c2, (d - 1) as nat);
            lemma_leaf_via_reach(m1, c, d, (d - 1) as nat, w);
            assert(reach(m1, c, d, (d - 1) as nat, w) == Some(c2));
            assert(reach(m1, c2, (d - 1) as nat, (d - 1) as nat, w) == Some(c2));
        }
    } else {
        if d == 0 {
            assert(reach(m1, c, 0, 0, w) == Some(c));
        }
    }
}

/// The walk for `w` from a table it reaches alike before and after an unmap
/// of `v` ends at the same leaf, unless it ends at `v`'s leaf slot.
pub proof fn lemma_unmap_other_walk(
    m1: Seq<Seq<PageTableEntry>>,
    m2: Seq<Seq<PageTableEntry>>,
    a1: Seq<u64>,
    a2: Seq<u64>,
    root: u64,
    depth: nat,
    v: u64,
    w: u64,
    t: u64,
    d: nat,
)
    requires
        memory_wf(m2),
        m1.len() == m2.len(),
        d <= depth,
        path_valid(m1, root, depth, w),
        only_resets(m1, m2),
        unmap_changes_on_walk(m1, m2, a1, a2, root, depth, v),
        freed_are_empty_tables(m2, a1, a2),
        walk_levels_consistent(m1, root, depth, v, w),
        !same_leaf_slot(m1, root, depth, v, w),
        reach(m1, root, depth, d, w) == Some(t),
        reach(m2, root, depth, d, w) == Some(t),
    ensures
        leaf_entry(m2, t, d, w) == leaf_entry(m1, t, d, w),
    decreases d,
{
    let i = table_index(w, d);
    lemma_table_index_bound(w, d);
    assert(valid_table(m1, t));
    let e = read(m1, t, i);
    if read(m2, t, i) == e {
        if d == 0 {
            assert(reach(m1, t, 0, 0, w) == Some(t));
            assert(reach(m2, t, 0, 0, w) == Some(t));
        } else if entry_present(e) {
            let c = entry_address(e);
            lemma_reach_step(m1, root, depth, d, w);
            lemma_reach_step(m2, root, depth, d, w);
            lemma_unmap_other_walk(m1, m2, a1, a2, root, depth, v, w, c, (d - 1) as nat);
            assert(reach(m1, c, (d - 1) as nat, (d - 1) as nat, w) == Some(c));
            assert(reach(m2, c, (d - 1) as nat, (d - 1) as nat, w) == Some(c));
            lemma_leaf_via_reach(m1, t, d, (d - 1) as nat, w);
            lemma_leaf_via_reach(m2, t, d, (d - 1) as nat, w);
        }
    } else {
        let dv = choose|dv: nat|
            dv <= depth && #[trigger] reach(m1, root, depth, dv, v) == Some(t) && i == table_index(v, dv) && (dv
                == 0 || freed_frame(a1, a2, entry_address(read(m1, t, i))));
        assert(dv == d);
        if d == 0 {
            assert(same_leaf_slot(m1, root, depth, v, w));
        } else {
            assert(read(m2, t, i) == 0);
            lemma_reset_walk(m2, t, d, w);
            if entry_present(e) {
                let c = entry_address(e);
                let j = choose|j: int| a1.len() <= j < a2.len() && #[trigger] a2[j] == c;
                assert(valid_table(m2, a2[j]) && table_empty(m2[(a2[j] / 4096) as int]));
                lemma_reach_step(m1, root, depth, d, w);
                lemma_unmap_emptied_chain(m1, m2, a1, a2, root, depth, v, w, c, (d - 1) as nat);
                lemma_leaf_via_reach(m1, t, d, (d - 1) as nat, w);
                assert(reach(m1, c, (d - 1) as nat, (d - 1) as nat, w) == Some(c));
            }
        }
    }
}

/// No present entry of a table in use (outside `free`, other than `x`
/// itself) references the frame `x`.
pub open spec fn refs_avoid(m: Seq<Seq<PageTableEntry>>, free: Seq<u64>, x: u64) -> bool {
    forall|t: u64, i: int|
        #![trigger read(m, t, i)]
        valid_table(m, t) && !free.contains(t) && t != x && 0 <= i < 512 && entry_present(read(m, t, i))
            ==> entry_address(read(m, t, i)) != x
}

/// No table the walk for `v` from `root` passes is the frame `x`.
pub open spec fn walk_avoids(m: Seq<Seq<PageTableEntry>>, root: u64, depth: nat, v: u64, x: u64) -> bool {
    forall|k: nat| k <= depth && #[trigger] reach(m, root, depth, k, v) is Some ==> reach(m, root, depth, k, v)->0 != x
}

pub(crate) proof fn lemma_zero_absent()
    ensures
        !entry_present(0),
        has_bits(0x8000_0000_0000_0103u64, 0x1u64),
        has_bits(0x8000_0000_0000_0183u64, 0x1u64),
{
    assert(0u64 & 0x1u64 == 0 && 0x8000_0000_0000_0103u64 & 0x1u64 != 0 && 0x8000_0000_0000_0183u64 & 0x1u64 != 0)
        by (bit_vector);
}

/// A walk that starts in a table in use and other than `x` never meets `x`
/// when no table in use references `x`.
pub(crate) proof fn lemma_walk_avoids(m: Seq<Seq<PageTableEntry>>, free: Seq<u64>, root: u64, depth: nat, v: u64, x: u64)
    requires
        frames_fresh(m, free),
        refs_avoid(m, free, x),
        !free.contains(root),
        root != x,
    ensures
        walk_avoids(m, root, depth, v, x),
    decreases depth,
{
    if depth > 0 && valid_table(m, root) {
        lemma_table_index_bound(v, depth);
        let e = read(m, root, table_index(v, depth));
        if entry_present(e) {
            let next = entry_address(e);
            lemma_walk_avoids(m, free, next, (depth - 1) as nat, v, x);
            assert forall|k: nat| k <= depth && #[trigger] reach(m, root, depth, k, v) is Some implies reach(
                m,
                root,
                depth,
                k,
                v,
            )->0 != x by {
                if k < depth {
                    assert(reach(m, root, depth, k, v) == reach(m, next, (depth - 1) as nat, k, v));
                }
            }
        }
    }
}

/// A walk that reaches the leaf tables passes a table at every level.
proof fn lemma_reach_prefix(m: Seq<Seq<PageTableEntry>>, t: u64, depth: nat, k: nat, v: u64)
    requires
        k <= depth,
        reach(m, t, depth, 0, v) is Some,
    ensures
        reach(m, t, depth, k, v) is Some,
    decreases depth,
{
    if depth > 0 && k < depth {
        let e = read(m, t, table_index(v, depth));
        lemma_reach_prefix(m, entry_address(e), (depth - 1) as nat, k, v);
    }
}

/// Overwriting a frame that the walk for `v` never passes leaves the walk's
/// leaf as it was.
pub proof fn lemma_walk_frame_write(
    m1: Seq<Seq<PageTableEntry>>,
    m2: Seq<Seq<PageTableEntry>>,
    root: u64,
    depth: nat,
    v: u64,
    x: u64,
)
    requires
        walk_avoids(m1, root, depth, v, x),
        x % 4096 == 0,
        m1.len() == m2.len(),
        forall|k: int| 0 <= k < m1.len() && k != x / 4096 ==> m2[k] == m1[k],
    ensures
        leaf_entry(m2, root, depth, v) == leaf_entry(m1, root, depth, v),
        reach(m2, root, depth, 0, v) == reach(m1, root, depth, 0, v),
    decreases depth,
{
    assert(reach(m1, root, depth, depth, v) == Some(root));
    if valid_table(m1, root) {
        assert(root != x);
        assert(m2[(root / 4096) as int] == m1[(root / 4096) as int]);
        lemma_table_index_bound(v, depth);
        if depth > 0 {
            let e = read(m1, root, table_index(v, depth));
            assert(read(m2, root, table_index(v, depth)) == e);
            if entry_present(e) {
                let next = entry_address(e);
                assert forall|k: nat| k <= (depth - 1) as nat && #[trigger] reach(m1, next, (depth - 1) as nat, k, v)
                    is Some implies reach(m1, next, (depth - 1) as nat, k, v)->0 != x by {
                    assert(reach(m1, root, depth, k, v) == reach(m1, next, (depth - 1) as nat, k, v));
                }
                lemma_walk_frame_write(m1, m2, next, (depth - 1) as nat, v, x);
            }
        } else {
            lemma_table_index_bound(v, 0);
            assert(read(m2, root, table_index(v, 0)) == read(m1, root, table_index(v, 0)));
        }
    }
}

/// Looks up, without changing anything, the physical address that the
/// walk for `virt` from the table at `table` (`depth` levels above the
/// leaves) ends at, if any.
pub(crate) fn lookup_walk(mem: &PhysicalMemory, table: u64, depth: u64, virt: u64) -> (r: Option<u64>)
    requires
        memory_wf(mem@),
        valid_table(mem@, table),
        depth <= 4,
        path_valid(mem@, table, depth as nat, virt),
    ensures
        r == match leaf_entry(mem@, table, depth as nat, virt) {
            Some(e) => Some(entry_address(e)),
            None => None,
        },
    decreases depth,
{
    let shift: u64 = 12 + 9 * depth;
    let bits = (virt >> shift) & 0x1FF;
    proof {
        assert(shift == (12 + 9 * (depth as nat)) as u64);
        assert(bits == table_index(virt, depth as nat));
        lemma_table_index_bound(virt, depth as nat);
    }
    let idx = bits as usize;
    let e = mem.read_entry(table, idx);
    if !e.present() {
        proof {
            if depth == 0 {
                assert(reach(mem@, table, 0, 0, virt) == Some(table));
            }
        }
        return None;
    }
    if depth == 0 {
        proof {
            assert(reach(mem@, table, 0, 0, virt) == Some(table));
        }
        return Some(e.address());
    }
    let child = e.address();
    proof {
        lemma_path_valid_step(mem@, table, depth as nat, virt);
        lemma_leaf_via_reach(mem@, table, depth as nat, (depth - 1) as nat, virt);
        assert(reach(mem@, child, (depth - 1) as nat, (depth - 1) as nat, virt) == Some(child));
    }
    lookup_walk(mem, child, depth - 1, virt)
}


/// Unmaps `virt` below the table `table` that sits `depth` levels above the
/// leaf tables, returning the physical address that was mapped. Tables
/// left without any present entry are freed and unlinked on the way back up.
pub(crate) fn unmap_walk(
    mem: &mut PhysicalMemory,
    alloc: &mut PageFrameAllocator,
    table: u64,
    depth: u64,
    virt: u64,
) -> (r: Option<u64>)
    requires
        memory_wf(old(mem)@),
        valid_table(old(mem)@, table),
        depth <= 4,
        path_valid(old(mem)@, table, depth as nat, virt),
    ensures
        memory_wf(final(mem)@),
        only_resets(old(mem)@, final(mem)@),
        r == match leaf_entry(old(mem)@, table, depth as nat, virt) {
            Some(e) => Some(entry_address(e)),
            None => None,
        },
        leaf_entry(final(mem)@, table, depth as nat, virt) is None,
        r is Some ==> leaf_cleared(old(mem)@, final(mem)@, table, depth as nat, virt),
        unmap_changes_on_walk(old(mem)@, final(mem)@, old(alloc)@, final(alloc)@, table, depth as nat, virt),
        unmap_frees_emptied(old(mem)@, final(mem)@, old(alloc)@, final(alloc)@, table, depth as nat, virt),
        is_prefix_of(old(alloc)@, final(alloc)@),
        forall|j: int|
            old(alloc)@.len() <= j < final(alloc)@.len() ==> valid_table(
                final(mem)@,
                #[trigger] final(alloc)@[j],
            ) && table_empty(final(mem)@[(final(alloc)@[j] / 4096) as int]),
        r is None && walk_meets_no_empty_table(old(mem)@, table, depth as nat, virt) ==> final(mem)@ == old(
            mem,
        )@ && final(alloc)@ == old(alloc)@,
    decreases depth,
{
    let ghost m0 = mem@;
    let ghost a0 = alloc@;
    proof {
        assert(a0 == a0.subrange(0, a0.len() as int));
        assert forall|t: u64, i: int| valid_table(m0, t) && 0 <= i < 512 implies read(m0, t, i) == read(m0, t, i) || read(m0, t, i) == 0 by {}
    }
    let shift: u64 = 12 + 9 * depth;
    let bits = (virt >> shift) & 0x1FF;
    proof {
        assert(shift == (12 + 9 * (depth as nat)) as u64);
        assert(bits == table_index(virt, depth as nat));
        lemma_table_index_bound(virt, depth as nat);
    }
    let idx = bits as usize;
    let e = mem.read_entry(table, idx);
    if !e.present() {
        proof {
            if depth == 0 {
                assert(reach(m0, table, 0, 0, virt) == Some(table));
            }
        }
        return None;
    }
    if depth == 0 {
        let phys = e.address();
        proof {
            assert(reach(m0, table, 0, 0, virt) == Some(table));
        }
        reset_entry(mem, table, idx);
        proof {
            lemma_reset_walk(mem@, table, 0, virt);
            assert forall|t: u64, i: int|
                #![trigger read(mem@, t, i)]
                valid_table(m0, t) && 0 <= i < 512 && read(mem@, t, i) != read(m0, t, i) implies exists|d: nat|
                d <= 0 && #[trigger] reach(m0, table, 0, d, virt) == Some(t) && i == table_index(virt, d) && (d
                    == 0 || freed_frame(a0, alloc@, entry_address(read(m0, t, i)))) by {
                assert(t == table && i == idx);
                assert(reach(m0, table, 0, 0, virt) == Some(t));
            }
        }
        return Some(phys);
    }
    let child = e.address();
    proof {
        lemma_path_valid_step(m0, table, depth as nat, virt);
        lemma_leaf_via_reach(m0, table, depth as nat, (depth - 1) as nat, virt);
        assert(reach(m0, child, (depth - 1) as nat, (depth - 1) as nat, virt) == Some(child));
    }
    let r = unmap_walk(mem, alloc, child, depth - 1, virt);
    let ghost m1 = mem@;
    let ghost a1 = alloc@;
    proof {
        assert(reach(m0, table, depth as nat, 0, virt) == reach(m0, child, (depth - 1) as nat, 0, virt));
        if r is Some {
            let c = reach(m0, child, (depth - 1) as nat, 0, virt)->0;
            assert(reach(m0, table, depth as nat, 0, virt) == Some(c));
            assert(valid_table(m0, c));
            lemma_table_index_bound(virt, 0);
        }
    }
    if mem.table_is_empty(child) {
        alloc.free(child);
        reset_entry(mem, table, idx);
        proof {
            lemma_unmap_lift(m0, m1, mem@, a0, a1, alloc@, table, child, depth as nat, virt, true);
            lemma_only_resets_trans(m0, m1, mem@);
            lemma_reset_walk(mem@, table, depth as nat, virt);
            lemma_empty_stable(m1, mem@, child);
            assert forall|j: int| a0.len() <= j < alloc@.len() implies valid_table(
                mem@,
                #[trigger] alloc@[j],
            ) && table_empty(mem@[(alloc@[j] / 4096) as int]) by {
                if j < a1.len() {
                    assert(alloc@[j] == a1[j]);
                    lemma_empty_stable(m1, mem@, a1[j]);
                }
            }
            assert(a0 == alloc@.subrange(0, a0.len() as int)) by {
                assert(a1.subrange(0, a0.len() as int) == alloc@.subrange(0, a0.len() as int));
            }
        }
    } else {
        proof {
            lemma_unmap_lift(m0, m1, mem@, a0, a1, alloc@, table, child, depth as nat, virt, false);
            assert(read(m1, table, idx as int) == e@ || read(m1, table, idx as int) == 0);
            if read(m1, table, idx as int) == 0 {
                lemma_reset_walk(m1, table, depth as nat, virt);
            } else {
                lemma_leaf_via_reach(m1, table, depth as nat, (depth - 1) as nat, virt);
                assert(reach(m1, child, (depth - 1) as nat, (depth - 1) as nat, virt) == Some(child));
            }
        }
    }
    r
}

/// What mapping `v` into `seg` of `space` yields, given the memory and the
/// free frames before the call.
pub open spec fn map_result(
    seg: AddressSegment,
    m: Seq<Seq<PageTableEntry>>,
    free: Seq<u64>,
    space: AddressSpaceHandle,
    v: u64,
) -> Result<(), MapError> {
    if v & 0xFFF != 0 {
        Err(MapError::VirtNotAligned)
    } else if !seg.in_range(v, space.paging_level) {
        Err(MapError::VirtOutOfRange)
    } else if missing_tables(m, space.base_phys, root_depth(space.paging_level), v) > free.len() {
        Err(MapError::OutOfMemory)
    } else if leaf_entry(m, space.base_phys, root_depth(space.paging_level), v) is Some {
        Err(MapError::Exists)
    } else {
        Ok(())
    }
}

/// What remapping `v` in `seg` of `space` yields: the address that was
/// mapped before, if any.
pub open spec fn remap_result(
    seg: AddressSegment,
    m: Seq<Seq<PageTableEntry>>,
    free: Seq<u64>,
    space: AddressSpaceHandle,
    v: u64,
) -> Result<Option<u64>, MapError> {
    if v & 0xFFF != 0 {
        Err(MapError::VirtNotAligned)
    } else if !seg.in_range(v, space.paging_level) {
        Err(MapError::VirtOutOfRange)
    } else if missing_tables(m, space.base_phys, root_depth(space.paging_level), v) > free.len() {
        Err(MapError::OutOfMemory)
    } else {
        Ok(translate(m, space.base_phys, space.paging_level.levels(), v))
    }
}

/// What unmapping `v` from `seg` of `space` yields.
pub open spec fn unmap_result(
    seg: AddressSegment,
    m: Seq<Seq<PageTableEntry>>,
    space: AddressSpaceHandle,
    v: u64,
) -> Result<u64, UnmapError> {
    if v & 0xFFF != 0 {
        Err(UnmapError::VirtNotAligned)
    } else if !seg.in_range(v, space.paging_level) {
        Err(UnmapError::VirtOutOfRange)
    } else {
        match translate(m, space.base_phys, space.paging_level.levels(), v) {
            Some(p) => Ok(p),
            None => Err(UnmapError::NotMapped),
        }
    }
}

/// Frames freed into `a2` beyond the prefix `a1` are tables of `m` without a
/// present entry.
pub open spec fn freed_are_empty_tables(
    m: Seq<Seq<PageTableEntry>>,
    a1: Seq<u64>,
    a2: Seq<u64>,
) -> bool {
    forall|j: int|
        a1.len() <= j < a2.len() ==> valid_table(m, #[trigger] a2[j]) && table_empty(
            m[(a2[j] / 4096) as int],
        )
}

impl AddressSegment {
    /// The segment creates intermediate entries that are present.
    pub open spec fn wf(&self) -> bool {
        has_bits(self.intermediate_entry_template@, 0x1u64)
    }

    /// Whether the top-level index of `v` lies in this segment's range.
    pub open spec fn in_range(&self, v: u64, level: PagingLevel) -> bool {
        self.valid_range.0 <= table_index(v, root_depth(level)) <= self.valid_range.1
    }

    /// Returns the location (table address and index) of the leaf page table
    /// entry for the given virtual address, allocating intermediate page
    /// tables as necessary.
    fn entry(
        &self,
        mem: &mut PhysicalMemory,
        space: &AddressSpaceHandle,
        alloc: &mut PageFrameAllocator,
        virt: u64,
    ) -> (r: Result<(u64, usize), MapError>)
        requires
            walk_ready(old(mem)@, old(alloc)@, *space, virt),
            has_bits(self.intermediate_entry_template@, 0x1u64),
        ensures
            memory_wf(final(mem)@),
            frames_fresh(final(mem)@, final(alloc)@),
            preserves_present(old(mem)@, final(mem)@, old(alloc)@),
            is_prefix_of(final(alloc)@, old(alloc)@),
            final(alloc)@.len() == old(alloc)@.len() ==> final(mem)@ == old(mem)@,
            changes_flagged(
                old(mem)@,
                final(mem)@,
                self.intermediate_entry_template@,
                self.intermediate_entry_template@,
            ),
            forall|x: u64|
                !old(alloc)@.contains(x) && refs_avoid(old(mem)@, old(alloc)@, x) ==> #[trigger] refs_avoid(
                    final(mem)@,
                    final(alloc)@,
                    x,
                ),
            virt & 0xFFF != 0 ==> r == Err::<(u64, usize), MapError>(MapError::VirtNotAligned)
                && final(mem)@ == old(mem)@ && final(alloc)@ == old(alloc)@,
            virt & 0xFFF == 0 && !self.in_range(virt, space.paging_level) ==> r == Err::<
                (u64, usize),
                MapError,
            >(MapError::VirtOutOfRange) && final(mem)@ == old(mem)@ && final(alloc)@ == old(
                alloc,
            )@,
            virt & 0xFFF == 0 && self.in_range(virt, space.paging_level) ==> {
                ||| r == Err::<(u64, usize), MapError>(MapError::OutOfMemory) && missing_tables(
                    old(mem)@,
                    space.base_phys,
                    root_depth(space.paging_level),
                    virt,
                ) > old(alloc)@.len()
                ||| r is Ok && missing_tables(
                    old(mem)@,
                    space.base_phys,
                    root_depth(space.paging_level),
                    virt,
                ) == old(alloc)@.len() - final(alloc)@.len()
            },
            r is Ok ==> {
                &&& reach(final(mem)@, space.base_phys, root_depth(space.paging_level), 0, virt)
                    == Some(r->Ok_0.0)
                &&& valid_table(final(mem)@, r->Ok_0.0)
                &&& !final(alloc)@.contains(r->Ok_0.0)
                &&& r->Ok_0.1 == table_index(virt, 0)
                &&& leaf_entry(final(mem)@, space.base_phys, root_depth(space.paging_level), virt)
                    == leaf_entry(old(mem)@, space.base_phys, root_depth(space.paging_level), virt)
            },
    {
        proof {
            assert(old(alloc)@ == old(alloc)@.subrange(0, old(alloc)@.len() as int));
        }
        if virt & 0xFFF != 0 {
            return Err(MapError::VirtNotAligned);
        }
        let levels = space.paging_level.as_usize() as u64;
        let ghost depth: nat = root_depth(space.paging_level);
        let root_shift: u64 = 12 + 9 * (levels - 1);
        let root_bits = (virt >> root_shift) & 0x1FF;
        proof {
            assert(root_shift == (12 + 9 * depth) as u64);
            assert(root_bits == table_index(virt, depth));
            lemma_table_index_bound(virt, depth);
        }
        let root_index = root_bits as usize;
        if root_index < self.valid_range.0 || root_index > self.valid_range.1 {
            return Err(MapError::VirtOutOfRange);
        }
        let base = space.base_phys;
        let ghost m0 = old(mem)@;
        let ghost a0 = old(alloc)@;
        let mut cur = base;
        let mut d: u64 = levels - 1;
        proof {
            assert(a0 == a0.subrange(0, a0.len() as int));
        }
        while d > 0
            invariant
                d <= depth,
                depth == levels - 1,
                levels == 4 || levels == 5,
                depth == root_depth(space.paging_level),
                base == space.base_phys,
                m0 == old(mem)@,
                a0 == old(alloc)@,
                memory_wf(mem@),
                mem@.len() == m0.len(),
                frames_fresh(mem@, alloc@),
                preserves_present(m0, mem@, a0),
                is_prefix_of(alloc@, a0),
                alloc@.len() == a0.len() ==> mem@ == m0,
                changes_flagged(m0, mem@, self.intermediate_entry_template@, self.intermediate_entry_template@),
                forall|x: u64| !a0.contains(x) && refs_avoid(m0, a0, x) ==> #[trigger] refs_avoid(mem@, alloc@, x),
                reach(mem@, base, depth, d as nat, virt) == Some(cur),
                valid_table(mem@, cur),
                !alloc@.contains(cur),
                !alloc@.contains(base),
                path_valid(mem@, cur, d as nat, virt),
                leaf_entry(mem@, cur, d as nat, virt) == leaf_entry(m0, base, depth, virt),
                missing_tables(mem@, cur, d as nat, virt) + (a0.len() - alloc@.len())
                    == missing_tables(m0, base, depth, virt),
                has_bits(self.intermediate_entry_template@, 0x1u64),
                virt & 0xFFF == 0,
                self.in_range(virt, space.paging_level),
            decreases d,
        {
            let shift: u64 = 12 + 9 * d;
            let bits = (virt >> shift) & 0x1FF;
            proof {
                assert(shift == (12 + 9 * (d as nat)) as u64);
                assert(bits == table_index(virt, d as nat));
                lemma_table_index_bound(virt, d as nat);
            }
            let idx = bits as usize;
            let e = mem.read_entry(cur, idx);
            let ghost m1 = mem@;
            let ghost f1 = alloc@;
            if e.present() {
                proof {
                    lemma_reach_step(m1, base, depth, d as nat, virt);
                    lemma_path_valid_step(m1, cur, d as nat, virt);
                    lemma_leaf_via_reach(m1, cur, d as nat, (d - 1) as nat, virt);
                    assert(reach(m1, entry_address(e@), (d - 1) as nat, (d - 1) as nat, virt) == Some(
                        entry_address(e@),
                    ));
                    assert(reach(m1, cur, d as nat, (d - 1) as nat, virt) == Some(entry_address(e@)));
                }
                cur = e.address();
            } else {
                let f = match alloc.allocate() {
                    Some(f) => f,
                    None => {
                        proof {
                            lemma_leaf_via_reach(m1, cur, d as nat, 0, virt);
                        }
                        return Err(MapError::OutOfMemory);
                    },
                };
                proof {
                    assert(f1.contains(f));
                    assert(valid_table(m1, f));
                    lemma_frame_address_fits(m1, f);
                    lemma_template_entry(self.intermediate_entry_template@, f);
                }
                let ne = self.intermediate_entry_template.with_address(f);
                mem.write_entry(cur, idx, ne);
                let ghost mw = mem@;
                mem.zero_frame(f);
                let ghost m2 = mem@;
                proof {
                    let it = self.intermediate_entry_template@;
                    lemma_template_address(it, f);
                    lemma_flagged_write(m1, mw, cur, idx as int, ne, it, it);
                    lemma_flagged_zero(mw, m2, f, it, it);
                    lemma_flagged_trans(m1, mw, m2, it, it);
                    lemma_flagged_trans(m0, m1, m2, it, it);
                    lemma_frame_distinct(f, cur);
                    lemma_link_fresh_frame(m1, m2, f1, cur, idx as int, ne);
                    lemma_preserves_trans(m0, m1, m2, a0, f1);
                    lemma_reach_stable(m1, m2, f1, base, depth, d as nat, virt);
                    assert(read(m2, cur, idx as int) == ne@);
                    lemma_reach_step(m2, base, depth, d as nat, virt);
                    lemma_zeroed_walk(m2, f, (d - 1) as nat, virt);
                    lemma_leaf_via_reach(m1, cur, d as nat, 0, virt);
                    assert(alloc@ == f1.drop_last());
                    assert(!alloc@.contains(base));
                    assert(f1.no_duplicates());
                    assert(!alloc@.contains(f)) by {
                        if alloc@.contains(f) {
                            let j = choose|j: int| 0 <= j < alloc@.len() && alloc@[j] == f;
                            assert(f1[j] == f1[f1.len() - 1]);
                        }
                    }
                    assert(alloc@ == a0.subrange(0, alloc@.len() as int));
                    lemma_zero_absent();
                    assert forall|x: u64| !a0.contains(x) && refs_avoid(m0, a0, x) implies #[trigger] refs_avoid(
                        m2,
                        alloc@,
                        x,
                    ) by {
                        assert(refs_avoid(m1, f1, x));
                        assert(f != x) by {
                            assert(a0.contains(f)) by {
                                let j = choose|j: int| 0 <= j < f1.len() && f1[j] == f;
                                assert(a0[j] == f1[j]);
                            }
                        }
                        assert forall|t: u64, i: int|
                            #![trigger read(m2, t, i)]
                            valid_table(m2, t) && !alloc@.contains(t) && t != x && 0 <= i < 512 && entry_present(
                                read(m2, t, i),
                            ) implies entry_address(read(m2, t, i)) != x by {
                            assert(m2[(f / 4096) as int].len() == 512);
                            if t == f {
                                assert(read(m2, t, i) == 0);
                            } else {
                                assert(t / 4096 != f / 4096);
                                assert(read(m2, t, i) == read(mw, t, i));
                                assert(m1[(cur / 4096) as int].len() == 512);
                                if t == cur && i == idx {
                                    assert(read(mw, t, i) == ne@);
                                } else {
                                    assert(read(mw, t, i) == read(m1, t, i));
                                    assert(!f1.contains(t)) by {
                                        if f1.contains(t) {
                                            let j = choose|j: int| 0 <= j < f1.len() && f1[j] == t;
                                            if j < f1.len() - 1 {
                                                assert(alloc@[j] == t);
                                            }
                                        }
                                    }
                                }
                            }
                        }
                    }
                }
                cur = f;
            }
            d = d - 1;
        }
        let leaf_bits = (virt >> 12u64) & 0x1FF;
        proof {
            lemma_leaf_via_reach(mem@, base, depth, 0, virt);
            lemma_table_index_bound(virt, 0);
            assert(leaf_bits == table_index(virt, 0));
        }
        Ok((cur, leaf_bits as usize))
    }

    /// Maps the frame at `phys` at the virtual address `virt` of `space`,
    /// creating (zeroed) intermediate tables from `alloc` as needed.
    pub fn map(
        &self,
        mem: &mut PhysicalMemory,
        space: &AddressSpaceHandle,
        alloc: &mut PageFrameAllocator,
        virt: u64,
        phys: u64,
    ) -> (r: Result<(), MapError>)
        requires
            walk_ready(old(mem)@, old(alloc)@, *space, virt),
            self.wf(),
        ensures
            r == map_result(*self, old(mem)@, old(alloc)@, *space, virt),
            changes_flagged(old(mem)@, final(mem)@, self.intermediate_entry_template@, self.entry_template@),
            r is Ok ==> old(alloc)@.len() - final(alloc)@.len() == missing_tables(
                old(mem)@,
                space.base_phys,
                root_depth(space.paging_level),
                virt,
            ),
            r is Ok ==> forall|x: u64|
                !old(alloc)@.contains(x) && x != space.base_phys && #[trigger] refs_avoid(old(mem)@, old(alloc)@, x)
                    ==> walk_avoids(final(mem)@, space.base_phys, root_depth(space.paging_level), virt, x),
            memory_wf(final(mem)@),
            preserves_present(old(mem)@, final(mem)@, old(alloc)@),
            is_prefix_of(final(alloc)@, old(alloc)@),
            r is Err ==> frames_fresh(final(mem)@, final(alloc)@),
            r is Ok && !final(alloc)@.contains(phys & ADDRESS_MASK) ==> frames_fresh(final(mem)@, final(alloc)@),
            r is Ok ==> leaf_slot(final(mem)@, space.base_phys, root_depth(space.paging_level), virt)
                == Some(template_entry(self.entry_template@, phys)),
            r is Ok && has_bits(self.entry_template@, 0x1u64) ==> translate(
                final(mem)@,
                space.base_phys,
                space.paging_level.levels(),
                virt,
            ) == Some(phys & ADDRESS_MASK),
            r == Err::<(), MapError>(MapError::VirtNotAligned) || r == Err::<(), MapError>(
                MapError::VirtOutOfRange,
            ) ==> final(mem)@ == old(mem)@ && final(alloc)@ == old(alloc)@,
    {
        let ghost depth = root_depth(space.paging_level);
        let (t, i) = match self.entry(mem, space, alloc, virt) {
            Ok(loc) => loc,
            Err(e) => {
                proof {
                    lemma_flagged_widen(
                        old(mem)@,
                        mem@,
                        self.intermediate_entry_template@,
                        self.entry_template@,
                    );
                }
                return Err(e);
            },
        };
        proof {
            lemma_flagged_widen(old(mem)@, mem@, self.intermediate_entry_template@, self.entry_template@);
        }
        proof {
            lemma_table_index_bound(virt, 0);
        }
        let e = mem.read_entry(t, i);
        proof {
            lemma_leaf_via_reach(mem@, space.base_phys, depth, 0, virt);
            assert(reach(mem@, t, 0, 0, virt) == Some(t));
        }
        if e.present() {
            return Err(MapError::Exists);
        }
        let ne = self.entry_template.with_address(phys);
        let ghost m1 = mem@;
        mem.write_entry(t, i, ne);
        proof {
            lemma_template_address(self.entry_template@, phys);
            lemma_flagged_write(m1, mem@, t, i as int, ne, self.intermediate_entry_template@, self.entry_template@);
            lemma_flagged_trans(old(mem)@, m1, mem@, self.intermediate_entry_template@, self.entry_template@);
            lemma_write_one(m1, mem@, alloc@, t, i as int, ne);
            lemma_preserves_trans(old(mem)@, m1, mem@, old(alloc)@, alloc@);
            lemma_reach_stable(m1, mem@, alloc@, space.base_phys, depth, 0, virt);
            lemma_leaf_via_reach(mem@, space.base_phys, depth, 0, virt);
            assert(reach(mem@, t, 0, 0, virt) == Some(t));
            lemma_template_address(self.entry_template@, phys);
            if !alloc@.contains(phys & ADDRESS_MASK) {
                assert forall|tt: u64, ii: int|
                    #![trigger read(mem@, tt, ii)]
                    valid_table(mem@, tt) && !alloc@.contains(tt) && 0 <= ii < 512
                        && entry_present(read(mem@, tt, ii)) implies !alloc@.contains(
                    entry_address(read(mem@, tt, ii)),
                ) by {
                    if !(tt == t && ii == i) {
                        assert(read(mem@, tt, ii) == read(m1, tt, ii));
                    }
                }
            }
            if has_bits(self.entry_template@, 0x1u64) {
                lemma_template_present(self.entry_template@, phys);
            }
            assert forall|x: u64|
                !old(alloc)@.contains(x) && x != space.base_phys && #[trigger] refs_avoid(old(mem)@, old(alloc)@, x)
                    implies walk_avoids(mem@, space.base_phys, depth, virt, x) by {
                assert(refs_avoid(m1, alloc@, x));
                lemma_walk_avoids(m1, alloc@, space.base_phys, depth, virt, x);
                assert forall|k: nat| k <= depth && #[trigger] reach(mem@, space.base_phys, depth, k, virt) is Some
                    implies reach(mem@, space.base_phys, depth, k, virt)->0 != x by {
                    lemma_reach_prefix(m1, space.base_phys, depth, k, virt);
                    lemma_reach_stable(m1, mem@, alloc@, space.base_phys, depth, k, virt);
                }
            }
        }
        Ok(())
    }

    /// Maps the frame at `phys` at the virtual address `virt` of `space`,
    /// replacing any existing mapping; returns the physical address that
    /// was mapped there before, if any.
    pub fn remap(
        &self,
        mem: &mut PhysicalMemory,
        space: &AddressSpaceHandle,
        alloc: &mut PageFrameAllocator,
        virt: u64,
        phys: u64,
    ) -> (r: Result<Option<u64>, MapError>)
        requires
            walk_ready(old(mem)@, old(alloc)@, *space, virt),
            self.wf(),
        ensures
            r == remap_result(*self, old(mem)@, old(alloc)@, *space, virt),
            changes_flagged(old(mem)@, final(mem)@, self.intermediate_entry_template@, self.entry_template@),
            memory_wf(final(mem)@),
            is_prefix_of(final(alloc)@, old(alloc)@),
            r is Err ==> frames_fresh(final(mem)@, final(alloc)@) && preserves_present(
                old(mem)@,
                final(mem)@,
                old(alloc)@,
            ),
            r is Ok && !final(alloc)@.contains(phys & ADDRESS_MASK) ==> frames_fresh(final(mem)@, final(alloc)@),
            r is Ok && !walk_revisits_leaf(
                old(mem)@,
                space.base_phys,
                root_depth(space.paging_level),
                virt,
            ) ==> leaf_slot(final(mem)@, space.base_phys, root_depth(space.paging_level), virt)
                == Some(template_entry(self.entry_template@, phys)),
            r is Ok && !walk_revisits_leaf(
                old(mem)@,
                space.base_phys,
                root_depth(space.paging_level),
                virt,
            ) && has_bits(self.entry_template@, 0x1u64) ==> translate(
                final(mem)@,
                space.base_phys,
                space.paging_level.levels(),
                virt,
            ) == Some(phys & ADDRESS_MASK),
            r == Err::<Option<u64>, MapError>(MapError::VirtNotAligned) || r == Err::<
                Option<u64>,
                MapError,
            >(MapError::VirtOutOfRange) ==> final(mem)@ == old(mem)@ && final(alloc)@ == old(
                alloc,
            )@,
    {
        let ghost depth = root_depth(space.paging_level);
        let (t, i) = match self.entry(mem, space, alloc, virt) {
            Ok(loc) => loc,
            Err(e) => {
                proof {
                    lemma_flagged_widen(
                        old(mem)@,
                        mem@,
                        self.intermediate_entry_template@,
                        self.entry_template@,
                    );
                }
                return Err(e);
            },
        };
        proof {
            lemma_flagged_widen(old(mem)@, mem@, self.intermediate_entry_template@, self.entry_template@);
        }
        proof {
            lemma_table_index_bound(virt, 0);
        }
        let e = mem.read_entry(t, i);
        proof {
            lemma_leaf_via_reach(mem@, space.base_phys, depth, 0, virt);
            assert(reach(mem@, t, 0, 0, virt) == Some(t));
        }
        let old_phys = if e.present() {
            Some(e.address())
        } else {
            None
        };
        let ne = self.entry_template.with_address(phys);
        let ghost m1 = mem@;
        mem.write_entry(t, i, ne);
        proof {
            lemma_template_address(self.entry_template@, phys);
            lemma_flagged_write(m1, mem@, t, i as int, ne, self.intermediate_entry_template@, self.entry_template@);
            lemma_flagged_trans(old(mem)@, m1, mem@, self.intermediate_entry_template@, self.entry_template@);
            lemma_write_one(m1, mem@, alloc@, t, i as int, ne);
            if entry_present(e@) {
                lemma_missing_zero(old(mem)@, space.base_phys, depth, virt);
                assert(m1 == old(mem)@);
                if !walk_revisits_leaf(old(mem)@, space.base_phys, depth, virt) {
                    assert forall|d: nat|
                        0 < d <= depth && #[trigger] reach(m1, space.base_phys, depth, d, virt)
                            == Some(t) implies table_index(virt, d) != i by {
                        if table_index(virt, d) == i {
                            assert(reach(m1, space.base_phys, depth, d, virt) == reach(
                                m1,
                                space.base_phys,
                                depth,
                                0,
                                virt,
                            ));
                            assert(walk_revisits_leaf(m1, space.base_phys, depth, virt));
                        }
                    }
                    lemma_reach_after_write(m1, mem@, space.base_phys, depth, 0, virt, t, i as int);
                }
            } else {
                lemma_reach_stable(m1, mem@, alloc@, space.base_phys, depth, 0, virt);
                lemma_preserves_trans(old(mem)@, m1, mem@, old(alloc)@, alloc@);
            }
            assert(reach(mem@, t, 0, 0, virt) == Some(t));
            lemma_template_address(self.entry_template@, phys);
            if !alloc@.contains(phys & ADDRESS_MASK) {
                assert forall|tt: u64, ii: int|
                    #![trigger read(mem@, tt, ii)]
                    valid_table(mem@, tt) && !alloc@.contains(tt) && 0 <= ii < 512
                        && entry_present(read(mem@, tt, ii)) implies !alloc@.contains(
                    entry_address(read(mem@, tt, ii)),
                ) by {
                    if !(tt == t && ii == i) {
                        assert(read(mem@, tt, ii) == read(m1, tt, ii));
                    }
                }
            }
            if has_bits(self.entry_template@, 0x1u64) {
                lemma_template_present(self.entry_template@, phys);
            }
        }
        Ok(old_phys)
    }

    /// Unmaps `virt` from a four-level `space`, returning the physical
    /// address that was mapped there (or `None`). Page tables left without a
    /// present entry are freed; the mapped frame itself is not.
    fn try_unmap_l4(
        &self,
        mem: &mut PhysicalMemory,
        space: &AddressSpaceHandle,
        alloc: &mut PageFrameAllocator,
        virt: u64,
    ) -> (r: Result<Option<u64>, UnmapError>)
        requires
            space.paging_level == PagingLevel::Level4,
            memory_wf(old(mem)@),
            valid_table(old(mem)@, space.base_phys),
            path_valid(old(mem)@, space.base_phys, 3, virt),
        ensures
            r == match unmap_result(*self, old(mem)@, *space, virt) {
                Ok(p) => Ok(Some(p)),
                Err(UnmapError::NotMapped) => Ok(None),
                Err(e) => Err(e),
            },
            r is Err ==> final(mem)@ == old(mem)@ && final(alloc)@ == old(alloc)@,
            r is Ok ==> translate(final(mem)@, space.base_phys, 4, virt) is None,
            r matches Ok(Some(_)) ==> leaf_cleared(old(mem)@, final(mem)@, space.base_phys, 3, virt),
            r is Ok ==> unmap_changes_on_walk(old(mem)@, final(mem)@, old(alloc)@, final(alloc)@, space.base_phys, 3, virt),
            r is Ok ==> unmap_frees_emptied(old(mem)@, final(mem)@, old(alloc)@, final(alloc)@, space.base_phys, 3, virt),
            r == Ok::<Option<u64>, UnmapError>(None) && walk_meets_no_empty_table(
                old(mem)@,
                space.base_phys,
                3,
                virt,
            ) ==> final(mem)@ == old(mem)@ && final(alloc)@ == old(alloc)@,
            memory_wf(final(mem)@),
            only_resets(old(mem)@, final(mem)@),
            is_prefix_of(old(alloc)@, final(alloc)@),
            freed_are_empty_tables(final(mem)@, old(alloc)@, final(alloc)@),
    {
        proof {
            assert(old(alloc)@ == old(alloc)@.subrange(0, old(alloc)@.len() as int));
            assert forall|t: u64, i: int| valid_table(old(mem)@, t) && 0 <= i < 512 implies #[trigger] read(old(mem)@, t, i) == read(old(mem)@, t, i) || read(old(mem)@, t, i) == 0 by {}
        }
        if virt & 0xFFF != 0 {
            return Err(UnmapError::VirtNotAligned);
        }
        let l4_bits = (virt >> 39u64) & 0x1FF;
        proof {
            assert(l4_bits == table_index(virt, 3));
            lemma_table_index_bound(virt, 3);
        }
        let l4_index = l4_bits as usize;
        if l4_index < self.valid_range.0 || l4_index > self.valid_range.1 {
            return Err(UnmapError::VirtOutOfRange);
        }
        Ok(unmap_walk(mem, alloc, space.base_phys, 3, virt))
    }

    /// Unmaps `virt` from a five-level `space`, returning the physical
    /// address that was mapped there (or `None`). Page tables left without a
    /// present entry are freed; the mapped frame itself is not.
    fn try_unmap_l5(
        &self,
        mem: &mut PhysicalMemory,
        space: &AddressSpaceHandle,
        alloc: &mut PageFrameAllocator,
        virt: u64,
    ) -> (r: Result<Option<u64>, UnmapError>)
        requires
            space.paging_level == PagingLevel::Level5,
            memory_wf(old(mem)@),
            valid_table(old(mem)@, space.base_phys),
            path_valid(old(mem)@, space.base_phys, 4, virt),
        ensures
            r == match unmap_result(*self, old(mem)@, *space, virt) {
                Ok(p) => Ok(Some(p)),
                Err(UnmapError::NotMapped) => Ok(None),
                Err(e) => Err(e),
            },
            r is Err ==> final(mem)@ == old(mem)@ && final(alloc)@ == old(alloc)@,
            r is Ok ==> translate(final(mem)@, space.base_phys, 5, virt) is None,
            r matches Ok(Some(_)) ==> leaf_cleared(old(mem)@, final(mem)@, space.base_phys, 4, virt),
            r is Ok ==> unmap_changes_on_walk(old(mem)@, final(mem)@, old(alloc)@, final(alloc)@, space.base_phys, 4, virt),
            r is Ok ==> unmap_frees_emptied(old(mem)@, final(mem)@, old(alloc)@, final(alloc)@, space.base_phys, 4, virt),
            r == Ok::<Option<u64>, UnmapError>(None) && walk_meets_no_empty_table(
                old(mem)@,
                space.base_phys,
                4,
                virt,
            ) ==> final(mem)@ == old(mem)@ && final(alloc)@ == old(alloc)@,
            memory_wf(final(mem)@),
            only_resets(old(mem)@, final(mem)@),
            is_prefix_of(old(alloc)@, final(alloc)@),
            freed_are_empty_tables(final(mem)@, old(alloc)@, final(alloc)@),
    {
        proof {
            assert(old(alloc)@ == old(alloc)@.subrange(0, old(alloc)@.len() as int));
            assert forall|t: u64, i: int| valid_table(old(mem)@, t) && 0 <= i < 512 implies #[trigger] read(old(mem)@, t, i) == read(old(mem)@, t, i) || read(old(mem)@, t, i) == 0 by {}
        }
        if virt & 0xFFF != 0 {
            return Err(UnmapError::VirtNotAligned);
        }
        let l5_bits = (virt >> 48u64) & 0x1FF;
        proof {
            assert(l5_bits == table_index(virt, 4));
            lemma_table_index_bound(virt, 4);
        }
        let l5_index = l5_bits as usize;
        if l5_index < self.valid_range.0 || l5_index > self.valid_range.1 {
            return Err(UnmapError::VirtOutOfRange);
        }
        Ok(unmap_walk(mem, alloc, space.base_phys, 4, virt))
    }

    /// Unmaps `virt` from `space`, returning the physical address that was
    /// mapped there. Page tables left without a present entry are freed into
    /// `alloc`; the mapped frame itself is not.
    pub fn unmap(
        &self,
        mem: &mut PhysicalMemory,
        space: &AddressSpaceHandle,
        alloc: &mut PageFrameAllocator,
        virt: u64,
    ) -> (r: Result<u64, UnmapError>)
        requires
            memory_wf(old(mem)@),
            valid_table(old(mem)@, space.base_phys),
            path_valid(old(mem)@, space.base_phys, root_depth(space.paging_level), virt),
        ensures
            r == unmap_result(*self, old(mem)@, *space, virt),
            r == Err::<u64, UnmapError>(UnmapError::VirtNotAligned) || r == Err::<u64, UnmapError>(
                UnmapError::VirtOutOfRange,
            ) ==> final(mem)@ == old(mem)@ && final(alloc)@ == old(alloc)@,
            virt & 0xFFF == 0 && self.in_range(virt, space.paging_level) ==> translate(
                final(mem)@,
                space.base_phys,
                space.paging_level.levels(),
                virt,
            ) is None,
            memory_wf(final(mem)@),
            only_resets(old(mem)@, final(mem)@),
            is_prefix_of(old(alloc)@, final(alloc)@),
            freed_are_empty_tables(final(mem)@, old(alloc)@, final(alloc)@),
            r is Ok ==> leaf_cleared(
                old(mem)@,
                final(mem)@,
                space.base_phys,
                root_depth(space.paging_level),
                virt,
            ),
            virt & 0xFFF == 0 && self.in_range(virt, space.paging_level) ==> unmap_changes_on_walk(
                old(mem)@,
                final(mem)@,
                old(alloc)@,
                final(alloc)@,
                space.base_phys,
                root_depth(space.paging_level),
                virt,
            ),
            virt & 0xFFF == 0 && self.in_range(virt, space.paging_level) ==> unmap_frees_emptied(
                old(mem)@,
                final(mem)@,
                old(alloc)@,
                final(alloc)@,
                space.base_phys,
                root_depth(space.paging_level),
                virt,
            ),
            r == Err::<u64, UnmapError>(UnmapError::NotMapped) && walk_meets_no_empty_table(
                old(mem)@,
                space.base_phys,
                root_depth(space.paging_level),
                virt,
            ) ==> final(mem)@ == old(mem)@ && final(alloc)@ == old(alloc)@,
    {
        let phys = match space.paging_level {
            PagingLevel::Level4 => self.try_unmap_l4(mem, space, alloc, virt),
            PagingLevel::Level5 => self.try_unmap_l5(mem, space, alloc, virt),
        };
        match phys {
            Ok(Some(p)) => Ok(p),
            Ok(None) => Err(UnmapError::NotMapped),
            Err(e) => Err(e),
        }
    }

    /// The range of virtual addresses the segment covers (first and last
    /// byte), in canonical form for the given paging level.
    pub fn range(&self, paging_level: PagingLevel) -> (r: (u64, u64))
        ensures
            paging_level == PagingLevel::Level4 ==> r == (
                sign_extend_48((self.valid_range.0 as u64) << 39u64),
                sign_extend_48(((self.valid_range.1 as u64) << 39u64) | 0x0000_007F_FFFF_FFFFu64),
            ),
            paging_level == PagingLevel::Level5 ==> r == (
                sign_extend_57((self.valid_range.0 as u64) << 48u64),
                sign_extend_57(((self.valid_range.1 as u64) << 48u64) | 0x0000_FFFF_FFFF_FFFFu64),
            ),
    {
        let lo = self.valid_range.0 as u64;
        let hi = self.valid_range.1 as u64;
        match paging_level {
            PagingLevel::Level4 => (
                sign_extend_l4(lo << 39u64),
                sign_extend_l4((hi << 39u64) | 0x0000_007F_FFFF_FFFFu64),
            ),
            PagingLevel::Level5 => (
                sign_extend_l5(lo << 48u64),
                sign_extend_l5((hi << 48u64) | 0x0000_FFFF_FFFF_FFFFu64),
            ),
        }
    }
}

} // verus!
