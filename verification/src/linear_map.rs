//! The linear map of physical memory: every region of the memory map (and
//! the first 4 GiB) mapped with 2 MiB pages at its physical address plus
//! the base of the linear map segment, with page tables taken from the
//! memory map itself.
use vstd::prelude::*;

use crate::boot_memory::{
    adjust_entry, align_up, entries_wf, entry_wf, linear_huge_entry, linear_region, linear_region_spec,
    linear_table_entry, pfa_can_take, pfa_next, MemoryMapEntry, MemoryMapEntryType, MemoryMapPfa,
};
use crate::paging::{PageTableEntry, PagingLevel, ADDRESS_MASK, NON_ADDRESS_MASK};
use crate::phys::{
    entry_address, entry_present, memory_wf, preserves_present, reach, read, table_index,
    valid_table, PhysicalMemory,
};
use crate::paging::{has_bits, table_zeroed};
use crate::phys::{lemma_frame_address_fits, lemma_frame_distinct, lemma_reach_step, lemma_table_index_bound};
use crate::address_space::AddressSpaceLayout;
use crate::segment::{
    sign_extend_48, sign_extend_57, lemma_reach_after_write, lemma_template_present_pub, lemma_zero_absent, root_depth, template_entry,
};

verus! {

pub proof fn lemma_pfa_next_progress(entries: Seq<MemoryMapEntry>, i: int, cur: MemoryMapEntry)
    requires
        0 <= i <= entries.len(),
    ensures
        pfa_next(entries, i, cur).0 is Some ==> i <= pfa_next(entries, i, cur).1 <= entries.len() && (
        pfa_next(entries, i, cur).1 == i ==> pfa_next(entries, i, cur).2.length < cur.length),
    decreases entries.len() - i,
{
    if pfa_can_take(cur) {
    } else if i >= entries.len() {
    } else {
        lemma_pfa_next_progress(entries, i + 1, adjust_entry(entries[i]));
    }
}

/// Once the allocator has run dry, it stays dry.
pub proof fn lemma_pfa_next_dry(entries: Seq<MemoryMapEntry>, i: int, cur: MemoryMapEntry)
    requires
        0 <= i <= entries.len(),
        pfa_next(entries, i, cur).0 is None,
    ensures
        pfa_next(entries, pfa_next(entries, i, cur).1, pfa_next(entries, i, cur).2).0 is None,
    decreases entries.len() - i,
{
    if pfa_can_take(cur) {
    } else if i >= entries.len() {
    } else {
        lemma_pfa_next_dry(entries, i + 1, adjust_entry(entries[i]));
    }
}

/// Every frame a [`MemoryMapPfa`] at entry index `i` with current entry
/// `cur` hands out from now on, in order.
pub open spec fn pfa_all(entries: Seq<MemoryMapEntry>, i: int, cur: MemoryMapEntry) -> Seq<u64>
    decreases entries.len() - i, cur.length,
    when 0 <= i <= entries.len()
{
    let n = pfa_next(entries, i, cur);
    if n.0 is Some {
        proof {
            lemma_pfa_next_progress(entries, i, cur);
        }
        seq![n.0->0] + pfa_all(entries, n.1, n.2)
    } else {
        Seq::empty()
    }
}

/// Every frame `pfa` hands out from now on, in order.
pub open spec fn pfa_supply(pfa: MemoryMapPfa) -> Seq<u64> {
    pfa_all(pfa.spec_entries(), pfa.spec_index(), pfa.spec_current())
}

/// Takes the next frame of `pfa`: the first of the frames it hands out.
fn take_frame(pfa: &mut MemoryMapPfa) -> (r: Option<u64>)
    requires
        old(pfa).wf(),
    ensures
        final(pfa).wf(),
        r is None ==> pfa_supply(*old(pfa)).len() == 0 && pfa_supply(*final(pfa)).len() == 0,
        r matches Some(f) ==> pfa_supply(*old(pfa)).len() > 0 && f == pfa_supply(*old(pfa))[0]
            && pfa_supply(*final(pfa)) == pfa_supply(*old(pfa)).drop_first(),
{
    proof {
        old(pfa).lemma_index_bound();
    }
    let r = pfa.next();
    proof {
        pfa.lemma_index_bound();
        lemma_pfa_next_progress(old(pfa).spec_entries(), old(pfa).spec_index(), old(pfa).spec_current());
        assert(pfa_supply(*old(pfa)) == pfa_all(
            old(pfa).spec_entries(),
            old(pfa).spec_index(),
            old(pfa).spec_current(),
        ));
        if r is Some {
            assert(pfa_supply(*old(pfa)).drop_first() =~= pfa_supply(*pfa));
        } else {
            lemma_pfa_next_dry(old(pfa).spec_entries(), old(pfa).spec_index(), old(pfa).spec_current());
            assert(pfa_next(pfa.spec_entries(), pfa.spec_index(), pfa.spec_current()).0 is None);
        }
    }
    r
}

/// The first byte of the linear map segment of a hierarchy `depth` levels
/// above the leaves.
pub open spec fn lin_base(depth: nat) -> u64 {
    if depth == 3 {
        0xFFFF_8180_0000_0000u64
    } else {
        0xFF03_0000_0000_0000u64
    }
}

/// The last byte of the linear map segment.
pub open spec fn lin_last(depth: nat) -> u64 {
    if depth == 3 {
        0xFFFF_A07F_FFFF_FFFFu64
    } else {
        0xFF40_FFFF_FFFF_FFFFu64
    }
}

/// Whether `v` lies in the linear map segment.
pub open spec fn in_linear_segment(v: u64, depth: nat) -> bool {
    lin_base(depth) <= v <= lin_last(depth)
}

/// Whether `v` is the start of a 2 MiB page of the linear map segment.
pub open spec fn linear_page(v: u64, depth: nat) -> bool {
    in_linear_segment(v, depth) && v % 0x20_0000 == 0
}

/// The 2 MiB page entry the linear map writes for the physical address
/// `p`: writable, present, global, non-executable, huge.
pub open spec fn huge_entry(p: u64) -> u64 {
    (0x8000_0000_0000_0183u64 & NON_ADDRESS_MASK) | (p & ADDRESS_MASK)
}

/// The entry through which the linear map links a new table at `f`:
/// writable, present, global, non-executable.
pub open spec fn link_entry(f: u64) -> u64 {
    (0x8000_0000_0000_0103u64 & NON_ADDRESS_MASK) | (f & ADDRESS_MASK)
}

/// The present entry that maps the 2 MiB page of `v`: the entry for `v`
/// of the table the walk reaches one level above the leaf tables.
pub open spec fn huge_slot(m: Seq<Seq<PageTableEntry>>, root: u64, depth: nat, v: u64) -> Option<u64> {
    match reach(m, root, depth, 1, v) {
        Some(c) => if valid_table(m, c) && entry_present(read(m, c, table_index(v, 1))) {
            Some(read(m, c, table_index(v, 1)))
        } else {
            None
        },
        None => None,
    }
}

/// Whether `v` and `w` take the same indices above level `k`.
pub open spec fn same_prefix(v: u64, w: u64, k: nat, depth: nat) -> bool {
    forall|j: nat| k < j <= depth ==> #[trigger] table_index(v, j) == table_index(w, j)
}

proof fn lemma_lin_bits(v: u64, w: u64)
    by (bit_vector)
    ensures
        0xFFFF_8180_0000_0000u64 <= v <= 0xFFFF_A07F_FFFF_FFFFu64 ==> 259 <= (v >> 39u64) & 0x1FFu64 <= 320,
        0xFF03_0000_0000_0000u64 <= v <= 0xFF40_FFFF_FFFF_FFFFu64 ==> 259 <= (v >> 48u64) & 0x1FFu64 <= 320,
        0xFFFF_8180_0000_0000u64 <= v <= 0xFFFF_A07F_FFFF_FFFFu64 && 0xFFFF_8180_0000_0000u64 <= w
            <= 0xFFFF_A07F_FFFF_FFFFu64 && v % 0x20_0000 == 0 && w % 0x20_0000 == 0 && (v >> 21u64) & 0x1FFu64
            == (w >> 21u64) & 0x1FFu64 && (v >> 30u64) & 0x1FFu64 == (w >> 30u64) & 0x1FFu64 && (v >> 39u64)
            & 0x1FFu64 == (w >> 39u64) & 0x1FFu64 ==> v == w,
        0xFF03_0000_0000_0000u64 <= v <= 0xFF40_FFFF_FFFF_FFFFu64 && 0xFF03_0000_0000_0000u64 <= w
            <= 0xFF40_FFFF_FFFF_FFFFu64 && v % 0x20_0000 == 0 && w % 0x20_0000 == 0 && (v >> 21u64) & 0x1FFu64
            == (w >> 21u64) & 0x1FFu64 && (v >> 30u64) & 0x1FFu64 == (w >> 30u64) & 0x1FFu64 && (v >> 39u64)
            & 0x1FFu64 == (w >> 39u64) & 0x1FFu64 && (v >> 48u64) & 0x1FFu64 == (w >> 48u64) & 0x1FFu64 ==> v
            == w,
{
}

/// The root index of an address of the linear map segment is one of the
/// segment's root slots.
proof fn lemma_lin_root_index(v: u64, depth: nat)
    requires
        depth == 3 || depth == 4,
        in_linear_segment(v, depth),
    ensures
        259 <= table_index(v, depth) <= 320,
{
    lemma_lin_bits(v, v);
}

/// Two pages of the linear map segment that take the same indices down to
/// the level above the leaves are the same page.
proof fn lemma_lin_same_page(v: u64, w: u64, depth: nat)
    requires
        depth == 3 || depth == 4,
        linear_page(v, depth),
        linear_page(w, depth),
        same_prefix(v, w, 0, depth),
    ensures
        v == w,
{
    assert(table_index(v, 1) == table_index(w, 1));
    assert(table_index(v, 2) == table_index(w, 2));
    assert(table_index(v, 3) == table_index(w, 3));
    if depth == 4 {
        assert(table_index(v, 4) == table_index(w, 4));
    }
    lemma_lin_bits(v, w);
}

/// A walk that reaches level `k` reads, at each level above, a present
/// entry of a table of the memory, which leads to the next level.
proof fn lemma_reach_passes(m: Seq<Seq<PageTableEntry>>, t: u64, depth: nat, j: nat, k: nat, v: u64)
    requires
        k < j <= depth,
        reach(m, t, depth, k, v) is Some,
    ensures
        reach(m, t, depth, j, v) is Some,
        valid_table(m, reach(m, t, depth, j, v)->0),
        entry_present(read(m, reach(m, t, depth, j, v)->0, table_index(v, j))),
        reach(m, t, depth, (j - 1) as nat, v) == Some(
            entry_address(read(m, reach(m, t, depth, j, v)->0, table_index(v, j))),
        ),
    decreases depth,
{
    let e = read(m, t, table_index(v, depth));
    if j < depth {
        lemma_reach_passes(m, entry_address(e), (depth - 1) as nat, j, k, v);
    } else {
        assert(reach(m, t, depth, depth, v) == Some(t));
        assert(reach(m, entry_address(e), (depth - 1) as nat, (depth - 1) as nat, v) == Some(entry_address(e)));
    }
}

/// Overwriting a frame that the walk for `v` does not pass above `target`
/// leaves the walk down to `target` as it was.
proof fn lemma_reach_frame_write(
    m1: Seq<Seq<PageTableEntry>>,
    m2: Seq<Seq<PageTableEntry>>,
    t: u64,
    depth: nat,
    target: nat,
    v: u64,
    x: u64,
)
    requires
        forall|j: nat| target < j <= depth && #[trigger] reach(m1, t, depth, j, v) is Some ==> reach(m1, t, depth, j, v)->0 != x,
        x % 4096 == 0,
        m1.len() == m2.len(),
        forall|k: int| 0 <= k < m1.len() && k != x / 4096 ==> m2[k] == m1[k],
    ensures
        reach(m2, t, depth, target, v) == reach(m1, t, depth, target, v),
    decreases depth,
{
    if depth > target {
        assert(reach(m1, t, depth, depth, v) == Some(t));
        if valid_table(m1, t) {
            assert(t != x);
            assert(t / 4096 != x / 4096);
            assert(m2[(t / 4096) as int] == m1[(t / 4096) as int]);
            let e = read(m1, t, table_index(v, depth));
            if entry_present(e) {
                assert forall|j: nat| target < j <= (depth - 1) as nat && #[trigger] reach(m1, entry_address(e), (depth - 1) as nat, j, v) is Some
                    implies reach(m1, entry_address(e), (depth - 1) as nat, j, v)->0 != x by {
                    assert(reach(m1, t, depth, j, v) == reach(m1, entry_address(e), (depth - 1) as nat, j, v));
                }
                lemma_reach_frame_write(m1, m2, entry_address(e), (depth - 1) as nat, target, v, x);
            }
        }
    }
}


/// The linear map's bookkeeping over the memory `m`: every table that the
/// walk of an address of the segment reaches below the root was created by
/// the linear map (it is in `own`), at the level it was created for and for
/// an address that takes the same indices above that level; and every
/// 2 MiB page entry such a walk reaches maps the page's physical address.
pub open spec fn lm_inv(m: Seq<Seq<PageTableEntry>>, root: u64, depth: nat, own: Map<u64, (nat, u64)>) -> bool {
    &&& memory_wf(m)
    &&& valid_table(m, root)
    &&& depth == 3 || depth == 4
    &&& forall|c: u64|
        #[trigger] own.dom().contains(c) ==> valid_table(m, c) && c != root && 1 <= own[c].0 < depth
    &&& forall|w: u64, k: nat|
        in_linear_segment(w, depth) && 1 <= k < depth && #[trigger] reach(m, root, depth, k, w) is Some
            ==> own.dom().contains(reach(m, root, depth, k, w)->0) && own[reach(m, root, depth, k, w)->0].0
            == k && same_prefix(w, own[reach(m, root, depth, k, w)->0].1, k, depth)
    &&& forall|w: u64|
        linear_page(w, depth) && #[trigger] huge_slot(m, root, depth, w) is Some ==> huge_slot(m, root, depth, w)
            == Some(huge_entry((w - lin_base(depth)) as u64))
}

/// The frames still to be handed out are distinct frames of the memory,
/// and neither the root nor a table of the linear map is among them.
pub open spec fn supply_ok(m: Seq<Seq<PageTableEntry>>, root: u64, own: Map<u64, (nat, u64)>, supply: Seq<u64>) -> bool {
    &&& supply.no_duplicates()
    &&& forall|j: int| 0 <= j < supply.len() ==> valid_table(m, #[trigger] supply[j])
    &&& !supply.contains(root)
    &&& forall|c: u64| #[trigger] own.dom().contains(c) ==> !supply.contains(c)
}

/// Every 2 MiB page entry of the segment present in `m1` is still there in
/// `m2`.
pub open spec fn slots_kept(m1: Seq<Seq<PageTableEntry>>, m2: Seq<Seq<PageTableEntry>>, root: u64, depth: nat) -> bool {
    forall|w: u64|
        linear_page(w, depth) && #[trigger] huge_slot(m1, root, depth, w) is Some ==> huge_slot(m2, root, depth, w)
            == huge_slot(m1, root, depth, w)
}

/// Whether the walk for `w` reads entry `i0` of table `cur` above level `k`.
pub open spec fn reads_slot(m: Seq<Seq<PageTableEntry>>, root: u64, depth: nat, w: u64, k: nat, cur: u64, i0: int) -> bool {
    exists|j: nat| k < j <= depth && #[trigger] reach(m, root, depth, j, w) == Some(cur) && table_index(w, j) == i0
}

/// How linking a new table `f` (zeroed) into entry `i0` of the table `cur`
/// at level `d` of the walk for `v0` changes the walk for `w` down to level
/// `k`: not at all, unless the walk reads that entry, in which case `w`
/// takes `v0`'s indices down to level `d` and now reaches `f` there (and
/// nothing below).
proof fn lemma_link_walk(
    m1: Seq<Seq<PageTableEntry>>,
    mz: Seq<Seq<PageTableEntry>>,
    m2: Seq<Seq<PageTableEntry>>,
    root: u64,
    depth: nat,
    own: Map<u64, (nat, u64)>,
    supply: Seq<u64>,
    v0: u64,
    d: nat,
    cur: u64,
    f: u64,
    ne: PageTableEntry,
    w: u64,
    k: nat,
)
    requires
        lm_inv(m1, root, depth, own),
        supply_ok(m1, root, own, supply),
        supply.len() > 0,
        f == supply[0],
        in_linear_segment(v0, depth),
        in_linear_segment(w, depth),
        2 <= d <= depth,
        1 <= k < depth,
        reach(m1, root, depth, d, v0) == Some(cur),
        mz.len() == m1.len(),
        forall|q: int| 0 <= q < m1.len() && q != f / 4096 ==> mz[q] == m1[q],
        table_zeroed(mz[(f / 4096) as int]),
        m2 == mz.update((cur / 4096) as int, mz[(cur / 4096) as int].update(table_index(v0, d), ne)),
        ne@ == link_entry(f),
    ensures
        cur == root ==> d == depth,
        cur != root ==> own.dom().contains(cur) && own[cur].0 == d,
        forall|j: nat| 1 <= j <= depth ==> #[trigger] reach(mz, root, depth, j, w) == reach(m1, root, depth, j, w),
        !reads_slot(mz, root, depth, w, k, cur, table_index(v0, d)) ==> reach(m2, root, depth, k, w) == reach(
            m1,
            root,
            depth,
            k,
            w,
        ),
        reads_slot(mz, root, depth, w, k, cur, table_index(v0, d)) ==> {
            &&& k < d
            &&& reach(m1, root, depth, d, w) == Some(cur)
            &&& table_index(w, d) == table_index(v0, d)
            &&& same_prefix(w, v0, (d - 1) as nat, depth)
            &&& reach(m2, root, depth, k, w) == if k == d - 1 {
                Some(f)
            } else {
                None::<u64>
            }
        },
{
    let i0 = table_index(v0, d);
    lemma_table_index_bound(v0, d);
    assert(supply.contains(f));
    assert(valid_table(m1, f));
    lemma_frame_address_fits(m1, f);
    assert(m1[(cur / 4096) as int].len() == 512) by {
        if cur != root {
        }
    }
    // Where `cur` sits.
    if cur == root {
        if d < depth {
            assert(own.dom().contains(cur));
        }
    } else {
        if d == depth {
            assert(reach(m1, root, depth, depth, v0) == Some(root));
        }
        assert(own.dom().contains(cur) && own[cur].0 == d);
    }
    assert(valid_table(m1, cur));
    assert(cur != f) by {
        if cur != root {
            assert(own.dom().contains(cur));
        }
    }
    lemma_frame_distinct(cur, f);
    // Zeroing `f` leaves the walks above the leaves alone.
    assert forall|j: nat| 1 <= j <= depth implies #[trigger] reach(mz, root, depth, j, w) == reach(m1, root, depth, j, w) by {
        assert forall|jj: nat| j < jj <= depth && #[trigger] reach(m1, root, depth, jj, w) is Some implies reach(m1, root, depth, jj, w)->0 != f by {
            if jj < depth {
                assert(own.dom().contains(reach(m1, root, depth, jj, w)->0));
            } else {
                assert(reach(m1, root, depth, depth, w) == Some(root));
            }
        }
        lemma_reach_frame_write(m1, mz, root, depth, j, w, f);
    }
    assert forall|tt: u64, ii: int|
        #![trigger read(m2, tt, ii)]
        valid_table(mz, tt) && 0 <= ii < 512 && !(tt == cur && ii == i0) implies read(m2, tt, ii) == read(mz, tt, ii) by {
        if tt / 4096 == cur / 4096 {
            assert(tt == cur);
        }
    }
    if !reads_slot(mz, root, depth, w, k, cur, i0) {
        assert forall|j: nat| k < j <= depth && #[trigger] reach(mz, root, depth, j, w) == Some(cur) implies table_index(w, j) != i0 by {
            if table_index(w, j) == i0 {
                assert(reads_slot(mz, root, depth, w, k, cur, i0));
            }
        }
        lemma_reach_after_write(mz, m2, root, depth, k, w, cur, i0);
    } else {
        let j = choose|j: nat| k < j <= depth && #[trigger] reach(mz, root, depth, j, w) == Some(cur) && table_index(w, j) == i0;
        assert(reach(m1, root, depth, j, w) == Some(cur));
        // `cur` sits at level `d` only.
        if j == depth {
            assert(reach(m1, root, depth, depth, w) == Some(root));
            assert(cur == root);
        } else {
            assert(own.dom().contains(cur) && own[cur].0 == j);
        }
        assert(j == d);
        assert(same_prefix(w, v0, (d - 1) as nat, depth)) by {
            assert forall|jj: nat| d - 1 < jj <= depth implies #[trigger] table_index(w, jj) == table_index(v0, jj) by {
                if jj > d {
                    assert(d < depth);
                    assert(same_prefix(w, own[cur].1, d, depth));
                    assert(same_prefix(v0, own[cur].1, d, depth));
                    assert(table_index(w, jj) == table_index(own[cur].1, jj));
                    assert(table_index(v0, jj) == table_index(own[cur].1, jj));
                }
            }
        }
        assert forall|jj: nat| d < jj <= depth && #[trigger] reach(mz, root, depth, jj, w) == Some(cur) implies table_index(w, jj) != i0 by {
            assert(reach(m1, root, depth, jj, w) == Some(cur));
            if jj == depth {
                assert(reach(m1, root, depth, depth, w) == Some(root));
            } else {
                assert(own[cur].0 == jj);
            }
        }
        lemma_reach_after_write(mz, m2, root, depth, d, w, cur, i0);
        assert(reach(m2, root, depth, d, w) == Some(cur));
        assert(read(m2, cur, i0) == ne@);
        lemma_zero_absent();
        lemma_template_present_pub(0x8000_0000_0000_0103u64, f);
        assert(ne@ == template_entry(0x8000_0000_0000_0103u64, f));
        lemma_reach_step(m2, root, depth, d, w);
        assert(reach(m2, root, depth, (d - 1) as nat, w) == Some(f));
        if k < d - 1 {
            if reach(m2, root, depth, k, w) is Some {
                lemma_reach_passes(m2, root, depth, (d - 1) as nat, k, w);
                lemma_table_index_bound(w, (d - 1) as nat);
                assert(mz[(f / 4096) as int].len() == 512);
                assert(read(m2, f, table_index(w, (d - 1) as nat)) == read(mz, f, table_index(w, (d - 1) as nat)));
                assert(read(mz, f, table_index(w, (d - 1) as nat)) == 0);
                lemma_zero_absent();
            }
        }
    }
}

/// Linking the first frame `f` of the supply, zeroed, into the empty entry
/// of the table `cur` at level `d` of the walk for `v0` keeps the linear
/// map's bookkeeping (with `f` recorded for `v0` at level `d - 1`), keeps
/// the rest of the supply fresh and every present entry in use, and makes
/// the walk for `v0` reach `f`.
proof fn lemma_link_step(
    m1: Seq<Seq<PageTableEntry>>,
    mz: Seq<Seq<PageTableEntry>>,
    m2: Seq<Seq<PageTableEntry>>,
    root: u64,
    depth: nat,
    own: Map<u64, (nat, u64)>,
    supply: Seq<u64>,
    v0: u64,
    d: nat,
    cur: u64,
    f: u64,
    ne: PageTableEntry,
)
    requires
        lm_inv(m1, root, depth, own),
        supply_ok(m1, root, own, supply),
        supply.len() > 0,
        f == supply[0],
        in_linear_segment(v0, depth),
        2 <= d <= depth,
        reach(m1, root, depth, d, v0) == Some(cur),
        !entry_present(read(m1, cur, table_index(v0, d))),
        mz.len() == m1.len(),
        forall|q: int| 0 <= q < m1.len() && q != f / 4096 ==> mz[q] == m1[q],
        table_zeroed(mz[(f / 4096) as int]),
        m2 == mz.update((cur / 4096) as int, mz[(cur / 4096) as int].update(table_index(v0, d), ne)),
        ne@ == link_entry(f),
    ensures
        lm_inv(m2, root, depth, own.insert(f, ((d - 1) as nat, v0))),
        supply_ok(m2, root, own.insert(f, ((d - 1) as nat, v0)), supply.drop_first()),
        preserves_present(m1, m2, supply),
        slots_kept(m1, m2, root, depth),
        reach(m2, root, depth, (d - 1) as nat, v0) == Some(f),
        m2.len() == m1.len(),
{
    let i0 = table_index(v0, d);
    let own2 = own.insert(f, ((d - 1) as nat, v0));
    let rest = supply.drop_first();
    lemma_table_index_bound(v0, d);
    assert(supply.contains(f));
    assert(valid_table(m1, f));
    lemma_frame_address_fits(m1, f);
    lemma_link_walk(m1, mz, m2, root, depth, own, supply, v0, d, cur, f, ne, v0, 1);
    assert(valid_table(m1, cur));
    assert(cur != f) by {
        if cur != root {
            assert(own.dom().contains(cur));
        }
    }
    lemma_frame_distinct(cur, f);
    assert(m1[(cur / 4096) as int].len() == 512);
    assert(mz[(f / 4096) as int].len() == 512);
    // Memory shape.
    assert forall|q: int| 0 <= q < m2.len() implies #[trigger] m2[q].len() == 512 by {
        if q != f / 4096 && q != cur / 4096 {
            assert(m2[q] == m1[q]);
        }
    }
    assert(memory_wf(m2));
    // Which entries changed.
    assert forall|t: u64, i: int|
        valid_table(m1, t) && 0 <= i < 512 && t != f && !(t == cur && i == i0) implies #[trigger] read(m2, t, i)
        == read(m1, t, i) by {
        lemma_frame_distinct(t, f);
    }
    assert(!own.dom().contains(f));
    // Freshness of the rest of the supply.
    assert(rest.no_duplicates()) by {
        assert forall|a: int, b: int| 0 <= a < rest.len() && 0 <= b < rest.len() && a != b implies rest[a] != rest[b] by {
            assert(rest[a] == supply[a + 1] && rest[b] == supply[b + 1]);
        }
    }
    assert(!rest.contains(f)) by {
        if rest.contains(f) {
            let j = choose|j: int| 0 <= j < rest.len() && rest[j] == f;
            assert(supply[j + 1] == supply[0]);
        }
    }
    assert forall|x: u64| rest.contains(x) implies supply.contains(x) by {
        let j = choose|j: int| 0 <= j < rest.len() && rest[j] == x;
        assert(supply[j + 1] == x);
    }
    lemma_zero_absent();
    lemma_template_present_pub(0x8000_0000_0000_0103u64, f);
    assert(ne@ == template_entry(0x8000_0000_0000_0103u64, f));
    lemma_zero_absent();
    assert forall|j: int| 0 <= j < rest.len() implies valid_table(m2, #[trigger] rest[j]) by {
        assert(rest[j] == supply[j + 1]);
    }
    assert forall|c: u64| #[trigger] own2.dom().contains(c) implies !rest.contains(c) by {
        if c != f {
            assert(own.dom().contains(c));
        }
    }
    // Entries in use are kept.
    assert forall|t: u64, i: int|
        #![trigger read(m2, t, i)]
        valid_table(m1, t) && !supply.contains(t) && 0 <= i < 512 && entry_present(read(m1, t, i)) implies read(m2, t, i)
        == read(m1, t, i) by {
        if t == cur && i == i0 {
        } else {
            assert(t != f);
        }
    }
    // The bookkeeping.
    assert forall|c: u64| #[trigger] own2.dom().contains(c) implies valid_table(m2, c) && c != root && 1 <= own2[c].0 < depth by {
        if c != f {
            assert(own.dom().contains(c));
        }
    }
    assert forall|w: u64, k: nat|
        in_linear_segment(w, depth) && 1 <= k < depth && #[trigger] reach(m2, root, depth, k, w) is Some implies own2.dom().contains(
        reach(m2, root, depth, k, w)->0,
    ) && own2[reach(m2, root, depth, k, w)->0].0 == k && same_prefix(w, own2[reach(m2, root, depth, k, w)->0].1, k, depth) by {
        lemma_link_walk(m1, mz, m2, root, depth, own, supply, v0, d, cur, f, ne, w, k);
        if !reads_slot(mz, root, depth, w, k, cur, i0) {
            let c = reach(m1, root, depth, k, w)->0;
            assert(own.dom().contains(c));
            assert(c != f);
        }
    }
    assert forall|w: u64|
        linear_page(w, depth) && #[trigger] huge_slot(m2, root, depth, w) is Some implies huge_slot(m2, root, depth, w)
        == Some(huge_entry((w - lin_base(depth)) as u64)) by {
        lemma_link_walk(m1, mz, m2, root, depth, own, supply, v0, d, cur, f, ne, w, 1);
        let c = reach(m2, root, depth, 1, w)->0;
        lemma_table_index_bound(w, 1);
        if !reads_slot(mz, root, depth, w, 1, cur, i0) {
            assert(own.dom().contains(c) && own[c].0 == 1);
            assert(c != f);
            assert(c != cur);
            assert(read(m2, c, table_index(w, 1)) == read(m1, c, table_index(w, 1)));
            assert(huge_slot(m1, root, depth, w) == huge_slot(m2, root, depth, w));
        } else {
            assert(c == f);
            assert(read(m2, f, table_index(w, 1)) == read(mz, f, table_index(w, 1)));
            assert(read(mz, f, table_index(w, 1)) == 0);
        }
    }
    assert(lm_inv(m2, root, depth, own2));
    assert forall|w: u64|
        linear_page(w, depth) && #[trigger] huge_slot(m1, root, depth, w) is Some implies huge_slot(m2, root, depth, w)
        == huge_slot(m1, root, depth, w) by {
        lemma_link_walk(m1, mz, m2, root, depth, own, supply, v0, d, cur, f, ne, w, 1);
        let c = reach(m1, root, depth, 1, w)->0;
        lemma_table_index_bound(w, 1);
        if reads_slot(mz, root, depth, w, 1, cur, i0) {
            lemma_reach_passes(m1, root, depth, d, 1, w);
        }
        assert(own.dom().contains(c) && own[c].0 == 1);
        assert(c != f);
        assert(c != cur);
        assert(read(m2, c, table_index(w, 1)) == read(m1, c, table_index(w, 1)));
    }
    lemma_link_walk(m1, mz, m2, root, depth, own, supply, v0, d, cur, f, ne, v0, (d - 1) as nat);
    assert(reads_slot(mz, root, depth, v0, (d - 1) as nat, cur, i0)) by {
        assert(reach(mz, root, depth, d, v0) == Some(cur));
    }
}

/// Writing the 2 MiB page entry for the page `v0` into its empty slot of
/// the table `cur` the walk reaches one level above the leaves keeps the
/// linear map's bookkeeping and every present entry, and maps the page.
proof fn lemma_huge_step(
    m1: Seq<Seq<PageTableEntry>>,
    m2: Seq<Seq<PageTableEntry>>,
    root: u64,
    depth: nat,
    own: Map<u64, (nat, u64)>,
    supply: Seq<u64>,
    v0: u64,
    cur: u64,
    ne: PageTableEntry,
)
    requires
        lm_inv(m1, root, depth, own),
        supply_ok(m1, root, own, supply),
        linear_page(v0, depth),
        reach(m1, root, depth, 1, v0) == Some(cur),
        !entry_present(read(m1, cur, table_index(v0, 1))),
        m2 == m1.update((cur / 4096) as int, m1[(cur / 4096) as int].update(table_index(v0, 1), ne)),
        ne@ == huge_entry((v0 - lin_base(depth)) as u64),
    ensures
        lm_inv(m2, root, depth, own),
        supply_ok(m2, root, own, supply),
        preserves_present(m1, m2, supply),
        slots_kept(m1, m2, root, depth),
        huge_slot(m2, root, depth, v0) == Some(huge_entry((v0 - lin_base(depth)) as u64)),
        m2.len() == m1.len(),
{
    let i1 = table_index(v0, 1);
    lemma_table_index_bound(v0, 1);
    assert(own.dom().contains(cur) && own[cur].0 == 1);
    assert(valid_table(m1, cur));
    assert(m1[(cur / 4096) as int].len() == 512);
    assert forall|q: int| 0 <= q < m2.len() implies #[trigger] m2[q].len() == 512 by {
        if q != cur / 4096 {
            assert(m2[q] == m1[q]);
        }
    }
    assert forall|tt: u64, ii: int|
        #![trigger read(m2, tt, ii)]
        valid_table(m1, tt) && 0 <= ii < 512 && !(tt == cur && ii == i1) implies read(m2, tt, ii) == read(m1, tt, ii) by {
        if tt / 4096 == cur / 4096 {
            assert(tt == cur);
        }
    }
    // The walks above the leaf level do not read the written slot.
    assert forall|w: u64, k: nat| in_linear_segment(w, depth) && 1 <= k <= depth implies #[trigger] reach(m2, root, depth, k, w)
        == reach(m1, root, depth, k, w) by {
        assert forall|j: nat| k < j <= depth && #[trigger] reach(m1, root, depth, j, w) == Some(cur) implies table_index(w, j) != i1 by {
            if j == depth {
                assert(reach(m1, root, depth, depth, w) == Some(root));
            } else {
                assert(own[cur].0 == j);
            }
        }
        lemma_reach_after_write(m1, m2, root, depth, k, w, cur, i1);
    }
    lemma_zero_absent();
    lemma_template_present_pub(0x8000_0000_0000_0183u64, (v0 - lin_base(depth)) as u64);
    assert(ne@ == template_entry(0x8000_0000_0000_0183u64, (v0 - lin_base(depth)) as u64));
    assert forall|w: u64|
        linear_page(w, depth) && #[trigger] huge_slot(m2, root, depth, w) is Some implies huge_slot(m2, root, depth, w)
        == Some(huge_entry((w - lin_base(depth)) as u64)) by {
        assert(reach(m2, root, depth, 1, w) == reach(m1, root, depth, 1, w));
        let c = reach(m1, root, depth, 1, w)->0;
        lemma_table_index_bound(w, 1);
        if c == cur && table_index(w, 1) == i1 {
            assert(same_prefix(w, own[cur].1, 1, depth));
            assert(same_prefix(v0, own[cur].1, 1, depth));
            assert(same_prefix(w, v0, 0, depth)) by {
                assert forall|j: nat| 0 < j <= depth implies #[trigger] table_index(w, j) == table_index(v0, j) by {
                    if j > 1 {
                        assert(table_index(w, j) == table_index(own[cur].1, j));
                        assert(table_index(v0, j) == table_index(own[cur].1, j));
                    }
                }
            }
            lemma_lin_same_page(w, v0, depth);
        } else {
            assert(read(m2, c, table_index(w, 1)) == read(m1, c, table_index(w, 1)));
            assert(huge_slot(m1, root, depth, w) == huge_slot(m2, root, depth, w));
        }
    }
    assert forall|w: u64|
        linear_page(w, depth) && #[trigger] huge_slot(m1, root, depth, w) is Some implies huge_slot(m2, root, depth, w)
        == huge_slot(m1, root, depth, w) by {
        assert(reach(m2, root, depth, 1, w) == reach(m1, root, depth, 1, w));
        let c = reach(m1, root, depth, 1, w)->0;
        lemma_table_index_bound(w, 1);
        assert(read(m2, c, table_index(w, 1)) == read(m1, c, table_index(w, 1)));
    }
    assert(reach(m2, root, depth, 1, v0) == Some(cur));
    assert(read(m2, cur, i1) == ne@);
    assert(lm_inv(m2, root, depth, own));
    assert forall|j: int| 0 <= j < supply.len() implies valid_table(m2, #[trigger] supply[j]) by {
        assert(valid_table(m1, supply[j]));
    }
    assert forall|t: u64, i: int|
        #![trigger read(m2, t, i)]
        valid_table(m1, t) && !supply.contains(t) && 0 <= i < 512 && entry_present(read(m1, t, i)) implies read(m2, t, i)
        == read(m1, t, i) by {
    }
}

/// Whether every frame of `s1` is one of `s0`.
pub open spec fn within(s1: Seq<u64>, s0: Seq<u64>) -> bool {
    forall|x: u64| #[trigger] s1.contains(x) ==> s0.contains(x)
}

proof fn lemma_keep_trans(
    m0: Seq<Seq<PageTableEntry>>,
    m1: Seq<Seq<PageTableEntry>>,
    m2: Seq<Seq<PageTableEntry>>,
    s0: Seq<u64>,
    s1: Seq<u64>,
    root: u64,
    depth: nat,
)
    requires
        preserves_present(m0, m1, s0),
        preserves_present(m1, m2, s1),
        within(s1, s0),
        slots_kept(m0, m1, root, depth),
        slots_kept(m1, m2, root, depth),
    ensures
        preserves_present(m0, m2, s0),
        slots_kept(m0, m2, root, depth),
{
    assert forall|t: u64, i: int|
        #![trigger read(m2, t, i)]
        valid_table(m0, t) && !s0.contains(t) && 0 <= i < 512 && entry_present(read(m0, t, i)) implies read(m2, t, i)
        == read(m0, t, i) by {
        assert(read(m1, t, i) == read(m0, t, i));
        assert(!s1.contains(t));
    }
    assert forall|w: u64|
        linear_page(w, depth) && #[trigger] huge_slot(m0, root, depth, w) is Some implies huge_slot(m2, root, depth, w)
        == huge_slot(m0, root, depth, w) by {
        assert(huge_slot(m1, root, depth, w) == huge_slot(m0, root, depth, w));
    }
}

/// Maps the 2 MiB page at `v` of the linear map segment to the physical
/// address `p` (its address less the segment's base), creating the tables
/// on the way from frames of `pfa`: at each level above the 2 MiB page
/// entries, a missing table is taken, zeroed and linked; the page entry is
/// written where it is missing. `false` where `pfa` ran dry.
fn linear_map_page(
    mem: &mut PhysicalMemory,
    pfa: &mut MemoryMapPfa,
    root: u64,
    paging_level: PagingLevel,
    v: u64,
    p: u64,
    Ghost(own): Ghost<Map<u64, (nat, u64)>>,
) -> (r: (bool, Ghost<Map<u64, (nat, u64)>>))
    requires
        lm_inv(old(mem)@, root, root_depth(paging_level), own),
        supply_ok(old(mem)@, root, own, pfa_supply(*old(pfa))),
        old(pfa).wf(),
        linear_page(v, root_depth(paging_level)),
        p == v - lin_base(root_depth(paging_level)),
    ensures
        lm_inv(final(mem)@, root, root_depth(paging_level), r.1@),
        supply_ok(final(mem)@, root, r.1@, pfa_supply(*final(pfa))),
        final(pfa).wf(),
        within(pfa_supply(*final(pfa)), pfa_supply(*old(pfa))),
        preserves_present(old(mem)@, final(mem)@, pfa_supply(*old(pfa))),
        slots_kept(old(mem)@, final(mem)@, root, root_depth(paging_level)),
        r.0 ==> huge_slot(final(mem)@, root, root_depth(paging_level), v) is Some,
        !r.0 ==> pfa_supply(*final(pfa)).len() == 0,
{
    let ghost depth = root_depth(paging_level);
    let ghost m0 = mem@;
    let ghost s0 = pfa_supply(*pfa);
    let ghost mut own_g = own;
    let mut d: u64 = match paging_level {
        PagingLevel::Level4 => 3,
        PagingLevel::Level5 => 4,
    };
    let mut cur = root;
    proof {
        assert(reach(mem@, root, depth, depth, v) == Some(root));
        assert(in_linear_segment(v, depth));
    }
    while d > 1
        invariant
            depth == root_depth(paging_level),
            depth == 3 || depth == 4,
            1 <= d <= depth,
            m0 == old(mem)@,
            s0 == pfa_supply(*old(pfa)),
            lm_inv(mem@, root, depth, own_g),
            supply_ok(mem@, root, own_g, pfa_supply(*pfa)),
            pfa.wf(),
            within(pfa_supply(*pfa), s0),
            preserves_present(m0, mem@, s0),
            slots_kept(m0, mem@, root, depth),
            reach(mem@, root, depth, d as nat, v) == Some(cur),
            linear_page(v, depth),
            p == v - lin_base(depth),
        decreases d,
    {
        let shift: u64 = 12 + 9 * d;
        let bits = (v >> shift) & 0x1FF;
        proof {
            assert(shift == (12 + 9 * (d as nat)) as u64);
            assert(bits == table_index(v, d as nat));
            lemma_table_index_bound(v, d as nat);
            if cur != root {
                if d == depth {
                    assert(reach(mem@, root, depth, depth, v) == Some(root));
                }
                assert(own_g.dom().contains(cur));
            }
            assert(valid_table(mem@, cur));
        }
        let idx = bits as usize;
        let e = mem.read_entry(cur, idx);
        if e.present() {
            proof {
                lemma_reach_step(mem@, root, depth, d as nat, v);
            }
            cur = e.address();
        } else {
            let ghost m1 = mem@;
            let ghost s1 = pfa_supply(*pfa);
            let f = match take_frame(pfa) {
                Some(f) => f,
                None => {
                    return (false, Ghost(own_g));
                },
            };
            proof {
                assert(s1.contains(f));
                assert(valid_table(m1, f));
            }
            mem.zero_frame(f);
            let ghost mz = mem@;
            let ne = linear_table_entry(f);
            mem.write_entry(cur, idx, ne);
            proof {
                lemma_link_step(m1, mz, mem@, root, depth, own_g, s1, v, d as nat, cur, f, ne);
                assert forall|x: u64| #[trigger] pfa_supply(*pfa).contains(x) implies s1.contains(x) by {
                    let j = choose|j: int| 0 <= j < pfa_supply(*pfa).len() && pfa_supply(*pfa)[j] == x;
                    assert(s1[j + 1] == x);
                }
                lemma_keep_trans(m0, m1, mem@, s0, s1, root, depth);
                own_g = own_g.insert(f, ((d - 1) as nat, v));
            }
            cur = f;
        }
        d = d - 1;
    }
    let bits = (v >> 21u64) & 0x1FF;
    proof {
        assert(bits == table_index(v, 1));
        lemma_table_index_bound(v, 1);
        assert(own_g.dom().contains(cur));
        assert(valid_table(mem@, cur));
    }
    let idx = bits as usize;
    let e = mem.read_entry(cur, idx);
    if !e.present() {
        let ghost m1 = mem@;
        let ne = linear_huge_entry(p);
        mem.write_entry(cur, idx, ne);
        proof {
            lemma_huge_step(m1, mem@, root, depth, own_g, pfa_supply(*pfa), v, cur, ne);
            lemma_keep_trans(m0, m1, mem@, s0, pfa_supply(*pfa), root, depth);
        }
    }
    (true, Ghost(own_g))
}

proof fn lemma_linear_bounds_values()
    by (bit_vector)
    ensures
        sign_extend_48(259u64 << 39u64) == 0xFFFF_8180_0000_0000u64,
        sign_extend_48((320u64 << 39u64) | 0x0000_007F_FFFF_FFFFu64) == 0xFFFF_A07F_FFFF_FFFFu64,
        sign_extend_57(259u64 << 48u64) == 0xFF03_0000_0000_0000u64,
        sign_extend_57((320u64 << 48u64) | 0x0000_FFFF_FFFF_FFFFu64) == 0xFF40_FFFF_FFFF_FFFFu64,
{
}

/// The first and the last byte of the linear map segment.
pub fn linear_map_bounds(paging_level: PagingLevel) -> (r: (u64, u64))
    ensures
        r == (lin_base(root_depth(paging_level)), lin_last(root_depth(paging_level))),
{
    proof {
        lemma_linear_bounds_values();
    }
    AddressSpaceLayout::linear_map().range(paging_level)
}

/// The region the linear map places first, ahead of the memory map: the
/// first 4 GiB, where ACPI tables and memory-mapped devices tend to sit
/// without the memory map reporting them.
pub open spec fn low_4gib() -> MemoryMapEntry {
    MemoryMapEntry { base: 0, length: 0x1_0000_0000, ty: MemoryMapEntryType::Unknown, used: 0, next: 0 }
}

/// The regions the linear map places, in order: the first 4 GiB, then the
/// memory map.
pub open spec fn linear_map_sources(regions: Seq<MemoryMapEntry>) -> Seq<MemoryMapEntry> {
    seq![low_4gib()] + regions
}

/// The `k`-th 2 MiB page the linear map places for region `e`: its virtual
/// and its physical address.
pub open spec fn region_page(e: MemoryMapEntry, k: int, depth: nat) -> Option<(u64, u64)> {
    match linear_region_spec(e, lin_base(depth), lin_last(depth)) {
        Some((bv, bp, len)) => if 0 <= k < len / 0x20_0000 {
            Some(((bv + k * 0x20_0000) as u64, (bp + k * 0x20_0000) as u64))
        } else {
            None
        },
        None => None,
    }
}

/// The virtual address of a placed page.
pub open spec fn page_virt(x: Option<(u64, u64)>) -> u64 {
    match x {
        Some((v, _)) => v,
        None => 0,
    }
}

/// The physical address of a placed page.
pub open spec fn page_phys(x: Option<(u64, u64)>) -> u64 {
    match x {
        Some((_, p)) => p,
        None => 0,
    }
}

/// Every page the linear map places for the regions `rs` is mapped, with a
/// 2 MiB page entry, to its physical address.
pub open spec fn linear_map_placed(m: Seq<Seq<PageTableEntry>>, root: u64, depth: nat, rs: Seq<MemoryMapEntry>) -> bool {
    forall|j: int, k: int|
        0 <= j < rs.len() && #[trigger] region_page(rs[j], k, depth) is Some ==> huge_slot(
            m,
            root,
            depth,
            page_virt(region_page(rs[j], k, depth)),
        ) == Some(huge_entry(page_phys(region_page(rs[j], k, depth))))
}

/// A placed page is a page of the linear map segment, at its physical
/// address plus the segment's base.
proof fn lemma_region_page(e: MemoryMapEntry, k: int, depth: nat)
    requires
        depth == 3 || depth == 4,
        entry_wf(e),
        region_page(e, k, depth) is Some,
    ensures
        linear_page(page_virt(region_page(e, k, depth)), depth),
        page_phys(region_page(e, k, depth)) == page_virt(region_page(e, k, depth)) - lin_base(depth),
{
    let base = lin_base(depth);
    let aligned = e.base - e.base % 0x20_0000;
    let length = align_up(e.length + (e.base - aligned), 0x20_0000);
    let x = e.length + (e.base - aligned);
    assert(length % 0x20_0000 == 0) by (nonlinear_arith)
        requires
            x >= 0,
            length == if x % 0x20_0000 == 0 { x } else { x + (0x20_0000 - x % 0x20_0000) },
    ;
    assert((k + 1) * 0x20_0000 <= length) by (nonlinear_arith)
        requires
            0 <= k < length / 0x20_0000,
            length % 0x20_0000 == 0,
            length >= 0,
    ;
    assert(aligned % 0x20_0000 == 0);
    assert(base % 0x20_0000 == 0);
    assert((aligned + base + k * 0x20_0000) % 0x20_0000 == 0) by (nonlinear_arith)
        requires
            aligned % 0x20_0000 == 0,
            base % 0x20_0000 == 0,
            k >= 0,
    ;
}

/// Maps the 2 MiB pages of `region` into the linear map segment
/// `[base, last]`. `false` where `pfa` ran dry.
fn linear_map_region(
    mem: &mut PhysicalMemory,
    pfa: &mut MemoryMapPfa,
    root: u64,
    paging_level: PagingLevel,
    region: MemoryMapEntry,
    base: u64,
    last: u64,
    Ghost(own): Ghost<Map<u64, (nat, u64)>>,
) -> (r: (bool, Ghost<Map<u64, (nat, u64)>>))
    requires
        lm_inv(old(mem)@, root, root_depth(paging_level), own),
        supply_ok(old(mem)@, root, own, pfa_supply(*old(pfa))),
        old(pfa).wf(),
        entry_wf(region),
        base == lin_base(root_depth(paging_level)),
        last == lin_last(root_depth(paging_level)),
    ensures
        lm_inv(final(mem)@, root, root_depth(paging_level), r.1@),
        supply_ok(final(mem)@, root, r.1@, pfa_supply(*final(pfa))),
        final(pfa).wf(),
        within(pfa_supply(*final(pfa)), pfa_supply(*old(pfa))),
        preserves_present(old(mem)@, final(mem)@, pfa_supply(*old(pfa))),
        slots_kept(old(mem)@, final(mem)@, root, root_depth(paging_level)),
        r.0 ==> forall|kk: int|
            #[trigger] region_page(region, kk, root_depth(paging_level)) is Some ==> huge_slot(
                final(mem)@,
                root,
                root_depth(paging_level),
                page_virt(region_page(region, kk, root_depth(paging_level))),
            ) is Some,
        !r.0 ==> pfa_supply(*final(pfa)).len() == 0,
{
    let ghost depth = root_depth(paging_level);
    let ghost m0 = mem@;
    let ghost s0 = pfa_supply(*pfa);
    let ghost mut own_g = own;
    proof {
        assert(depth == 3 || depth == 4);
        assert(within(s0, s0));
    }
    match linear_region(region, base, last) {
        None => {
            return (true, Ghost(own_g));
        },
        Some((bv, bp, len)) => {
            let pages = len / 0x20_0000;
            let mut k: u64 = 0;
            while k < pages
                invariant
                    depth == root_depth(paging_level),
                    depth == 3 || depth == 4,
                    base == lin_base(depth),
                    last == lin_last(depth),
                    entry_wf(region),
                    linear_region_spec(region, base, last) == Some((bv, bp, len)),
                    pages == len / 0x20_0000,
                    k <= pages,
                    m0 == old(mem)@,
                    s0 == pfa_supply(*old(pfa)),
                    lm_inv(mem@, root, depth, own_g),
                    supply_ok(mem@, root, own_g, pfa_supply(*pfa)),
                    pfa.wf(),
                    within(pfa_supply(*pfa), s0),
                    preserves_present(m0, mem@, s0),
                    slots_kept(m0, mem@, root, depth),
                    forall|kk: int|
                        0 <= kk < k && #[trigger] region_page(region, kk, depth) is Some ==> huge_slot(
                            mem@,
                            root,
                            depth,
                            page_virt(region_page(region, kk, depth)),
                        ) is Some,
                decreases pages - k,
            {
                proof {
                    assert(region_page(region, k as int, depth) is Some);
                    lemma_region_page(region, k as int, depth);
                }
                let v = bv + k * 0x20_0000;
                let p = bp + k * 0x20_0000;
                let ghost m1 = mem@;
                let ghost s1 = pfa_supply(*pfa);
                let (ok, own2) = linear_map_page(mem, pfa, root, paging_level, v, p, Ghost(own_g));
                proof {
                    lemma_keep_trans(m0, m1, mem@, s0, s1, root, depth);
                    own_g = own2@;
                }
                if !ok {
                    return (false, Ghost(own_g));
                }
                proof {
                    assert forall|kk: int|
                        0 <= kk < k + 1 && #[trigger] region_page(region, kk, depth) is Some implies huge_slot(
                            mem@,
                            root,
                            depth,
                            page_virt(region_page(region, kk, depth)),
                        ) is Some by {
                        lemma_region_page(region, kk, depth);
                    }
                }
                k = k + 1;
            }
            (true, Ghost(own_g))
        },
    }
}

/// Maps every region of the memory map `regions` (the first 4 GiB ahead of
/// them) into the linear map segment with 2 MiB pages, each page at its
/// physical address plus the segment's base, taking the page tables it
/// needs from `pfa`. Returns that base, the offset at which the linear map
/// shows physical memory; `None` where `pfa` ran dry. The segment's root
/// slots must be empty: the linear map builds its tables from nothing.
pub fn linear_map_regions(
    mem: &mut PhysicalMemory,
    root: u64,
    paging_level: PagingLevel,
    pfa: &mut MemoryMapPfa,
    regions: &Vec<MemoryMapEntry>,
) -> (r: Option<u64>)
    requires
        memory_wf(old(mem)@),
        valid_table(old(mem)@, root),
        old(pfa).wf(),
        entries_wf(regions@),
        supply_ok(old(mem)@, root, Map::empty(), pfa_supply(*old(pfa))),
        forall|i: int| 259 <= i <= 320 ==> !entry_present(#[trigger] read(old(mem)@, root, i)),
    ensures
        memory_wf(final(mem)@),
        final(pfa).wf(),
        preserves_present(old(mem)@, final(mem)@, pfa_supply(*old(pfa))),
        r is None ==> pfa_supply(*final(pfa)).len() == 0,
        r is Some ==> r->0 == lin_base(root_depth(paging_level)) && linear_map_placed(
            final(mem)@,
            root,
            root_depth(paging_level),
            linear_map_sources(regions@),
        ),
{
    let ghost depth = root_depth(paging_level);
    let ghost m0 = mem@;
    let ghost s0 = pfa_supply(*pfa);
    let ghost rs = linear_map_sources(regions@);
    let ghost mut own: Map<u64, (nat, u64)> = Map::empty();
    let (base, last) = linear_map_bounds(paging_level);
    proof {
        assert(depth == 3 || depth == 4);
        assert forall|w: u64, k: nat|
            in_linear_segment(w, depth) && 1 <= k < depth && #[trigger] reach(m0, root, depth, k, w) is Some implies own.dom().contains(
            reach(m0, root, depth, k, w)->0,
        ) && own[reach(m0, root, depth, k, w)->0].0 == k && same_prefix(w, own[reach(m0, root, depth, k, w)->0].1, k, depth) by {
            lemma_lin_root_index(w, depth);
            assert(!entry_present(read(m0, root, table_index(w, depth))));
        }
        assert forall|w: u64|
            linear_page(w, depth) && #[trigger] huge_slot(m0, root, depth, w) is Some implies huge_slot(m0, root, depth, w)
            == Some(huge_entry((w - lin_base(depth)) as u64)) by {
            lemma_lin_root_index(w, depth);
            assert(!entry_present(read(m0, root, table_index(w, depth))));
        }
        assert(lm_inv(m0, root, depth, own));
        assert(within(s0, s0));
    }
    let low = MemoryMapEntry { base: 0, length: 0x1_0000_0000, ty: MemoryMapEntryType::Unknown, used: 0, next: 0 };
    let (ok, own2) = linear_map_region(mem, pfa, root, paging_level, low, base, last, Ghost(own));
    proof {
        own = own2@;
    }
    if !ok {
        return None;
    }
    let n = regions.len();
    let mut j: usize = 0;
    while j < n
        invariant
            depth == root_depth(paging_level),
            depth == 3 || depth == 4,
            base == lin_base(depth),
            last == lin_last(depth),
            n == regions@.len(),
            rs == linear_map_sources(regions@),
            entries_wf(regions@),
            m0 == old(mem)@,
            s0 == pfa_supply(*old(pfa)),
            j <= n,
            lm_inv(mem@, root, depth, own),
            supply_ok(mem@, root, own, pfa_supply(*pfa)),
            pfa.wf(),
            within(pfa_supply(*pfa), s0),
            preserves_present(m0, mem@, s0),
            forall|jj: int, kk: int|
                0 <= jj <= j && #[trigger] region_page(rs[jj], kk, depth) is Some ==> huge_slot(
                    mem@,
                    root,
                    depth,
                    page_virt(region_page(rs[jj], kk, depth)),
                ) is Some,
        decreases n - j,
    {
        let region = regions[j];
        proof {
            assert(entry_wf(regions@[j as int]));
            assert(region == rs[j + 1]);
        }
        let ghost m1 = mem@;
        let ghost s1 = pfa_supply(*pfa);
        let (ok, own2) = linear_map_region(mem, pfa, root, paging_level, region, base, last, Ghost(own));
        proof {
            own = own2@;
            assert forall|t: u64, i: int|
                #![trigger read(mem@, t, i)]
                valid_table(m0, t) && !s0.contains(t) && 0 <= i < 512 && entry_present(read(m0, t, i)) implies read(mem@, t, i)
                == read(m0, t, i) by {
                assert(read(m1, t, i) == read(m0, t, i));
                assert(!s1.contains(t));
            }
        }
        if !ok {
            return None;
        }
        proof {
            assert forall|jj: int, kk: int|
                0 <= jj <= j + 1 && #[trigger] region_page(rs[jj], kk, depth) is Some implies huge_slot(
                    mem@,
                    root,
                    depth,
                    page_virt(region_page(rs[jj], kk, depth)),
                ) is Some by {
                if jj <= j {
                    if jj > 0 {
                        assert(entry_wf(regions@[jj - 1]));
                    }
                    lemma_region_page(rs[jj], kk, depth);
                    assert(huge_slot(m1, root, depth, page_virt(region_page(rs[jj], kk, depth))) is Some);
                }
            }
        }
        j = j + 1;
    }
    proof {
        assert forall|jj: int, kk: int|
            0 <= jj < rs.len() && #[trigger] region_page(rs[jj], kk, depth) is Some implies huge_slot(
                mem@,
                root,
                depth,
                page_virt(region_page(rs[jj], kk, depth)),
            ) == Some(huge_entry(page_phys(region_page(rs[jj], kk, depth)))) by {
            if jj > 0 {
                assert(entry_wf(regions@[jj - 1]));
            }
            lemma_region_page(rs[jj], kk, depth);
        }
    }
    Some(base)
}

} // verus!
