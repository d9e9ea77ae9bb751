//! Physical memory as the page table walkers see it: a run of 4 KiB frames,
//! each read as a table of 512 entries, plus a first-in-last-out allocator
//! of free frames.
//!
//! Frame `k` lives at physical address `k * 4096`.
use vstd::prelude::*;

use crate::paging::{
    has_bits, table_empty, table_zeroed, PageTable, PageTableEntry, ADDRESS_MASK, NON_ADDRESS_MASK,
};

verus! {

/// The largest number of frames a [`PhysicalMemory`] may hold; every frame
/// address then fits in the address bits of a page table entry.
pub const FRAME_LIMIT: usize = 0x8000_0000;

/// Whether the entry value `e` has its present bit set.
pub open spec fn entry_present(e: u64) -> bool {
    has_bits(e, 0x1u64)
}

/// The physical address an entry value references.
pub open spec fn entry_address(e: u64) -> u64 {
    e & ADDRESS_MASK
}

/// Well-formedness of a memory view: not too many frames, 512 entries each.
pub open spec fn memory_wf(m: Seq<Seq<PageTableEntry>>) -> bool {
    &&& m.len() <= FRAME_LIMIT
    &&& forall|k: int| 0 <= k < m.len() ==> #[trigger] m[k].len() == 512
}

/// Whether `t` is the address of a frame of `m`.
pub open spec fn valid_table(m: Seq<Seq<PageTableEntry>>, t: u64) -> bool {
    t % 4096 == 0 && t / 4096 < m.len()
}

/// The raw entry `i` of the table at address `t`.
pub open spec fn read(m: Seq<Seq<PageTableEntry>>, t: u64, i: int) -> u64 {
    m[(t / 4096) as int][i]@
}

/// The index into the table at `depth` levels above the leaf level that a
/// walk for virtual address `v` uses.
pub open spec fn table_index(v: u64, depth: nat) -> int {
    ((v >> ((12 + 9 * depth) as u64)) & 0x1FFu64) as int
}

/// The table reached from table `t` (at `depth` levels above the leaves)
/// once the walk for `v` has descended to `target` levels above the leaves.
/// `None` if the walk stops at a non-present entry (or an invalid table)
/// before that.
pub open spec fn reach(
    m: Seq<Seq<PageTableEntry>>,
    t: u64,
    depth: nat,
    target: nat,
    v: u64,
) -> Option<u64>
    decreases depth,
{
    if depth <= target {
        Some(t)
    } else if !valid_table(m, t) {
        None
    } else {
        let e = read(m, t, table_index(v, depth));
        if entry_present(e) {
            reach(m, entry_address(e), (depth - 1) as nat, target, v)
        } else {
            None
        }
    }
}

/// The present leaf entry that maps `v` when walking from table `t` at
/// `depth` levels above the leaves, if any.
pub open spec fn leaf_entry(m: Seq<Seq<PageTableEntry>>, t: u64, depth: nat, v: u64) -> Option<u64> {
    match reach(m, t, depth, 0, v) {
        Some(c) => if valid_table(m, c) && entry_present(read(m, c, table_index(v, 0))) {
            Some(read(m, c, table_index(v, 0)))
        } else {
            None
        },
        None => None,
    }
}

/// The physical address `v` translates to in the hierarchy rooted at `root`
/// with `levels` levels, if it is mapped.
pub open spec fn translate(m: Seq<Seq<PageTableEntry>>, root: u64, levels: nat, v: u64) -> Option<
    u64,
> {
    match leaf_entry(m, root, (levels - 1) as nat, v) {
        Some(e) => Some(entry_address(e)),
        None => None,
    }
}

/// Every table the walk for `v` from `t` reaches is a frame of `m`.
pub open spec fn path_valid(m: Seq<Seq<PageTableEntry>>, t: u64, depth: nat, v: u64) -> bool {
    forall|d: nat|
        d <= depth ==> match #[trigger] reach(m, t, depth, d, v) {
            Some(c) => valid_table(m, c),
            None => true,
        }
}

/// How many tables a walk for `v` from `t` has to create before it reaches
/// the leaf table: the depth at which it first meets a non-present entry.
pub open spec fn missing_tables(m: Seq<Seq<PageTableEntry>>, t: u64, depth: nat, v: u64) -> nat
    decreases depth,
{
    if depth == 0 {
        0
    } else if valid_table(m, t) && entry_present(read(m, t, table_index(v, depth))) {
        missing_tables(m, entry_address(read(m, t, table_index(v, depth))), (depth - 1) as nat, v)
    } else {
        depth
    }
}

/// The free frames are frames of `m`, appear once each, and no present
/// entry of a frame that is in use references one of them.
pub open spec fn frames_fresh(m: Seq<Seq<PageTableEntry>>, free: Seq<u64>) -> bool {
    &&& forall|j: int| 0 <= j < free.len() ==> valid_table(m, #[trigger] free[j])
    &&& free.no_duplicates()
    &&& forall|t: u64, i: int|
        #![trigger read(m, t, i)]
        valid_table(m, t) && !free.contains(t) && 0 <= i < 512 && entry_present(read(m, t, i))
            ==> !free.contains(entry_address(read(m, t, i)))
}

/// `m2` keeps every present entry that `m1` holds in a frame outside `free`.
pub open spec fn preserves_present(
    m1: Seq<Seq<PageTableEntry>>,
    m2: Seq<Seq<PageTableEntry>>,
    free: Seq<u64>,
) -> bool {
    &&& m1.len() == m2.len()
    &&& forall|t: u64, i: int|
        #![trigger read(m2, t, i)]
        valid_table(m1, t) && !free.contains(t) && 0 <= i < 512 && entry_present(read(m1, t, i))
            ==> read(m2, t, i) == read(m1, t, i)
}

/// `m2` differs from `m1` only in entries that were reset to zero.
pub open spec fn only_resets(m1: Seq<Seq<PageTableEntry>>, m2: Seq<Seq<PageTableEntry>>) -> bool {
    &&& m1.len() == m2.len()
    &&& forall|t: u64, i: int|
        #![trigger read(m2, t, i)]
        valid_table(m1, t) && 0 <= i < 512 ==> read(m2, t, i) == read(m1, t, i) || read(m2, t, i)
            == 0
}

/// A table index is below 512.
pub proof fn lemma_table_index_bound(v: u64, depth: nat)
    ensures
        0 <= table_index(v, depth) < 512,
{
    let s = (12 + 9 * depth) as u64;
    let x = v >> s;
    assert(x & 0x1FFu64 < 512) by (bit_vector);
}

/// Distinct frame addresses select distinct frames.
pub proof fn lemma_frame_distinct(a: u64, b: u64)
    requires
        a % 4096 == 0,
        b % 4096 == 0,
        a != b,
    ensures
        a / 4096 != b / 4096,
{
}

/// A frame address fits the address bits of an entry.
pub proof fn lemma_frame_address_fits(m: Seq<Seq<PageTableEntry>>, t: u64)
    requires
        memory_wf(m),
        valid_table(m, t),
    ensures
        t & ADDRESS_MASK == t,
        t & NON_ADDRESS_MASK == 0,
{
    assert(t < 0x10_0000_0000_0000);
    assert(t & 0x000F_FFFF_FFFF_F000u64 == t && t & 0xFFF0_0000_0000_0FFFu64 == 0) by (bit_vector)
        requires
            t < 0x10_0000_0000_0000,
            t % 4096 == 0,
    ;
}

/// One more step of a walk: from the table reached at `target` through a
/// present entry to the table it references.
pub proof fn lemma_reach_step(m: Seq<Seq<PageTableEntry>>, t: u64, depth: nat, target: nat, v: u64)
    requires
        0 < target <= depth,
        reach(m, t, depth, target, v) is Some,
        valid_table(m, reach(m, t, depth, target, v)->0),
        entry_present(read(m, reach(m, t, depth, target, v)->0, table_index(v, target))),
    ensures
        reach(m, t, depth, (target - 1) as nat, v) == Some(
            entry_address(read(m, reach(m, t, depth, target, v)->0, table_index(v, target))),
        ),
    decreases depth,
{
    if depth > target {
        let e = read(m, t, table_index(v, depth));
        assert(valid_table(m, t) && entry_present(e));
        assert(reach(m, t, depth, target, v) == reach(m, entry_address(e), (depth - 1) as nat, target, v));
        lemma_reach_step(m, entry_address(e), (depth - 1) as nat, target, v);
        assert(reach(m, t, depth, (target - 1) as nat, v) == reach(
            m,
            entry_address(e),
            (depth - 1) as nat,
            (target - 1) as nat,
            v,
        ));
    } else {
        let e = read(m, t, table_index(v, depth));
        assert(reach(m, t, depth, target, v) == Some(t));
        assert(reach(m, t, depth, (target - 1) as nat, v) == reach(
            m,
            entry_address(e),
            (depth - 1) as nat,
            (target - 1) as nat,
            v,
        ));
    }
}

/// Walking to the table at `target` and then on to the leaves is the same
/// as walking to the leaves directly.
pub proof fn lemma_leaf_via_reach(m: Seq<Seq<PageTableEntry>>, t: u64, depth: nat, target: nat, v: u64)
    requires
        target <= depth,
    ensures
        reach(m, t, depth, target, v) is Some ==> leaf_entry(m, t, depth, v) == leaf_entry(
            m,
            reach(m, t, depth, target, v)->0,
            target,
            v,
        ),
        reach(m, t, depth, target, v) is None ==> leaf_entry(m, t, depth, v) is None,
        reach(m, t, depth, target, v) is Some ==> missing_tables(m, t, depth, v) == missing_tables(
            m,
            reach(m, t, depth, target, v)->0,
            target,
            v,
        ),
    decreases depth,
{
    if depth > target && valid_table(m, t) {
        let e = read(m, t, table_index(v, depth));
        if entry_present(e) {
            lemma_leaf_via_reach(m, entry_address(e), (depth - 1) as nat, target, v);
        }
    }
}

/// The walk over a table whose entries are all zero stops right away.
pub proof fn lemma_zeroed_walk(m: Seq<Seq<PageTableEntry>>, t: u64, depth: nat, v: u64)
    requires
        memory_wf(m),
        valid_table(m, t),
        table_zeroed(m[(t / 4096) as int]),
    ensures
        leaf_entry(m, t, depth, v) is None,
        missing_tables(m, t, depth, v) == depth,
        path_valid(m, t, depth, v),
{
    lemma_table_index_bound(v, depth);
    lemma_table_index_bound(v, 0);
    assert(0u64 & 0x1u64 == 0) by (bit_vector);
    assert forall|d: nat| d <= depth implies match #[trigger] reach(m, t, depth, d, v) {
        Some(c) => valid_table(m, c),
        None => true,
    } by {
        if depth > d {
            assert(read(m, t, table_index(v, depth)) == 0);
        }
    }
    if depth > 0 {
        assert(read(m, t, table_index(v, depth)) == 0);
    } else {
        assert(read(m, t, table_index(v, 0)) == 0);
    }
}

/// A walk that only reads present entries of frames in use keeps reaching
/// the same tables in any memory that keeps those entries.
pub proof fn lemma_reach_stable(
    m1: Seq<Seq<PageTableEntry>>,
    m2: Seq<Seq<PageTableEntry>>,
    free: Seq<u64>,
    t: u64,
    depth: nat,
    target: nat,
    v: u64,
)
    requires
        frames_fresh(m1, free),
        preserves_present(m1, m2, free),
        !free.contains(t),
        reach(m1, t, depth, target, v) is Some,
    ensures
        reach(m2, t, depth, target, v) == reach(m1, t, depth, target, v),
        !free.contains(reach(m1, t, depth, target, v)->0),
    decreases depth,
{
    if depth > target {
        let i = table_index(v, depth);
        lemma_table_index_bound(v, depth);
        let e = read(m1, t, i);
        assert(read(m2, t, i) == e);
        lemma_reach_stable(m1, m2, free, entry_address(e), (depth - 1) as nat, target, v);
    }
}

/// Leaf entries reached through frames in use survive in any memory that
/// keeps the present entries of those frames.
pub proof fn lemma_leaf_stable(
    m1: Seq<Seq<PageTableEntry>>,
    m2: Seq<Seq<PageTableEntry>>,
    free: Seq<u64>,
    t: u64,
    depth: nat,
    v: u64,
)
    requires
        frames_fresh(m1, free),
        preserves_present(m1, m2, free),
        !free.contains(t),
        leaf_entry(m1, t, depth, v) is Some,
    ensures
        leaf_entry(m2, t, depth, v) == leaf_entry(m1, t, depth, v),
{
    lemma_reach_stable(m1, m2, free, t, depth, 0, v);
    lemma_table_index_bound(v, 0);
}

/// A memory that only had entries reset to zero has no new present entries.
pub proof fn lemma_only_resets_trans(
    m1: Seq<Seq<PageTableEntry>>,
    m2: Seq<Seq<PageTableEntry>>,
    m3: Seq<Seq<PageTableEntry>>,
)
    requires
        only_resets(m1, m2),
        only_resets(m2, m3),
    ensures
        only_resets(m1, m3),
{
    assert forall|t: u64, i: int| valid_table(m1, t) && 0 <= i < 512 implies read(m3, t, i) == read(
        m1,
        t,
        i,
    ) || read(m3, t, i) == 0 by {
        assert(read(m2, t, i) == read(m1, t, i) || read(m2, t, i) == 0);
        assert(read(m3, t, i) == read(m2, t, i) || read(m3, t, i) == 0);
    }
}

/// Physical memory made of 4 KiB frames, each read as a page table.
pub struct PhysicalMemory {
    frames: Vec<PageTable>,
}

impl View for PhysicalMemory {
    type V = Seq<Seq<PageTableEntry>>;

    closed spec fn view(&self) -> Seq<Seq<PageTableEntry>> {
        Seq::new(self.frames@.len(), |k: int| self.frames@[k]@)
    }
}

impl PhysicalMemory {
    /// Creates `frame_count` frames of zeroed memory.
    pub fn new(frame_count: usize) -> (r: Self)
        requires
            frame_count <= FRAME_LIMIT,
        ensures
            memory_wf(r@),
            r@.len() == frame_count,
            forall|k: int| 0 <= k < frame_count ==> table_zeroed(#[trigger] r@[k]),
    {
        let mut frames: Vec<PageTable> = Vec::new();
        let mut n: usize = 0;
        while n < frame_count
            invariant
                n <= frame_count,
                frames@.len() == n,
                forall|k: int| 0 <= k < n ==> table_zeroed(#[trigger] frames@[k]@),
            decreases frame_count - n,
        {
            frames.push(PageTable::new());
            n = n + 1;
        }
        let r = PhysicalMemory { frames };
        assert forall|k: int| 0 <= k < r@.len() implies #[trigger] r@[k].len() == 512 by {
            r.frames@[k].lemma_len();
        }
        r
    }

    /// The number of frames.
    pub fn frame_count(&self) -> (r: usize)
        ensures
            r == self@.len(),
    {
        self.frames.len()
    }

    /// Reads entry `index` of the table at physical address `table`.
    pub fn read_entry(&self, table: u64, index: usize) -> (r: PageTableEntry)
        requires
            valid_table(self@, table),
            index < 512,
        ensures
            r@ == read(self@, table, index as int),
    {
        assert(self@.len() == self.frames@.len());
        let n = self.frames.len();
        let q = table / 4096;
        assert(q < n);
        let k = q as usize;
        *self.frames[k].index(index)
    }

    /// Writes entry `index` of the table at physical address `table`.
    pub fn write_entry(&mut self, table: u64, index: usize, entry: PageTableEntry)
        requires
            valid_table(old(self)@, table),
            index < 512,
        ensures
            final(self)@ == old(self)@.update(
                (table / 4096) as int,
                old(self)@[(table / 4096) as int].update(index as int, entry),
            ),
    {
        assert(self@.len() == self.frames@.len());
        let n = self.frames.len();
        let q = table / 4096;
        assert(q < n);
        let k = q as usize;
        let mut t = self.frames[k];
        t.set_entry(index, entry);
        self.frames.set(k, t);
        assert(self@ =~= old(self)@.update(k as int, old(self)@[k as int].update(index as int, entry)));
    }

    /// Fills the frame at physical address `table` with zeros.
    pub fn zero_frame(&mut self, table: u64)
        requires
            valid_table(old(self)@, table),
        ensures
            final(self)@ == old(self)@.update((table / 4096) as int, final(self)@[(table / 4096) as int]),
            table_zeroed(final(self)@[(table / 4096) as int]),
    {
        assert(self@.len() == self.frames@.len());
        let n = self.frames.len();
        let q = table / 4096;
        assert(q < n);
        let k = q as usize;
        self.frames.set(k, PageTable::new());
        assert(self@ =~= old(self)@.update(k as int, self@[k as int]));
    }

    /// Copies the frame at `source` over the frame at `destination`.
    pub fn copy_frame(&mut self, destination: u64, source: u64)
        requires
            valid_table(old(self)@, destination),
            valid_table(old(self)@, source),
        ensures
            final(self)@ == old(self)@.update(
                (destination / 4096) as int,
                old(self)@[(source / 4096) as int],
            ),
    {
        assert(self@.len() == self.frames@.len());
        let n = self.frames.len();
        let qd = destination / 4096;
        let qs = source / 4096;
        assert(qd < n && qs < n);
        let kd = qd as usize;
        let ks = qs as usize;
        let mut t = self.frames[kd];
        t.shallow_copy_from(&self.frames[ks]);
        self.frames.set(kd, t);
        assert(self@ =~= old(self)@.update(kd as int, old(self)@[ks as int]));
    }

    /// The 512 words of the frame at physical address `frame`.
    pub fn read_words(&self, frame: u64) -> (r: Vec<u64>)
        requires
            valid_table(self@, frame),
            memory_wf(self@),
        ensures
            r@.len() == 512,
            forall|i: int| 0 <= i < 512 ==> #[trigger] r@[i] == read(self@, frame, i),
    {
        let mut words: Vec<u64> = Vec::new();
        let mut i: usize = 0;
        while i < 512
            invariant
                i <= 512,
                valid_table(self@, frame),
                words@.len() == i,
                forall|j: int| 0 <= j < i ==> #[trigger] words@[j] == read(self@, frame, j),
            decreases 512 - i,
        {
            let e = self.read_entry(frame, i);
            words.push(e.bits());
            i = i + 1;
        }
        words
    }

    /// Overwrites the frame at physical address `frame` with the 512 words
    /// `words`.
    pub fn write_words(&mut self, frame: u64, words: &Vec<u64>)
        requires
            valid_table(old(self)@, frame),
            memory_wf(old(self)@),
            words@.len() == 512,
        ensures
            memory_wf(final(self)@),
            final(self)@.len() == old(self)@.len(),
            forall|k: int|
                0 <= k < final(self)@.len() && k != frame / 4096 ==> final(self)@[k] == old(self)@[k],
            forall|i: int| 0 <= i < 512 ==> #[trigger] read(final(self)@, frame, i) == words@[i],
    {
        let mut i: usize = 0;
        while i < 512
            invariant
                i <= 512,
                words@.len() == 512,
                valid_table(self@, frame),
                memory_wf(self@),
                self@.len() == old(self)@.len(),
                forall|k: int| 0 <= k < self@.len() && k != frame / 4096 ==> self@[k] == old(self)@[k],
                forall|j: int| 0 <= j < i ==> #[trigger] read(self@, frame, j) == words@[j],
            decreases 512 - i,
        {
            let ghost m0 = self@;
            let e = PageTableEntry::from(words[i]);
            self.write_entry(frame, i, e);
            proof {
                crate::paging::lemma_entry_from_bits(words@[i as int]);
                assert(m0[(frame / 4096) as int].len() == 512);
                assert(read(self@, frame, i as int) == words@[i as int]);
                assert forall|j: int| 0 <= j < i + 1 implies #[trigger] read(self@, frame, j) == words@[j] by {
                    if j != i {
                        assert(read(self@, frame, j) == read(m0, frame, j));
                    }
                }
                assert forall|k: int| 0 <= k < self@.len() implies #[trigger] self@[k].len() == 512 by {
                    if k != frame / 4096 {
                        assert(self@[k] == m0[k]);
                    }
                }
            }
            i = i + 1;
        }
    }

    /// Whether the table at physical address `table` has no present entry.
    pub fn table_is_empty(&self, table: u64) -> (r: bool)
        requires
            valid_table(self@, table),
        ensures
            r == table_empty(self@[(table / 4096) as int]),
    {
        assert(self@.len() == self.frames@.len());
        let n = self.frames.len();
        let q = table / 4096;
        assert(q < n);
        let k = q as usize;
        self.frames[k].empty()
    }
}

/// A first-in-last-out allocator of free physical frames.
pub struct PageFrameAllocator {
    free: Vec<u64>,
}

impl View for PageFrameAllocator {
    type V = Seq<u64>;

    closed spec fn view(&self) -> Seq<u64> {
        self.free@
    }
}

impl PageFrameAllocator {
    /// Creates an allocator with no free frames.
    pub fn new() -> (r: Self)
        ensures
            r@ == Seq::<u64>::empty(),
    {
        PageFrameAllocator { free: Vec::new() }
    }

    /// The number of free frames.
    pub fn len(&self) -> (r: usize)
        ensures
            r == self@.len(),
    {
        self.free.len()
    }

    /// Allocates the most recently freed frame, if there is one.
    pub fn allocate(&mut self) -> (r: Option<u64>)
        ensures
            old(self)@.len() == 0 ==> r is None && final(self)@ == old(self)@,
            old(self)@.len() > 0 ==> r == Some(old(self)@.last()) && final(self)@ == old(
                self,
            )@.drop_last(),
    {
        self.free.pop()
    }

    /// Returns a frame to the allocator.
    pub fn free(&mut self, frame: u64)
        ensures
            final(self)@ == old(self)@.push(frame),
    {
        self.free.push(frame);
    }
}

} // verus!
