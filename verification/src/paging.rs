//! Page table entries and page tables for the `x86_64` four- and
//! five-level paging modes.
use vstd::prelude::*;

verus! {

/// The bits of a page table entry that hold the physical address
/// of the frame (or next table) it references.
pub const ADDRESS_MASK: u64 = 0x000F_FFFF_FFFF_F000;

/// The bits of a page table entry that are not part of the address.
pub const NON_ADDRESS_MASK: u64 = 0xFFF0_0000_0000_0FFF;

/// The bits of a page table entry that are available for software use
/// (bits 9..=11 and 52..=58).
pub const AVAILABLE_MASK: u64 = 0x07F0_0000_0000_0E00;

/// Whether any of the bits in `mask` are set in `v`.
pub open spec fn has_bits(v: u64, mask: u64) -> bool {
    v & mask != 0
}

/// The ten "available" bits of an entry value, packed as a 10-bit number:
/// the low three bits come from entry bits 9..=11, the upper seven from
/// entry bits 52..=58.
pub open spec fn available_bits(v: u64) -> u64 {
    ((v >> 9u64) & 7) | (((v >> 52u64) & 0x7F) << 3u64)
}

/// The entry bit that holds available bit `bit` (for `bit < 10`).
pub open spec fn available_bit_position(bit: u64) -> u64 {
    if bit > 2 {
        (bit + 49) as u64
    } else {
        (bit + 9) as u64
    }
}

/// The entry holding exactly the raw value `v`.
pub closed spec fn entry_from_bits(v: u64) -> PageTableEntry {
    PageTableEntry(v)
}

/// The entry built from a raw value holds that raw value.
pub broadcast proof fn lemma_entry_from_bits(v: u64)
    ensures
        #[trigger] entry_from_bits(v)@ == v,
{
}

/// A single page table entry.
#[derive(Debug, Clone, Copy)]
pub struct PageTableEntry(u64);

impl View for PageTableEntry {
    type V = u64;

    closed spec fn view(&self) -> u64 {
        self.0
    }
}

/// Represents a page table entry.
///
/// Each page table entry is a 64-bit value that contains various flags and attributes
/// used for memory management and protection.
impl PageTableEntry {
    /// Resets the entry to its default state.
    pub fn reset(&mut self)
        ensures
            final(self)@ == 0,
    {
        self.0 = 0;
    }

    /// Creates a new `PageTableEntry` with all flags and attributes set to 0.
    pub fn new() -> (r: Self)
        ensures
            r@ == 0,
    {
        PageTableEntry(0)
    }

    /// Sets the page table entry to the given value.
    pub fn set(&mut self, value: PageTableEntry)
        ensures
            final(self)@ == value@,
    {
        self.0 = value.0;
    }

    /// Returns the raw 64-bit value of the entry.
    pub fn bits(&self) -> (r: u64)
        ensures
            r == self@,
    {
        self.0
    }

    /// Checks if the page table entry is present.
    pub fn present(&self) -> (r: bool)
        ensures
            r == has_bits(self@, 0x1u64),
    {
        (self.0 & 0x1u64) != 0
    }

    /// Sets the present flag of the page table entry.
    pub fn set_present(&mut self)
        ensures
            final(self)@ == old(self)@ | 0x1u64,
    {
        self.0 = self.0 | 0x1u64;
    }

    /// Clears the present flag of the page table entry.
    pub fn clear_present(&mut self)
        ensures
            final(self)@ == old(self)@ & !0x1u64,
    {
        self.0 = self.0 & !0x1u64;
    }

    /// Replaces the present flag, returning a new `PageTableEntry`.
    pub fn with_present(self) -> (r: Self)
        ensures
            r@ == self@ | 0x1u64,
    {
        PageTableEntry(self.0 | 0x1u64)
    }

    /// Checks if the page table entry is writable.
    pub fn writable(&self) -> (r: bool)
        ensures
            r == has_bits(self@, 0x2u64),
    {
        (self.0 & 0x2u64) != 0
    }

    /// Sets the writable flag of the page table entry.
    pub fn set_writable(&mut self)
        ensures
            final(self)@ == old(self)@ | 0x2u64,
    {
        self.0 = self.0 | 0x2u64;
    }

    /// Clears the writable flag of the page table entry.
    pub fn clear_writable(&mut self)
        ensures
            final(self)@ == old(self)@ & !0x2u64,
    {
        self.0 = self.0 & !0x2u64;
    }

    /// Replaces the writable flag, returning a new `PageTableEntry`.
    pub fn with_writable(self) -> (r: Self)
        ensures
            r@ == self@ | 0x2u64,
    {
        PageTableEntry(self.0 | 0x2u64)
    }

    /// Checks if the page table entry is dirty.
    pub fn dirty(&self) -> (r: bool)
        ensures
            r == has_bits(self@, 0x40u64),
    {
        (self.0 & 0x40u64) != 0
    }

    /// Sets the dirty flag of the page table entry.
    pub fn set_dirty(&mut self)
        ensures
            final(self)@ == old(self)@ | 0x40u64,
    {
        self.0 = self.0 | 0x40u64;
    }

    /// Clears the dirty flag of the page table entry.
    pub fn clear_dirty(&mut self)
        ensures
            final(self)@ == old(self)@ & !0x40u64,
    {
        self.0 = self.0 & !0x40u64;
    }

    /// Replaces the dirty flag, returning a new `PageTableEntry`.
    pub fn with_dirty(self) -> (r: Self)
        ensures
            r@ == self@ | 0x40u64,
    {
        PageTableEntry(self.0 | 0x40u64)
    }

    /// Checks if the page table entry has been accessed.
    pub fn accessed(&self) -> (r: bool)
        ensures
            r == has_bits(self@, 0x20u64),
    {
        (self.0 & 0x20u64) != 0
    }

    /// Sets the accessed flag of the page table entry.
    pub fn set_accessed(&mut self)
        ensures
            final(self)@ == old(self)@ | 0x20u64,
    {
        self.0 = self.0 | 0x20u64;
    }

    /// Clears the accessed flag of the page table entry.
    pub fn clear_accessed(&mut self)
        ensures
            final(self)@ == old(self)@ & !0x20u64,
    {
        self.0 = self.0 & !0x20u64;
    }

    /// Replaces the accessed flag, returning a new `PageTableEntry`.
    pub fn with_accessed(self) -> (r: Self)
        ensures
            r@ == self@ | 0x20u64,
    {
        PageTableEntry(self.0 | 0x20u64)
    }

    /// Checks if the page table entry is user-accessible.
    pub fn user(&self) -> (r: bool)
        ensures
            r == has_bits(self@, 0x4u64),
    {
        (self.0 & 0x4u64) != 0
    }

    /// Sets the user flag of the page table entry.
    pub fn set_user(&mut self)
        ensures
            final(self)@ == old(self)@ | 0x4u64,
    {
        self.0 = self.0 | 0x4u64;
    }

    /// Clears the user flag of the page table entry.
    pub fn clear_user(&mut self)
        ensures
            final(self)@ == old(self)@ & !0x4u64,
    {
        self.0 = self.0 & !0x4u64;
    }

    /// Replaces the user flag, returning a new `PageTableEntry`.
    pub fn with_user(self) -> (r: Self)
        ensures
            r@ == self@ | 0x4u64,
    {
        PageTableEntry(self.0 | 0x4u64)
    }

    /// Checks if the page table entry is non-executable.
    pub fn no_exec(&self) -> (r: bool)
        ensures
            r == has_bits(self@, 0x8000000000000000u64),
    {
        (self.0 & 0x8000000000000000u64) != 0
    }

    /// Sets the non-executable flag of the page table entry.
    pub fn set_no_exec(&mut self)
        ensures
            final(self)@ == old(self)@ | 0x8000000000000000u64,
    {
        self.0 = self.0 | 0x8000000000000000u64;
    }

    /// Clears the non-executable flag of the page table entry.
    pub fn clear_no_exec(&mut self)
        ensures
            final(self)@ == old(self)@ & !0x8000000000000000u64,
    {
        self.0 = self.0 & !0x8000000000000000u64;
    }

    /// Replaces the non-executable flag, returning a new `PageTableEntry`.
    pub fn with_no_exec(self) -> (r: Self)
        ensures
            r@ == self@ | 0x8000000000000000u64,
    {
        PageTableEntry(self.0 | 0x8000000000000000u64)
    }

    /// Checks if the page table entry is global.
    pub fn global(&self) -> (r: bool)
        ensures
            r == has_bits(self@, 0x100u64),
    {
        (self.0 & 0x100u64) != 0
    }

    /// Sets the global flag of the page table entry.
    pub fn set_global(&mut self)
        ensures
            final(self)@ == old(self)@ | 0x100u64,
    {
        self.0 = self.0 | 0x100u64;
    }

    /// Clears the global flag of the page table entry.
    pub fn clear_global(&mut self)
        ensures
            final(self)@ == old(self)@ & !0x100u64,
    {
        self.0 = self.0 & !0x100u64;
    }

    /// Replaces the global flag, returning a new `PageTableEntry`.
    pub fn with_global(self) -> (r: Self)
        ensures
            r@ == self@ | 0x100u64,
    {
        PageTableEntry(self.0 | 0x100u64)
    }

    /// Checks if the page table entry has write-through caching enabled.
    pub fn write_through(&self) -> (r: bool)
        ensures
            r == has_bits(self@, 0x8u64),
    {
        (self.0 & 0x8u64) != 0
    }

    /// Sets the write-through flag of the page table entry.
    pub fn set_write_through(&mut self)
        ensures
            final(self)@ == old(self)@ | 0x8u64,
    {
        self.0 = self.0 | 0x8u64;
    }

    /// Clears the write-through flag of the page table entry.
    pub fn clear_write_through(&mut self)
        ensures
            final(self)@ == old(self)@ & !0x8u64,
    {
        self.0 = self.0 & !0x8u64;
    }

    /// Replaces the write-through flag, returning a new `PageTableEntry`.
    pub fn with_write_through(self) -> (r: Self)
        ensures
            r@ == self@ | 0x8u64,
    {
        PageTableEntry(self.0 | 0x8u64)
    }

    /// Checks if the page table entry has caching disabled.
    pub fn cache_disable(&self) -> (r: bool)
        ensures
            r == has_bits(self@, 0x10u64),
    {
        (self.0 & 0x10u64) != 0
    }

    /// Sets the cache-disable flag of the page table entry.
    pub fn set_cache_disable(&mut self)
        ensures
            final(self)@ == old(self)@ | 0x10u64,
    {
        self.0 = self.0 | 0x10u64;
    }

    /// Clears the cache-disable flag of the page table entry.
    pub fn clear_cache_disable(&mut self)
        ensures
            final(self)@ == old(self)@ & !0x10u64,
    {
        self.0 = self.0 & !0x10u64;
    }

    /// Replaces the cache-disable flag, returning a new `PageTableEntry`.
    pub fn with_cache_disable(self) -> (r: Self)
        ensures
            r@ == self@ | 0x10u64,
    {
        PageTableEntry(self.0 | 0x10u64)
    }

    /// Checks if the page is a huge page.
    ///
    /// Only meaningful on a PDPT or a PD entry.
    pub fn huge(&self) -> (r: bool)
        ensures
            r == has_bits(self@, 0x80u64),
    {
        (self.0 & 0x80u64) != 0
    }

    /// Sets the huge flag of the page table entry.
    ///
    /// Only meaningful on a PDPT or a PD entry.
    pub fn set_huge(&mut self)
        ensures
            final(self)@ == old(self)@ | 0x80u64,
    {
        self.0 = self.0 | 0x80u64;
    }

    /// Clears the huge flag of the page table entry.
    ///
    /// Only meaningful on a PDPT or a PD entry.
    pub fn clear_huge(&mut self)
        ensures
            final(self)@ == old(self)@ & !0x80u64,
    {
        self.0 = self.0 & !0x80u64;
    }

    /// Replaces the huge flag, returning a new `PageTableEntry`.
    ///
    /// Only meaningful on a PDPT or a PD entry.
    pub fn with_huge(self) -> (r: Self)
        ensures
            r@ == self@ | 0x80u64,
    {
        PageTableEntry(self.0 | 0x80u64)
    }

    /// Checks if the page table entry is supervisor-only (that is, the user
    /// flag is clear).
    pub fn supervisor(&self) -> (r: bool)
        ensures
            r == !has_bits(self@, 0x4u64),
    {
        (self.0 & 0x4u64) == 0
    }

    /// Sets the supervisor flag of the page table entry (clearing the user flag).
    pub fn set_supervisor(&mut self)
        ensures
            final(self)@ == old(self)@ & !0x4u64,
    {
        self.0 = self.0 & !0x4u64;
    }

    /// Clears the supervisor flag of the page table entry (setting the user flag).
    pub fn clear_supervisor(&mut self)
        ensures
            final(self)@ == old(self)@ | 0x4u64,
    {
        self.0 = self.0 | 0x4u64;
    }

    /// Replaces the supervisor flag, returning a new `PageTableEntry`.
    pub fn with_supervisor(self) -> (r: Self)
        ensures
            r@ == self@ & !0x4u64,
    {
        PageTableEntry(self.0 & !0x4u64)
    }

    /// Gets a manipulator for the "available" fields of the page table entry.
    pub fn available(&mut self) -> (r: AvailableFields<'_>)
        ensures
            *r.0 == old(self)@,
            final(self)@ == *final(r.0),
    {
        AvailableFields(&mut self.0)
    }

    /// Replaces the available bits of the page table entry with the given 10-bit value,
    /// returning a new `PageTableEntry`.
    pub fn with_available(self, value: u16) -> (r: Self)
        ensures
            r@ & !AVAILABLE_MASK == self@ & !AVAILABLE_MASK,
            available_bits(r@) == (value as u64) & 0x3FF,
    {
        let v = value as u64;
        let x = self.0;
        let r = (x & !(0b111u64 << 9u64) & !(0b111_1111u64 << 52u64)) | ((v & 0b111u64) << 9u64)
            | ((v & 0b11_1111_1000u64) << 49u64);
        assert(r & !0x07F0_0000_0000_0E00u64 == x & !0x07F0_0000_0000_0E00u64
            && ((r >> 9u64) & 7) | (((r >> 52u64) & 0x7F) << 3u64) == v & 0x3FF) by (bit_vector)
            requires
                v < 0x10000,
                r == (x & !(0b111u64 << 9u64) & !(0b111_1111u64 << 52u64)) | ((v & 0b111u64)
                    << 9u64) | ((v & 0b11_1111_1000u64) << 49u64),
        ;
        PageTableEntry(r)
    }

    /// Sets the physical address of the page table entry, truncating the
    /// address to the bits an entry can hold.
    pub fn set_address(&mut self, address: u64)
        ensures
            final(self)@ == (old(self)@ & NON_ADDRESS_MASK) | (address & ADDRESS_MASK),
    {
        let a = address & ADDRESS_MASK;
        assert(a & 0xFFF0_0000_0000_0FFFu64 == 0) by (bit_vector)
            requires
                a == address & 0x000F_FFFF_FFFF_F000u64,
        ;
        self.set_address_unchecked(a);
    }

    /// Sets the physical address of the page table entry, without truncating bits.
    /// This should only be used if the address is known to be properly aligned and
    /// truncated.
    pub fn set_address_unchecked(&mut self, address: u64)
        requires
            address & NON_ADDRESS_MASK == 0,
        ensures
            final(self)@ == (old(self)@ & NON_ADDRESS_MASK) | address,
    {
        self.0 = (self.0 & NON_ADDRESS_MASK) | address;
    }

    /// Replaces the physical address of the page table, returning a new `PageTableEntry`.
    pub fn with_address(self, address: u64) -> (r: Self)
        ensures
            r@ == (self@ & NON_ADDRESS_MASK) | (address & ADDRESS_MASK),
    {
        PageTableEntry((self.0 & NON_ADDRESS_MASK) | (address & ADDRESS_MASK))
    }

    /// Gets the physical address of the page table entry.
    pub fn address(&self) -> (r: u64)
        ensures
            r == self@ & ADDRESS_MASK,
    {
        self.0 & ADDRESS_MASK
    }
}

impl From<u64> for PageTableEntry {
    fn from(value: u64) -> (r: Self) {
        PageTableEntry(value)
    }
}

impl vstd::std_specs::convert::FromSpecImpl<u64> for PageTableEntry {
    open spec fn obeys_from_spec() -> bool {
        true
    }

    open spec fn from_spec(v: u64) -> PageTableEntry {
        entry_from_bits(v)
    }
}

impl From<PageTableEntry> for u64 {
    fn from(entry: PageTableEntry) -> (r: Self) {
        entry.0
    }
}

impl vstd::std_specs::convert::FromSpecImpl<PageTableEntry> for u64 {
    open spec fn obeys_from_spec() -> bool {
        true
    }

    open spec fn from_spec(v: PageTableEntry) -> u64 {
        v@
    }
}

/// A struct for manipulating the available fields of a page table entry.
pub struct AvailableFields<'a>(pub &'a mut u64);

impl<'a> AvailableFields<'a> {
    /// Gets the first block of available bits as a u8.
    pub fn first(&self) -> (r: u8)
        ensures
            r == (*old(self.0) >> 9u64) & 7,
    {
        let x = *self.0;
        assert((x >> 9u64) & 0b111u64 < 256) by (bit_vector);
        ((x >> 9u64) & 0b111u64) as u8
    }

    /// Sets the first block of available bits as a u8.
    pub fn set_first(&mut self, value: u8)
        ensures
            *final(self).0 == (*old(self).0 & !(7u64 << 9u64)) | ((value as u64) << 9u64),
            *final(final(self).0) == *final(old(self).0),
    {
        let v = value as u64;
        assert(v << 9u64 <= u64::MAX) by (bit_vector);
        *self.0 = (*self.0 & !(0b111u64 << 9u64)) | (v << 9u64);
    }

    /// Gets the second block of available bits as a u8.
    pub fn second(&self) -> (r: u8)
        ensures
            r == (*old(self.0) >> 52u64) & 0x7F,
    {
        let x = *self.0;
        assert((x >> 52u64) & 0b111_1111u64 < 256) by (bit_vector);
        ((x >> 52u64) & 0b111_1111u64) as u8
    }

    /// Sets the second block of available bits as a u8.
    pub fn set_second(&mut self, value: u8)
        ensures
            *final(self).0 == (*old(self).0 & !(0x7Fu64 << 52u64)) | ((value as u64) << 52u64),
            *final(final(self).0) == *final(old(self).0),
    {
        let v = value as u64;
        *self.0 = (*self.0 & !(0b111_1111u64 << 52u64)) | (v << 52u64);
    }

    /// Gets both the first and second blocks of available fields encoded as a 10-bit u16.
    pub fn as_u16(&self) -> (r: u16)
        ensures
            r == available_bits(*old(self.0)),
    {
        let first = self.first();
        let second = self.second();
        let x = *self.0;
        assert(((x >> 9u64) & 7) | (((x >> 52u64) & 0x7F) << 3u64) < 0x400) by (bit_vector);
        let f = first as u16;
        let s = second as u16;
        assert((f | (s << 3u16)) as u64 == ((x >> 9u64) & 7) | (((x >> 52u64) & 0x7F) << 3u64))
            by (bit_vector)
            requires
                f == (x >> 9u64) & 7,
                s == (x >> 52u64) & 0x7F,
        ;
        f | (s << 3u16)
    }

    /// Sets both the first and second blocks of available fields encoded as a 10-bit u16.
    pub fn set_u16(&mut self, value: u16)
        ensures
            *final(self).0 & !AVAILABLE_MASK == *old(self).0 & !AVAILABLE_MASK,
            available_bits(*final(self).0) == (value as u64) & 0x3FF,
            *final(final(self).0) == *final(old(self).0),
    {
        let v = value as u64;
        let x = *self.0;
        let r = x & !((0b111u64 << 9u64) | (0b111_1111u64 << 52u64)) | ((v & 0b111u64) << 9u64)
            | ((v & 0b11_1111_1000u64) << 49u64);
        assert(r & !0x07F0_0000_0000_0E00u64 == x & !0x07F0_0000_0000_0E00u64 && ((r >> 9u64) & 7)
            | (((r >> 52u64) & 0x7F) << 3u64) == v & 0x3FF) by (bit_vector)
            requires
                v < 0x10000,
                r == x & !((0b111u64 << 9u64) | (0b111_1111u64 << 52u64)) | ((v & 0b111u64)
                    << 9u64) | ((v & 0b11_1111_1000u64) << 49u64),
        ;
        *self.0 = r;
    }

    /// Sets a single bit in the available fields. Bit must be in the range `0..=9`.
    pub fn set(&mut self, bit: usize)
        requires
            bit < 10,
        ensures
            *final(self).0 == *old(self).0 | (1u64 << available_bit_position(bit as u64)),
            *final(final(self).0) == *final(old(self).0),
    {
        let b = bit as u64;
        let pos: u64 = if b > 2 { b + 9 + 40 } else { b + 9 };
        *self.0 = *self.0 | (1u64 << pos);
    }

    /// Clears a single bit in the available fields. Bit must be in the range `0..=9`.
    pub fn clear(&mut self, bit: usize)
        requires
            bit < 10,
        ensures
            *final(self).0 == *old(self).0 & !(1u64 << available_bit_position(bit as u64)),
            *final(final(self).0) == *final(old(self).0),
    {
        let b = bit as u64;
        let pos: u64 = if b > 2 { b + 9 + 40 } else { b + 9 };
        *self.0 = *self.0 & !(1u64 << pos);
    }

    /// Gets a single bit in the available fields. Bit must be in the range `0..=9`.
    pub fn get(&self, bit: usize) -> (r: bool)
        requires
            bit < 10,
        ensures
            r == has_bits(*old(self.0), 1u64 << available_bit_position(bit as u64)),
    {
        let b = bit as u64;
        let pos: u64 = if b > 2 { b + 9 + 40 } else { b + 9 };
        ((*self.0) & (1u64 << pos)) != 0
    }
}

/// Whether a table (as seen through its entries) has no present entries.
pub open spec fn table_empty(t: Seq<PageTableEntry>) -> bool {
    forall|i: int| 0 <= i < t.len() ==> !has_bits(#[trigger] t[i]@, 0x1u64)
}

/// Whether a table holds 512 entries that are all zero.
pub open spec fn table_zeroed(t: Seq<PageTableEntry>) -> bool {
    &&& t.len() == 512
    &&& forall|i: int| 0 <= i < 512 ==> #[trigger] t[i]@ == 0
}

/// A page table for the `x86_64` architecture.
#[derive(Debug, Clone, Copy)]
pub struct PageTable {
    entries: [PageTableEntry; 512],
}

impl View for PageTable {
    type V = Seq<PageTableEntry>;

    closed spec fn view(&self) -> Seq<PageTableEntry> {
        self.entries@
    }
}

impl PageTable {
    /// A page table always holds 512 entries.
    pub proof fn lemma_len(&self)
        ensures
            self@.len() == 512,
    {
    }

    /// Creates a page table whose entries are all zero.
    pub fn new() -> (r: Self)
        ensures
            table_zeroed(r@),
    {
        PageTable { entries: [PageTableEntry(0);512] }
    }

    /// Clears all entries in the page table.
    pub fn reset(&mut self)
        ensures
            table_zeroed(final(self)@),
    {
        let mut i: usize = 0;
        while i < 512
            invariant
                i <= 512,
                self@.len() == 512,
                forall|j: int| 0 <= j < i ==> #[trigger] self@[j]@ == 0,
            decreases 512 - i,
        {
            self.entries[i] = PageTableEntry(0);
            i = i + 1;
        }
    }

    /// Returns the entry at `index`.
    pub fn index(&self, index: usize) -> (r: &PageTableEntry)
        requires
            index < 512,
        ensures
            *r == self@[index as int],
    {
        &self.entries[index]
    }

    /// Replaces the entry at `index`.
    pub fn set_entry(&mut self, index: usize, entry: PageTableEntry)
        requires
            index < 512,
        ensures
            final(self)@ == old(self)@.update(index as int, entry),
    {
        self.entries[index] = entry;
    }

    /// Whether no entry of the table is present.
    pub fn empty(&self) -> (r: bool)
        ensures
            r == table_empty(self@),
    {
        let mut i: usize = 0;
        while i < 512
            invariant
                i <= 512,
                self@.len() == 512,
                forall|j: int| 0 <= j < i ==> !has_bits(#[trigger] self@[j]@, 0x1u64),
            decreases 512 - i,
        {
            if self.entries[i].present() {
                return false;
            }
            i = i + 1;
        }
        true
    }

    /// Copies every entry of `source` into this table.
    pub fn shallow_copy_from(&mut self, source: &PageTable)
        ensures
            final(self)@ == source@,
    {
        self.entries = source.entries;
    }
}

/// The number of levels in the page table hierarchy,
/// as determined by the CPU flags.
#[derive(Debug, Clone, Copy, PartialEq, Eq, Structural)]
pub enum PagingLevel {
    /// 4-level paging
    Level4,
    /// 5-level paging
    Level5,
}

impl PagingLevel {
    /// The number of levels as a mathematical number.
    pub open spec fn levels(self) -> nat {
        match self {
            PagingLevel::Level4 => 4,
            PagingLevel::Level5 => 5,
        }
    }

    /// Returns the number of levels in the page table hierarchy.
    pub fn as_usize(self) -> (r: usize)
        ensures
            r == self.levels(),
    {
        match self {
            PagingLevel::Level4 => 4,
            PagingLevel::Level5 => 5,
        }
    }

    /// Returns the paging level that the CR4 value `cr4` selects:
    /// five levels when its `la57` bit is set, four otherwise.
    pub fn current_from_cpu(cr4: u64) -> (r: Self)
        ensures
            r == (if has_bits(cr4, 0x1000u64) {
                PagingLevel::Level5
            } else {
                PagingLevel::Level4
            }),
    {
        if (cr4 & 0x1000u64) != 0 {
            PagingLevel::Level5
        } else {
            PagingLevel::Level4
        }
    }
}

} // verus!
