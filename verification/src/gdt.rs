//! The global descriptor table (GDT) and its entries.
use vstd::prelude::*;

verus! {

/// The selector of the kernel code segment (GDT index 1).
pub const KERNEL_CS: u16 = 0x08;

/// The selector of the kernel data segment (GDT index 2).
pub const KERNEL_DS: u16 = 0x10;

/// The selector of the user code segment (GDT index 3).
pub const USER_CS: u16 = 0x18;

/// The selector of the user data segment (GDT index 4).
pub const USER_DS: u16 = 0x20;

/// A Data Privilege Level (DPL) for a descriptor.
#[derive(Clone, Copy, Debug, PartialEq, Eq, Structural)]
pub enum Dpl {
    /// Ring 0.
    Ring0,
    /// Ring 1.
    Ring1,
    /// Ring 2.
    Ring2,
    /// Ring 3.
    Ring3,
}

impl Dpl {
    /// The numeric privilege level.
    pub open spec fn level(self) -> u64 {
        match self {
            Dpl::Ring0 => 0,
            Dpl::Ring1 => 1,
            Dpl::Ring2 => 2,
            Dpl::Ring3 => 3,
        }
    }

    /// Returns the numeric privilege level.
    pub fn as_u64(self) -> (r: u64)
        ensures
            r == self.level(),
    {
        match self {
            Dpl::Ring0 => 0,
            Dpl::Ring1 => 1,
            Dpl::Ring2 => 2,
            Dpl::Ring3 => 3,
        }
    }
}

/// A global descriptor table (GDT) entry.
#[derive(Debug, Clone, Copy)]
pub struct GdtEntry(u64);

impl View for GdtEntry {
    type V = u64;

    closed spec fn view(&self) -> u64 {
        self.0
    }
}

/// The raw values of the five entries of the GDT: the null descriptor,
/// kernel code, kernel data, user code and user data.
pub open spec fn gdt_value(i: int) -> u64 {
    if i == 1 {
        0x0020_9900_0000_0000u64
    } else if i == 2 {
        0x0020_9300_0000_0000u64
    } else if i == 3 {
        0x0020_F900_0000_0000u64
    } else if i == 4 {
        0x0020_F300_0000_0000u64
    } else {
        0
    }
}

/// Byte `j` (little-endian) of `v`.
pub open spec fn le_byte(v: u64, j: int) -> u8 {
    ((v >> ((8 * j) as u64)) & 0xFF) as u8
}

/// The flag combinations the four segment descriptors are built from.
proof fn lemma_descriptor_values()
    by (bit_vector)
    ensures
        (((((0u64 | 0x8000_0000_0000u64) | 0x100_0000_0000u64) | 0x1000_0000_0000u64)
            | 0x20_0000_0000_0000u64) | (0u64 << 45u64)) | 0x800_0000_0000u64
            == 0x0020_9900_0000_0000u64,
        (((((0u64 | 0x8000_0000_0000u64) | 0x100_0000_0000u64) | 0x1000_0000_0000u64)
            | 0x200_0000_0000u64) | 0x20_0000_0000_0000u64) | (0u64 << 45u64)
            == 0x0020_9300_0000_0000u64,
        (((((0u64 | 0x8000_0000_0000u64) | 0x100_0000_0000u64) | 0x1000_0000_0000u64)
            | 0x20_0000_0000_0000u64) | (3u64 << 45u64)) | 0x800_0000_0000u64
            == 0x0020_F900_0000_0000u64,
        (((((0u64 | 0x8000_0000_0000u64) | 0x100_0000_0000u64) | 0x1000_0000_0000u64)
            | 0x200_0000_0000u64) | 0x20_0000_0000_0000u64) | (3u64 << 45u64)
            == 0x0020_F300_0000_0000u64,
{
}

impl GdtEntry {
    /// Returns a null descriptor, used as the first
    /// entry in the GDT.
    pub fn null_descriptor() -> (r: Self)
        ensures
            r@ == 0,
    {
        GdtEntry(0)
    }

    /// Returns the kernel code segment descriptor
    /// for the x86_64 architecture.
    pub fn kernel_code_segment() -> (r: Self)
        ensures
            r@ == gdt_value(1),
    {
        proof {
            lemma_descriptor_values();
        }
        GdtEntry(0).with_present().with_accessed().with_user().with_long_mode().with_ring(
            Dpl::Ring0,
        ).with_executable()
    }

    /// Returns the kernel data segment descriptor
    /// for the x86_64 architecture.
    pub fn kernel_data_segment() -> (r: Self)
        ensures
            r@ == gdt_value(2),
    {
        proof {
            lemma_descriptor_values();
        }
        GdtEntry(0).with_present().with_accessed().with_user().with_writable().with_long_mode()
            .with_ring(Dpl::Ring0)
    }

    /// Returns the user code segment descriptor
    /// for the x86_64 architecture.
    pub fn user_code_segment() -> (r: Self)
        ensures
            r@ == gdt_value(3),
    {
        proof {
            lemma_descriptor_values();
        }
        GdtEntry(0).with_present().with_accessed().with_user().with_long_mode().with_ring(
            Dpl::Ring3,
        ).with_executable()
    }

    /// Returns the user data segment descriptor
    /// for the x86_64 architecture.
    pub fn user_data_segment() -> (r: Self)
        ensures
            r@ == gdt_value(4),
    {
        proof {
            lemma_descriptor_values();
        }
        GdtEntry(0).with_present().with_accessed().with_user().with_writable().with_long_mode()
            .with_ring(Dpl::Ring3)
    }

    /// Setting this flag will prevents the GDT from
    /// writing to the segment on first use.
    pub fn with_accessed(self) -> (r: Self)
        ensures
            r@ == self@ | 0x100_0000_0000u64,
    {
        GdtEntry(self.0 | 0x100_0000_0000u64)
    }

    /// Setting this flag allows the segment to be
    /// written to.
    pub fn with_writable(self) -> (r: Self)
        ensures
            r@ == self@ | 0x200_0000_0000u64,
    {
        GdtEntry(self.0 | 0x200_0000_0000u64)
    }

    /// Setting this flag allows the segment to be
    /// executed. Must be set for CS and unset for DS.
    pub fn with_executable(self) -> (r: Self)
        ensures
            r@ == self@ | 0x800_0000_0000u64,
    {
        GdtEntry(self.0 | 0x800_0000_0000u64)
    }

    /// Must be set for user segments.
    pub fn with_user(self) -> (r: Self)
        ensures
            r@ == self@ | 0x1000_0000_0000u64,
    {
        GdtEntry(self.0 | 0x1000_0000_0000u64)
    }

    /// Sets the DPL (Data Privilege Level) for the
    /// descriptor. This corresponds to the ring level
    /// of the descriptor.
    pub fn with_ring(self, ring: Dpl) -> (r: Self)
        ensures
            r@ == self@ | (ring.level() << 45u64),
    {
        GdtEntry(self.0 | (ring.as_u64() << 45u64))
    }

    /// Sets the present bit for the descriptor.
    /// Must be set for all valid descriptors.
    pub fn with_present(self) -> (r: Self)
        ensures
            r@ == self@ | 0x8000_0000_0000u64,
    {
        GdtEntry(self.0 | 0x8000_0000_0000u64)
    }

    /// Sets the long mode bit for the descriptor.
    /// Must be set for all valid descriptors.
    pub fn with_long_mode(self) -> (r: Self)
        ensures
            r@ == self@ | 0x20_0000_0000_0000u64,
    {
        GdtEntry(self.0 | 0x20_0000_0000_0000u64)
    }
}

/// The GDT: the null descriptor followed by the kernel code (which MUST be
/// index 1), kernel data, user code and user data descriptors.
pub fn gdt() -> (r: [GdtEntry; 5])
    ensures
        forall|i: int| 0 <= i < 5 ==> #[trigger] r@[i]@ == gdt_value(i),
{
    [
        GdtEntry::null_descriptor(),
        GdtEntry::kernel_code_segment(),
        GdtEntry::kernel_data_segment(),
        GdtEntry::user_code_segment(),
        GdtEntry::user_data_segment(),
    ]
}

/// Returns the bytes of the GDT (its five entries, little-endian).
///
/// This is mostly used by the secondary core initialization
/// code to write the GDT to a 32-bit page, as is required
/// when running in a 16/32-bit mode.
pub fn gdt_bytes() -> (r: Vec<u8>)
    ensures
        r@.len() == 40,
        forall|i: int, j: int|
            0 <= i < 5 && 0 <= j < 8 ==> #[trigger] r@[8 * i + j] == le_byte(gdt_value(i), j),
{
    let table = gdt();
    let mut bytes: Vec<u8> = Vec::new();
    let mut i: usize = 0;
    while i < 5
        invariant
            i <= 5,
            bytes@.len() == 8 * i,
            forall|k: int| 0 <= k < 5 ==> #[trigger] table@[k]@ == gdt_value(k),
            forall|a: int, b: int|
                0 <= a < i && 0 <= b < 8 ==> #[trigger] bytes@[8 * a + b] == le_byte(
                    gdt_value(a),
                    b,
                ),
        decreases 5 - i,
    {
        let v = table[i].0;
        proof {
            assert(v == table@[i as int]@);
        }
        let mut j: u64 = 0;
        while j < 8
            invariant
                i < 5,
                j <= 8,
                v == gdt_value(i as int),
                bytes@.len() == 8 * i + j,
                forall|a: int, b: int|
                    0 <= a < i && 0 <= b < 8 ==> #[trigger] bytes@[8 * a + b] == le_byte(
                        gdt_value(a),
                        b,
                    ),
                forall|b: int| 0 <= b < j ==> #[trigger] bytes@[8 * i + b] == le_byte(v, b),
            decreases 8 - j,
        {
            bytes.push(((v >> (8 * j)) & 0xFF) as u8);
            proof {
                assert(bytes@[8 * i + j] == le_byte(v, j as int));
            }
            j = j + 1;
        }
        i = i + 1;
    }
    bytes
}

/// The limit of the GDT register for the GDT: its size in bytes, minus one.
pub fn gdt_limit() -> (r: u16)
    ensures
        r == 39,
{
    (5 * 8 - 1) as u16
}

} // verus!
