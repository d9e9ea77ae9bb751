//! Entries of the interrupt descriptor table (IDT).
use vstd::prelude::*;

verus! {

/// A single IDT (Interrupt Descriptor Table) entry.
#[derive(Debug, Clone, Copy)]
pub struct IdtEntry {
    /// The lower 16 bits of the ISR (Interrupt Service Routine) address.
    isr_low: u16,
    /// The code segment selector used when handling the interrupt.
    kernel_cs: u16,
    /// The IST (Interrupt Stack Table) index.
    ist: u8,
    /// Attributes and flags for the IDT entry, including type.
    attributes: u8,
    /// The middle 16 bits of the ISR address.
    isr_mid: u16,
    /// The higher 32 bits of the ISR address.
    isr_high: u32,
    /// Reserved.
    reserved: u32,
}

/// The fields of an IDT entry, in memory order: the low 16 bits of the ISR
/// address, the code segment selector, the IST index, the attributes, the
/// middle 16 bits and the high 32 bits of the ISR address, and the reserved
/// word.
pub struct IdtEntryFields {
    pub isr_low: u16,
    pub kernel_cs: u16,
    pub ist: u8,
    pub attributes: u8,
    pub isr_mid: u16,
    pub isr_high: u32,
    pub reserved: u32,
}

impl View for IdtEntry {
    type V = IdtEntryFields;

    closed spec fn view(&self) -> IdtEntryFields {
        IdtEntryFields {
            isr_low: self.isr_low,
            kernel_cs: self.kernel_cs,
            ist: self.ist,
            attributes: self.attributes,
            isr_mid: self.isr_mid,
            isr_high: self.isr_high,
            reserved: self.reserved,
        }
    }
}

/// The ISR address an entry holds, reassembled from its three parts.
pub open spec fn isr_address(f: IdtEntryFields) -> u64 {
    (f.isr_low as u64) | ((f.isr_mid as u64) << 16u64) | ((f.isr_high as u64) << 32u64)
}

impl IdtEntry {
    /// Creates a new, empty IDT entry.
    pub fn new() -> (r: Self)
        ensures
            r@ == (IdtEntryFields {
                isr_low: 0,
                kernel_cs: 0,
                ist: 0,
                attributes: 0,
                isr_mid: 0,
                isr_high: 0,
                reserved: 0,
            }),
    {
        IdtEntry {
            isr_low: 0,
            kernel_cs: 0,
            ist: 0,
            attributes: 0,
            isr_mid: 0,
            isr_high: 0,
            reserved: 0,
        }
    }

    /// Sets the ISR address for the IDT entry.
    pub fn with_isr_raw(self, isr: u64) -> (r: Self)
        ensures
            r@ == (IdtEntryFields {
                isr_low: isr as u16,
                isr_mid: (isr >> 16u64) as u16,
                isr_high: (isr >> 32u64) as u32,
                ..self@
            }),
            isr_address(r@) == isr,
    {
        let mut s = self;
        s.isr_low = isr as u16;
        s.isr_mid = (isr >> 16u64) as u16;
        s.isr_high = (isr >> 32u64) as u32;
        assert(((isr as u16) as u64) | ((((isr >> 16u64) as u16) as u64) << 16u64) | ((((isr
            >> 32u64) as u32) as u64) << 32u64) == isr) by (bit_vector);
        s
    }

    /// Sets the code segment selector for the IDT entry.
    ///
    /// There is no configurable index for this; it's always
    /// set to 0x08 (the kernel code segment).
    pub fn with_kernel_cs(self) -> (r: Self)
        ensures
            r@ == (IdtEntryFields { kernel_cs: crate::gdt::KERNEL_CS, ..self@ }),
    {
        let mut s = self;
        s.kernel_cs = crate::gdt::KERNEL_CS;
        s
    }

    /// Sets the attributes for the IDT entry.
    pub fn with_attributes(self, attributes: u8) -> (r: Self)
        ensures
            r@ == (IdtEntryFields { attributes, ..self@ }),
    {
        let mut s = self;
        s.attributes = attributes;
        s
    }

    /// The ISR address of the entry.
    pub fn isr(&self) -> (r: u64)
        ensures
            r == isr_address(self@),
    {
        (self.isr_low as u64) | ((self.isr_mid as u64) << 16u64) | ((self.isr_high as u64) << 32u64)
    }

    /// The code segment selector of the entry.
    pub fn code_segment(&self) -> (r: u16)
        ensures
            r == self@.kernel_cs,
    {
        self.kernel_cs
    }

    /// The attributes of the entry.
    pub fn attributes(&self) -> (r: u8)
        ensures
            r == self@.attributes,
    {
        self.attributes
    }
}

/// Whether the CPU pushes an error code for exception `vector`: the double
/// fault, invalid TSS, segment not present, stack fault, general protection
/// fault, page fault, alignment check, control protection, VMM
/// communication and security exceptions.
pub open spec fn pushes_error_code(vector: u8) -> bool {
    vector == 8 || (10 <= vector <= 14) || vector == 17 || vector == 21 || vector == 29 || vector == 30
}

/// Whether the CPU pushes an error code for exception `vector`; the
/// default handler stubs of the first 32 vectors differ in that.
pub fn exception_pushes_error_code(vector: u8) -> (r: bool)
    ensures
        r == pushes_error_code(vector),
{
    match vector {
        8 | 10 | 11 | 12 | 13 | 14 | 17 | 21 | 29 | 30 => true,
        _ => false,
    }
}

} // verus!
