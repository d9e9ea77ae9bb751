//! The computations around the instructions that read and write the
//! processor's registers: splitting and joining model-specific register
//! values, and reading the interrupt flag out of `RFLAGS`.
use vstd::prelude::*;

verus! {

/// The model-specific register holding the `FS` segment base.
pub const FS_BASE_MSR: u32 = 0xC000_0100;

/// The model-specific register holding the `GS` segment base.
pub const GS_BASE_MSR: u32 = 0xC000_0101;

/// The value `rdmsr` reads, from the halves it returns in `edx` and `eax`.
pub fn msr_value(edx: u32, eax: u32) -> (r: u64)
    ensures
        r == ((edx as u64) << 32u64) | (eax as u64),
{
    ((edx as u64) << 32u64) | (eax as u64)
}

/// The halves, `edx` then `eax`, that `wrmsr` takes for the value `value`.
pub fn msr_halves(value: u64) -> (r: (u32, u32))
    ensures
        r.0 == (value >> 32u64) as u32,
        r.1 == value as u32,
{
    ((value >> 32u64) as u32, value as u32)
}

/// Whether the `RFLAGS` value `rflags` has the interrupt flag (bit 9) set.
pub fn interrupts_enabled_in(rflags: u64) -> (r: bool)
    ensures
        r == (rflags & 0x200u64 != 0),
{
    rflags & 0x200u64 != 0
}

} // verus!
