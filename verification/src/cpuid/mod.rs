//! CPUID lookup structures and the decisions around the CPUID instruction.
use vstd::prelude::*;

pub mod a01c0;
pub mod a07c0;
pub mod a07c1;
pub mod a07c2;
pub mod a0dc0;

pub use a01c0::CpuidA01C0;
pub use a07c0::CpuidA07C0;
pub use a07c1::CpuidA07C1;
pub use a07c2::CpuidA07C2;
pub use a0dc0::CpuidA0DC0;

verus! {

/// The result of a CPUID call.
#[derive(Debug, Clone, Copy)]
pub struct CpuidResult {
    /// The `eax` register after the CPUID call.
    pub eax: u32,
    /// The `ebx` register after the CPUID call.
    pub ebx: u32,
    /// The `ecx` register after the CPUID call.
    pub ecx: u32,
    /// The `edx` register after the CPUID call.
    pub edx: u32,
}

/// Whether the CPUID leaf `eax` may be queried, given the highest supported
/// leaf (`None` when the CPU has no CPUID instruction).
pub fn leaf_supported(highest_leaf: Option<u32>, eax: u32) -> (r: bool)
    ensures
        r == (highest_leaf is Some && eax <= highest_leaf->0),
{
    match highest_leaf {
        Some(h) => eax <= h,
        None => false,
    }
}

/// Whether the `ID` flag (bit 21) of RFLAGS could be toggled, given RFLAGS
/// before and after the attempt: if so, the CPU has the CPUID instruction.
pub fn has_cpuid(flags_before: u64, flags_after: u64) -> (r: bool)
    ensures
        r == ((flags_before ^ flags_after) & 0x20_0000u64 != 0),
{
    (flags_before ^ flags_after) & 0x20_0000u64 != 0
}

} // verus!
