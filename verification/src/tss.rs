//! The task state segment (TSS).
use vstd::prelude::*;

verus! {

/// A TSS pointer entry for x86_64: a 64-bit pointer stored as two 32-bit halves.
#[derive(Debug, Clone, Copy)]
pub struct TssPtr {
    /// The low 32 bits.
    pub low: u32,
    /// The high 32 bits.
    pub high: u32,
}

/// A task state segment (TSS) entry for x86_64.
#[derive(Debug, Clone, Copy)]
pub struct Tss {
    pub res0: u32,
    pub rsp0: TssPtr,
    pub rsp1: TssPtr,
    pub rsp2: TssPtr,
    pub res1: u32,
    pub res2: u32,
    pub ist1: TssPtr,
    pub ist2: TssPtr,
    pub ist3: TssPtr,
    pub ist4: TssPtr,
    pub ist5: TssPtr,
    pub ist6: TssPtr,
    pub ist7: TssPtr,
    pub res3: u32,
    pub res4: u32,
    pub res5: u16,
    pub iopb_offset: u16,
}

impl TssPtr {
    /// The 64-bit pointer the two halves hold.
    pub open spec fn value(self) -> u64 {
        ((self.high as u64) << 32u64) | (self.low as u64)
    }
}

impl From<u64> for TssPtr {
    fn from(value: u64) -> (r: Self) {
        TssPtr { low: value as u32, high: (value >> 32u64) as u32 }
    }
}

impl vstd::std_specs::convert::FromSpecImpl<u64> for TssPtr {
    open spec fn obeys_from_spec() -> bool {
        true
    }

    open spec fn from_spec(v: u64) -> TssPtr {
        TssPtr { low: v as u32, high: (v >> 32u64) as u32 }
    }
}

/// Splitting a pointer into TSS halves and joining them again gives the
/// pointer back.
pub proof fn law_tss_ptr_roundtrip(v: u64)
    by (bit_vector)
    ensures
        (((v >> 32u64) as u32 as u64) << 32u64) | (v as u32 as u64) == v,
{
}

} // verus!
