//! Implements the CPUID 01:0 lookup structure, _Processor Info and Feature Bits_.
use vstd::prelude::*;

use super::CpuidResult;

verus! {

/// Gets the `ebx` register values for the CPUID `eax=01, ecx=0` leaf.
#[derive(Debug, Clone, Copy)]
pub struct Ebx(u32);

impl View for Ebx {
    type V = u32;

    closed spec fn view(&self) -> u32 {
        self.0
    }
}

impl Ebx {
    /// Wraps the raw register value `bits`.
    pub fn new(bits: u32) -> (r: Self)
        ensures
            r@ == bits,
    {
        Ebx(bits)
    }

    /// The raw register value.
    pub fn bits(&self) -> (r: u32)
        ensures
            r == self@,
    {
        self.0
    }

    /// The local APIC ID. This **is not reliable** but may be useful
    /// for debugging purposes on a best-effort basis. For reliable APIC
    /// ID fetching, use APIC tables.
    pub fn local_apic_id(&self) -> (r: u8)
        ensures
            r == ((self@ >> 24u32) & 0xffu32) as u8,
    {
        ((self.0 >> 24u32) & 0xffu32) as u8
    }

    /// Returns a copy of the value with the `local_apic_id` field set to `value`
    /// (truncated to the field's width).
    pub fn with_local_apic_id(self, value: u8) -> (r: Self)
        ensures
            r@ == (self@ & !(0xffu32 << 24u32)) | (((value as u32) & 0xffu32) << 24u32),
    {
        Ebx((self.0 & !(0xffu32 << 24u32)) | (((value as u32) & 0xffu32) << 24u32))
    }
}

/// Processor Info and Feature Bits
#[derive(Debug)]
pub struct CpuidA01C0 {
    /// The `ebx` register of the cpuid call.
    pub ebx: Ebx,
}

impl CpuidA01C0 {
    /// Decodes the result of CPUID with `eax=01, ecx=0`, which provides processor information
    /// and feature bits.
    ///
    /// `result` is `None` when either CPUID or the leaf is not supported, and so is
    /// the decoded value.
    pub fn get(result: Option<CpuidResult>) -> (r: Option<Self>)
        ensures
            result is None ==> r is None,
            result is Some ==> {
                &&& r is Some
                &&& r->0.ebx@ == result->0.ebx
            },
    {
        match result {
            Some(c) => Some(CpuidA01C0 { ebx: Ebx::new(c.ebx) }),
            None => None,
        }
    }
}

} // verus!
