//! Implements the CPUID 07:2 lookup structure, _Extended Features (`ecx=2`)_.
use vstd::prelude::*;

use super::CpuidResult;

verus! {

/// Gets the `edx` register values for the CPUID `eax=07, ecx=07` leaf.
#[derive(Debug, Clone, Copy)]
pub struct Edx(u32);

impl View for Edx {
    type V = u32;

    closed spec fn view(&self) -> u32 {
        self.0
    }
}

impl Edx {
    /// Wraps the raw register value `bits`.
    pub fn new(bits: u32) -> (r: Self)
        ensures
            r@ == bits,
    {
        Edx(bits)
    }

    /// The raw register value.
    pub fn bits(&self) -> (r: u32)
        ensures
            r == self@,
    {
        self.0
    }

    /// Fast Store Forwarding Predictor disable supported. (SPEC_CTRL (MSR 48h) bit 7)
    pub fn psfd(&self) -> (r: bool)
        ensures
            r == (self@ & 0x1u32 != 0),
    {
        self.0 & 0x1u32 != 0
    }

    /// Returns a copy of the value with the `psfd` field set to `value`.
    pub fn with_psfd(self, value: bool) -> (r: Self)
        ensures
            r@ == (if value {
                self@ | 0x1u32
            } else {
                self@ & !0x1u32
            }),
    {
        if value {
            Edx(self.0 | 0x1u32)
        } else {
            Edx(self.0 & !0x1u32)
        }
    }

    /// IPRED_DIS controls supported. (SPEC_CTRL bits 3 and 4)
    pub fn ipred_ctrl(&self) -> (r: bool)
        ensures
            r == (self@ & 0x2u32 != 0),
    {
        self.0 & 0x2u32 != 0
    }

    /// Returns a copy of the value with the `ipred_ctrl` field set to `value`.
    pub fn with_ipred_ctrl(self, value: bool) -> (r: Self)
        ensures
            r@ == (if value {
                self@ | 0x2u32
            } else {
                self@ & !0x2u32
            }),
    {
        if value {
            Edx(self.0 | 0x2u32)
        } else {
            Edx(self.0 & !0x2u32)
        }
    }

    /// RRSBA behavior disable supported. (SPEC_CTRL bits 5 and 6)
    pub fn rrsba_ctrl(&self) -> (r: bool)
        ensures
            r == (self@ & 0x4u32 != 0),
    {
        self.0 & 0x4u32 != 0
    }

    /// Returns a copy of the value with the `rrsba_ctrl` field set to `value`.
    pub fn with_rrsba_ctrl(self, value: bool) -> (r: Self)
        ensures
            r@ == (if value {
                self@ | 0x4u32
            } else {
                self@ & !0x4u32
            }),
    {
        if value {
            Edx(self.0 | 0x4u32)
        } else {
            Edx(self.0 & !0x4u32)
        }
    }

    /// Data Dependent Prefetcher disable supported. (SPEC_CTRL bit 8)
    pub fn ddpd_u(&self) -> (r: bool)
        ensures
            r == (self@ & 0x8u32 != 0),
    {
        self.0 & 0x8u32 != 0
    }

    /// Returns a copy of the value with the `ddpd_u` field set to `value`.
    pub fn with_ddpd_u(self, value: bool) -> (r: Self)
        ensures
            r@ == (if value {
                self@ | 0x8u32
            } else {
                self@ & !0x8u32
            }),
    {
        if value {
            Edx(self.0 | 0x8u32)
        } else {
            Edx(self.0 & !0x8u32)
        }
    }

    /// BHI_DIS_S behavior enable supported. (SPEC_CTRL bit 10)
    pub fn bhi_ctrl(&self) -> (r: bool)
        ensures
            r == (self@ & 0x10u32 != 0),
    {
        self.0 & 0x10u32 != 0
    }

    /// Returns a copy of the value with the `bhi_ctrl` field set to `value`.
    pub fn with_bhi_ctrl(self, value: bool) -> (r: Self)
        ensures
            r@ == (if value {
                self@ | 0x10u32
            } else {
                self@ & !0x10u32
            }),
    {
        if value {
            Edx(self.0 | 0x10u32)
        } else {
            Edx(self.0 & !0x10u32)
        }
    }

    /// If set, the processor does not exhibit MXCSR configuration dependent timing.
    pub fn mcdt_no(&self) -> (r: bool)
        ensures
            r == (self@ & 0x20u32 != 0),
    {
        self.0 & 0x20u32 != 0
    }

    /// Returns a copy of the value with the `mcdt_no` field set to `value`.
    pub fn with_mcdt_no(self, value: bool) -> (r: Self)
        ensures
            r@ == (if value {
                self@ | 0x20u32
            } else {
                self@ & !0x20u32
            }),
    {
        if value {
            Edx(self.0 | 0x20u32)
        } else {
            Edx(self.0 & !0x20u32)
        }
    }

    /// If set, indicates that the MONITOR/UMONITOR instructions are not affected by performance/power issues
    /// caused by exceeding the capacity of an internal monitor tracking table.
    pub fn monitor_mitg_no(&self) -> (r: bool)
        ensures
            r == (self@ & 0x80u32 != 0),
    {
        self.0 & 0x80u32 != 0
    }

    /// Returns a copy of the value with the `monitor_mitg_no` field set to `value`.
    pub fn with_monitor_mitg_no(self, value: bool) -> (r: Self)
        ensures
            r@ == (if value {
                self@ | 0x80u32
            } else {
                self@ & !0x80u32
            }),
    {
        if value {
            Edx(self.0 | 0x80u32)
        } else {
            Edx(self.0 & !0x80u32)
        }
    }
}

/// Extended Features (`ecx=2`)
#[derive(Debug)]
pub struct CpuidA07C2 {
    /// The `edx` register of the cpuid call.
    pub edx: Edx,
}

impl CpuidA07C2 {
    /// Decodes the result of CPUID with `eax=07, ecx=2`, which provides extended features.
    ///
    /// `result` is `None` when either CPUID or the leaf is not supported, and so is
    /// the decoded value.
    pub fn get(result: Option<CpuidResult>) -> (r: Option<Self>)
        ensures
            result is None ==> r is None,
            result is Some ==> {
                &&& r is Some
                &&& r->0.edx@ == result->0.edx
            },
    {
        match result {
            Some(c) => Some(CpuidA07C2 { edx: Edx::new(c.edx) }),
            None => None,
        }
    }
}

} // verus!
