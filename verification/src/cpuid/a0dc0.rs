//! Implements the CPUID 0D:0 lookup structure, _XSAVE Features and State Components_.
use vstd::prelude::*;

use super::CpuidResult;

verus! {

/// 64-bit bitmap of state-components supported by `XCR0` on this CPU.
#[derive(Debug, Clone, Copy)]
pub struct ComponentBits(u64);

impl View for ComponentBits {
    type V = u64;

    closed spec fn view(&self) -> u64 {
        self.0
    }
}

impl ComponentBits {
    /// Wraps the raw register value `bits`.
    pub fn new(bits: u64) -> (r: Self)
        ensures
            r@ == bits,
    {
        ComponentBits(bits)
    }

    /// The raw register value.
    pub fn bits(&self) -> (r: u64)
        ensures
            r == self@,
    {
        self.0
    }

    /// x87 state; Enabled with: XCR0
    pub fn x87_state(&self) -> (r: bool)
        ensures
            r == (self@ & 0x1u64 != 0),
    {
        self.0 & 0x1u64 != 0
    }

    /// Returns a copy of the value with the `x87_state` field set to `value`.
    pub fn with_x87_state(self, value: bool) -> (r: Self)
        ensures
            r@ == (if value {
                self@ | 0x1u64
            } else {
                self@ & !0x1u64
            }),
    {
        if value {
            ComponentBits(self.0 | 0x1u64)
        } else {
            ComponentBits(self.0 & !0x1u64)
        }
    }

    /// SSE state: XMM0–XMM15 and MXCSR; Enabled with: XCR0
    pub fn sse_state(&self) -> (r: bool)
        ensures
            r == (self@ & 0x2u64 != 0),
    {
        self.0 & 0x2u64 != 0
    }

    /// Returns a copy of the value with the `sse_state` field set to `value`.
    pub fn with_sse_state(self, value: bool) -> (r: Self)
        ensures
            r@ == (if value {
                self@ | 0x2u64
            } else {
                self@ & !0x2u64
            }),
    {
        if value {
            ComponentBits(self.0 | 0x2u64)
        } else {
            ComponentBits(self.0 & !0x2u64)
        }
    }

    /// AVX state: top halves of YMM0–YMM15; Enabled with: XCR0
    pub fn avx_state(&self) -> (r: bool)
        ensures
            r == (self@ & 0x4u64 != 0),
    {
        self.0 & 0x4u64 != 0
    }

    /// Returns a copy of the value with the `avx_state` field set to `value`.
    pub fn with_avx_state(self, value: bool) -> (r: Self)
        ensures
            r@ == (if value {
                self@ | 0x4u64
            } else {
                self@ & !0x4u64
            }),
    {
        if value {
            ComponentBits(self.0 | 0x4u64)
        } else {
            ComponentBits(self.0 & !0x4u64)
        }
    }

    /// MPX state: BND0–BND3 bounds registers; Enabled with: XCR0
    pub fn mpx_bounds(&self) -> (r: bool)
        ensures
            r == (self@ & 0x8u64 != 0),
    {
        self.0 & 0x8u64 != 0
    }

    /// Returns a copy of the value with the `mpx_bounds` field set to `value`.
    pub fn with_mpx_bounds(self, value: bool) -> (r: Self)
        ensures
            r@ == (if value {
                self@ | 0x8u64
            } else {
                self@ & !0x8u64
            }),
    {
        if value {
            ComponentBits(self.0 | 0x8u64)
        } else {
            ComponentBits(self.0 & !0x8u64)
        }
    }

    /// MPX state: BNDCFGU and BNDSTATUS registers; Enabled with: XCR0
    pub fn mpx_regs(&self) -> (r: bool)
        ensures
            r == (self@ & 0x10u64 != 0),
    {
        self.0 & 0x10u64 != 0
    }

    /// Returns a copy of the value with the `mpx_regs` field set to `value`.
    pub fn with_mpx_regs(self, value: bool) -> (r: Self)
        ensures
            r@ == (if value {
                self@ | 0x10u64
            } else {
                self@ & !0x10u64
            }),
    {
        if value {
            ComponentBits(self.0 | 0x10u64)
        } else {
            ComponentBits(self.0 & !0x10u64)
        }
    }

    /// AVX-512 state: opmask registers k0–k7; Enabled with: XCR0
    pub fn avx512_opmask(&self) -> (r: bool)
        ensures
            r == (self@ & 0x20u64 != 0),
    {
        self.0 & 0x20u64 != 0
    }

    /// Returns a copy of the value with the `avx512_opmask` field set to `value`.
    pub fn with_avx512_opmask(self, value: bool) -> (r: Self)
        ensures
            r@ == (if value {
                self@ | 0x20u64
            } else {
                self@ & !0x20u64
            }),
    {
        if value {
            ComponentBits(self.0 | 0x20u64)
        } else {
            ComponentBits(self.0 & !0x20u64)
        }
    }

    /// AVX-512 "ZMM_Hi256" state: top halves of ZMM0–ZMM15; Enabled with: XCR0
    pub fn avx512_zmm_hi256(&self) -> (r: bool)
        ensures
            r == (self@ & 0x40u64 != 0),
    {
        self.0 & 0x40u64 != 0
    }

    /// Returns a copy of the value with the `avx512_zmm_hi256` field set to `value`.
    pub fn with_avx512_zmm_hi256(self, value: bool) -> (r: Self)
        ensures
            r@ == (if value {
                self@ | 0x40u64
            } else {
                self@ & !0x40u64
            }),
    {
        if value {
            ComponentBits(self.0 | 0x40u64)
        } else {
            ComponentBits(self.0 & !0x40u64)
        }
    }

    /// AVX-512 "Hi16_ZMM" state: ZMM16–ZMM31; Enabled with: XCR0
    pub fn avx512_hi16_zmm(&self) -> (r: bool)
        ensures
            r == (self@ & 0x80u64 != 0),
    {
        self.0 & 0x80u64 != 0
    }

    /// Returns a copy of the value with the `avx512_hi16_zmm` field set to `value`.
    pub fn with_avx512_hi16_zmm(self, value: bool) -> (r: Self)
        ensures
            r@ == (if value {
                self@ | 0x80u64
            } else {
                self@ & !0x80u64
            }),
    {
        if value {
            ComponentBits(self.0 | 0x80u64)
        } else {
            ComponentBits(self.0 & !0x80u64)
        }
    }

    /// Processor Trace state; Enabled with: IA32_XSS
    pub fn processor_trace_state(&self) -> (r: bool)
        ensures
            r == (self@ & 0x100u64 != 0),
    {
        self.0 & 0x100u64 != 0
    }

    /// Returns a copy of the value with the `processor_trace_state` field set to `value`.
    pub fn with_processor_trace_state(self, value: bool) -> (r: Self)
        ensures
            r@ == (if value {
                self@ | 0x100u64
            } else {
                self@ & !0x100u64
            }),
    {
        if value {
            ComponentBits(self.0 | 0x100u64)
        } else {
            ComponentBits(self.0 & !0x100u64)
        }
    }

    /// PKRU (User Protection Keys) register; Enabled with: XCR0
    pub fn pkru(&self) -> (r: bool)
        ensures
            r == (self@ & 0x200u64 != 0),
    {
        self.0 & 0x200u64 != 0
    }

    /// Returns a copy of the value with the `pkru` field set to `value`.
    pub fn with_pkru(self, value: bool) -> (r: Self)
        ensures
            r@ == (if value {
                self@ | 0x200u64
            } else {
                self@ & !0x200u64
            }),
    {
        if value {
            ComponentBits(self.0 | 0x200u64)
        } else {
            ComponentBits(self.0 & !0x200u64)
        }
    }

    /// PASID (Process Address Space ID) state; Enabled with: IA32_XSS
    pub fn pasid_state(&self) -> (r: bool)
        ensures
            r == (self@ & 0x400u64 != 0),
    {
        self.0 & 0x400u64 != 0
    }

    /// Returns a copy of the value with the `pasid_state` field set to `value`.
    pub fn with_pasid_state(self, value: bool) -> (r: Self)
        ensures
            r@ == (if value {
                self@ | 0x400u64
            } else {
                self@ & !0x400u64
            }),
    {
        if value {
            ComponentBits(self.0 | 0x400u64)
        } else {
            ComponentBits(self.0 & !0x400u64)
        }
    }

    /// CET_U state (Control-flow Enforcement Technology: user-mode functionality MSRs); Enabled with: IA32_XSS
    pub fn cet_u_state(&self) -> (r: bool)
        ensures
            r == (self@ & 0x800u64 != 0),
    {
        self.0 & 0x800u64 != 0
    }

    /// Returns a copy of the value with the `cet_u_state` field set to `value`.
    pub fn with_cet_u_state(self, value: bool) -> (r: Self)
        ensures
            r@ == (if value {
                self@ | 0x800u64
            } else {
                self@ & !0x800u64
            }),
    {
        if value {
            ComponentBits(self.0 | 0x800u64)
        } else {
            ComponentBits(self.0 & !0x800u64)
        }
    }

    /// CET_S state (CET: shadow stack pointers for rings 0,1,2); Enabled with: IA32_XSS
    pub fn cet_s_state(&self) -> (r: bool)
        ensures
            r == (self@ & 0x1000u64 != 0),
    {
        self.0 & 0x1000u64 != 0
    }

    /// Returns a copy of the value with the `cet_s_state` field set to `value`.
    pub fn with_cet_s_state(self, value: bool) -> (r: Self)
        ensures
            r@ == (if value {
                self@ | 0x1000u64
            } else {
                self@ & !0x1000u64
            }),
    {
        if value {
            ComponentBits(self.0 | 0x1000u64)
        } else {
            ComponentBits(self.0 & !0x1000u64)
        }
    }

    /// HDC (Hardware Duty Cycling) state; Enabled with: IA32_XSS
    pub fn hdc_state(&self) -> (r: bool)
        ensures
            r == (self@ & 0x2000u64 != 0),
    {
        self.0 & 0x2000u64 != 0
    }

    /// Returns a copy of the value with the `hdc_state` field set to `value`.
    pub fn with_hdc_state(self, value: bool) -> (r: Self)
        ensures
            r@ == (if value {
                self@ | 0x2000u64
            } else {
                self@ & !0x2000u64
            }),
    {
        if value {
            ComponentBits(self.0 | 0x2000u64)
        } else {
            ComponentBits(self.0 & !0x2000u64)
        }
    }

    /// UINTR (User-Mode Interrupts) state; Enabled with: IA32_XSS
    pub fn uintr_state(&self) -> (r: bool)
        ensures
            r == (self@ & 0x4000u64 != 0),
    {
        self.0 & 0x4000u64 != 0
    }

    /// Returns a copy of the value with the `uintr_state` field set to `value`.
    pub fn with_uintr_state(self, value: bool) -> (r: Self)
        ensures
            r@ == (if value {
                self@ | 0x4000u64
            } else {
                self@ & !0x4000u64
            }),
    {
        if value {
            ComponentBits(self.0 | 0x4000u64)
        } else {
            ComponentBits(self.0 & !0x4000u64)
        }
    }

    /// LBR (Last Branch Record) state; Enabled with: IA32_XSS
    pub fn lbr_state(&self) -> (r: bool)
        ensures
            r == (self@ & 0x8000u64 != 0),
    {
        self.0 & 0x8000u64 != 0
    }

    /// Returns a copy of the value with the `lbr_state` field set to `value`.
    pub fn with_lbr_state(self, value: bool) -> (r: Self)
        ensures
            r@ == (if value {
                self@ | 0x8000u64
            } else {
                self@ & !0x8000u64
            }),
    {
        if value {
            ComponentBits(self.0 | 0x8000u64)
        } else {
            ComponentBits(self.0 & !0x8000u64)
        }
    }

    /// HWP (Hardware P-state control) state; Enabled with: IA32_XSS
    pub fn hwp_state(&self) -> (r: bool)
        ensures
            r == (self@ & 0x10000u64 != 0),
    {
        self.0 & 0x10000u64 != 0
    }

    /// Returns a copy of the value with the `hwp_state` field set to `value`.
    pub fn with_hwp_state(self, value: bool) -> (r: Self)
        ensures
            r@ == (if value {
                self@ | 0x10000u64
            } else {
                self@ & !0x10000u64
            }),
    {
        if value {
            ComponentBits(self.0 | 0x10000u64)
        } else {
            ComponentBits(self.0 & !0x10000u64)
        }
    }

    /// AMX tile configuration state: TILECFG; Enabled with: XCR0
    pub fn amx_tilecfg(&self) -> (r: bool)
        ensures
            r == (self@ & 0x20000u64 != 0),
    {
        self.0 & 0x20000u64 != 0
    }

    /// Returns a copy of the value with the `amx_tilecfg` field set to `value`.
    pub fn with_amx_tilecfg(self, value: bool) -> (r: Self)
        ensures
            r@ == (if value {
                self@ | 0x20000u64
            } else {
                self@ & !0x20000u64
            }),
    {
        if value {
            ComponentBits(self.0 | 0x20000u64)
        } else {
            ComponentBits(self.0 & !0x20000u64)
        }
    }

    /// AMX tile data registers: tmm0–tmm7; Enabled with: XCR0
    pub fn amx_tile_data(&self) -> (r: bool)
        ensures
            r == (self@ & 0x40000u64 != 0),
    {
        self.0 & 0x40000u64 != 0
    }

    /// Returns a copy of the value with the `amx_tile_data` field set to `value`.
    pub fn with_amx_tile_data(self, value: bool) -> (r: Self)
        ensures
            r@ == (if value {
                self@ | 0x40000u64
            } else {
                self@ & !0x40000u64
            }),
    {
        if value {
            ComponentBits(self.0 | 0x40000u64)
        } else {
            ComponentBits(self.0 & !0x40000u64)
        }
    }

    /// APX extended general-purpose registers: r16–r31; Enabled with: XCR0
    pub fn apx_state(&self) -> (r: bool)
        ensures
            r == (self@ & 0x80000u64 != 0),
    {
        self.0 & 0x80000u64 != 0
    }

    /// Returns a copy of the value with the `apx_state` field set to `value`.
    pub fn with_apx_state(self, value: bool) -> (r: Self)
        ensures
            r@ == (if value {
                self@ | 0x80000u64
            } else {
                self@ & !0x80000u64
            }),
    {
        if value {
            ComponentBits(self.0 | 0x80000u64)
        } else {
            ComponentBits(self.0 & !0x80000u64)
        }
    }

    /// Lightweight Profiling (LWP) (AMD only); Enabled with: XCR0
    pub fn lwp_state(&self) -> (r: bool)
        ensures
            r == (self@ & 0x4000000000000000u64 != 0),
    {
        self.0 & 0x4000000000000000u64 != 0
    }

    /// Returns a copy of the value with the `lwp_state` field set to `value`.
    pub fn with_lwp_state(self, value: bool) -> (r: Self)
        ensures
            r@ == (if value {
                self@ | 0x4000000000000000u64
            } else {
                self@ & !0x4000000000000000u64
            }),
    {
        if value {
            ComponentBits(self.0 | 0x4000000000000000u64)
        } else {
            ComponentBits(self.0 & !0x4000000000000000u64)
        }
    }
}

/// XSAVE Features and State Components
#[derive(Debug)]
pub struct CpuidA0DC0 {
    /// Maximum size (in bytes) of the XSAVE save area for the enabled components.
    pub max_xsave_area: u32,
    /// Maximum size (in bytes) of the XSAVE save area for all supported components.
    pub max_xsave_area_all: u32,
    /// The supported state components.
    pub components: ComponentBits,
}

impl CpuidA0DC0 {
    /// Decodes the result of CPUID with `eax=0D, ecx=0`, which provides XSAVE features
    /// and state components.
    ///
    /// `result` is `None` when either CPUID or the leaf is not supported, and so is
    /// the decoded value. The component bits combine `edx` (high half) and `eax`
    /// (low half).
    pub fn get(result: Option<CpuidResult>) -> (r: Option<Self>)
        ensures
            result is None ==> r is None,
            result is Some ==> {
                &&& r is Some
                &&& r->0.max_xsave_area == result->0.ebx
                &&& r->0.max_xsave_area_all == result->0.ecx
                &&& r->0.components@ == ((result->0.edx as u64) << 32u64) | (result->0.eax as u64)
            },
    {
        match result {
            Some(c) => Some(CpuidA0DC0 {
                max_xsave_area: c.ebx,
                max_xsave_area_all: c.ecx,
                components: ComponentBits::new(((c.edx as u64) << 32u64) | (c.eax as u64)),
            }),
            None => None,
        }
    }
}

} // verus!
