//! Implements the CPUID 07:1 lookup structure, _Extended Features (`ecx=1`)_.
use vstd::prelude::*;

use super::CpuidResult;

verus! {

/// Gets the `eax` register values for the CPUID `eax=07, ecx=1` leaf.
#[derive(Debug, Clone, Copy)]
pub struct Eax(u32);

impl View for Eax {
    type V = u32;

    closed spec fn view(&self) -> u32 {
        self.0
    }
}

impl Eax {
    /// Wraps the raw register value `bits`.
    pub fn new(bits: u32) -> (r: Self)
        ensures
            r@ == bits,
    {
        Eax(bits)
    }

    /// The raw register value.
    pub fn bits(&self) -> (r: u32)
        ensures
            r == self@,
    {
        self.0
    }

    /// SHA-512 extensions
    pub fn sha512(&self) -> (r: bool)
        ensures
            r == (self@ & 0x1u32 != 0),
    {
        self.0 & 0x1u32 != 0
    }

    /// Returns a copy of the value with the `sha512` field set to `value`.
    pub fn with_sha512(self, value: bool) -> (r: Self)
        ensures
            r@ == (if value {
                self@ | 0x1u32
            } else {
                self@ & !0x1u32
            }),
    {
        if value {
            Eax(self.0 | 0x1u32)
        } else {
            Eax(self.0 & !0x1u32)
        }
    }

    /// SM3 hash extensions
    pub fn sm3(&self) -> (r: bool)
        ensures
            r == (self@ & 0x2u32 != 0),
    {
        self.0 & 0x2u32 != 0
    }

    /// Returns a copy of the value with the `sm3` field set to `value`.
    pub fn with_sm3(self, value: bool) -> (r: Self)
        ensures
            r@ == (if value {
                self@ | 0x2u32
            } else {
                self@ & !0x2u32
            }),
    {
        if value {
            Eax(self.0 | 0x2u32)
        } else {
            Eax(self.0 & !0x2u32)
        }
    }

    /// SM4 cipher extensions
    pub fn sm4(&self) -> (r: bool)
        ensures
            r == (self@ & 0x4u32 != 0),
    {
        self.0 & 0x4u32 != 0
    }

    /// Returns a copy of the value with the `sm4` field set to `value`.
    pub fn with_sm4(self, value: bool) -> (r: Self)
        ensures
            r@ == (if value {
                self@ | 0x4u32
            } else {
                self@ & !0x4u32
            }),
    {
        if value {
            Eax(self.0 | 0x4u32)
        } else {
            Eax(self.0 & !0x4u32)
        }
    }

    /// Remote Atomic Operations on integers: AADD, AAND, AOR, AXOR instructions
    pub fn rao_int(&self) -> (r: bool)
        ensures
            r == (self@ & 0x8u32 != 0),
    {
        self.0 & 0x8u32 != 0
    }

    /// Returns a copy of the value with the `rao_int` field set to `value`.
    pub fn with_rao_int(self, value: bool) -> (r: Self)
        ensures
            r@ == (if value {
                self@ | 0x8u32
            } else {
                self@ & !0x8u32
            }),
    {
        if value {
            Eax(self.0 | 0x8u32)
        } else {
            Eax(self.0 & !0x8u32)
        }
    }

    /// AVX Vector Neural Network Instructions (VNNI) (VEX encoded)
    pub fn avx_vnni(&self) -> (r: bool)
        ensures
            r == (self@ & 0x10u32 != 0),
    {
        self.0 & 0x10u32 != 0
    }

    /// Returns a copy of the value with the `avx_vnni` field set to `value`.
    pub fn with_avx_vnni(self, value: bool) -> (r: Self)
        ensures
            r@ == (if value {
                self@ | 0x10u32
            } else {
                self@ & !0x10u32
            }),
    {
        if value {
            Eax(self.0 | 0x10u32)
        } else {
            Eax(self.0 & !0x10u32)
        }
    }

    /// AVX-512 instructions for bfloat16 numbers
    pub fn avx512_bf16(&self) -> (r: bool)
        ensures
            r == (self@ & 0x20u32 != 0),
    {
        self.0 & 0x20u32 != 0
    }

    /// Returns a copy of the value with the `avx512_bf16` field set to `value`.
    pub fn with_avx512_bf16(self, value: bool) -> (r: Self)
        ensures
            r@ == (if value {
                self@ | 0x20u32
            } else {
                self@ & !0x20u32
            }),
    {
        if value {
            Eax(self.0 | 0x20u32)
        } else {
            Eax(self.0 & !0x20u32)
        }
    }

    /// Linear Address Space Separation (CR4 bit 27)
    pub fn lass(&self) -> (r: bool)
        ensures
            r == (self@ & 0x40u32 != 0),
    {
        self.0 & 0x40u32 != 0
    }

    /// Returns a copy of the value with the `lass` field set to `value`.
    pub fn with_lass(self, value: bool) -> (r: Self)
        ensures
            r@ == (if value {
                self@ | 0x40u32
            } else {
                self@ & !0x40u32
            }),
    {
        if value {
            Eax(self.0 | 0x40u32)
        } else {
            Eax(self.0 & !0x40u32)
        }
    }

    /// `CMPccXADD` instructions
    pub fn cmpccxadd(&self) -> (r: bool)
        ensures
            r == (self@ & 0x80u32 != 0),
    {
        self.0 & 0x80u32 != 0
    }

    /// Returns a copy of the value with the `cmpccxadd` field set to `value`.
    pub fn with_cmpccxadd(self, value: bool) -> (r: Self)
        ensures
            r@ == (if value {
                self@ | 0x80u32
            } else {
                self@ & !0x80u32
            }),
    {
        if value {
            Eax(self.0 | 0x80u32)
        } else {
            Eax(self.0 & !0x80u32)
        }
    }

    /// Architectural Performance Monitoring Extended Leaf (EAX=23h)
    pub fn archperf_monext(&self) -> (r: bool)
        ensures
            r == (self@ & 0x100u32 != 0),
    {
        self.0 & 0x100u32 != 0
    }

    /// Returns a copy of the value with the `archperf_monext` field set to `value`.
    pub fn with_archperf_monext(self, value: bool) -> (r: Self)
        ensures
            r@ == (if value {
                self@ | 0x100u32
            } else {
                self@ & !0x100u32
            }),
    {
        if value {
            Eax(self.0 | 0x100u32)
        } else {
            Eax(self.0 & !0x100u32)
        }
    }

    /// Fast zero-length REP MOVSB
    pub fn fzrm(&self) -> (r: bool)
        ensures
            r == (self@ & 0x400u32 != 0),
    {
        self.0 & 0x400u32 != 0
    }

    /// Returns a copy of the value with the `fzrm` field set to `value`.
    pub fn with_fzrm(self, value: bool) -> (r: Self)
        ensures
            r@ == (if value {
                self@ | 0x400u32
            } else {
                self@ & !0x400u32
            }),
    {
        if value {
            Eax(self.0 | 0x400u32)
        } else {
            Eax(self.0 & !0x400u32)
        }
    }

    /// Fast short REP STOSB
    pub fn fsrs(&self) -> (r: bool)
        ensures
            r == (self@ & 0x800u32 != 0),
    {
        self.0 & 0x800u32 != 0
    }

    /// Returns a copy of the value with the `fsrs` field set to `value`.
    pub fn with_fsrs(self, value: bool) -> (r: Self)
        ensures
            r@ == (if value {
                self@ | 0x800u32
            } else {
                self@ & !0x800u32
            }),
    {
        if value {
            Eax(self.0 | 0x800u32)
        } else {
            Eax(self.0 & !0x800u32)
        }
    }

    /// Fast short REP CMPSB and REP SCASB
    pub fn rsrcs(&self) -> (r: bool)
        ensures
            r == (self@ & 0x1000u32 != 0),
    {
        self.0 & 0x1000u32 != 0
    }

    /// Returns a copy of the value with the `rsrcs` field set to `value`.
    pub fn with_rsrcs(self, value: bool) -> (r: Self)
        ensures
            r@ == (if value {
                self@ | 0x1000u32
            } else {
                self@ & !0x1000u32
            }),
    {
        if value {
            Eax(self.0 | 0x1000u32)
        } else {
            Eax(self.0 & !0x1000u32)
        }
    }

    /// Flexible Return and Event Delivery
    pub fn fred(&self) -> (r: bool)
        ensures
            r == (self@ & 0x20000u32 != 0),
    {
        self.0 & 0x20000u32 != 0
    }

    /// Returns a copy of the value with the `fred` field set to `value`.
    pub fn with_fred(self, value: bool) -> (r: Self)
        ensures
            r@ == (if value {
                self@ | 0x20000u32
            } else {
                self@ & !0x20000u32
            }),
    {
        if value {
            Eax(self.0 | 0x20000u32)
        } else {
            Eax(self.0 & !0x20000u32)
        }
    }

    /// LKGS Instruction
    pub fn lkgs(&self) -> (r: bool)
        ensures
            r == (self@ & 0x40000u32 != 0),
    {
        self.0 & 0x40000u32 != 0
    }

    /// Returns a copy of the value with the `lkgs` field set to `value`.
    pub fn with_lkgs(self, value: bool) -> (r: Self)
        ensures
            r@ == (if value {
                self@ | 0x40000u32
            } else {
                self@ & !0x40000u32
            }),
    {
        if value {
            Eax(self.0 | 0x40000u32)
        } else {
            Eax(self.0 & !0x40000u32)
        }
    }

    /// WRMSRNS instruction (non-serializing write to MSRs)
    pub fn wrmsrns(&self) -> (r: bool)
        ensures
            r == (self@ & 0x80000u32 != 0),
    {
        self.0 & 0x80000u32 != 0
    }

    /// Returns a copy of the value with the `wrmsrns` field set to `value`.
    pub fn with_wrmsrns(self, value: bool) -> (r: Self)
        ensures
            r@ == (if value {
                self@ | 0x80000u32
            } else {
                self@ & !0x80000u32
            }),
    {
        if value {
            Eax(self.0 | 0x80000u32)
        } else {
            Eax(self.0 & !0x80000u32)
        }
    }

    /// NMI source reporting
    pub fn nmi_src(&self) -> (r: bool)
        ensures
            r == (self@ & 0x100000u32 != 0),
    {
        self.0 & 0x100000u32 != 0
    }

    /// Returns a copy of the value with the `nmi_src` field set to `value`.
    pub fn with_nmi_src(self, value: bool) -> (r: Self)
        ensures
            r@ == (if value {
                self@ | 0x100000u32
            } else {
                self@ & !0x100000u32
            }),
    {
        if value {
            Eax(self.0 | 0x100000u32)
        } else {
            Eax(self.0 & !0x100000u32)
        }
    }

    /// AMX instructions for FP16 numbers
    pub fn amx_fp16(&self) -> (r: bool)
        ensures
            r == (self@ & 0x200000u32 != 0),
    {
        self.0 & 0x200000u32 != 0
    }

    /// Returns a copy of the value with the `amx_fp16` field set to `value`.
    pub fn with_amx_fp16(self, value: bool) -> (r: Self)
        ensures
            r@ == (if value {
                self@ | 0x200000u32
            } else {
                self@ & !0x200000u32
            }),
    {
        if value {
            Eax(self.0 | 0x200000u32)
        } else {
            Eax(self.0 & !0x200000u32)
        }
    }

    /// HRESET instruction, `IA32_HRESET_ENABLE` (17DAh) MSR, and Processor History Reset Leaf (EAX=20h)
    pub fn hreset(&self) -> (r: bool)
        ensures
            r == (self@ & 0x400000u32 != 0),
    {
        self.0 & 0x400000u32 != 0
    }

    /// Returns a copy of the value with the `hreset` field set to `value`.
    pub fn with_hreset(self, value: bool) -> (r: Self)
        ensures
            r@ == (if value {
                self@ | 0x400000u32
            } else {
                self@ & !0x400000u32
            }),
    {
        if value {
            Eax(self.0 | 0x400000u32)
        } else {
            Eax(self.0 & !0x400000u32)
        }
    }

    /// AVX IFMA instructions
    pub fn avx_ifma(&self) -> (r: bool)
        ensures
            r == (self@ & 0x800000u32 != 0),
    {
        self.0 & 0x800000u32 != 0
    }

    /// Returns a copy of the value with the `avx_ifma` field set to `value`.
    pub fn with_avx_ifma(self, value: bool) -> (r: Self)
        ensures
            r@ == (if value {
                self@ | 0x800000u32
            } else {
                self@ & !0x800000u32
            }),
    {
        if value {
            Eax(self.0 | 0x800000u32)
        } else {
            Eax(self.0 & !0x800000u32)
        }
    }

    /// Linear Address Masking
    pub fn lam(&self) -> (r: bool)
        ensures
            r == (self@ & 0x4000000u32 != 0),
    {
        self.0 & 0x4000000u32 != 0
    }

    /// Returns a copy of the value with the `lam` field set to `value`.
    pub fn with_lam(self, value: bool) -> (r: Self)
        ensures
            r@ == (if value {
                self@ | 0x4000000u32
            } else {
                self@ & !0x4000000u32
            }),
    {
        if value {
            Eax(self.0 | 0x4000000u32)
        } else {
            Eax(self.0 & !0x4000000u32)
        }
    }

    /// RDMSRLIST and WRMSRLIST instructions, and the `IA32_BARRIER` (02Fh) MSR
    pub fn msrlist(&self) -> (r: bool)
        ensures
            r == (self@ & 0x8000000u32 != 0),
    {
        self.0 & 0x8000000u32 != 0
    }

    /// Returns a copy of the value with the `msrlist` field set to `value`.
    pub fn with_msrlist(self, value: bool) -> (r: Self)
        ensures
            r@ == (if value {
                self@ | 0x8000000u32
            } else {
                self@ & !0x8000000u32
            }),
    {
        if value {
            Eax(self.0 | 0x8000000u32)
        } else {
            Eax(self.0 & !0x8000000u32)
        }
    }

    /// If 1, supports INVD instruction execution prevention after BIOS Done.
    pub fn invd_disable_post_bios_done(&self) -> (r: bool)
        ensures
            r == (self@ & 0x40000000u32 != 0),
    {
        self.0 & 0x40000000u32 != 0
    }

    /// Returns a copy of the value with the `invd_disable_post_bios_done` field set to `value`.
    pub fn with_invd_disable_post_bios_done(self, value: bool) -> (r: Self)
        ensures
            r@ == (if value {
                self@ | 0x40000000u32
            } else {
                self@ & !0x40000000u32
            }),
    {
        if value {
            Eax(self.0 | 0x40000000u32)
        } else {
            Eax(self.0 & !0x40000000u32)
        }
    }

    /// MOVRS and PREFETCHRST2 instructions supported (memory read/prefetch with read-shared hint)
    pub fn movrs(&self) -> (r: bool)
        ensures
            r == (self@ & 0x80000000u32 != 0),
    {
        self.0 & 0x80000000u32 != 0
    }

    /// Returns a copy of the value with the `movrs` field set to `value`.
    pub fn with_movrs(self, value: bool) -> (r: Self)
        ensures
            r@ == (if value {
                self@ | 0x80000000u32
            } else {
                self@ & !0x80000000u32
            }),
    {
        if value {
            Eax(self.0 | 0x80000000u32)
        } else {
            Eax(self.0 & !0x80000000u32)
        }
    }
}

/// Gets the `ebx` register values for the CPUID `eax=07, ecx=1` leaf.
#[derive(Debug, Clone, Copy)]
pub struct Ebx(u32);

impl View for Ebx {
    type V = u32;

    closed spec fn view(&self) -> u32 {
        self.0
    }
}

impl Ebx {
    /// Wraps the raw register value `bits`.
    pub fn new(bits: u32) -> (r: Self)
        ensures
            r@ == bits,
    {
        Ebx(bits)
    }

    /// The raw register value.
    pub fn bits(&self) -> (r: u32)
        ensures
            r == self@,
    {
        self.0
    }

    /// Total Storage Encryption: PBNDKB instruction and `TSE_CAPABILITY` (9F1h) MSR.
    pub fn pbndkb(&self) -> (r: bool)
        ensures
            r == (self@ & 0x2u32 != 0),
    {
        self.0 & 0x2u32 != 0
    }

    /// Returns a copy of the value with the `pbndkb` field set to `value`.
    pub fn with_pbndkb(self, value: bool) -> (r: Self)
        ensures
            r@ == (if value {
                self@ | 0x2u32
            } else {
                self@ & !0x2u32
            }),
    {
        if value {
            Ebx(self.0 | 0x2u32)
        } else {
            Ebx(self.0 & !0x2u32)
        }
    }

    /// If 1, then bit 22 of `IA32_MISC_ENABLE` cannot be set to 1 to limit the value returned by `CPUID.(EAX=0):EAX[7:0]`.
    pub fn cpuid_maxval_lim_rmv(&self) -> (r: bool)
        ensures
            r == (self@ & 0x8u32 != 0),
    {
        self.0 & 0x8u32 != 0
    }

    /// Returns a copy of the value with the `cpuid_maxval_lim_rmv` field set to `value`.
    pub fn with_cpuid_maxval_lim_rmv(self, value: bool) -> (r: Self)
        ensures
            r@ == (if value {
                self@ | 0x8u32
            } else {
                self@ & !0x8u32
            }),
    {
        if value {
            Ebx(self.0 | 0x8u32)
        } else {
            Ebx(self.0 & !0x8u32)
        }
    }
}

/// Gets the `ecx` register values for the CPUID `eax=07, ecx=1` leaf.
#[derive(Debug, Clone, Copy)]
pub struct Ecx(u32);

impl View for Ecx {
    type V = u32;

    closed spec fn view(&self) -> u32 {
        self.0
    }
}

impl Ecx {
    /// Wraps the raw register value `bits`.
    pub fn new(bits: u32) -> (r: Self)
        ensures
            r@ == bits,
    {
        Ecx(bits)
    }

    /// The raw register value.
    pub fn bits(&self) -> (r: u32)
        ensures
            r == self@,
    {
        self.0
    }

    /// X86S, cancelled
    pub fn legacy_reduced_isa(&self) -> (r: bool)
        ensures
            r == (self@ & 0x4u32 != 0),
    {
        self.0 & 0x4u32 != 0
    }

    /// Returns a copy of the value with the `legacy_reduced_isa` field set to `value`.
    pub fn with_legacy_reduced_isa(self, value: bool) -> (r: Self)
        ensures
            r@ == (if value {
                self@ | 0x4u32
            } else {
                self@ & !0x4u32
            }),
    {
        if value {
            Ecx(self.0 | 0x4u32)
        } else {
            Ecx(self.0 & !0x4u32)
        }
    }

    /// 64-bit SIPI (Startup InterProcessor Interrupt) (part of cancelled X86S)
    pub fn sipi64(&self) -> (r: bool)
        ensures
            r == (self@ & 0x10u32 != 0),
    {
        self.0 & 0x10u32 != 0
    }

    /// Returns a copy of the value with the `sipi64` field set to `value`.
    pub fn with_sipi64(self, value: bool) -> (r: Self)
        ensures
            r@ == (if value {
                self@ | 0x10u32
            } else {
                self@ & !0x10u32
            }),
    {
        if value {
            Ecx(self.0 | 0x10u32)
        } else {
            Ecx(self.0 & !0x10u32)
        }
    }

    /// Immediate forms of the RDMSR and WRMSRNS instructions
    pub fn msr_imm(&self) -> (r: bool)
        ensures
            r == (self@ & 0x20u32 != 0),
    {
        self.0 & 0x20u32 != 0
    }

    /// Returns a copy of the value with the `msr_imm` field set to `value`.
    pub fn with_msr_imm(self, value: bool) -> (r: Self)
        ensures
            r@ == (if value {
                self@ | 0x20u32
            } else {
                self@ & !0x20u32
            }),
    {
        if value {
            Ecx(self.0 | 0x20u32)
        } else {
            Ecx(self.0 & !0x20u32)
        }
    }
}

/// Gets the `edx` register values for the CPUID `eax=07, ecx=1` leaf.
#[derive(Debug, Clone, Copy)]
pub struct Edx(u32);

impl View for Edx {
    type V = u32;

    closed spec fn view(&self) -> u32 {
        self.0
    }
}

impl Edx {
    /// Wraps the raw register value `bits`.
    pub fn new(bits: u32) -> (r: Self)
        ensures
            r@ == bits,
    {
        Edx(bits)
    }

    /// The raw register value.
    pub fn bits(&self) -> (r: u32)
        ensures
            r == self@,
    {
        self.0
    }

    /// AVX VNNI INT8 instructions
    pub fn avx_vnni_int8(&self) -> (r: bool)
        ensures
            r == (self@ & 0x10u32 != 0),
    {
        self.0 & 0x10u32 != 0
    }

    /// Returns a copy of the value with the `avx_vnni_int8` field set to `value`.
    pub fn with_avx_vnni_int8(self, value: bool) -> (r: Self)
        ensures
            r@ == (if value {
                self@ | 0x10u32
            } else {
                self@ & !0x10u32
            }),
    {
        if value {
            Edx(self.0 | 0x10u32)
        } else {
            Edx(self.0 & !0x10u32)
        }
    }

    /// AVX no-exception FP conversion instructions (bfloat16↔FP32 and FP16→FP32)
    pub fn avx_ne_convert(&self) -> (r: bool)
        ensures
            r == (self@ & 0x20u32 != 0),
    {
        self.0 & 0x20u32 != 0
    }

    /// Returns a copy of the value with the `avx_ne_convert` field set to `value`.
    pub fn with_avx_ne_convert(self, value: bool) -> (r: Self)
        ensures
            r@ == (if value {
                self@ | 0x20u32
            } else {
                self@ & !0x20u32
            }),
    {
        if value {
            Edx(self.0 | 0x20u32)
        } else {
            Edx(self.0 & !0x20u32)
        }
    }

    /// AMX support for "complex" tiles (`TCMMIMFP16PS` and `TCMMRLFP16PS`)
    pub fn amx_complex(&self) -> (r: bool)
        ensures
            r == (self@ & 0x100u32 != 0),
    {
        self.0 & 0x100u32 != 0
    }

    /// Returns a copy of the value with the `amx_complex` field set to `value`.
    pub fn with_amx_complex(self, value: bool) -> (r: Self)
        ensures
            r@ == (if value {
                self@ | 0x100u32
            } else {
                self@ & !0x100u32
            }),
    {
        if value {
            Edx(self.0 | 0x100u32)
        } else {
            Edx(self.0 & !0x100u32)
        }
    }

    /// AVX VNNI INT16 instructions
    pub fn avx_vnni_int16(&self) -> (r: bool)
        ensures
            r == (self@ & 0x400u32 != 0),
    {
        self.0 & 0x400u32 != 0
    }

    /// Returns a copy of the value with the `avx_vnni_int16` field set to `value`.
    pub fn with_avx_vnni_int16(self, value: bool) -> (r: Self)
        ensures
            r@ == (if value {
                self@ | 0x400u32
            } else {
                self@ & !0x400u32
            }),
    {
        if value {
            Edx(self.0 | 0x400u32)
        } else {
            Edx(self.0 & !0x400u32)
        }
    }

    /// User-timer events: `IA32_UINTR_TIMER` (1B00h) MSR
    pub fn utmr(&self) -> (r: bool)
        ensures
            r == (self@ & 0x2000u32 != 0),
    {
        self.0 & 0x2000u32 != 0
    }

    /// Returns a copy of the value with the `utmr` field set to `value`.
    pub fn with_utmr(self, value: bool) -> (r: Self)
        ensures
            r@ == (if value {
                self@ | 0x2000u32
            } else {
                self@ & !0x2000u32
            }),
    {
        if value {
            Edx(self.0 | 0x2000u32)
        } else {
            Edx(self.0 & !0x2000u32)
        }
    }

    /// Instruction-cache prefetch instructions (`PREFETCHIT0` and `PREFETCHIT1`)
    pub fn prefetchi(&self) -> (r: bool)
        ensures
            r == (self@ & 0x4000u32 != 0),
    {
        self.0 & 0x4000u32 != 0
    }

    /// Returns a copy of the value with the `prefetchi` field set to `value`.
    pub fn with_prefetchi(self, value: bool) -> (r: Self)
        ensures
            r@ == (if value {
                self@ | 0x4000u32
            } else {
                self@ & !0x4000u32
            }),
    {
        if value {
            Edx(self.0 | 0x4000u32)
        } else {
            Edx(self.0 & !0x4000u32)
        }
    }

    /// User-mode MSR access instructions (`URDMSR` and `UWRMSR`)
    pub fn user_msr(&self) -> (r: bool)
        ensures
            r == (self@ & 0x8000u32 != 0),
    {
        self.0 & 0x8000u32 != 0
    }

    /// Returns a copy of the value with the `user_msr` field set to `value`.
    pub fn with_user_msr(self, value: bool) -> (r: Self)
        ensures
            r@ == (if value {
                self@ | 0x8000u32
            } else {
                self@ & !0x8000u32
            }),
    {
        if value {
            Edx(self.0 | 0x8000u32)
        } else {
            Edx(self.0 & !0x8000u32)
        }
    }

    /// UIRET (User Interrupt Return) sets UIF from bit 1 of RFLAGS
    pub fn uiret_uif_from_rflags(&self) -> (r: bool)
        ensures
            r == (self@ & 0x20000u32 != 0),
    {
        self.0 & 0x20000u32 != 0
    }

    /// Returns a copy of the value with the `uiret_uif_from_rflags` field set to `value`.
    pub fn with_uiret_uif_from_rflags(self, value: bool) -> (r: Self)
        ensures
            r@ == (if value {
                self@ | 0x20000u32
            } else {
                self@ & !0x20000u32
            }),
    {
        if value {
            Edx(self.0 | 0x20000u32)
        } else {
            Edx(self.0 & !0x20000u32)
        }
    }

    /// If 1, then CET Supervisor Shadow Stacks (SSS) are not prematurely busy
    pub fn cet_sss(&self) -> (r: bool)
        ensures
            r == (self@ & 0x40000u32 != 0),
    {
        self.0 & 0x40000u32 != 0
    }

    /// Returns a copy of the value with the `cet_sss` field set to `value`.
    pub fn with_cet_sss(self, value: bool) -> (r: Self)
        ensures
            r@ == (if value {
                self@ | 0x40000u32
            } else {
                self@ & !0x40000u32
            }),
    {
        if value {
            Edx(self.0 | 0x40000u32)
        } else {
            Edx(self.0 & !0x40000u32)
        }
    }

    /// AVX10 Converged Vector ISA (see also leaf 24h)
    pub fn avx10(&self) -> (r: bool)
        ensures
            r == (self@ & 0x80000u32 != 0),
    {
        self.0 & 0x80000u32 != 0
    }

    /// Returns a copy of the value with the `avx10` field set to `value`.
    pub fn with_avx10(self, value: bool) -> (r: Self)
        ensures
            r@ == (if value {
                self@ | 0x80000u32
            } else {
                self@ & !0x80000u32
            }),
    {
        if value {
            Edx(self.0 | 0x80000u32)
        } else {
            Edx(self.0 & !0x80000u32)
        }
    }

    /// Advanced Performance Extensions, Foundation (adds REX2 and extended EVEX prefix encodings to support 32 GPRs, as well as some new instructions)
    pub fn apx_f(&self) -> (r: bool)
        ensures
            r == (self@ & 0x200000u32 != 0),
    {
        self.0 & 0x200000u32 != 0
    }

    /// Returns a copy of the value with the `apx_f` field set to `value`.
    pub fn with_apx_f(self, value: bool) -> (r: Self)
        ensures
            r@ == (if value {
                self@ | 0x200000u32
            } else {
                self@ & !0x200000u32
            }),
    {
        if value {
            Edx(self.0 | 0x200000u32)
        } else {
            Edx(self.0 & !0x200000u32)
        }
    }

    /// MWAIT instruction
    pub fn mwait(&self) -> (r: bool)
        ensures
            r == (self@ & 0x800000u32 != 0),
    {
        self.0 & 0x800000u32 != 0
    }

    /// Returns a copy of the value with the `mwait` field set to `value`.
    pub fn with_mwait(self, value: bool) -> (r: Self)
        ensures
            r@ == (if value {
                self@ | 0x800000u32
            } else {
                self@ & !0x800000u32
            }),
    {
        if value {
            Edx(self.0 | 0x800000u32)
        } else {
            Edx(self.0 & !0x800000u32)
        }
    }
}

/// Extended Features (`ecx=1`)
#[derive(Debug)]
pub struct CpuidA07C1 {
    /// The `eax` register of the cpuid call.
    pub eax: Eax,
    /// The `ebx` register of the cpuid call.
    pub ebx: Ebx,
    /// The `ecx` register of the cpuid call.
    pub ecx: Ecx,
    /// The `edx` register of the cpuid call.
    pub edx: Edx,
}

impl CpuidA07C1 {
    /// Decodes the result of CPUID with `eax=07, ecx=1`, which provides extended features.
    ///
    /// `result` is `None` when either CPUID or the leaf is not supported, and so is
    /// the decoded value.
    pub fn get(result: Option<CpuidResult>) -> (r: Option<Self>)
        ensures
            result is None ==> r is None,
            result is Some ==> {
                &&& r is Some
                &&& r->0.eax@ == result->0.eax
                &&& r->0.ebx@ == result->0.ebx
                &&& r->0.ecx@ == result->0.ecx
                &&& r->0.edx@ == result->0.edx
            },
    {
        match result {
            Some(c) => Some(CpuidA07C1 { eax: Eax::new(c.eax), ebx: Ebx::new(c.ebx), ecx: Ecx::new(c.ecx), edx: Edx::new(c.edx) }),
            None => None,
        }
    }
}

} // verus!
