//! Implements the CPUID 07:0 lookup structure, _Extended Features (`ecx=0`)_.
use vstd::prelude::*;

use super::CpuidResult;

verus! {

/// Gets the `ebx` register values for the CPUID `eax=07, ecx=0` leaf.
#[derive(Debug, Clone, Copy)]
pub struct Ebx(u32);

impl View for Ebx {
    type V = u32;

    closed spec fn view(&self) -> u32 {
        self.0
    }
}

impl Ebx {
    /// Wraps the raw register value `bits`.
    pub fn new(bits: u32) -> (r: Self)
        ensures
            r@ == bits,
    {
        Ebx(bits)
    }

    /// The raw register value.
    pub fn bits(&self) -> (r: u32)
        ensures
            r == self@,
    {
        self.0
    }

    /// Whether or not FSGSBASE instructions are supported.
    pub fn fsgsbase(&self) -> (r: bool)
        ensures
            r == (self@ & 0x1u32 != 0),
    {
        self.0 & 0x1u32 != 0
    }

    /// Returns a copy of the value with the `fsgsbase` field set to `value`.
    pub fn with_fsgsbase(self, value: bool) -> (r: Self)
        ensures
            r@ == (if value {
                self@ | 0x1u32
            } else {
                self@ & !0x1u32
            }),
    {
        if value {
            Ebx(self.0 | 0x1u32)
        } else {
            Ebx(self.0 & !0x1u32)
        }
    }

    /// Software Guard Extensions
    pub fn sgx(&self) -> (r: bool)
        ensures
            r == (self@ & 0x4u32 != 0),
    {
        self.0 & 0x4u32 != 0
    }

    /// Returns a copy of the value with the `sgx` field set to `value`.
    pub fn with_sgx(self, value: bool) -> (r: Self)
        ensures
            r@ == (if value {
                self@ | 0x4u32
            } else {
                self@ & !0x4u32
            }),
    {
        if value {
            Ebx(self.0 | 0x4u32)
        } else {
            Ebx(self.0 & !0x4u32)
        }
    }

    /// Bit Manipulation Instruction Set 1
    pub fn bmi1(&self) -> (r: bool)
        ensures
            r == (self@ & 0x8u32 != 0),
    {
        self.0 & 0x8u32 != 0
    }

    /// Returns a copy of the value with the `bmi1` field set to `value`.
    pub fn with_bmi1(self, value: bool) -> (r: Self)
        ensures
            r@ == (if value {
                self@ | 0x8u32
            } else {
                self@ & !0x8u32
            }),
    {
        if value {
            Ebx(self.0 | 0x8u32)
        } else {
            Ebx(self.0 & !0x8u32)
        }
    }

    /// TSX Hardware Lock Elision
    pub fn hle(&self) -> (r: bool)
        ensures
            r == (self@ & 0x10u32 != 0),
    {
        self.0 & 0x10u32 != 0
    }

    /// Returns a copy of the value with the `hle` field set to `value`.
    pub fn with_hle(self, value: bool) -> (r: Self)
        ensures
            r@ == (if value {
                self@ | 0x10u32
            } else {
                self@ & !0x10u32
            }),
    {
        if value {
            Ebx(self.0 | 0x10u32)
        } else {
            Ebx(self.0 & !0x10u32)
        }
    }

    /// Advanced Vector Extensions 2
    pub fn avx2(&self) -> (r: bool)
        ensures
            r == (self@ & 0x20u32 != 0),
    {
        self.0 & 0x20u32 != 0
    }

    /// Returns a copy of the value with the `avx2` field set to `value`.
    pub fn with_avx2(self, value: bool) -> (r: Self)
        ensures
            r@ == (if value {
                self@ | 0x20u32
            } else {
                self@ & !0x20u32
            }),
    {
        if value {
            Ebx(self.0 | 0x20u32)
        } else {
            Ebx(self.0 & !0x20u32)
        }
    }

    /// x87 FPU data pointer register updated on exceptions only
    pub fn fdb_excptn_only(&self) -> (r: bool)
        ensures
            r == (self@ & 0x40u32 != 0),
    {
        self.0 & 0x40u32 != 0
    }

    /// Returns a copy of the value with the `fdb_excptn_only` field set to `value`.
    pub fn with_fdb_excptn_only(self, value: bool) -> (r: Self)
        ensures
            r@ == (if value {
                self@ | 0x40u32
            } else {
                self@ & !0x40u32
            }),
    {
        if value {
            Ebx(self.0 | 0x40u32)
        } else {
            Ebx(self.0 & !0x40u32)
        }
    }

    /// Supervisor Mode Execution Prevention
    pub fn smep(&self) -> (r: bool)
        ensures
            r == (self@ & 0x80u32 != 0),
    {
        self.0 & 0x80u32 != 0
    }

    /// Returns a copy of the value with the `smep` field set to `value`.
    pub fn with_smep(self, value: bool) -> (r: Self)
        ensures
            r@ == (if value {
                self@ | 0x80u32
            } else {
                self@ & !0x80u32
            }),
    {
        if value {
            Ebx(self.0 | 0x80u32)
        } else {
            Ebx(self.0 & !0x80u32)
        }
    }

    /// Bit Manipulation Instruction Set 2
    pub fn bmi2(&self) -> (r: bool)
        ensures
            r == (self@ & 0x100u32 != 0),
    {
        self.0 & 0x100u32 != 0
    }

    /// Returns a copy of the value with the `bmi2` field set to `value`.
    pub fn with_bmi2(self, value: bool) -> (r: Self)
        ensures
            r@ == (if value {
                self@ | 0x100u32
            } else {
                self@ & !0x100u32
            }),
    {
        if value {
            Ebx(self.0 | 0x100u32)
        } else {
            Ebx(self.0 & !0x100u32)
        }
    }

    /// Enhanced `REP MOVSB` / `STOSB`
    pub fn erms(&self) -> (r: bool)
        ensures
            r == (self@ & 0x200u32 != 0),
    {
        self.0 & 0x200u32 != 0
    }

    /// Returns a copy of the value with the `erms` field set to `value`.
    pub fn with_erms(self, value: bool) -> (r: Self)
        ensures
            r@ == (if value {
                self@ | 0x200u32
            } else {
                self@ & !0x200u32
            }),
    {
        if value {
            Ebx(self.0 | 0x200u32)
        } else {
            Ebx(self.0 & !0x200u32)
        }
    }

    /// `INVPCID` instruction
    pub fn invpcid(&self) -> (r: bool)
        ensures
            r == (self@ & 0x400u32 != 0),
    {
        self.0 & 0x400u32 != 0
    }

    /// Returns a copy of the value with the `invpcid` field set to `value`.
    pub fn with_invpcid(self, value: bool) -> (r: Self)
        ensures
            r@ == (if value {
                self@ | 0x400u32
            } else {
                self@ & !0x400u32
            }),
    {
        if value {
            Ebx(self.0 | 0x400u32)
        } else {
            Ebx(self.0 & !0x400u32)
        }
    }

    /// TSX Restricted Transactional Memory
    pub fn rtm(&self) -> (r: bool)
        ensures
            r == (self@ & 0x800u32 != 0),
    {
        self.0 & 0x800u32 != 0
    }

    /// Returns a copy of the value with the `rtm` field set to `value`.
    pub fn with_rtm(self, value: bool) -> (r: Self)
        ensures
            r@ == (if value {
                self@ | 0x800u32
            } else {
                self@ & !0x800u32
            }),
    {
        if value {
            Ebx(self.0 | 0x800u32)
        } else {
            Ebx(self.0 & !0x800u32)
        }
    }

    /// Intel Resource Director (RDT) Monitoring or AMD Platform QOS Monitoring
    pub fn rdt_m_pqm(&self) -> (r: bool)
        ensures
            r == (self@ & 0x1000u32 != 0),
    {
        self.0 & 0x1000u32 != 0
    }

    /// Returns a copy of the value with the `rdt_m_pqm` field set to `value`.
    pub fn with_rdt_m_pqm(self, value: bool) -> (r: Self)
        ensures
            r@ == (if value {
                self@ | 0x1000u32
            } else {
                self@ & !0x1000u32
            }),
    {
        if value {
            Ebx(self.0 | 0x1000u32)
        } else {
            Ebx(self.0 & !0x1000u32)
        }
    }

    /// Intel MPX (Memory Protection Extensions)
    pub fn mpx(&self) -> (r: bool)
        ensures
            r == (self@ & 0x4000u32 != 0),
    {
        self.0 & 0x4000u32 != 0
    }

    /// Returns a copy of the value with the `mpx` field set to `value`.
    pub fn with_mpx(self, value: bool) -> (r: Self)
        ensures
            r@ == (if value {
                self@ | 0x4000u32
            } else {
                self@ & !0x4000u32
            }),
    {
        if value {
            Ebx(self.0 | 0x4000u32)
        } else {
            Ebx(self.0 & !0x4000u32)
        }
    }

    /// Intel Resource Director (RDT) Allocation or AMD Platform QOS Enforcement
    pub fn rdt_a_pqe(&self) -> (r: bool)
        ensures
            r == (self@ & 0x8000u32 != 0),
    {
        self.0 & 0x8000u32 != 0
    }

    /// Returns a copy of the value with the `rdt_a_pqe` field set to `value`.
    pub fn with_rdt_a_pqe(self, value: bool) -> (r: Self)
        ensures
            r@ == (if value {
                self@ | 0x8000u32
            } else {
                self@ & !0x8000u32
            }),
    {
        if value {
            Ebx(self.0 | 0x8000u32)
        } else {
            Ebx(self.0 & !0x8000u32)
        }
    }

    /// AVX-512 Foundation
    pub fn avx512_f(&self) -> (r: bool)
        ensures
            r == (self@ & 0x10000u32 != 0),
    {
        self.0 & 0x10000u32 != 0
    }

    /// Returns a copy of the value with the `avx512_f` field set to `value`.
    pub fn with_avx512_f(self, value: bool) -> (r: Self)
        ensures
            r@ == (if value {
                self@ | 0x10000u32
            } else {
                self@ & !0x10000u32
            }),
    {
        if value {
            Ebx(self.0 | 0x10000u32)
        } else {
            Ebx(self.0 & !0x10000u32)
        }
    }

    /// AVX-512 Doubleword and Quadword Instructions
    pub fn avx512_dq(&self) -> (r: bool)
        ensures
            r == (self@ & 0x20000u32 != 0),
    {
        self.0 & 0x20000u32 != 0
    }

    /// Returns a copy of the value with the `avx512_dq` field set to `value`.
    pub fn with_avx512_dq(self, value: bool) -> (r: Self)
        ensures
            r@ == (if value {
                self@ | 0x20000u32
            } else {
                self@ & !0x20000u32
            }),
    {
        if value {
            Ebx(self.0 | 0x20000u32)
        } else {
            Ebx(self.0 & !0x20000u32)
        }
    }

    /// `RDSEED` instruction
    pub fn rdseed(&self) -> (r: bool)
        ensures
            r == (self@ & 0x40000u32 != 0),
    {
        self.0 & 0x40000u32 != 0
    }

    /// Returns a copy of the value with the `rdseed` field set to `value`.
    pub fn with_rdseed(self, value: bool) -> (r: Self)
        ensures
            r@ == (if value {
                self@ | 0x40000u32
            } else {
                self@ & !0x40000u32
            }),
    {
        if value {
            Ebx(self.0 | 0x40000u32)
        } else {
            Ebx(self.0 & !0x40000u32)
        }
    }

    /// Intel ADX (Multi-Precision Add-Carry Instruction Extensions)
    pub fn adx(&self) -> (r: bool)
        ensures
            r == (self@ & 0x80000u32 != 0),
    {
        self.0 & 0x80000u32 != 0
    }

    /// Returns a copy of the value with the `adx` field set to `value`.
    pub fn with_adx(self, value: bool) -> (r: Self)
        ensures
            r@ == (if value {
                self@ | 0x80000u32
            } else {
                self@ & !0x80000u32
            }),
    {
        if value {
            Ebx(self.0 | 0x80000u32)
        } else {
            Ebx(self.0 & !0x80000u32)
        }
    }

    /// Supervisor Mode Access Prevention
    pub fn smap(&self) -> (r: bool)
        ensures
            r == (self@ & 0x100000u32 != 0),
    {
        self.0 & 0x100000u32 != 0
    }

    /// Returns a copy of the value with the `smap` field set to `value`.
    pub fn with_smap(self, value: bool) -> (r: Self)
        ensures
            r@ == (if value {
                self@ | 0x100000u32
            } else {
                self@ & !0x100000u32
            }),
    {
        if value {
            Ebx(self.0 | 0x100000u32)
        } else {
            Ebx(self.0 & !0x100000u32)
        }
    }

    /// AVX-512 Integer Fused Multiply-Add Instructions
    pub fn avx512_ifma(&self) -> (r: bool)
        ensures
            r == (self@ & 0x200000u32 != 0),
    {
        self.0 & 0x200000u32 != 0
    }

    /// Returns a copy of the value with the `avx512_ifma` field set to `value`.
    pub fn with_avx512_ifma(self, value: bool) -> (r: Self)
        ensures
            r@ == (if value {
                self@ | 0x200000u32
            } else {
                self@ & !0x200000u32
            }),
    {
        if value {
            Ebx(self.0 | 0x200000u32)
        } else {
            Ebx(self.0 & !0x200000u32)
        }
    }

    /// `PCOMMIT` instruction (deprecated)
    pub fn pcommit(&self) -> (r: bool)
        ensures
            r == (self@ & 0x400000u32 != 0),
    {
        self.0 & 0x400000u32 != 0
    }

    /// Returns a copy of the value with the `pcommit` field set to `value`.
    pub fn with_pcommit(self, value: bool) -> (r: Self)
        ensures
            r@ == (if value {
                self@ | 0x400000u32
            } else {
                self@ & !0x400000u32
            }),
    {
        if value {
            Ebx(self.0 | 0x400000u32)
        } else {
            Ebx(self.0 & !0x400000u32)
        }
    }

    /// `CLFLUSHOPT` instruction
    pub fn clflushopt(&self) -> (r: bool)
        ensures
            r == (self@ & 0x800000u32 != 0),
    {
        self.0 & 0x800000u32 != 0
    }

    /// Returns a copy of the value with the `clflushopt` field set to `value`.
    pub fn with_clflushopt(self, value: bool) -> (r: Self)
        ensures
            r@ == (if value {
                self@ | 0x800000u32
            } else {
                self@ & !0x800000u32
            }),
    {
        if value {
            Ebx(self.0 | 0x800000u32)
        } else {
            Ebx(self.0 & !0x800000u32)
        }
    }

    /// `CLWB` (Cache line writeback) instruction
    pub fn clwb(&self) -> (r: bool)
        ensures
            r == (self@ & 0x1000000u32 != 0),
    {
        self.0 & 0x1000000u32 != 0
    }

    /// Returns a copy of the value with the `clwb` field set to `value`.
    pub fn with_clwb(self, value: bool) -> (r: Self)
        ensures
            r@ == (if value {
                self@ | 0x1000000u32
            } else {
                self@ & !0x1000000u32
            }),
    {
        if value {
            Ebx(self.0 | 0x1000000u32)
        } else {
            Ebx(self.0 & !0x1000000u32)
        }
    }

    /// Intel Processor Trace
    pub fn pt(&self) -> (r: bool)
        ensures
            r == (self@ & 0x2000000u32 != 0),
    {
        self.0 & 0x2000000u32 != 0
    }

    /// Returns a copy of the value with the `pt` field set to `value`.
    pub fn with_pt(self, value: bool) -> (r: Self)
        ensures
            r@ == (if value {
                self@ | 0x2000000u32
            } else {
                self@ & !0x2000000u32
            }),
    {
        if value {
            Ebx(self.0 | 0x2000000u32)
        } else {
            Ebx(self.0 & !0x2000000u32)
        }
    }

    /// AVX-512 Prefetch Instructions
    pub fn avx512_pf(&self) -> (r: bool)
        ensures
            r == (self@ & 0x4000000u32 != 0),
    {
        self.0 & 0x4000000u32 != 0
    }

    /// Returns a copy of the value with the `avx512_pf` field set to `value`.
    pub fn with_avx512_pf(self, value: bool) -> (r: Self)
        ensures
            r@ == (if value {
                self@ | 0x4000000u32
            } else {
                self@ & !0x4000000u32
            }),
    {
        if value {
            Ebx(self.0 | 0x4000000u32)
        } else {
            Ebx(self.0 & !0x4000000u32)
        }
    }

    /// AVX-512 Exponential and Reciprocal Instructions
    pub fn avx512_er(&self) -> (r: bool)
        ensures
            r == (self@ & 0x8000000u32 != 0),
    {
        self.0 & 0x8000000u32 != 0
    }

    /// Returns a copy of the value with the `avx512_er` field set to `value`.
    pub fn with_avx512_er(self, value: bool) -> (r: Self)
        ensures
            r@ == (if value {
                self@ | 0x8000000u32
            } else {
                self@ & !0x8000000u32
            }),
    {
        if value {
            Ebx(self.0 | 0x8000000u32)
        } else {
            Ebx(self.0 & !0x8000000u32)
        }
    }

    /// AVX-512 Conflict Detection Instructions
    pub fn avx512_cd(&self) -> (r: bool)
        ensures
            r == (self@ & 0x10000000u32 != 0),
    {
        self.0 & 0x10000000u32 != 0
    }

    /// Returns a copy of the value with the `avx512_cd` field set to `value`.
    pub fn with_avx512_cd(self, value: bool) -> (r: Self)
        ensures
            r@ == (if value {
                self@ | 0x10000000u32
            } else {
                self@ & !0x10000000u32
            }),
    {
        if value {
            Ebx(self.0 | 0x10000000u32)
        } else {
            Ebx(self.0 & !0x10000000u32)
        }
    }

    /// SHA-1 and SHA-256 extensions
    pub fn sha(&self) -> (r: bool)
        ensures
            r == (self@ & 0x20000000u32 != 0),
    {
        self.0 & 0x20000000u32 != 0
    }

    /// Returns a copy of the value with the `sha` field set to `value`.
    pub fn with_sha(self, value: bool) -> (r: Self)
        ensures
            r@ == (if value {
                self@ | 0x20000000u32
            } else {
                self@ & !0x20000000u32
            }),
    {
        if value {
            Ebx(self.0 | 0x20000000u32)
        } else {
            Ebx(self.0 & !0x20000000u32)
        }
    }

    /// AVX-512 Byte and Word Instructions
    pub fn avx512_bw(&self) -> (r: bool)
        ensures
            r == (self@ & 0x40000000u32 != 0),
    {
        self.0 & 0x40000000u32 != 0
    }

    /// Returns a copy of the value with the `avx512_bw` field set to `value`.
    pub fn with_avx512_bw(self, value: bool) -> (r: Self)
        ensures
            r@ == (if value {
                self@ | 0x40000000u32
            } else {
                self@ & !0x40000000u32
            }),
    {
        if value {
            Ebx(self.0 | 0x40000000u32)
        } else {
            Ebx(self.0 & !0x40000000u32)
        }
    }

    /// AVX-512 Vector Length Extensions
    pub fn avx512_vl(&self) -> (r: bool)
        ensures
            r == (self@ & 0x80000000u32 != 0),
    {
        self.0 & 0x80000000u32 != 0
    }

    /// Returns a copy of the value with the `avx512_vl` field set to `value`.
    pub fn with_avx512_vl(self, value: bool) -> (r: Self)
        ensures
            r@ == (if value {
                self@ | 0x80000000u32
            } else {
                self@ & !0x80000000u32
            }),
    {
        if value {
            Ebx(self.0 | 0x80000000u32)
        } else {
            Ebx(self.0 & !0x80000000u32)
        }
    }
}

/// Gets the `ecx` register values for the CPUID `eax=07, ecx=0` leaf.
#[derive(Debug, Clone, Copy)]
pub struct Ecx(u32);

impl View for Ecx {
    type V = u32;

    closed spec fn view(&self) -> u32 {
        self.0
    }
}

impl Ecx {
    /// Wraps the raw register value `bits`.
    pub fn new(bits: u32) -> (r: Self)
        ensures
            r@ == bits,
    {
        Ecx(bits)
    }

    /// The raw register value.
    pub fn bits(&self) -> (r: u32)
        ensures
            r == self@,
    {
        self.0
    }

    /// `PREFETCHWT1` instruction
    pub fn prefetchwt1(&self) -> (r: bool)
        ensures
            r == (self@ & 0x1u32 != 0),
    {
        self.0 & 0x1u32 != 0
    }

    /// Returns a copy of the value with the `prefetchwt1` field set to `value`.
    pub fn with_prefetchwt1(self, value: bool) -> (r: Self)
        ensures
            r@ == (if value {
                self@ | 0x1u32
            } else {
                self@ & !0x1u32
            }),
    {
        if value {
            Ecx(self.0 | 0x1u32)
        } else {
            Ecx(self.0 & !0x1u32)
        }
    }

    /// AVX-512 Vector Bit Manipulation Instructions
    pub fn avx512_vbmi(&self) -> (r: bool)
        ensures
            r == (self@ & 0x2u32 != 0),
    {
        self.0 & 0x2u32 != 0
    }

    /// Returns a copy of the value with the `avx512_vbmi` field set to `value`.
    pub fn with_avx512_vbmi(self, value: bool) -> (r: Self)
        ensures
            r@ == (if value {
                self@ | 0x2u32
            } else {
                self@ & !0x2u32
            }),
    {
        if value {
            Ecx(self.0 | 0x2u32)
        } else {
            Ecx(self.0 & !0x2u32)
        }
    }

    /// User-mode Instruction Prevention
    pub fn umip(&self) -> (r: bool)
        ensures
            r == (self@ & 0x4u32 != 0),
    {
        self.0 & 0x4u32 != 0
    }

    /// Returns a copy of the value with the `umip` field set to `value`.
    pub fn with_umip(self, value: bool) -> (r: Self)
        ensures
            r@ == (if value {
                self@ | 0x4u32
            } else {
                self@ & !0x4u32
            }),
    {
        if value {
            Ecx(self.0 | 0x4u32)
        } else {
            Ecx(self.0 & !0x4u32)
        }
    }

    /// Memory Protection Keys for User-mode pages
    pub fn pku(&self) -> (r: bool)
        ensures
            r == (self@ & 0x8u32 != 0),
    {
        self.0 & 0x8u32 != 0
    }

    /// Returns a copy of the value with the `pku` field set to `value`.
    pub fn with_pku(self, value: bool) -> (r: Self)
        ensures
            r@ == (if value {
                self@ | 0x8u32
            } else {
                self@ & !0x8u32
            }),
    {
        if value {
            Ecx(self.0 | 0x8u32)
        } else {
            Ecx(self.0 & !0x8u32)
        }
    }

    /// PKU enabled by OS
    pub fn ospke(&self) -> (r: bool)
        ensures
            r == (self@ & 0x10u32 != 0),
    {
        self.0 & 0x10u32 != 0
    }

    /// Returns a copy of the value with the `ospke` field set to `value`.
    pub fn with_ospke(self, value: bool) -> (r: Self)
        ensures
            r@ == (if value {
                self@ | 0x10u32
            } else {
                self@ & !0x10u32
            }),
    {
        if value {
            Ecx(self.0 | 0x10u32)
        } else {
            Ecx(self.0 & !0x10u32)
        }
    }

    /// Timed pause and user-level monitor/wait instructions (TPAUSE, UMONITOR, UMWAIT)
    pub fn waitpkg(&self) -> (r: bool)
        ensures
            r == (self@ & 0x20u32 != 0),
    {
        self.0 & 0x20u32 != 0
    }

    /// Returns a copy of the value with the `waitpkg` field set to `value`.
    pub fn with_waitpkg(self, value: bool) -> (r: Self)
        ensures
            r@ == (if value {
                self@ | 0x20u32
            } else {
                self@ & !0x20u32
            }),
    {
        if value {
            Ecx(self.0 | 0x20u32)
        } else {
            Ecx(self.0 & !0x20u32)
        }
    }

    /// Control flow enforcement (CET): shadow stack (SHSTK alternative name)
    pub fn cet_ss_shstk(&self) -> (r: bool)
        ensures
            r == (self@ & 0x80u32 != 0),
    {
        self.0 & 0x80u32 != 0
    }

    /// Returns a copy of the value with the `cet_ss_shstk` field set to `value`.
    pub fn with_cet_ss_shstk(self, value: bool) -> (r: Self)
        ensures
            r@ == (if value {
                self@ | 0x80u32
            } else {
                self@ & !0x80u32
            }),
    {
        if value {
            Ecx(self.0 | 0x80u32)
        } else {
            Ecx(self.0 & !0x80u32)
        }
    }

    /// Galois Field instructions
    pub fn gfni(&self) -> (r: bool)
        ensures
            r == (self@ & 0x100u32 != 0),
    {
        self.0 & 0x100u32 != 0
    }

    /// Returns a copy of the value with the `gfni` field set to `value`.
    pub fn with_gfni(self, value: bool) -> (r: Self)
        ensures
            r@ == (if value {
                self@ | 0x100u32
            } else {
                self@ & !0x100u32
            }),
    {
        if value {
            Ecx(self.0 | 0x100u32)
        } else {
            Ecx(self.0 & !0x100u32)
        }
    }

    /// Vector AES instruction set
    pub fn vaes(&self) -> (r: bool)
        ensures
            r == (self@ & 0x200u32 != 0),
    {
        self.0 & 0x200u32 != 0
    }

    /// Returns a copy of the value with the `vaes` field set to `value`.
    pub fn with_vaes(self, value: bool) -> (r: Self)
        ensures
            r@ == (if value {
                self@ | 0x200u32
            } else {
                self@ & !0x200u32
            }),
    {
        if value {
            Ecx(self.0 | 0x200u32)
        } else {
            Ecx(self.0 & !0x200u32)
        }
    }

    /// CLMUL instruction set (VEX-256/EVEX)
    pub fn vpclmulqdq(&self) -> (r: bool)
        ensures
            r == (self@ & 0x400u32 != 0),
    {
        self.0 & 0x400u32 != 0
    }

    /// Returns a copy of the value with the `vpclmulqdq` field set to `value`.
    pub fn with_vpclmulqdq(self, value: bool) -> (r: Self)
        ensures
            r@ == (if value {
                self@ | 0x400u32
            } else {
                self@ & !0x400u32
            }),
    {
        if value {
            Ecx(self.0 | 0x400u32)
        } else {
            Ecx(self.0 & !0x400u32)
        }
    }

    /// AVX-512 Vector Neural Network Instructions
    pub fn avx512_vnni(&self) -> (r: bool)
        ensures
            r == (self@ & 0x800u32 != 0),
    {
        self.0 & 0x800u32 != 0
    }

    /// Returns a copy of the value with the `avx512_vnni` field set to `value`.
    pub fn with_avx512_vnni(self, value: bool) -> (r: Self)
        ensures
            r@ == (if value {
                self@ | 0x800u32
            } else {
                self@ & !0x800u32
            }),
    {
        if value {
            Ecx(self.0 | 0x800u32)
        } else {
            Ecx(self.0 & !0x800u32)
        }
    }

    /// AVX-512 BITALG instructions
    pub fn avx512_bitalg(&self) -> (r: bool)
        ensures
            r == (self@ & 0x1000u32 != 0),
    {
        self.0 & 0x1000u32 != 0
    }

    /// Returns a copy of the value with the `avx512_bitalg` field set to `value`.
    pub fn with_avx512_bitalg(self, value: bool) -> (r: Self)
        ensures
            r@ == (if value {
                self@ | 0x1000u32
            } else {
                self@ & !0x1000u32
            }),
    {
        if value {
            Ecx(self.0 | 0x1000u32)
        } else {
            Ecx(self.0 & !0x1000u32)
        }
    }

    /// Total Memory Encryption MSRs available
    pub fn tme_en(&self) -> (r: bool)
        ensures
            r == (self@ & 0x2000u32 != 0),
    {
        self.0 & 0x2000u32 != 0
    }

    /// Returns a copy of the value with the `tme_en` field set to `value`.
    pub fn with_tme_en(self, value: bool) -> (r: Self)
        ensures
            r@ == (if value {
                self@ | 0x2000u32
            } else {
                self@ & !0x2000u32
            }),
    {
        if value {
            Ecx(self.0 | 0x2000u32)
        } else {
            Ecx(self.0 & !0x2000u32)
        }
    }

    /// AVX-512 Vector Population Count Double and Quad-word
    pub fn avx512_vpopcntdq(&self) -> (r: bool)
        ensures
            r == (self@ & 0x4000u32 != 0),
    {
        self.0 & 0x4000u32 != 0
    }

    /// Returns a copy of the value with the `avx512_vpopcntdq` field set to `value`.
    pub fn with_avx512_vpopcntdq(self, value: bool) -> (r: Self)
        ensures
            r@ == (if value {
                self@ | 0x4000u32
            } else {
                self@ & !0x4000u32
            }),
    {
        if value {
            Ecx(self.0 | 0x4000u32)
        } else {
            Ecx(self.0 & !0x4000u32)
        }
    }

    /// 5-level paging (57 address bits)
    pub fn la57(&self) -> (r: bool)
        ensures
            r == (self@ & 0x10000u32 != 0),
    {
        self.0 & 0x10000u32 != 0
    }

    /// Returns a copy of the value with the `la57` field set to `value`.
    pub fn with_la57(self, value: bool) -> (r: Self)
        ensures
            r@ == (if value {
                self@ | 0x10000u32
            } else {
                self@ & !0x10000u32
            }),
    {
        if value {
            Ecx(self.0 | 0x10000u32)
        } else {
            Ecx(self.0 & !0x10000u32)
        }
    }

    /// `RDPID` (Read Processor ID) instruction and IA32_TSC_AUX MSR
    pub fn rdpid(&self) -> (r: bool)
        ensures
            r == (self@ & 0x400000u32 != 0),
    {
        self.0 & 0x400000u32 != 0
    }

    /// Returns a copy of the value with the `rdpid` field set to `value`.
    pub fn with_rdpid(self, value: bool) -> (r: Self)
        ensures
            r@ == (if value {
                self@ | 0x400000u32
            } else {
                self@ & !0x400000u32
            }),
    {
        if value {
            Ecx(self.0 | 0x400000u32)
        } else {
            Ecx(self.0 & !0x400000u32)
        }
    }

    /// AES Key Locker
    pub fn kl(&self) -> (r: bool)
        ensures
            r == (self@ & 0x800000u32 != 0),
    {
        self.0 & 0x800000u32 != 0
    }

    /// Returns a copy of the value with the `kl` field set to `value`.
    pub fn with_kl(self, value: bool) -> (r: Self)
        ensures
            r@ == (if value {
                self@ | 0x800000u32
            } else {
                self@ & !0x800000u32
            }),
    {
        if value {
            Ecx(self.0 | 0x800000u32)
        } else {
            Ecx(self.0 & !0x800000u32)
        }
    }

    /// Bus lock debug exceptions
    pub fn bus_lock_detect(&self) -> (r: bool)
        ensures
            r == (self@ & 0x1000000u32 != 0),
    {
        self.0 & 0x1000000u32 != 0
    }

    /// Returns a copy of the value with the `bus_lock_detect` field set to `value`.
    pub fn with_bus_lock_detect(self, value: bool) -> (r: Self)
        ensures
            r@ == (if value {
                self@ | 0x1000000u32
            } else {
                self@ & !0x1000000u32
            }),
    {
        if value {
            Ecx(self.0 | 0x1000000u32)
        } else {
            Ecx(self.0 & !0x1000000u32)
        }
    }

    /// `CLDEMOTE` (Cache line demote) instruction
    pub fn cldemote(&self) -> (r: bool)
        ensures
            r == (self@ & 0x2000000u32 != 0),
    {
        self.0 & 0x2000000u32 != 0
    }

    /// Returns a copy of the value with the `cldemote` field set to `value`.
    pub fn with_cldemote(self, value: bool) -> (r: Self)
        ensures
            r@ == (if value {
                self@ | 0x2000000u32
            } else {
                self@ & !0x2000000u32
            }),
    {
        if value {
            Ecx(self.0 | 0x2000000u32)
        } else {
            Ecx(self.0 & !0x2000000u32)
        }
    }

    /// `MOVDIRI` instruction
    pub fn movdiri(&self) -> (r: bool)
        ensures
            r == (self@ & 0x8000000u32 != 0),
    {
        self.0 & 0x8000000u32 != 0
    }

    /// Returns a copy of the value with the `movdiri` field set to `value`.
    pub fn with_movdiri(self, value: bool) -> (r: Self)
        ensures
            r@ == (if value {
                self@ | 0x8000000u32
            } else {
                self@ & !0x8000000u32
            }),
    {
        if value {
            Ecx(self.0 | 0x8000000u32)
        } else {
            Ecx(self.0 & !0x8000000u32)
        }
    }

    /// `MOVDIR64B` (64-byte direct store) instruction
    pub fn movdir64b(&self) -> (r: bool)
        ensures
            r == (self@ & 0x10000000u32 != 0),
    {
        self.0 & 0x10000000u32 != 0
    }

    /// Returns a copy of the value with the `movdir64b` field set to `value`.
    pub fn with_movdir64b(self, value: bool) -> (r: Self)
        ensures
            r@ == (if value {
                self@ | 0x10000000u32
            } else {
                self@ & !0x10000000u32
            }),
    {
        if value {
            Ecx(self.0 | 0x10000000u32)
        } else {
            Ecx(self.0 & !0x10000000u32)
        }
    }

    /// Enqueue Stores and `EMQCMD`/`EMQCMDS` instructions
    pub fn enqcmd(&self) -> (r: bool)
        ensures
            r == (self@ & 0x20000000u32 != 0),
    {
        self.0 & 0x20000000u32 != 0
    }

    /// Returns a copy of the value with the `enqcmd` field set to `value`.
    pub fn with_enqcmd(self, value: bool) -> (r: Self)
        ensures
            r@ == (if value {
                self@ | 0x20000000u32
            } else {
                self@ & !0x20000000u32
            }),
    {
        if value {
            Ecx(self.0 | 0x20000000u32)
        } else {
            Ecx(self.0 & !0x20000000u32)
        }
    }

    /// `SGX` Launch Configuration
    pub fn sgx_lc(&self) -> (r: bool)
        ensures
            r == (self@ & 0x40000000u32 != 0),
    {
        self.0 & 0x40000000u32 != 0
    }

    /// Returns a copy of the value with the `sgx_lc` field set to `value`.
    pub fn with_sgx_lc(self, value: bool) -> (r: Self)
        ensures
            r@ == (if value {
                self@ | 0x40000000u32
            } else {
                self@ & !0x40000000u32
            }),
    {
        if value {
            Ecx(self.0 | 0x40000000u32)
        } else {
            Ecx(self.0 & !0x40000000u32)
        }
    }

    /// Protection keys for supervisor-mode pages
    pub fn pks(&self) -> (r: bool)
        ensures
            r == (self@ & 0x80000000u32 != 0),
    {
        self.0 & 0x80000000u32 != 0
    }

    /// Returns a copy of the value with the `pks` field set to `value`.
    pub fn with_pks(self, value: bool) -> (r: Self)
        ensures
            r@ == (if value {
                self@ | 0x80000000u32
            } else {
                self@ & !0x80000000u32
            }),
    {
        if value {
            Ecx(self.0 | 0x80000000u32)
        } else {
            Ecx(self.0 & !0x80000000u32)
        }
    }
}

/// Gets the `edx` register values for the CPUID `eax=07, ecx=0` leaf.
#[derive(Debug, Clone, Copy)]
pub struct Edx(u32);

impl View for Edx {
    type V = u32;

    closed spec fn view(&self) -> u32 {
        self.0
    }
}

impl Edx {
    /// Wraps the raw register value `bits`.
    pub fn new(bits: u32) -> (r: Self)
        ensures
            r@ == bits,
    {
        Edx(bits)
    }

    /// The raw register value.
    pub fn bits(&self) -> (r: u32)
        ensures
            r == self@,
    {
        self.0
    }

    /// Attestation Services for Intel SGX
    pub fn sgx_keys(&self) -> (r: bool)
        ensures
            r == (self@ & 0x2u32 != 0),
    {
        self.0 & 0x2u32 != 0
    }

    /// Returns a copy of the value with the `sgx_keys` field set to `value`.
    pub fn with_sgx_keys(self, value: bool) -> (r: Self)
        ensures
            r@ == (if value {
                self@ | 0x2u32
            } else {
                self@ & !0x2u32
            }),
    {
        if value {
            Edx(self.0 | 0x2u32)
        } else {
            Edx(self.0 & !0x2u32)
        }
    }

    /// AVX-512 4-register Neural Network Instructions
    pub fn avx512_4vnniw(&self) -> (r: bool)
        ensures
            r == (self@ & 0x4u32 != 0),
    {
        self.0 & 0x4u32 != 0
    }

    /// Returns a copy of the value with the `avx512_4vnniw` field set to `value`.
    pub fn with_avx512_4vnniw(self, value: bool) -> (r: Self)
        ensures
            r@ == (if value {
                self@ | 0x4u32
            } else {
                self@ & !0x4u32
            }),
    {
        if value {
            Edx(self.0 | 0x4u32)
        } else {
            Edx(self.0 & !0x4u32)
        }
    }

    /// AVX-512 4-register Multiply Accumulation Single precision
    pub fn avx512_4fmaps(&self) -> (r: bool)
        ensures
            r == (self@ & 0x8u32 != 0),
    {
        self.0 & 0x8u32 != 0
    }

    /// Returns a copy of the value with the `avx512_4fmaps` field set to `value`.
    pub fn with_avx512_4fmaps(self, value: bool) -> (r: Self)
        ensures
            r@ == (if value {
                self@ | 0x8u32
            } else {
                self@ & !0x8u32
            }),
    {
        if value {
            Edx(self.0 | 0x8u32)
        } else {
            Edx(self.0 & !0x8u32)
        }
    }

    /// Fast Short `REP MOVSB`
    pub fn fsrm(&self) -> (r: bool)
        ensures
            r == (self@ & 0x10u32 != 0),
    {
        self.0 & 0x10u32 != 0
    }

    /// Returns a copy of the value with the `fsrm` field set to `value`.
    pub fn with_fsrm(self, value: bool) -> (r: Self)
        ensures
            r@ == (if value {
                self@ | 0x10u32
            } else {
                self@ & !0x10u32
            }),
    {
        if value {
            Edx(self.0 | 0x10u32)
        } else {
            Edx(self.0 & !0x10u32)
        }
    }

    /// User Inter-processor Interrupts
    pub fn uintr(&self) -> (r: bool)
        ensures
            r == (self@ & 0x20u32 != 0),
    {
        self.0 & 0x20u32 != 0
    }

    /// Returns a copy of the value with the `uintr` field set to `value`.
    pub fn with_uintr(self, value: bool) -> (r: Self)
        ensures
            r@ == (if value {
                self@ | 0x20u32
            } else {
                self@ & !0x20u32
            }),
    {
        if value {
            Edx(self.0 | 0x20u32)
        } else {
            Edx(self.0 & !0x20u32)
        }
    }

    /// AVX-512 vector intersection instructions on 32/64-bit integers
    pub fn avx512_vp2intersect(&self) -> (r: bool)
        ensures
            r == (self@ & 0x100u32 != 0),
    {
        self.0 & 0x100u32 != 0
    }

    /// Returns a copy of the value with the `avx512_vp2intersect` field set to `value`.
    pub fn with_avx512_vp2intersect(self, value: bool) -> (r: Self)
        ensures
            r@ == (if value {
                self@ | 0x100u32
            } else {
                self@ & !0x100u32
            }),
    {
        if value {
            Edx(self.0 | 0x100u32)
        } else {
            Edx(self.0 & !0x100u32)
        }
    }

    /// Special Register Buffer Data Sampling Mitigations
    pub fn srbds_ctrl(&self) -> (r: bool)
        ensures
            r == (self@ & 0x200u32 != 0),
    {
        self.0 & 0x200u32 != 0
    }

    /// Returns a copy of the value with the `srbds_ctrl` field set to `value`.
    pub fn with_srbds_ctrl(self, value: bool) -> (r: Self)
        ensures
            r@ == (if value {
                self@ | 0x200u32
            } else {
                self@ & !0x200u32
            }),
    {
        if value {
            Edx(self.0 | 0x200u32)
        } else {
            Edx(self.0 & !0x200u32)
        }
    }

    /// `VERW` instruction clears CPU buffers
    pub fn md_clear(&self) -> (r: bool)
        ensures
            r == (self@ & 0x400u32 != 0),
    {
        self.0 & 0x400u32 != 0
    }

    /// Returns a copy of the value with the `md_clear` field set to `value`.
    pub fn with_md_clear(self, value: bool) -> (r: Self)
        ensures
            r@ == (if value {
                self@ | 0x400u32
            } else {
                self@ & !0x400u32
            }),
    {
        if value {
            Edx(self.0 | 0x400u32)
        } else {
            Edx(self.0 & !0x400u32)
        }
    }

    /// All TSX transactions are aborted
    pub fn rtm_always_abort(&self) -> (r: bool)
        ensures
            r == (self@ & 0x800u32 != 0),
    {
        self.0 & 0x800u32 != 0
    }

    /// Returns a copy of the value with the `rtm_always_abort` field set to `value`.
    pub fn with_rtm_always_abort(self, value: bool) -> (r: Self)
        ensures
            r@ == (if value {
                self@ | 0x800u32
            } else {
                self@ & !0x800u32
            }),
    {
        if value {
            Edx(self.0 | 0x800u32)
        } else {
            Edx(self.0 & !0x800u32)
        }
    }

    /// TSX_FORCE_ABORT (MSR `0x10f`) is available
    pub fn rtm_force_abort(&self) -> (r: bool)
        ensures
            r == (self@ & 0x2000u32 != 0),
    {
        self.0 & 0x2000u32 != 0
    }

    /// Returns a copy of the value with the `rtm_force_abort` field set to `value`.
    pub fn with_rtm_force_abort(self, value: bool) -> (r: Self)
        ensures
            r@ == (if value {
                self@ | 0x2000u32
            } else {
                self@ & !0x2000u32
            }),
    {
        if value {
            Edx(self.0 | 0x2000u32)
        } else {
            Edx(self.0 & !0x2000u32)
        }
    }

    /// `SERIALIZE` instruction
    pub fn serialize(&self) -> (r: bool)
        ensures
            r == (self@ & 0x4000u32 != 0),
    {
        self.0 & 0x4000u32 != 0
    }

    /// Returns a copy of the value with the `serialize` field set to `value`.
    pub fn with_serialize(self, value: bool) -> (r: Self)
        ensures
            r@ == (if value {
                self@ | 0x4000u32
            } else {
                self@ & !0x4000u32
            }),
    {
        if value {
            Edx(self.0 | 0x4000u32)
        } else {
            Edx(self.0 & !0x4000u32)
        }
    }

    /// Mixture of CPU types in processor topology (e.g. Alder Lake)
    pub fn hybrid(&self) -> (r: bool)
        ensures
            r == (self@ & 0x8000u32 != 0),
    {
        self.0 & 0x8000u32 != 0
    }

    /// Returns a copy of the value with the `hybrid` field set to `value`.
    pub fn with_hybrid(self, value: bool) -> (r: Self)
        ensures
            r@ == (if value {
                self@ | 0x8000u32
            } else {
                self@ & !0x8000u32
            }),
    {
        if value {
            Edx(self.0 | 0x8000u32)
        } else {
            Edx(self.0 & !0x8000u32)
        }
    }

    /// TSX load address tracking suspend/resume instructions (`TSUSLDTRK` and `TRESLDTRK`)
    pub fn tsxldtrk(&self) -> (r: bool)
        ensures
            r == (self@ & 0x10000u32 != 0),
    {
        self.0 & 0x10000u32 != 0
    }

    /// Returns a copy of the value with the `tsxldtrk` field set to `value`.
    pub fn with_tsxldtrk(self, value: bool) -> (r: Self)
        ensures
            r@ == (if value {
                self@ | 0x10000u32
            } else {
                self@ & !0x10000u32
            }),
    {
        if value {
            Edx(self.0 | 0x10000u32)
        } else {
            Edx(self.0 & !0x10000u32)
        }
    }

    /// Platform configuration (Memory Encryption Technologies Instructions)
    pub fn pconfig(&self) -> (r: bool)
        ensures
            r == (self@ & 0x40000u32 != 0),
    {
        self.0 & 0x40000u32 != 0
    }

    /// Returns a copy of the value with the `pconfig` field set to `value`.
    pub fn with_pconfig(self, value: bool) -> (r: Self)
        ensures
            r@ == (if value {
                self@ | 0x40000u32
            } else {
                self@ & !0x40000u32
            }),
    {
        if value {
            Edx(self.0 | 0x40000u32)
        } else {
            Edx(self.0 & !0x40000u32)
        }
    }

    /// Architectural Last Branch Records
    pub fn lbr(&self) -> (r: bool)
        ensures
            r == (self@ & 0x80000u32 != 0),
    {
        self.0 & 0x80000u32 != 0
    }

    /// Returns a copy of the value with the `lbr` field set to `value`.
    pub fn with_lbr(self, value: bool) -> (r: Self)
        ensures
            r@ == (if value {
                self@ | 0x80000u32
            } else {
                self@ & !0x80000u32
            }),
    {
        if value {
            Edx(self.0 | 0x80000u32)
        } else {
            Edx(self.0 & !0x80000u32)
        }
    }

    /// Control flow enforcement (CET): indirect branch tracking
    pub fn cet_ibt(&self) -> (r: bool)
        ensures
            r == (self@ & 0x100000u32 != 0),
    {
        self.0 & 0x100000u32 != 0
    }

    /// Returns a copy of the value with the `cet_ibt` field set to `value`.
    pub fn with_cet_ibt(self, value: bool) -> (r: Self)
        ensures
            r@ == (if value {
                self@ | 0x100000u32
            } else {
                self@ & !0x100000u32
            }),
    {
        if value {
            Edx(self.0 | 0x100000u32)
        } else {
            Edx(self.0 & !0x100000u32)
        }
    }

    /// AMX tile computation on bfloat16 numbers
    pub fn amx_bf16(&self) -> (r: bool)
        ensures
            r == (self@ & 0x400000u32 != 0),
    {
        self.0 & 0x400000u32 != 0
    }

    /// Returns a copy of the value with the `amx_bf16` field set to `value`.
    pub fn with_amx_bf16(self, value: bool) -> (r: Self)
        ensures
            r@ == (if value {
                self@ | 0x400000u32
            } else {
                self@ & !0x400000u32
            }),
    {
        if value {
            Edx(self.0 | 0x400000u32)
        } else {
            Edx(self.0 & !0x400000u32)
        }
    }

    /// AMX tile load/store instructions
    pub fn amx_tile(&self) -> (r: bool)
        ensures
            r == (self@ & 0x1000000u32 != 0),
    {
        self.0 & 0x1000000u32 != 0
    }

    /// Returns a copy of the value with the `amx_tile` field set to `value`.
    pub fn with_amx_tile(self, value: bool) -> (r: Self)
        ensures
            r@ == (if value {
                self@ | 0x1000000u32
            } else {
                self@ & !0x1000000u32
            }),
    {
        if value {
            Edx(self.0 | 0x1000000u32)
        } else {
            Edx(self.0 & !0x1000000u32)
        }
    }

    /// AMX tile computation on 8-bit integers
    pub fn amx_int8(&self) -> (r: bool)
        ensures
            r == (self@ & 0x2000000u32 != 0),
    {
        self.0 & 0x2000000u32 != 0
    }

    /// Returns a copy of the value with the `amx_int8` field set to `value`.
    pub fn with_amx_int8(self, value: bool) -> (r: Self)
        ensures
            r@ == (if value {
                self@ | 0x2000000u32
            } else {
                self@ & !0x2000000u32
            }),
    {
        if value {
            Edx(self.0 | 0x2000000u32)
        } else {
            Edx(self.0 & !0x2000000u32)
        }
    }

    /// Speculation Control, part of IBC: Indirect Branch Restricted Speculation (IBRS) and Indirect Branch Prediction Barrier (IBPB)
    pub fn ibrs_spec_ctrl(&self) -> (r: bool)
        ensures
            r == (self@ & 0x4000000u32 != 0),
    {
        self.0 & 0x4000000u32 != 0
    }

    /// Returns a copy of the value with the `ibrs_spec_ctrl` field set to `value`.
    pub fn with_ibrs_spec_ctrl(self, value: bool) -> (r: Self)
        ensures
            r@ == (if value {
                self@ | 0x4000000u32
            } else {
                self@ & !0x4000000u32
            }),
    {
        if value {
            Edx(self.0 | 0x4000000u32)
        } else {
            Edx(self.0 & !0x4000000u32)
        }
    }

    /// Single Thread Indirect Branch Predictor, part of IBC
    pub fn stibp(&self) -> (r: bool)
        ensures
            r == (self@ & 0x8000000u32 != 0),
    {
        self.0 & 0x8000000u32 != 0
    }

    /// Returns a copy of the value with the `stibp` field set to `value`.
    pub fn with_stibp(self, value: bool) -> (r: Self)
        ensures
            r@ == (if value {
                self@ | 0x8000000u32
            } else {
                self@ & !0x8000000u32
            }),
    {
        if value {
            Edx(self.0 | 0x8000000u32)
        } else {
            Edx(self.0 & !0x8000000u32)
        }
    }

    /// IA32_FLUSH_CMD MSR
    pub fn l1d_flush(&self) -> (r: bool)
        ensures
            r == (self@ & 0x10000000u32 != 0),
    {
        self.0 & 0x10000000u32 != 0
    }

    /// Returns a copy of the value with the `l1d_flush` field set to `value`.
    pub fn with_l1d_flush(self, value: bool) -> (r: Self)
        ensures
            r@ == (if value {
                self@ | 0x10000000u32
            } else {
                self@ & !0x10000000u32
            }),
    {
        if value {
            Edx(self.0 | 0x10000000u32)
        } else {
            Edx(self.0 & !0x10000000u32)
        }
    }

    /// Speculative Store Bypass Disable, as mitigation for Speculative Store Bypass (IA32_SPEC_CTRL)
    pub fn ssbd(&self) -> (r: bool)
        ensures
            r == (self@ & 0x80000000u32 != 0),
    {
        self.0 & 0x80000000u32 != 0
    }

    /// Returns a copy of the value with the `ssbd` field set to `value`.
    pub fn with_ssbd(self, value: bool) -> (r: Self)
        ensures
            r@ == (if value {
                self@ | 0x80000000u32
            } else {
                self@ & !0x80000000u32
            }),
    {
        if value {
            Edx(self.0 | 0x80000000u32)
        } else {
            Edx(self.0 & !0x80000000u32)
        }
    }
}

/// Extended Features (`ecx=0`)
#[derive(Debug)]
pub struct CpuidA07C0 {
    /// The `ebx` register of the cpuid call.
    pub ebx: Ebx,
    /// The `ecx` register of the cpuid call.
    pub ecx: Ecx,
    /// The `edx` register of the cpuid call.
    pub edx: Edx,
}

impl CpuidA07C0 {
    /// Decodes the result of CPUID with `eax=07, ecx=0`, which provides extended features.
    ///
    /// `result` is `None` when either CPUID or the leaf is not supported, and so is
    /// the decoded value.
    pub fn get(result: Option<CpuidResult>) -> (r: Option<Self>)
        ensures
            result is None ==> r is None,
            result is Some ==> {
                &&& r is Some
                &&& r->0.ebx@ == result->0.ebx
                &&& r->0.ecx@ == result->0.ecx
                &&& r->0.edx@ == result->0.edx
            },
    {
        match result {
            Some(c) => Some(CpuidA07C0 { ebx: Ebx::new(c.ebx), ecx: Ecx::new(c.ecx), edx: Edx::new(c.edx) }),
            None => None,
        }
    }
}

} // verus!
