//! Abstractions for the `CR0` and `CR4` control registers.
use vstd::prelude::*;

use crate::cpuid::CpuidA07C0;

verus! {

/// The CR0 register.
#[derive(Debug, Clone, Copy)]
pub struct Cr0(u64);

impl View for Cr0 {
    type V = u64;

    closed spec fn view(&self) -> u64 {
        self.0
    }
}

/// The CR0 bits that [`Cr0`] knows about.
pub open spec fn cr0_supported_bits() -> u64 {
    ((((((((0u64 | 0x1u64) | 0x2u64) | 0x4u64) | 0x8u64) | 0x10000u64) | 0x40000u64) | 0x40000000u64) | 0x80000000u64)
}

impl Cr0 {
    /// Enables protected mode.
    pub fn with_protected_mode_enable(self) -> (r: Self)
        ensures
            r@ == self@ | 0x1u64,
    {
        Cr0(self.0 | 0x1u64)
    }

    /// Enables the coprocessor monitor bit, which determines if WAIT/FWAIT causes an exception
    /// (CR0.MP=1, CR0.TS=1) or not (CR0.MP=0 _OR_ CR0.TS=0).
    pub fn with_monitor_coprocessor(self) -> (r: Self)
        ensures
            r@ == self@ | 0x2u64,
    {
        Cr0(self.0 | 0x2u64)
    }

    /// Enables emulation. If 1, #UD is raised when executing x87 instructions such that they
    /// can be emulated.
    pub fn with_emulation(self) -> (r: Self)
        ensures
            r@ == self@ | 0x4u64,
    {
        Cr0(self.0 | 0x4u64)
    }

    /// Enables context-saving on x87-related task switching. CR0.MP controls if WAIT/FWAIT
    /// causes an #NM when CR0.TS=1.
    pub fn with_task_switch(self) -> (r: Self)
        ensures
            r@ == self@ | 0x8u64,
    {
        Cr0(self.0 | 0x8u64)
    }

    /// Enables write protection for read-only pages at the supervisor level.
    pub fn with_write_protect(self) -> (r: Self)
        ensures
            r@ == self@ | 0x10000u64,
    {
        Cr0(self.0 | 0x10000u64)
    }

    /// Enables alignment checking. Under CPL3, alignment checks are performed on every data
    /// reference and raise #AC if they fail.
    pub fn with_alignment_mask(self) -> (r: Self)
        ensures
            r@ == self@ | 0x40000u64,
    {
        Cr0(self.0 | 0x40000u64)
    }

    /// When DISABLED, the CPU cache is ENABLED. When disabled (CR0.CD=1), the CPU does not
    /// bring new instructions/data into caches.
    pub fn with_cache_disable(self) -> (r: Self)
        ensures
            r@ == self@ | 0x40000000u64,
    {
        Cr0(self.0 | 0x40000000u64)
    }

    /// Enables paging. If disabled, the CPU operates in real mode.
    pub fn with_paging_enable(self) -> (r: Self)
        ensures
            r@ == self@ | 0x80000000u64,
    {
        Cr0(self.0 | 0x80000000u64)
    }

    /// Creates a new CR0 register with all bits cleared.
    pub fn new() -> (r: Self)
        ensures
            r@ == 0,
    {
        Cr0(0)
    }

    /// Returns a mask of all supported bits.
    /// ANDing this with an existing CR0 value will retain
    /// all unsupported bits and zero the supported bits
    /// such that the value can be OR'd with new bits.
    pub fn mask() -> (r: u64)
        ensures
            r == !cr0_supported_bits(),
    {
        !Self::new().with_protected_mode_enable().with_monitor_coprocessor().with_emulation()
            .with_task_switch().with_write_protect().with_alignment_mask().with_cache_disable()
            .with_paging_enable().0
    }

    /// Returns the raw bits of the CR0 register.
    pub fn bits(self) -> (r: u64)
        ensures
            r == self@,
    {
        self.0
    }

    /// Inherits the bits that [`Cr0`] does not know about from `current`, the
    /// value of the CR0 register.
    ///
    /// Should be called after setting any new bits.
    pub fn inherit(self, current: u64) -> (r: Self)
        ensures
            r@ == self@ | (current & !cr0_supported_bits()),
    {
        Cr0(self.0 | (current & Self::mask()))
    }
}

impl From<Cr0> for u64 {
    fn from(cr0: Cr0) -> (r: u64) {
        cr0.0
    }
}

impl vstd::std_specs::convert::FromSpecImpl<Cr0> for u64 {
    open spec fn obeys_from_spec() -> bool {
        true
    }

    open spec fn from_spec(v: Cr0) -> u64 {
        v@
    }
}

impl From<u64> for Cr0 {
    fn from(val: u64) -> (r: Cr0) {
        Cr0(val)
    }
}

impl vstd::std_specs::convert::FromSpecImpl<u64> for Cr0 {
    open spec fn obeys_from_spec() -> bool {
        true
    }

    open spec fn from_spec(v: u64) -> Cr0 {
        cr0_from_bits(v)
    }
}

/// The CR0 value holding exactly `v`.
pub closed spec fn cr0_from_bits(v: u64) -> Cr0 {
    Cr0(v)
}

/// The CR0 value built from raw bits holds those bits.
pub broadcast proof fn lemma_cr0_from_bits(v: u64)
    ensures
        #[trigger] cr0_from_bits(v)@ == v,
{
}

/// The CR4 register on X86_64.
#[derive(Debug, Clone, Copy)]
pub struct Cr4(u64);

impl View for Cr4 {
    type V = u64;

    closed spec fn view(&self) -> u64 {
        self.0
    }
}

impl Cr4 {
    /// Wraps the raw register value `bits`.
    pub fn new(bits: u64) -> (r: Self)
        ensures
            r@ == bits,
    {
        Cr4(bits)
    }

    /// The raw register value.
    pub fn bits(&self) -> (r: u64)
        ensures
            r == self@,
    {
        self.0
    }

    /// Virtual 8086 mode extensions.
    ///
    /// If set, enables support for the virtual interrupt flag (VIF) in virtual-8086 mode.
    pub fn vme(&self) -> (r: bool)
        ensures
            r == (self@ & 0x1u64 != 0),
    {
        self.0 & 0x1u64 != 0
    }

    /// Returns a copy of the value with the `vme` field set to `value`.
    pub fn with_vme(self, value: bool) -> (r: Self)
        ensures
            r@ == (if value {
                self@ | 0x1u64
            } else {
                self@ & !0x1u64
            }),
    {
        if value {
            Cr4(self.0 | 0x1u64)
        } else {
            Cr4(self.0 & !0x1u64)
        }
    }

    /// Protected-mode virtual interrupts.
    ///
    /// If set, enables support for the virtual interrupt flag (VIF) in protected mode.
    pub fn pvi(&self) -> (r: bool)
        ensures
            r == (self@ & 0x2u64 != 0),
    {
        self.0 & 0x2u64 != 0
    }

    /// Returns a copy of the value with the `pvi` field set to `value`.
    pub fn with_pvi(self, value: bool) -> (r: Self)
        ensures
            r@ == (if value {
                self@ | 0x2u64
            } else {
                self@ & !0x2u64
            }),
    {
        if value {
            Cr4(self.0 | 0x2u64)
        } else {
            Cr4(self.0 & !0x2u64)
        }
    }

    /// Time stamp disable.
    ///
    /// If set, **disables** the RDTSC instruction (inverted logic).
    pub fn tsd(&self) -> (r: bool)
        ensures
            r == (self@ & 0x4u64 != 0),
    {
        self.0 & 0x4u64 != 0
    }

    /// Returns a copy of the value with the `tsd` field set to `value`.
    pub fn with_tsd(self, value: bool) -> (r: Self)
        ensures
            r@ == (if value {
                self@ | 0x4u64
            } else {
                self@ & !0x4u64
            }),
    {
        if value {
            Cr4(self.0 | 0x4u64)
        } else {
            Cr4(self.0 & !0x4u64)
        }
    }

    /// Debugging extensions.
    ///
    /// If set, enables the use of the `DE` flag in CR0, allowing
    /// for the use of debug register based breaks on I/O space access.
    pub fn de(&self) -> (r: bool)
        ensures
            r == (self@ & 0x8u64 != 0),
    {
        self.0 & 0x8u64 != 0
    }

    /// Returns a copy of the value with the `de` field set to `value`.
    pub fn with_de(self, value: bool) -> (r: Self)
        ensures
            r@ == (if value {
                self@ | 0x8u64
            } else {
                self@ & !0x8u64
            }),
    {
        if value {
            Cr4(self.0 | 0x8u64)
        } else {
            Cr4(self.0 & !0x8u64)
        }
    }

    /// Page size extensions.
    ///
    /// If set, enables the use of 4MB huge pages.
    /// Ignored if PAE is enabled, or in 64-bit mode
    /// (which is always the case on x86_64).
    pub fn pse(&self) -> (r: bool)
        ensures
            r == (self@ & 0x10u64 != 0),
    {
        self.0 & 0x10u64 != 0
    }

    /// Returns a copy of the value with the `pse` field set to `value`.
    pub fn with_pse(self, value: bool) -> (r: Self)
        ensures
            r@ == (if value {
                self@ | 0x10u64
            } else {
                self@ & !0x10u64
            }),
    {
        if value {
            Cr4(self.0 | 0x10u64)
        } else {
            Cr4(self.0 & !0x10u64)
        }
    }

    /// Physical address extension.
    ///
    /// If set, enables the use of 36-bit physical addresses.
    pub fn pae(&self) -> (r: bool)
        ensures
            r == (self@ & 0x20u64 != 0),
    {
        self.0 & 0x20u64 != 0
    }

    /// Returns a copy of the value with the `pae` field set to `value`.
    pub fn with_pae(self, value: bool) -> (r: Self)
        ensures
            r@ == (if value {
                self@ | 0x20u64
            } else {
                self@ & !0x20u64
            }),
    {
        if value {
            Cr4(self.0 | 0x20u64)
        } else {
            Cr4(self.0 & !0x20u64)
        }
    }

    /// Machine check exception.
    ///
    /// If set, enables the machine check exception.
    pub fn mce(&self) -> (r: bool)
        ensures
            r == (self@ & 0x40u64 != 0),
    {
        self.0 & 0x40u64 != 0
    }

    /// Returns a copy of the value with the `mce` field set to `value`.
    pub fn with_mce(self, value: bool) -> (r: Self)
        ensures
            r@ == (if value {
                self@ | 0x40u64
            } else {
                self@ & !0x40u64
            }),
    {
        if value {
            Cr4(self.0 | 0x40u64)
        } else {
            Cr4(self.0 & !0x40u64)
        }
    }

    /// Page global enable.
    ///
    /// If set, enables the global bit in page tables.
    pub fn pge(&self) -> (r: bool)
        ensures
            r == (self@ & 0x80u64 != 0),
    {
        self.0 & 0x80u64 != 0
    }

    /// Returns a copy of the value with the `pge` field set to `value`.
    pub fn with_pge(self, value: bool) -> (r: Self)
        ensures
            r@ == (if value {
                self@ | 0x80u64
            } else {
                self@ & !0x80u64
            }),
    {
        if value {
            Cr4(self.0 | 0x80u64)
        } else {
            Cr4(self.0 & !0x80u64)
        }
    }

    /// Performance monitoring counter enable.
    ///
    /// If set, enables the use of the performance monitoring counters
    /// from any protection level. If unset, they can only be used in
    /// ring 0.
    pub fn pce(&self) -> (r: bool)
        ensures
            r == (self@ & 0x100u64 != 0),
    {
        self.0 & 0x100u64 != 0
    }

    /// Returns a copy of the value with the `pce` field set to `value`.
    pub fn with_pce(self, value: bool) -> (r: Self)
        ensures
            r@ == (if value {
                self@ | 0x100u64
            } else {
                self@ & !0x100u64
            }),
    {
        if value {
            Cr4(self.0 | 0x100u64)
        } else {
            Cr4(self.0 & !0x100u64)
        }
    }

    /// Operating system support for FXSAVE and FXRSTOR instructions.
    ///
    /// If set, enables the use of the `FXSAVE` and `FXRSTOR` instructions.
    pub fn osfxsr(&self) -> (r: bool)
        ensures
            r == (self@ & 0x200u64 != 0),
    {
        self.0 & 0x200u64 != 0
    }

    /// Returns a copy of the value with the `osfxsr` field set to `value`.
    pub fn with_osfxsr(self, value: bool) -> (r: Self)
        ensures
            r@ == (if value {
                self@ | 0x200u64
            } else {
                self@ & !0x200u64
            }),
    {
        if value {
            Cr4(self.0 | 0x200u64)
        } else {
            Cr4(self.0 & !0x200u64)
        }
    }

    /// Operating system support for unmasked SIMD floating point exceptions.
    ///
    /// If set, enables unmasked SSE exceptions.
    pub fn osxmmexcpt(&self) -> (r: bool)
        ensures
            r == (self@ & 0x400u64 != 0),
    {
        self.0 & 0x400u64 != 0
    }

    /// Returns a copy of the value with the `osxmmexcpt` field set to `value`.
    pub fn with_osxmmexcpt(self, value: bool) -> (r: Self)
        ensures
            r@ == (if value {
                self@ | 0x400u64
            } else {
                self@ & !0x400u64
            }),
    {
        if value {
            Cr4(self.0 | 0x400u64)
        } else {
            Cr4(self.0 & !0x400u64)
        }
    }

    /// User-mode instruction prevention.
    ///
    /// If set, the SGDT, SIDT, SLDT, SMSW and STR instructions cannot be executed if CPL > 0.
    pub fn umip(&self) -> (r: bool)
        ensures
            r == (self@ & 0x800u64 != 0),
    {
        self.0 & 0x800u64 != 0
    }

    /// Returns a copy of the value with the `umip` field set to `value`.
    pub fn with_umip(self, value: bool) -> (r: Self)
        ensures
            r@ == (if value {
                self@ | 0x800u64
            } else {
                self@ & !0x800u64
            }),
    {
        if value {
            Cr4(self.0 | 0x800u64)
        } else {
            Cr4(self.0 & !0x800u64)
        }
    }

    /// 57-bit linear addresses.
    ///
    /// If set, enables 5-level paging.
    pub fn la57(&self) -> (r: bool)
        ensures
            r == (self@ & 0x1000u64 != 0),
    {
        self.0 & 0x1000u64 != 0
    }

    /// Returns a copy of the value with the `la57` field set to `value`.
    pub fn with_la57(self, value: bool) -> (r: Self)
        ensures
            r@ == (if value {
                self@ | 0x1000u64
            } else {
                self@ & !0x1000u64
            }),
    {
        if value {
            Cr4(self.0 | 0x1000u64)
        } else {
            Cr4(self.0 & !0x1000u64)
        }
    }

    /// Virtual machine extensions enable.
    ///
    /// If set, enables the use of Intel VT-x x86 virtualization.
    pub fn vmxe(&self) -> (r: bool)
        ensures
            r == (self@ & 0x2000u64 != 0),
    {
        self.0 & 0x2000u64 != 0
    }

    /// Returns a copy of the value with the `vmxe` field set to `value`.
    pub fn with_vmxe(self, value: bool) -> (r: Self)
        ensures
            r@ == (if value {
                self@ | 0x2000u64
            } else {
                self@ & !0x2000u64
            }),
    {
        if value {
            Cr4(self.0 | 0x2000u64)
        } else {
            Cr4(self.0 & !0x2000u64)
        }
    }

    /// Safer mode extensions enable.
    ///
    /// If set, enables the use of Trusted Execution Technology (TXT).
    pub fn smxe(&self) -> (r: bool)
        ensures
            r == (self@ & 0x4000u64 != 0),
    {
        self.0 & 0x4000u64 != 0
    }

    /// Returns a copy of the value with the `smxe` field set to `value`.
    pub fn with_smxe(self, value: bool) -> (r: Self)
        ensures
            r@ == (if value {
                self@ | 0x4000u64
            } else {
                self@ & !0x4000u64
            }),
    {
        if value {
            Cr4(self.0 | 0x4000u64)
        } else {
            Cr4(self.0 & !0x4000u64)
        }
    }

    /// FSGSBASE enable.
    ///
    /// If set, enables the use of the RDFSBASE, RDGSBASE, WRFSBASE, and WRGSBASE instructions.
    pub fn fsgsbase(&self) -> (r: bool)
        ensures
            r == (self@ & 0x10000u64 != 0),
    {
        self.0 & 0x10000u64 != 0
    }

    /// Returns a copy of the value with the `fsgsbase` field set to `value`.
    pub fn with_fsgsbase(self, value: bool) -> (r: Self)
        ensures
            r@ == (if value {
                self@ | 0x10000u64
            } else {
                self@ & !0x10000u64
            }),
    {
        if value {
            Cr4(self.0 | 0x10000u64)
        } else {
            Cr4(self.0 & !0x10000u64)
        }
    }

    /// PCID enable.
    ///
    /// If set, enables the use of process-context identifiers (PCIDs).
    pub fn pcide(&self) -> (r: bool)
        ensures
            r == (self@ & 0x20000u64 != 0),
    {
        self.0 & 0x20000u64 != 0
    }

    /// Returns a copy of the value with the `pcide` field set to `value`.
    pub fn with_pcide(self, value: bool) -> (r: Self)
        ensures
            r@ == (if value {
                self@ | 0x20000u64
            } else {
                self@ & !0x20000u64
            }),
    {
        if value {
            Cr4(self.0 | 0x20000u64)
        } else {
            Cr4(self.0 & !0x20000u64)
        }
    }

    /// XSAVE and processor extended states enable.
    ///
    /// If set, enables the use of XSAVE and processor extended states.
    pub fn osxsave(&self) -> (r: bool)
        ensures
            r == (self@ & 0x40000u64 != 0),
    {
        self.0 & 0x40000u64 != 0
    }

    /// Returns a copy of the value with the `osxsave` field set to `value`.
    pub fn with_osxsave(self, value: bool) -> (r: Self)
        ensures
            r@ == (if value {
                self@ | 0x40000u64
            } else {
                self@ & !0x40000u64
            }),
    {
        if value {
            Cr4(self.0 | 0x40000u64)
        } else {
            Cr4(self.0 & !0x40000u64)
        }
    }

    /// Key locker enable.
    ///
    /// If set, enables the use of the AES key locker instructions.
    pub fn kl(&self) -> (r: bool)
        ensures
            r == (self@ & 0x80000u64 != 0),
    {
        self.0 & 0x80000u64 != 0
    }

    /// Returns a copy of the value with the `kl` field set to `value`.
    pub fn with_kl(self, value: bool) -> (r: Self)
        ensures
            r@ == (if value {
                self@ | 0x80000u64
            } else {
                self@ & !0x80000u64
            }),
    {
        if value {
            Cr4(self.0 | 0x80000u64)
        } else {
            Cr4(self.0 & !0x80000u64)
        }
    }

    /// Supervisor mode execution protection enable.
    ///
    /// If set, execution of code in a higher ring generates a fault.
    pub fn smep(&self) -> (r: bool)
        ensures
            r == (self@ & 0x100000u64 != 0),
    {
        self.0 & 0x100000u64 != 0
    }

    /// Returns a copy of the value with the `smep` field set to `value`.
    pub fn with_smep(self, value: bool) -> (r: Self)
        ensures
            r@ == (if value {
                self@ | 0x100000u64
            } else {
                self@ & !0x100000u64
            }),
    {
        if value {
            Cr4(self.0 | 0x100000u64)
        } else {
            Cr4(self.0 & !0x100000u64)
        }
    }

    /// Supervisor mode access prevention enable.
    ///
    /// If set, access of data in a higher ring generates a fault.
    pub fn smap(&self) -> (r: bool)
        ensures
            r == (self@ & 0x200000u64 != 0),
    {
        self.0 & 0x200000u64 != 0
    }

    /// Returns a copy of the value with the `smap` field set to `value`.
    pub fn with_smap(self, value: bool) -> (r: Self)
        ensures
            r@ == (if value {
                self@ | 0x200000u64
            } else {
                self@ & !0x200000u64
            }),
    {
        if value {
            Cr4(self.0 | 0x200000u64)
        } else {
            Cr4(self.0 & !0x200000u64)
        }
    }

    /// Protection key enable.
    ///
    /// If set, enables the use of protection keys.
    pub fn pke(&self) -> (r: bool)
        ensures
            r == (self@ & 0x400000u64 != 0),
    {
        self.0 & 0x400000u64 != 0
    }

    /// Returns a copy of the value with the `pke` field set to `value`.
    pub fn with_pke(self, value: bool) -> (r: Self)
        ensures
            r@ == (if value {
                self@ | 0x400000u64
            } else {
                self@ & !0x400000u64
            }),
    {
        if value {
            Cr4(self.0 | 0x400000u64)
        } else {
            Cr4(self.0 & !0x400000u64)
        }
    }

    /// Control-flow enforcement technology.
    ///
    /// If set, enables the use of control-flow enforcement technology.
    pub fn cet(&self) -> (r: bool)
        ensures
            r == (self@ & 0x800000u64 != 0),
    {
        self.0 & 0x800000u64 != 0
    }

    /// Returns a copy of the value with the `cet` field set to `value`.
    pub fn with_cet(self, value: bool) -> (r: Self)
        ensures
            r@ == (if value {
                self@ | 0x800000u64
            } else {
                self@ & !0x800000u64
            }),
    {
        if value {
            Cr4(self.0 | 0x800000u64)
        } else {
            Cr4(self.0 & !0x800000u64)
        }
    }

    /// Enable protection keys for supervisor-mode pages.
    ///
    /// If set, enables the use of protection keys for supervisor-mode pages.
    pub fn pks(&self) -> (r: bool)
        ensures
            r == (self@ & 0x1000000u64 != 0),
    {
        self.0 & 0x1000000u64 != 0
    }

    /// Returns a copy of the value with the `pks` field set to `value`.
    pub fn with_pks(self, value: bool) -> (r: Self)
        ensures
            r@ == (if value {
                self@ | 0x1000000u64
            } else {
                self@ & !0x1000000u64
            }),
    {
        if value {
            Cr4(self.0 | 0x1000000u64)
        } else {
            Cr4(self.0 & !0x1000000u64)
        }
    }
}


/// The CR4 value a core switches to once it has booted: `current` with the
/// FSGSBASE instructions enabled and time-stamp reads restricted to ring 0,
/// where CPUID leaf 7 reports FSGSBASE support; `None`, leaving CR4 as it
/// is, where it does not (or where the leaf is not available).
pub fn boot_cr4(current: Cr4, leaf7: Option<CpuidA07C0>) -> (r: Option<Cr4>)
    ensures
        r is Some <==> (leaf7 is Some && leaf7->0.ebx@ & 0x1u32 != 0),
        r is Some ==> r->0@ == (current@ | 0x10000u64) | 0x4u64,
{
    match leaf7 {
        Some(l) => {
            if l.ebx.fsgsbase() {
                Some(current.with_fsgsbase(true).with_tsd(true))
            } else {
                None
            }
        },
        None => None,
    }
}

} // verus!
