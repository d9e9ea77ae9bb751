//! High Precision Event Timer (HPET) register encodings and time keeping.
use vstd::prelude::*;

verus! {

/// Counter size
#[derive(Debug, Clone, Copy, PartialEq, Eq, Structural)]
pub enum HpetCounterSize {
    /// Indicates that the main counter is 32-bits wide (and cannot operate in
    /// 64-bit mode).
    Bits32,
    /// Indicates that the main counter is 64-bits wide (although this does not
    /// preclude it from being operated in a 32-bit mode).
    Bits64,
}

/// The [`HpetRegisters::caps_and_id`] field.
#[derive(Debug, Clone, Copy)]
pub struct HpetCapsAndId(u64);

impl View for HpetCapsAndId {
    type V = u64;

    closed spec fn view(&self) -> u64 {
        self.0
    }
}

impl HpetCapsAndId {
    /// Wraps the raw register value `bits`.
    pub fn new(bits: u64) -> (r: Self)
        ensures
            r@ == bits,
    {
        HpetCapsAndId(bits)
    }

    /// The raw register value.
    pub fn bits(&self) -> (r: u64)
        ensures
            r == self@,
    {
        self.0
    }

    /// This indicates which revision of the function is implemented.
    ///
    /// The value must NOT be `00h`.
    pub fn rev_id(&self) -> (r: u8)
        ensures
            r == ((self@ >> 0u64) & 0xffu64) as u8,
    {
        ((self.0 >> 0u64) & 0xffu64) as u8
    }

    /// Returns a copy of the value with the `rev_id` field set to `value`
    /// (truncated to the field's width).
    pub fn with_rev_id(self, value: u8) -> (r: Self)
        ensures
            r@ == (self@ & !(0xffu64 << 0u64)) | (((value as u64) & 0xffu64) << 0u64),
    {
        HpetCapsAndId((self.0 & !(0xffu64 << 0u64)) | (((value as u64) & 0xffu64) << 0u64))
    }

    /// Number of timers.
    ///
    /// This indicates the number of timers in this block. The number in this field indicates the
    /// **last timer** (i.e. if there are three timers, the value will be `02h`, four timers will be `03h`,
    /// five timers will be `04h`, etc.).
    pub fn num_tim_cap(&self) -> (r: usize)
        ensures
            r == ((self@ >> 8u64) & 0x1fu64) as usize,
    {
        ((self.0 >> 8u64) & 0x1fu64) as usize
    }

    /// Returns a copy of the value with the `num_tim_cap` field set to `value`
    /// (truncated to the field's width).
    pub fn with_num_tim_cap(self, value: usize) -> (r: Self)
        ensures
            r@ == (self@ & !(0x1fu64 << 8u64)) | (((value as u64) & 0x1fu64) << 8u64),
    {
        HpetCapsAndId((self.0 & !(0x1fu64 << 8u64)) | (((value as u64) & 0x1fu64) << 8u64))
    }

    /// Counter size
    pub fn counter_size(&self) -> (r: HpetCounterSize)
        ensures
            r == (if self@ & 0x2000u64 != 0 {
                HpetCounterSize::Bits64
            } else {
                HpetCounterSize::Bits32
            }),
    {
        if self.0 & 0x2000u64 != 0 {
            HpetCounterSize::Bits64
        } else {
            HpetCounterSize::Bits32
        }
    }

    /// Returns a copy of the value with the `counter_size` field set to `value`.
    pub fn with_counter_size(self, value: HpetCounterSize) -> (r: Self)
        ensures
            r@ == (match value {
                HpetCounterSize::Bits32 => self@ & !0x2000u64,
                HpetCounterSize::Bits64 => self@ | 0x2000u64,
            }),
    {
        match value {
            HpetCounterSize::Bits32 => HpetCapsAndId(self.0 & !0x2000u64),
            HpetCounterSize::Bits64 => HpetCapsAndId(self.0 | 0x2000u64),
        }
    }

    /// LegacyReplacement Route Capable
    ///
    /// If this is `true`, it indicates that the hardware supports the LegacyReplacement Interrupt Route option.
    pub fn leg_rt_cap(&self) -> (r: bool)
        ensures
            r == (self@ & 0x8000u64 != 0),
    {
        self.0 & 0x8000u64 != 0
    }

    /// Returns a copy of the value with the `leg_rt_cap` field set to `value`.
    pub fn with_leg_rt_cap(self, value: bool) -> (r: Self)
        ensures
            r@ == (if value {
                self@ | 0x8000u64
            } else {
                self@ & !0x8000u64
            }),
    {
        if value {
            HpetCapsAndId(self.0 | 0x8000u64)
        } else {
            HpetCapsAndId(self.0 & !0x8000u64)
        }
    }

    /// This read-only field will be the same as what would be assigned if this logic was a PCI function.
    pub fn vendor_id(&self) -> (r: u16)
        ensures
            r == ((self@ >> 16u64) & 0xffffu64) as u16,
    {
        ((self.0 >> 16u64) & 0xffffu64) as u16
    }

    /// Returns a copy of the value with the `vendor_id` field set to `value`
    /// (truncated to the field's width).
    pub fn with_vendor_id(self, value: u16) -> (r: Self)
        ensures
            r@ == (self@ & !(0xffffu64 << 16u64)) | (((value as u64) & 0xffffu64) << 16u64),
    {
        HpetCapsAndId((self.0 & !(0xffffu64 << 16u64)) | (((value as u64) & 0xffffu64) << 16u64))
    }

    /// Main Counter Tick Period
    ///
    /// This read-only field indicates the period at which the counter increments in femptoseconds (`10^-15` seconds).
    /// A value of `0` in this field is not permitted. The value in this field must be less than or equal to `05F5E100h`
    /// (`10^8` femptoseconds = 100 nanoseconds). The resolution must be in femptoseconds (rather than picoseconds)
    /// in order to achieve a resolution of 50 ppm.
    pub fn counter_clk_period(&self) -> (r: u32)
        ensures
            r == ((self@ >> 32u64) & 0xffffffffu64) as u32,
    {
        ((self.0 >> 32u64) & 0xffffffffu64) as u32
    }

    /// Returns a copy of the value with the `counter_clk_period` field set to `value`
    /// (truncated to the field's width).
    pub fn with_counter_clk_period(self, value: u32) -> (r: Self)
        ensures
            r@ == (self@ & !(0xffffffffu64 << 32u64)) | (((value as u64) & 0xffffffffu64) << 32u64),
    {
        HpetCapsAndId((self.0 & !(0xffffffffu64 << 32u64)) | (((value as u64) & 0xffffffffu64) << 32u64))
    }
}

/// The general configuration register ([`HpetRegisters::gen_cfg`] field).
#[derive(Debug, Clone, Copy)]
pub struct HpetGeneralConfig(u64);

impl View for HpetGeneralConfig {
    type V = u64;

    closed spec fn view(&self) -> u64 {
        self.0
    }
}

impl HpetGeneralConfig {
    /// Wraps the raw register value `bits`.
    pub fn new(bits: u64) -> (r: Self)
        ensures
            r@ == bits,
    {
        HpetGeneralConfig(bits)
    }

    /// The raw register value.
    pub fn bits(&self) -> (r: u64)
        ensures
            r == self@,
    {
        self.0
    }

    /// When `true` the main counter will begin running, and interrupts
    /// will be delivered (if configured).
    pub fn enable_cfg(&self) -> (r: bool)
        ensures
            r == (self@ & 0x1u64 != 0),
    {
        self.0 & 0x1u64 != 0
    }

    /// Returns a copy of the value with the `enable_cfg` field set to `value`.
    pub fn with_enable_cfg(self, value: bool) -> (r: Self)
        ensures
            r@ == (if value {
                self@ | 0x1u64
            } else {
                self@ & !0x1u64
            }),
    {
        if value {
            HpetGeneralConfig(self.0 | 0x1u64)
        } else {
            HpetGeneralConfig(self.0 & !0x1u64)
        }
    }

    /// LegacyReplacement Route:
    ///
    /// - `false` – Doesn’t support LegacyReplacement Route
    /// – `true` - Supports LegacyReplacement Route
    ///
    /// If the [`Self::enable_cfg`] bit and the `leg_rt_cfg` bit are both set,
    /// then the interrupts will be routed as follows:
    ///
    /// - Timer 0 will be routed to IRQ0 in Non-APIC or IRQ2 in the I/O APIC
    /// - Timer 1 will be routed to IRQ8 in Non-APIC or IRQ8 in the I/O APIC
    /// - Timer 2-n will be routed as per the routing in the timer n config registers.
    ///
    /// If the LegacyReplacement Route bit is set, the individual routing bits for timers 0 and 1
    /// (APIC or FSB) will have no impact.
    ///
    /// If the LegacyReplacement Route bit is not set, the individual routing bits for
    /// each of the timers are used.
    pub fn leg_rt_cfg(&self) -> (r: bool)
        ensures
            r == (self@ & 0x2u64 != 0),
    {
        self.0 & 0x2u64 != 0
    }

    /// Returns a copy of the value with the `leg_rt_cfg` field set to `value`.
    pub fn with_leg_rt_cfg(self, value: bool) -> (r: Self)
        ensures
            r@ == (if value {
                self@ | 0x2u64
            } else {
                self@ & !0x2u64
            }),
    {
        if value {
            HpetGeneralConfig(self.0 | 0x2u64)
        } else {
            HpetGeneralConfig(self.0 & !0x2u64)
        }
    }
}

/// The general interrupt status register ([`HpetRegisters::gen_status`] field).
#[derive(Debug, Clone, Copy)]
pub struct HpetGeneralStatus(u64);

impl View for HpetGeneralStatus {
    type V = u64;

    closed spec fn view(&self) -> u64 {
        self.0
    }
}

impl HpetGeneralStatus {
    /// Wraps the raw register value `bits`.
    pub fn new(bits: u64) -> (r: Self)
        ensures
            r@ == bits,
    {
        HpetGeneralStatus(bits)
    }

    /// The raw register value.
    pub fn bits(&self) -> (r: u64)
        ensures
            r == self@,
    {
        self.0
    }

    /// Timer 0 interrupt active.
    ///
    /// The functionality of this bit depends on whether the edge or
    /// level-triggered mode is used for this timer:
    ///
    /// - **If set to level-triggered mode:** This bit defaults to `false`. This bit will be set by hardware
    /// if the corresponding timer interrupt is active. Once the bit is set, it can be cleared by software
    /// writing a `true` to the same bit position. Writes of `false` to this bit will have no effect.
    /// For example, if the bit is already set a write of `false` will not clear the bit.
    /// - **If set to edge-triggered mode:** This bit should be ignored by software. Software should
    /// always write `false` to this bit.
    pub fn t0_int_sts(&self) -> (r: bool)
        ensures
            r == (self@ & 0x1u64 != 0),
    {
        self.0 & 0x1u64 != 0
    }

    /// Returns a copy of the value with the `t0_int_sts` field set to `value`.
    pub fn with_t0_int_sts(self, value: bool) -> (r: Self)
        ensures
            r@ == (if value {
                self@ | 0x1u64
            } else {
                self@ & !0x1u64
            }),
    {
        if value {
            HpetGeneralStatus(self.0 | 0x1u64)
        } else {
            HpetGeneralStatus(self.0 & !0x1u64)
        }
    }

    /// Timer 1 interrupt active.
    ///
    /// See [`Self::t0_int_sts`] for behavior information.
    pub fn t1_int_sts(&self) -> (r: bool)
        ensures
            r == (self@ & 0x2u64 != 0),
    {
        self.0 & 0x2u64 != 0
    }

    /// Returns a copy of the value with the `t1_int_sts` field set to `value`.
    pub fn with_t1_int_sts(self, value: bool) -> (r: Self)
        ensures
            r@ == (if value {
                self@ | 0x2u64
            } else {
                self@ & !0x2u64
            }),
    {
        if value {
            HpetGeneralStatus(self.0 | 0x2u64)
        } else {
            HpetGeneralStatus(self.0 & !0x2u64)
        }
    }

    /// Timer 2 interrupt active.
    ///
    /// See [`Self::t0_int_sts`] for behavior information.
    pub fn t2_int_sts(&self) -> (r: bool)
        ensures
            r == (self@ & 0x4u64 != 0),
    {
        self.0 & 0x4u64 != 0
    }

    /// Returns a copy of the value with the `t2_int_sts` field set to `value`.
    pub fn with_t2_int_sts(self, value: bool) -> (r: Self)
        ensures
            r@ == (if value {
                self@ | 0x4u64
            } else {
                self@ & !0x4u64
            }),
    {
        if value {
            HpetGeneralStatus(self.0 | 0x4u64)
        } else {
            HpetGeneralStatus(self.0 & !0x4u64)
        }
    }

    /// Timer 3 interrupt active.
    ///
    /// See [`Self::t0_int_sts`] for behavior information.
    pub fn t3_int_sts(&self) -> (r: bool)
        ensures
            r == (self@ & 0x8u64 != 0),
    {
        self.0 & 0x8u64 != 0
    }

    /// Returns a copy of the value with the `t3_int_sts` field set to `value`.
    pub fn with_t3_int_sts(self, value: bool) -> (r: Self)
        ensures
            r@ == (if value {
                self@ | 0x8u64
            } else {
                self@ & !0x8u64
            }),
    {
        if value {
            HpetGeneralStatus(self.0 | 0x8u64)
        } else {
            HpetGeneralStatus(self.0 & !0x8u64)
        }
    }

    /// Timer 4 interrupt active.
    ///
    /// See [`Self::t0_int_sts`] for behavior information.
    pub fn t4_int_sts(&self) -> (r: bool)
        ensures
            r == (self@ & 0x10u64 != 0),
    {
        self.0 & 0x10u64 != 0
    }

    /// Returns a copy of the value with the `t4_int_sts` field set to `value`.
    pub fn with_t4_int_sts(self, value: bool) -> (r: Self)
        ensures
            r@ == (if value {
                self@ | 0x10u64
            } else {
                self@ & !0x10u64
            }),
    {
        if value {
            HpetGeneralStatus(self.0 | 0x10u64)
        } else {
            HpetGeneralStatus(self.0 & !0x10u64)
        }
    }

    /// Timer 5 interrupt active.
    ///
    /// See [`Self::t0_int_sts`] for behavior information.
    pub fn t5_int_sts(&self) -> (r: bool)
        ensures
            r == (self@ & 0x20u64 != 0),
    {
        self.0 & 0x20u64 != 0
    }

    /// Returns a copy of the value with the `t5_int_sts` field set to `value`.
    pub fn with_t5_int_sts(self, value: bool) -> (r: Self)
        ensures
            r@ == (if value {
                self@ | 0x20u64
            } else {
                self@ & !0x20u64
            }),
    {
        if value {
            HpetGeneralStatus(self.0 | 0x20u64)
        } else {
            HpetGeneralStatus(self.0 & !0x20u64)
        }
    }

    /// Timer 6 interrupt active.
    ///
    /// See [`Self::t0_int_sts`] for behavior information.
    pub fn t6_int_sts(&self) -> (r: bool)
        ensures
            r == (self@ & 0x40u64 != 0),
    {
        self.0 & 0x40u64 != 0
    }

    /// Returns a copy of the value with the `t6_int_sts` field set to `value`.
    pub fn with_t6_int_sts(self, value: bool) -> (r: Self)
        ensures
            r@ == (if value {
                self@ | 0x40u64
            } else {
                self@ & !0x40u64
            }),
    {
        if value {
            HpetGeneralStatus(self.0 | 0x40u64)
        } else {
            HpetGeneralStatus(self.0 & !0x40u64)
        }
    }

    /// Timer 7 interrupt active.
    ///
    /// See [`Self::t0_int_sts`] for behavior information.
    pub fn t7_int_sts(&self) -> (r: bool)
        ensures
            r == (self@ & 0x80u64 != 0),
    {
        self.0 & 0x80u64 != 0
    }

    /// Returns a copy of the value with the `t7_int_sts` field set to `value`.
    pub fn with_t7_int_sts(self, value: bool) -> (r: Self)
        ensures
            r@ == (if value {
                self@ | 0x80u64
            } else {
                self@ & !0x80u64
            }),
    {
        if value {
            HpetGeneralStatus(self.0 | 0x80u64)
        } else {
            HpetGeneralStatus(self.0 & !0x80u64)
        }
    }

    /// Timer 8 interrupt active.
    ///
    /// See [`Self::t0_int_sts`] for behavior information.
    pub fn t8_int_sts(&self) -> (r: bool)
        ensures
            r == (self@ & 0x100u64 != 0),
    {
        self.0 & 0x100u64 != 0
    }

    /// Returns a copy of the value with the `t8_int_sts` field set to `value`.
    pub fn with_t8_int_sts(self, value: bool) -> (r: Self)
        ensures
            r@ == (if value {
                self@ | 0x100u64
            } else {
                self@ & !0x100u64
            }),
    {
        if value {
            HpetGeneralStatus(self.0 | 0x100u64)
        } else {
            HpetGeneralStatus(self.0 & !0x100u64)
        }
    }

    /// Timer 9 interrupt active.
    ///
    /// See [`Self::t0_int_sts`] for behavior information.
    pub fn t9_int_sts(&self) -> (r: bool)
        ensures
            r == (self@ & 0x200u64 != 0),
    {
        self.0 & 0x200u64 != 0
    }

    /// Returns a copy of the value with the `t9_int_sts` field set to `value`.
    pub fn with_t9_int_sts(self, value: bool) -> (r: Self)
        ensures
            r@ == (if value {
                self@ | 0x200u64
            } else {
                self@ & !0x200u64
            }),
    {
        if value {
            HpetGeneralStatus(self.0 | 0x200u64)
        } else {
            HpetGeneralStatus(self.0 & !0x200u64)
        }
    }

    /// Timer 10 interrupt active.
    ///
    /// See [`Self::t0_int_sts`] for behavior information.
    pub fn t10_int_sts(&self) -> (r: bool)
        ensures
            r == (self@ & 0x400u64 != 0),
    {
        self.0 & 0x400u64 != 0
    }

    /// Returns a copy of the value with the `t10_int_sts` field set to `value`.
    pub fn with_t10_int_sts(self, value: bool) -> (r: Self)
        ensures
            r@ == (if value {
                self@ | 0x400u64
            } else {
                self@ & !0x400u64
            }),
    {
        if value {
            HpetGeneralStatus(self.0 | 0x400u64)
        } else {
            HpetGeneralStatus(self.0 & !0x400u64)
        }
    }

    /// Timer 11 interrupt active.
    ///
    /// See [`Self::t0_int_sts`] for behavior information.
    pub fn t11_int_sts(&self) -> (r: bool)
        ensures
            r == (self@ & 0x800u64 != 0),
    {
        self.0 & 0x800u64 != 0
    }

    /// Returns a copy of the value with the `t11_int_sts` field set to `value`.
    pub fn with_t11_int_sts(self, value: bool) -> (r: Self)
        ensures
            r@ == (if value {
                self@ | 0x800u64
            } else {
                self@ & !0x800u64
            }),
    {
        if value {
            HpetGeneralStatus(self.0 | 0x800u64)
        } else {
            HpetGeneralStatus(self.0 & !0x800u64)
        }
    }

    /// Timer 12 interrupt active.
    ///
    /// See [`Self::t0_int_sts`] for behavior information.
    pub fn t12_int_sts(&self) -> (r: bool)
        ensures
            r == (self@ & 0x1000u64 != 0),
    {
        self.0 & 0x1000u64 != 0
    }

    /// Returns a copy of the value with the `t12_int_sts` field set to `value`.
    pub fn with_t12_int_sts(self, value: bool) -> (r: Self)
        ensures
            r@ == (if value {
                self@ | 0x1000u64
            } else {
                self@ & !0x1000u64
            }),
    {
        if value {
            HpetGeneralStatus(self.0 | 0x1000u64)
        } else {
            HpetGeneralStatus(self.0 & !0x1000u64)
        }
    }

    /// Timer 13 interrupt active.
    ///
    /// See [`Self::t0_int_sts`] for behavior information.
    pub fn t13_int_sts(&self) -> (r: bool)
        ensures
            r == (self@ & 0x2000u64 != 0),
    {
        self.0 & 0x2000u64 != 0
    }

    /// Returns a copy of the value with the `t13_int_sts` field set to `value`.
    pub fn with_t13_int_sts(self, value: bool) -> (r: Self)
        ensures
            r@ == (if value {
                self@ | 0x2000u64
            } else {
                self@ & !0x2000u64
            }),
    {
        if value {
            HpetGeneralStatus(self.0 | 0x2000u64)
        } else {
            HpetGeneralStatus(self.0 & !0x2000u64)
        }
    }

    /// Timer 14 interrupt active.
    ///
    /// See [`Self::t0_int_sts`] for behavior information.
    pub fn t14_int_sts(&self) -> (r: bool)
        ensures
            r == (self@ & 0x4000u64 != 0),
    {
        self.0 & 0x4000u64 != 0
    }

    /// Returns a copy of the value with the `t14_int_sts` field set to `value`.
    pub fn with_t14_int_sts(self, value: bool) -> (r: Self)
        ensures
            r@ == (if value {
                self@ | 0x4000u64
            } else {
                self@ & !0x4000u64
            }),
    {
        if value {
            HpetGeneralStatus(self.0 | 0x4000u64)
        } else {
            HpetGeneralStatus(self.0 & !0x4000u64)
        }
    }

    /// Timer 15 interrupt active.
    ///
    /// See [`Self::t0_int_sts`] for behavior information.
    pub fn t15_int_sts(&self) -> (r: bool)
        ensures
            r == (self@ & 0x8000u64 != 0),
    {
        self.0 & 0x8000u64 != 0
    }

    /// Returns a copy of the value with the `t15_int_sts` field set to `value`.
    pub fn with_t15_int_sts(self, value: bool) -> (r: Self)
        ensures
            r@ == (if value {
                self@ | 0x8000u64
            } else {
                self@ & !0x8000u64
            }),
    {
        if value {
            HpetGeneralStatus(self.0 | 0x8000u64)
        } else {
            HpetGeneralStatus(self.0 & !0x8000u64)
        }
    }

    /// Timer 16 interrupt active.
    ///
    /// See [`Self::t0_int_sts`] for behavior information.
    pub fn t16_int_sts(&self) -> (r: bool)
        ensures
            r == (self@ & 0x10000u64 != 0),
    {
        self.0 & 0x10000u64 != 0
    }

    /// Returns a copy of the value with the `t16_int_sts` field set to `value`.
    pub fn with_t16_int_sts(self, value: bool) -> (r: Self)
        ensures
            r@ == (if value {
                self@ | 0x10000u64
            } else {
                self@ & !0x10000u64
            }),
    {
        if value {
            HpetGeneralStatus(self.0 | 0x10000u64)
        } else {
            HpetGeneralStatus(self.0 & !0x10000u64)
        }
    }

    /// Timer 17 interrupt active.
    ///
    /// See [`Self::t0_int_sts`] for behavior information.
    pub fn t17_int_sts(&self) -> (r: bool)
        ensures
            r == (self@ & 0x20000u64 != 0),
    {
        self.0 & 0x20000u64 != 0
    }

    /// Returns a copy of the value with the `t17_int_sts` field set to `value`.
    pub fn with_t17_int_sts(self, value: bool) -> (r: Self)
        ensures
            r@ == (if value {
                self@ | 0x20000u64
            } else {
                self@ & !0x20000u64
            }),
    {
        if value {
            HpetGeneralStatus(self.0 | 0x20000u64)
        } else {
            HpetGeneralStatus(self.0 & !0x20000u64)
        }
    }

    /// Timer 18 interrupt active.
    ///
    /// See [`Self::t0_int_sts`] for behavior information.
    pub fn t18_int_sts(&self) -> (r: bool)
        ensures
            r == (self@ & 0x40000u64 != 0),
    {
        self.0 & 0x40000u64 != 0
    }

    /// Returns a copy of the value with the `t18_int_sts` field set to `value`.
    pub fn with_t18_int_sts(self, value: bool) -> (r: Self)
        ensures
            r@ == (if value {
                self@ | 0x40000u64
            } else {
                self@ & !0x40000u64
            }),
    {
        if value {
            HpetGeneralStatus(self.0 | 0x40000u64)
        } else {
            HpetGeneralStatus(self.0 & !0x40000u64)
        }
    }

    /// Timer 19 interrupt active.
    ///
    /// See [`Self::t0_int_sts`] for behavior information.
    pub fn t19_int_sts(&self) -> (r: bool)
        ensures
            r == (self@ & 0x80000u64 != 0),
    {
        self.0 & 0x80000u64 != 0
    }

    /// Returns a copy of the value with the `t19_int_sts` field set to `value`.
    pub fn with_t19_int_sts(self, value: bool) -> (r: Self)
        ensures
            r@ == (if value {
                self@ | 0x80000u64
            } else {
                self@ & !0x80000u64
            }),
    {
        if value {
            HpetGeneralStatus(self.0 | 0x80000u64)
        } else {
            HpetGeneralStatus(self.0 & !0x80000u64)
        }
    }

    /// Timer 20 interrupt active.
    ///
    /// See [`Self::t0_int_sts`] for behavior information.
    pub fn t20_int_sts(&self) -> (r: bool)
        ensures
            r == (self@ & 0x100000u64 != 0),
    {
        self.0 & 0x100000u64 != 0
    }

    /// Returns a copy of the value with the `t20_int_sts` field set to `value`.
    pub fn with_t20_int_sts(self, value: bool) -> (r: Self)
        ensures
            r@ == (if value {
                self@ | 0x100000u64
            } else {
                self@ & !0x100000u64
            }),
    {
        if value {
            HpetGeneralStatus(self.0 | 0x100000u64)
        } else {
            HpetGeneralStatus(self.0 & !0x100000u64)
        }
    }

    /// Timer 21 interrupt active.
    ///
    /// See [`Self::t0_int_sts`] for behavior information.
    pub fn t21_int_sts(&self) -> (r: bool)
        ensures
            r == (self@ & 0x200000u64 != 0),
    {
        self.0 & 0x200000u64 != 0
    }

    /// Returns a copy of the value with the `t21_int_sts` field set to `value`.
    pub fn with_t21_int_sts(self, value: bool) -> (r: Self)
        ensures
            r@ == (if value {
                self@ | 0x200000u64
            } else {
                self@ & !0x200000u64
            }),
    {
        if value {
            HpetGeneralStatus(self.0 | 0x200000u64)
        } else {
            HpetGeneralStatus(self.0 & !0x200000u64)
        }
    }

    /// Timer 22 interrupt active.
    ///
    /// See [`Self::t0_int_sts`] for behavior information.
    pub fn t22_int_sts(&self) -> (r: bool)
        ensures
            r == (self@ & 0x400000u64 != 0),
    {
        self.0 & 0x400000u64 != 0
    }

    /// Returns a copy of the value with the `t22_int_sts` field set to `value`.
    pub fn with_t22_int_sts(self, value: bool) -> (r: Self)
        ensures
            r@ == (if value {
                self@ | 0x400000u64
            } else {
                self@ & !0x400000u64
            }),
    {
        if value {
            HpetGeneralStatus(self.0 | 0x400000u64)
        } else {
            HpetGeneralStatus(self.0 & !0x400000u64)
        }
    }

    /// Timer 23 interrupt active.
    ///
    /// See [`Self::t0_int_sts`] for behavior information.
    pub fn t23_int_sts(&self) -> (r: bool)
        ensures
            r == (self@ & 0x800000u64 != 0),
    {
        self.0 & 0x800000u64 != 0
    }

    /// Returns a copy of the value with the `t23_int_sts` field set to `value`.
    pub fn with_t23_int_sts(self, value: bool) -> (r: Self)
        ensures
            r@ == (if value {
                self@ | 0x800000u64
            } else {
                self@ & !0x800000u64
            }),
    {
        if value {
            HpetGeneralStatus(self.0 | 0x800000u64)
        } else {
            HpetGeneralStatus(self.0 & !0x800000u64)
        }
    }

    /// Timer 24 interrupt active.
    ///
    /// See [`Self::t0_int_sts`] for behavior information.
    pub fn t24_int_sts(&self) -> (r: bool)
        ensures
            r == (self@ & 0x1000000u64 != 0),
    {
        self.0 & 0x1000000u64 != 0
    }

    /// Returns a copy of the value with the `t24_int_sts` field set to `value`.
    pub fn with_t24_int_sts(self, value: bool) -> (r: Self)
        ensures
            r@ == (if value {
                self@ | 0x1000000u64
            } else {
                self@ & !0x1000000u64
            }),
    {
        if value {
            HpetGeneralStatus(self.0 | 0x1000000u64)
        } else {
            HpetGeneralStatus(self.0 & !0x1000000u64)
        }
    }

    /// Timer 25 interrupt active.
    ///
    /// See [`Self::t0_int_sts`] for behavior information.
    pub fn t25_int_sts(&self) -> (r: bool)
        ensures
            r == (self@ & 0x2000000u64 != 0),
    {
        self.0 & 0x2000000u64 != 0
    }

    /// Returns a copy of the value with the `t25_int_sts` field set to `value`.
    pub fn with_t25_int_sts(self, value: bool) -> (r: Self)
        ensures
            r@ == (if value {
                self@ | 0x2000000u64
            } else {
                self@ & !0x2000000u64
            }),
    {
        if value {
            HpetGeneralStatus(self.0 | 0x2000000u64)
        } else {
            HpetGeneralStatus(self.0 & !0x2000000u64)
        }
    }

    /// Timer 26 interrupt active.
    ///
    /// See [`Self::t0_int_sts`] for behavior information.
    pub fn t26_int_sts(&self) -> (r: bool)
        ensures
            r == (self@ & 0x4000000u64 != 0),
    {
        self.0 & 0x4000000u64 != 0
    }

    /// Returns a copy of the value with the `t26_int_sts` field set to `value`.
    pub fn with_t26_int_sts(self, value: bool) -> (r: Self)
        ensures
            r@ == (if value {
                self@ | 0x4000000u64
            } else {
                self@ & !0x4000000u64
            }),
    {
        if value {
            HpetGeneralStatus(self.0 | 0x4000000u64)
        } else {
            HpetGeneralStatus(self.0 & !0x4000000u64)
        }
    }

    /// Timer 27 interrupt active.
    ///
    /// See [`Self::t0_int_sts`] for behavior information.
    pub fn t27_int_sts(&self) -> (r: bool)
        ensures
            r == (self@ & 0x8000000u64 != 0),
    {
        self.0 & 0x8000000u64 != 0
    }

    /// Returns a copy of the value with the `t27_int_sts` field set to `value`.
    pub fn with_t27_int_sts(self, value: bool) -> (r: Self)
        ensures
            r@ == (if value {
                self@ | 0x8000000u64
            } else {
                self@ & !0x8000000u64
            }),
    {
        if value {
            HpetGeneralStatus(self.0 | 0x8000000u64)
        } else {
            HpetGeneralStatus(self.0 & !0x8000000u64)
        }
    }

    /// Timer 28 interrupt active.
    ///
    /// See [`Self::t0_int_sts`] for behavior information.
    pub fn t28_int_sts(&self) -> (r: bool)
        ensures
            r == (self@ & 0x10000000u64 != 0),
    {
        self.0 & 0x10000000u64 != 0
    }

    /// Returns a copy of the value with the `t28_int_sts` field set to `value`.
    pub fn with_t28_int_sts(self, value: bool) -> (r: Self)
        ensures
            r@ == (if value {
                self@ | 0x10000000u64
            } else {
                self@ & !0x10000000u64
            }),
    {
        if value {
            HpetGeneralStatus(self.0 | 0x10000000u64)
        } else {
            HpetGeneralStatus(self.0 & !0x10000000u64)
        }
    }

    /// Timer 29 interrupt active.
    ///
    /// See [`Self::t0_int_sts`] for behavior information.
    pub fn t29_int_sts(&self) -> (r: bool)
        ensures
            r == (self@ & 0x20000000u64 != 0),
    {
        self.0 & 0x20000000u64 != 0
    }

    /// Returns a copy of the value with the `t29_int_sts` field set to `value`.
    pub fn with_t29_int_sts(self, value: bool) -> (r: Self)
        ensures
            r@ == (if value {
                self@ | 0x20000000u64
            } else {
                self@ & !0x20000000u64
            }),
    {
        if value {
            HpetGeneralStatus(self.0 | 0x20000000u64)
        } else {
            HpetGeneralStatus(self.0 & !0x20000000u64)
        }
    }

    /// Timer 30 interrupt active.
    ///
    /// See [`Self::t0_int_sts`] for behavior information.
    pub fn t30_int_sts(&self) -> (r: bool)
        ensures
            r == (self@ & 0x40000000u64 != 0),
    {
        self.0 & 0x40000000u64 != 0
    }

    /// Returns a copy of the value with the `t30_int_sts` field set to `value`.
    pub fn with_t30_int_sts(self, value: bool) -> (r: Self)
        ensures
            r@ == (if value {
                self@ | 0x40000000u64
            } else {
                self@ & !0x40000000u64
            }),
    {
        if value {
            HpetGeneralStatus(self.0 | 0x40000000u64)
        } else {
            HpetGeneralStatus(self.0 & !0x40000000u64)
        }
    }

    /// Timer 31 interrupt active.
    ///
    /// See [`Self::t0_int_sts`] for behavior information.
    pub fn t31_int_sts(&self) -> (r: bool)
        ensures
            r == (self@ & 0x80000000u64 != 0),
    {
        self.0 & 0x80000000u64 != 0
    }

    /// Returns a copy of the value with the `t31_int_sts` field set to `value`.
    pub fn with_t31_int_sts(self, value: bool) -> (r: Self)
        ensures
            r@ == (if value {
                self@ | 0x80000000u64
            } else {
                self@ & !0x80000000u64
            }),
    {
        if value {
            HpetGeneralStatus(self.0 | 0x80000000u64)
        } else {
            HpetGeneralStatus(self.0 & !0x80000000u64)
        }
    }
}

/// Interrupt Type
#[derive(Debug, Clone, Copy, PartialEq, Eq, Structural)]
pub enum HpetTimerInterruptType {
    /// The timer interrupt is edge triggered.
    ///
    /// This means that an edge-type interrupt is generated.
    /// If another interrupt occurs, another edge will be generated.
    Edge,
    /// The timer interrupt is level triggered.
    ///
    /// This means that a level-triggered interrupt is generated.
    /// The interrupt will be held active until it is cleared by
    /// writing to the bit in the General Interrupt Status Register.
    /// If another interrupt occurs before the interrupt is cleared,
    /// the interrupt will remain active.
    Level,
}

/// Timer Type.
///
/// If the [`HpetTimerCapabilities::per_int()`] bit is [`HpetTimerCapability::PeriodicCapable`]
/// and this bit is [`HpetTimerType::Periodic`] then the timer will generate
/// periodic interrupts rather than one-shot interrupts.
///
/// If [`HpetTimerCapabilities::per_int()`] is instead [`HpetTimerCapability::OneShotOnly`], this
/// bit is ignored. Users _should not_ set this to `Periodic`.
///
/// **Note that the timer counter comparator operates in an unexpected manner
/// under periodic mode that must be coded differently than one-shot timers.**
#[derive(Debug, Clone, Copy, PartialEq, Eq, Structural)]
pub enum HpetTimerType {
    /// The timer operates in one-shot mode.
    OneShot,
    /// The timer operates in period mode, generating interrupts at
    /// regular intervals.
    Periodic,
}

/// Whether or not periodic mode is supported by this timer.
#[derive(Debug, Clone, Copy, PartialEq, Eq, Structural)]
pub enum HpetTimerCapability {
    /// The timer only supports one-shot mode.
    OneShotOnly,
    /// The timer supports periodic mode, which can be enabled
    /// by setting [`HpetTimerCapabilities::t_type`] to [`HpetTimerType::Periodic`].
    PeriodicCapable,
}

/// The size of the timer's counter.
#[derive(Debug, Clone, Copy, PartialEq, Eq, Structural)]
pub enum HpetTimerSize {
    /// The counter width is 32-bits.
    Bits32,
    /// The counter width is 64-bits.
    Bits64,
}

/// HPET Timer `n` Configuration Register ([`HpetTimer::caps_and_config`] field).
#[derive(Debug, Clone, Copy)]
pub struct HpetTimerCapabilities(u64);

impl View for HpetTimerCapabilities {
    type V = u64;

    closed spec fn view(&self) -> u64 {
        self.0
    }
}

impl HpetTimerCapabilities {
    /// Wraps the raw register value `bits`.
    pub fn new(bits: u64) -> (r: Self)
        ensures
            r@ == bits,
    {
        HpetTimerCapabilities(bits)
    }

    /// The raw register value.
    pub fn bits(&self) -> (r: u64)
        ensures
            r == self@,
    {
        self.0
    }

    /// Interrupt Type
    pub fn int_type(&self) -> (r: HpetTimerInterruptType)
        ensures
            r == (if self@ & 0x2u64 != 0 {
                HpetTimerInterruptType::Level
            } else {
                HpetTimerInterruptType::Edge
            }),
    {
        if self.0 & 0x2u64 != 0 {
            HpetTimerInterruptType::Level
        } else {
            HpetTimerInterruptType::Edge
        }
    }

    /// Returns a copy of the value with the `int_type` field set to `value`.
    pub fn with_int_type(self, value: HpetTimerInterruptType) -> (r: Self)
        ensures
            r@ == (match value {
                HpetTimerInterruptType::Edge => self@ & !0x2u64,
                HpetTimerInterruptType::Level => self@ | 0x2u64,
            }),
    {
        match value {
            HpetTimerInterruptType::Edge => HpetTimerCapabilities(self.0 & !0x2u64),
            HpetTimerInterruptType::Level => HpetTimerCapabilities(self.0 | 0x2u64),
        }
    }

    /// Interrupt enable.
    ///
    /// This read/write bit must be set to enable the timer to cause an
    /// interrupt when the timer event fires
    ///
    /// **Note:** If this bit is `false`, the timer will still operate
    /// and generate appropriate status bits, but will not cause an interrupt.
    pub fn int_enb(&self) -> (r: bool)
        ensures
            r == (self@ & 0x4u64 != 0),
    {
        self.0 & 0x4u64 != 0
    }

    /// Returns a copy of the value with the `int_enb` field set to `value`.
    pub fn with_int_enb(self, value: bool) -> (r: Self)
        ensures
            r@ == (if value {
                self@ | 0x4u64
            } else {
                self@ & !0x4u64
            }),
    {
        if value {
            HpetTimerCapabilities(self.0 | 0x4u64)
        } else {
            HpetTimerCapabilities(self.0 & !0x4u64)
        }
    }

    /// Timer Type.
    ///
    /// If the [`HpetTimerCapabilities::per_int()`] bit is [`HpetTimerCapability::PeriodicCapable`]
    /// and this bit is [`HpetTimerType::Periodic`] then the timer will generate
    /// periodic interrupts rather than one-shot interrupts.
    ///
    /// If [`HpetTimerCapabilities::per_int()`] is instead [`HpetTimerCapability::OneShotOnly`], this
    /// bit is ignored. Users _should not_ set this to `Periodic`.
    ///
    /// **Note that the timer counter comparator operates in an unexpected manner
    /// under periodic mode that must be coded differently than one-shot timers.**
    pub fn t_type(&self) -> (r: HpetTimerType)
        ensures
            r == (if self@ & 0x8u64 != 0 {
                HpetTimerType::Periodic
            } else {
                HpetTimerType::OneShot
            }),
    {
        if self.0 & 0x8u64 != 0 {
            HpetTimerType::Periodic
        } else {
            HpetTimerType::OneShot
        }
    }

    /// Returns a copy of the value with the `t_type` field set to `value`.
    pub fn with_t_type(self, value: HpetTimerType) -> (r: Self)
        ensures
            r@ == (match value {
                HpetTimerType::OneShot => self@ & !0x8u64,
                HpetTimerType::Periodic => self@ | 0x8u64,
            }),
    {
        match value {
            HpetTimerType::OneShot => HpetTimerCapabilities(self.0 & !0x8u64),
            HpetTimerType::Periodic => HpetTimerCapabilities(self.0 | 0x8u64),
        }
    }

    /// Whether or not periodic mode is supported by this timer.
    pub fn per_int(&self) -> (r: HpetTimerCapability)
        ensures
            r == (if self@ & 0x10u64 != 0 {
                HpetTimerCapability::PeriodicCapable
            } else {
                HpetTimerCapability::OneShotOnly
            }),
    {
        if self.0 & 0x10u64 != 0 {
            HpetTimerCapability::PeriodicCapable
        } else {
            HpetTimerCapability::OneShotOnly
        }
    }

    /// Returns a copy of the value with the `per_int` field set to `value`.
    pub fn with_per_int(self, value: HpetTimerCapability) -> (r: Self)
        ensures
            r@ == (match value {
                HpetTimerCapability::OneShotOnly => self@ & !0x10u64,
                HpetTimerCapability::PeriodicCapable => self@ | 0x10u64,
            }),
    {
        match value {
            HpetTimerCapability::OneShotOnly => HpetTimerCapabilities(self.0 & !0x10u64),
            HpetTimerCapability::PeriodicCapable => HpetTimerCapabilities(self.0 | 0x10u64),
        }
    }

    /// The size of the timer's counter.
    pub fn size(&self) -> (r: HpetTimerSize)
        ensures
            r == (if self@ & 0x20u64 != 0 {
                HpetTimerSize::Bits64
            } else {
                HpetTimerSize::Bits32
            }),
    {
        if self.0 & 0x20u64 != 0 {
            HpetTimerSize::Bits64
        } else {
            HpetTimerSize::Bits32
        }
    }

    /// Returns a copy of the value with the `size` field set to `value`.
    pub fn with_size(self, value: HpetTimerSize) -> (r: Self)
        ensures
            r@ == (match value {
                HpetTimerSize::Bits32 => self@ & !0x20u64,
                HpetTimerSize::Bits64 => self@ | 0x20u64,
            }),
    {
        match value {
            HpetTimerSize::Bits32 => HpetTimerCapabilities(self.0 & !0x20u64),
            HpetTimerSize::Bits64 => HpetTimerCapabilities(self.0 | 0x20u64),
        }
    }

    /// Timer value set.
    ///
    /// Software uses this read/write bit only for timers that have been set to periodic mode.
    /// By writing this bit to `true`, the software is then allowed to directly set a periodic
    /// timer’s accumulator.
    ///
    /// Software does NOT have to write this bit back to `false` (it automatically clears).
    /// Software **should not** write `true` to this bit position if the timer is set to non-periodic mode.
    pub fn val_set(&self) -> (r: bool)
        ensures
            r == (self@ & 0x40u64 != 0),
    {
        self.0 & 0x40u64 != 0
    }

    /// Returns a copy of the value with the `val_set` field set to `value`.
    pub fn with_val_set(self, value: bool) -> (r: Self)
        ensures
            r@ == (if value {
                self@ | 0x40u64
            } else {
                self@ & !0x40u64
            }),
    {
        if value {
            HpetTimerCapabilities(self.0 | 0x40u64)
        } else {
            HpetTimerCapabilities(self.0 & !0x40u64)
        }
    }

    /// 32-bit Mode.
    ///
    /// Software can set this read/write bit to force a 64-bit timer to behave as a 32-bit timer.
    /// This is typically needed if the software is not willing to halt the main counter to read
    /// or write a particular timer, and the software is not capable of doing an atomic 64-bit read to the timer.
    /// If the timer is not 64 bits wide, then this bit will always be read as `false` and writes will have no effect.
    pub fn mode_32(&self) -> (r: bool)
        ensures
            r == (self@ & 0x100u64 != 0),
    {
        self.0 & 0x100u64 != 0
    }

    /// Returns a copy of the value with the `mode_32` field set to `value`.
    pub fn with_mode_32(self, value: bool) -> (r: Self)
        ensures
            r@ == (if value {
                self@ | 0x100u64
            } else {
                self@ & !0x100u64
            }),
    {
        if value {
            HpetTimerCapabilities(self.0 | 0x100u64)
        } else {
            HpetTimerCapabilities(self.0 & !0x100u64)
        }
    }

    /// Interrupt route.
    ///
    /// This 5-bit read/write field indicates the routing for the interrupt to the I/O APIC.
    /// A maximum value of 32 interrupts are supported. Default is `00h`.
    ///
    /// Software writes to this field to select which interrupt in the I/O (x) will be used for this timer’s interrupt.
    /// If the value is not supported by this particular timer, then the value read back will not match what is written.
    /// The software must only write valid values.
    ///
    /// **Note:** If the LegacyReplacement Route bit is set, then Timers 0 and 1 will have a different routing,
    /// and this bit field has no effect for those two timers. Note: If the `Tn_FSB_INT_DEL_CNF` bit is set,
    /// then the interrupt will be delivered directly to the FSB, and this bit field has no effect.
    ///
    /// **Note from `qix-`:** There's no indication of what `Tn_FSB_INT_DEL_CNF` is. There's no other mention of it
    /// in the Intel HPET Specification 1.0a (2004). It's probably referring (erroneously) to [`Self::fsb_en`]. I've
    /// not translated the spec to refer to the Rust field in the above documentation just to avoid any potential
    /// errors of my own, as I could be incorrect.
    pub fn int_route(&self) -> (r: u8)
        ensures
            r == ((self@ >> 9u64) & 0x1fu64) as u8,
    {
        ((self.0 >> 9u64) & 0x1fu64) as u8
    }

    /// Returns a copy of the value with the `int_route` field set to `value`
    /// (truncated to the field's width).
    pub fn with_int_route(self, value: u8) -> (r: Self)
        ensures
            r@ == (self@ & !(0x1fu64 << 9u64)) | (((value as u64) & 0x1fu64) << 9u64),
    {
        HpetTimerCapabilities((self.0 & !(0x1fu64 << 9u64)) | (((value as u64) & 0x1fu64) << 9u64))
    }

    /// FSB Interrupt Delivery Enable
    ///
    /// If the [`Self::fsb_int_del_cap()`] bit is `true` for this timer, then the software can set the this bit to
    /// force the interrupts to be delivered directly as FSB messages, rather than using the I/O (x) APIC.
    ///
    /// In this case, the [`Self::int_route()`] field in this register will be ignored.
    /// The [`HpetTimer::fsb_int_route`] register will be used instead.
    pub fn fsb_en(&self) -> (r: bool)
        ensures
            r == (self@ & 0x4000u64 != 0),
    {
        self.0 & 0x4000u64 != 0
    }

    /// Returns a copy of the value with the `fsb_en` field set to `value`.
    pub fn with_fsb_en(self, value: bool) -> (r: Self)
        ensures
            r@ == (if value {
                self@ | 0x4000u64
            } else {
                self@ & !0x4000u64
            }),
    {
        if value {
            HpetTimerCapabilities(self.0 | 0x4000u64)
        } else {
            HpetTimerCapabilities(self.0 & !0x4000u64)
        }
    }

    /// FBS Interrupt Delivery Capability
    ///
    /// If this read-only bit is `true`, then the hardware supports a direct
    /// front-side bus delivery of this timer’s interrupt.
    pub fn fsb_int_del_cap(&self) -> (r: bool)
        ensures
            r == (self@ & 0x8000u64 != 0),
    {
        self.0 & 0x8000u64 != 0
    }

    /// Returns a copy of the value with the `fsb_int_del_cap` field set to `value`.
    pub fn with_fsb_int_del_cap(self, value: bool) -> (r: Self)
        ensures
            r@ == (if value {
                self@ | 0x8000u64
            } else {
                self@ & !0x8000u64
            }),
    {
        if value {
            HpetTimerCapabilities(self.0 | 0x8000u64)
        } else {
            HpetTimerCapabilities(self.0 & !0x8000u64)
        }
    }

    /// Interrupt routing capability.
    ///
    /// This 32-bit read-only field indicates to which interrupts in the I/O (x) APIC this timer’s interrupt can be routed.
    /// This is used in conjunction with the [`Self::int_route()`] field.
    ///
    /// Each bit in this field corresponds to a particular interrupt.
    /// For example, if this timer’s interrupt can be mapped to interrupts 16, 18, 20, 22, or 24,
    /// then bits 16, 18, 20, 22, and 24 in this field will be set to 1. All other bits will be 0.
    pub fn int_rout_cap(&self) -> (r: u32)
        ensures
            r == ((self@ >> 32u64) & 0xffffffffu64) as u32,
    {
        ((self.0 >> 32u64) & 0xffffffffu64) as u32
    }

    /// Returns a copy of the value with the `int_rout_cap` field set to `value`
    /// (truncated to the field's width).
    pub fn with_int_rout_cap(self, value: u32) -> (r: Self)
        ensures
            r@ == (self@ & !(0xffffffffu64 << 32u64)) | (((value as u64) & 0xffffffffu64) << 32u64),
    {
        HpetTimerCapabilities((self.0 & !(0xffffffffu64 << 32u64)) | (((value as u64) & 0xffffffffu64) << 32u64))
    }
}


impl HpetCapsAndId {
    /// Returns the total number of HPET timers available in the system.
    ///
    /// This is one plus [`Self::num_tim_cap`].
    pub fn count_timers(self) -> (r: usize)
        ensures
            r == ((self@ >> 8u64) & 0x1fu64) + 1,
    {
        let x = self.0;
        assert((x >> 8u64) & 0x1fu64 < 32) by (bit_vector);
        self.num_tim_cap() + 1
    }

    /// Selects the register block of timer `idx`, if the HPET has that many
    /// timers. Timers 0 to 2 have register blocks of their own; timers from 3
    /// on are in the array of further timers, at `idx - 3`.
    pub fn get_timer(self, idx: usize) -> (r: Option<HpetTimerSlot>)
        requires
            idx < 31 || idx >= ((self@ >> 8u64) & 0x1fu64) + 1,
        ensures
            idx >= ((self@ >> 8u64) & 0x1fu64) + 1 ==> r is None,
            idx < ((self@ >> 8u64) & 0x1fu64) + 1 ==> r == Some(
                if idx == 0 {
                    HpetTimerSlot::Timer0
                } else if idx == 1 {
                    HpetTimerSlot::Timer1
                } else if idx == 2 {
                    HpetTimerSlot::Timer2
                } else {
                    HpetTimerSlot::Further((idx - 3) as usize)
                },
            ),
    {
        if idx < self.count_timers() {
            if idx == 0 {
                Some(HpetTimerSlot::Timer0)
            } else if idx == 1 {
                Some(HpetTimerSlot::Timer1)
            } else if idx == 2 {
                Some(HpetTimerSlot::Timer2)
            } else {
                Some(HpetTimerSlot::Further(idx - 3))
            }
        } else {
            None
        }
    }
}

/// Where the register block of an HPET timer lives.
#[derive(Debug, Clone, Copy, PartialEq, Eq, Structural)]
pub enum HpetTimerSlot {
    /// The block of timer 0.
    Timer0,
    /// The block of timer 1.
    Timer1,
    /// The block of timer 2.
    Timer2,
    /// The given index into the array of further timer blocks (timers 3 to 30).
    Further(usize),
}

/// The time keeping state of the HPET: the counter accumulated so far, and
/// the multiplier that converts counter ticks to "fembiseconds" (a power of
/// two approximation of femtoseconds; shifting right by 20 gives nanoseconds).
#[derive(Debug, Clone, Copy)]
pub struct HpetHandle {
    /// The current counter, in main counter ticks.
    pub counter: u128,
    /// The constant multiplier to apply to the counter.
    pub femtosecond_magic: u128,
}

impl HpetHandle {
    /// Accounts for `new_counts` further ticks of the main counter (read and
    /// reset by the caller) and returns the current instant in fembiseconds.
    pub fn now(&mut self, new_counts: u64) -> (r: u128)
        requires
            old(self).counter + new_counts <= u128::MAX,
            (old(self).counter + new_counts) * old(self).femtosecond_magic <= u128::MAX,
        ensures
            final(self).counter == old(self).counter + new_counts,
            final(self).femtosecond_magic == old(self).femtosecond_magic,
            r == final(self).counter * final(self).femtosecond_magic,
    {
        self.counter = self.counter + new_counts as u128;
        self.counter * self.femtosecond_magic
    }
}

} // verus!
