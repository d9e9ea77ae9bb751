//! The local APIC (Advanced Programmable Interrupt Controller): its
//! register encodings, and the register updates its operations perform.
use vstd::prelude::*;

verus! {

/// The mode of the LAPIC timer.
#[derive(Debug, Clone, Copy, PartialEq, Eq, Structural)]
pub enum ApicTimerMode {
    /// Program count-down value in an initial-count register.
    OneShot,
    /// Program interval value in an initial-count register
    Periodic,
    /// Program target value in `IA32_TSC_DEADLINE` MSR
    TscDeadline,
}

impl ApicTimerMode {
    /// The mode's bits within the LVT timer register.
    pub open spec fn value(self) -> u32 {
        match self {
            ApicTimerMode::OneShot => 0,
            ApicTimerMode::Periodic => 0x2_0000,
            ApicTimerMode::TscDeadline => 0x4_0000,
        }
    }

    /// Returns the mode's bits within the LVT timer register.
    pub fn bits(self) -> (r: u32)
        ensures
            r == self.value(),
    {
        match self {
            ApicTimerMode::OneShot => 0,
            ApicTimerMode::Periodic => 0x2_0000,
            ApicTimerMode::TscDeadline => 0x4_0000,
        }
    }
}

/// The LAPIC timer divide-by value.
#[derive(Debug, Clone, Copy, PartialEq, Eq, Structural)]
pub enum ApicTimerDivideBy {
    /// Divide by 2.
    Div2,
    /// Divide by 4.
    Div4,
    /// Divide by 8.
    Div8,
    /// Divide by 16.
    Div16,
    /// Divide by 32.
    Div32,
    /// Divide by 64.
    Div64,
    /// Divide by 128.
    Div128,
    /// Divide by 1.
    Div1,
}

impl ApicTimerDivideBy {
    /// The value of the divide configuration register for this divisor.
    pub open spec fn value(self) -> u32 {
        match self {
            ApicTimerDivideBy::Div2 => 0b0000,
            ApicTimerDivideBy::Div4 => 0b0001,
            ApicTimerDivideBy::Div8 => 0b0010,
            ApicTimerDivideBy::Div16 => 0b0011,
            ApicTimerDivideBy::Div32 => 0b1000,
            ApicTimerDivideBy::Div64 => 0b1001,
            ApicTimerDivideBy::Div128 => 0b1010,
            ApicTimerDivideBy::Div1 => 0b1011,
        }
    }

    /// Returns the value of the divide configuration register for this divisor.
    pub fn bits(self) -> (r: u32)
        ensures
            r == self.value(),
    {
        match self {
            ApicTimerDivideBy::Div2 => 0b0000,
            ApicTimerDivideBy::Div4 => 0b0001,
            ApicTimerDivideBy::Div8 => 0b0010,
            ApicTimerDivideBy::Div16 => 0b0011,
            ApicTimerDivideBy::Div32 => 0b1000,
            ApicTimerDivideBy::Div64 => 0b1001,
            ApicTimerDivideBy::Div128 => 0b1010,
            ApicTimerDivideBy::Div1 => 0b1011,
        }
    }

    /// Decodes the divisor from a divide configuration register value; only
    /// the divisor bits (`0b1011`) are considered.
    pub fn from_register(v: u32) -> (r: Self)
        ensures
            r.value() == v & 0b1011u32,
    {
        let b = v & 0b1011u32;
        assert(b == 0 || b == 1 || b == 2 || b == 3 || b == 8 || b == 9 || b == 10 || b == 11)
            by (bit_vector)
            requires
                b == v & 0b1011u32,
        ;
        if b == 0 {
            ApicTimerDivideBy::Div2
        } else if b == 1 {
            ApicTimerDivideBy::Div4
        } else if b == 2 {
            ApicTimerDivideBy::Div8
        } else if b == 3 {
            ApicTimerDivideBy::Div16
        } else if b == 8 {
            ApicTimerDivideBy::Div32
        } else if b == 9 {
            ApicTimerDivideBy::Div64
        } else if b == 10 {
            ApicTimerDivideBy::Div128
        } else {
            ApicTimerDivideBy::Div1
        }
    }
}

/// The configuration for the LAPIC timer.
#[derive(Debug, Clone, Copy)]
pub struct ApicTimerConfig(u32);

impl View for ApicTimerConfig {
    type V = u32;

    closed spec fn view(&self) -> u32 {
        self.0
    }
}

impl Default for ApicTimerConfig {
    fn default() -> (r: Self)
        ensures
            r@ == 0,
    {
        Self::new()
    }
}

impl ApicTimerConfig {
    /// Creates a new LAPIC timer configuration.
    pub fn new() -> (r: Self)
        ensures
            r@ == 0,
    {
        ApicTimerConfig(0)
    }

    /// Wraps a raw LVT timer register value.
    pub fn from_bits(bits: u32) -> (r: Self)
        ensures
            r@ == bits,
    {
        ApicTimerConfig(bits)
    }

    /// The raw LVT timer register value.
    pub fn bits(&self) -> (r: u32)
        ensures
            r == self@,
    {
        self.0
    }

    /// Sets the interrupt vector to be called when
    /// the timer fires.
    pub fn with_vector(self, vector: u8) -> (r: Self)
        ensures
            r@ == (self@ & 0xFFFF_FF00u32) | (vector as u32),
    {
        ApicTimerConfig((self.0 & 0xFFFF_FF00u32) | (vector as u32))
    }

    /// Marks the timer interrupt as masked.
    pub fn with_masked(self) -> (r: Self)
        ensures
            r@ == self@ | 0x1_0000u32,
    {
        ApicTimerConfig(self.0 | 0x1_0000u32)
    }

    /// Sets the timer mode.
    pub fn with_mode(self, mode: ApicTimerMode) -> (r: Self)
        ensures
            r@ == (self@ & 0xFFF9_FFFFu32) | mode.value(),
    {
        ApicTimerConfig((self.0 & 0xFFF9_FFFFu32) | mode.bits())
    }

    /// Gets the interrupt vector.
    pub fn vector(self) -> (r: u8)
        ensures
            r == (self@ & 0xFFu32) as u8,
    {
        (self.0 & 0xFFu32) as u8
    }

    /// Gets the timer mode. Returns `None` if the mode bits are invalid.
    pub fn mode(self) -> (r: Option<ApicTimerMode>)
        ensures
            (self@ >> 17u32) & 0b11u32 == 0 ==> r == Some(ApicTimerMode::OneShot),
            (self@ >> 17u32) & 0b11u32 == 1 ==> r == Some(ApicTimerMode::Periodic),
            (self@ >> 17u32) & 0b11u32 == 2 ==> r == Some(ApicTimerMode::TscDeadline),
            (self@ >> 17u32) & 0b11u32 == 3 ==> r is None,
    {
        let bits = (self.0 >> 17u32) & 0b11u32;
        if bits == 0 {
            Some(ApicTimerMode::OneShot)
        } else if bits == 1 {
            Some(ApicTimerMode::Periodic)
        } else if bits == 2 {
            Some(ApicTimerMode::TscDeadline)
        } else {
            None
        }
    }

    /// Returns whether the timer interrupt is masked.
    pub fn masked(self) -> (r: bool)
        ensures
            r == (self@ & 0x1_0000u32 != 0),
    {
        (self.0 & 0x1_0000u32) != 0
    }
}

/// The spurious vector register (SVR) value for the LAPIC.
#[derive(Debug, Clone, Copy)]
pub struct ApicSvr(u32);

impl View for ApicSvr {
    type V = u32;

    closed spec fn view(&self) -> u32 {
        self.0
    }
}

impl Default for ApicSvr {
    fn default() -> (r: Self)
        ensures
            r@ == 0,
    {
        Self::new()
    }
}

impl ApicSvr {
    /// Creates a new LAPIC SVR value.
    pub fn new() -> (r: Self)
        ensures
            r@ == 0,
    {
        ApicSvr(0)
    }

    /// Wraps a raw SVR value.
    pub fn from_bits(bits: u32) -> (r: Self)
        ensures
            r@ == bits,
    {
        ApicSvr(bits)
    }

    /// The raw SVR value.
    pub fn bits(&self) -> (r: u32)
        ensures
            r == self@,
    {
        self.0
    }

    /// Sets the LAPIC software enable bit.
    pub fn with_software_enable(self) -> (r: Self)
        ensures
            r@ == self@ | 0x100u32,
    {
        ApicSvr(self.0 | 0x100u32)
    }

    /// Sets the LAPIC spurious interrupt vector.
    pub fn with_vector(self, vector: u8) -> (r: Self)
        ensures
            r@ == (self@ & 0xFFFF_FF00u32) | (vector as u32),
    {
        ApicSvr((self.0 & 0xFFFF_FF00u32) | (vector as u32))
    }

    /// Sets the focus processor bit.
    pub fn with_focus_processor(self) -> (r: Self)
        ensures
            r@ == self@ | 0x200u32,
    {
        ApicSvr(self.0 | 0x200u32)
    }

    /// Sets the EOI broadcast suppression bit
    /// (calling this *suppresses* EOI broadcast).
    pub fn with_eoi_broadcast_suppression(self) -> (r: Self)
        ensures
            r@ == self@ | 0x1000u32,
    {
        ApicSvr(self.0 | 0x1000u32)
    }

    /// Gets the LAPIC software enable bit.
    pub fn software_enable(self) -> (r: bool)
        ensures
            r == (self@ & 0x100u32 != 0),
    {
        (self.0 & 0x100u32) != 0
    }

    /// Gets the LAPIC spurious interrupt vector.
    pub fn vector(self) -> (r: u8)
        ensures
            r == (self@ & 0xFFu32) as u8,
    {
        (self.0 & 0xFFu32) as u8
    }

    /// Gets the focus processor bit.
    pub fn focus_processor(self) -> (r: bool)
        ensures
            r == (self@ & 0x200u32 != 0),
    {
        (self.0 & 0x200u32) != 0
    }

    /// Gets the EOI broadcast suppression bit.
    pub fn eoi_broadcast_suppression(self) -> (r: bool)
        ensures
            r == (self@ & 0x1000u32 != 0),
    {
        (self.0 & 0x1000u32) != 0
    }
}

/// A decoded LAPIC version.
#[derive(Debug, Clone, Copy)]
pub struct LapicVersion {
    /// Supports EOI broadcast suppression.
    pub supports_eoi_broadcast_suppression: bool,
    /// The maximum number of LVT entries.
    pub max_lvt_entries: u8,
    /// The LAPIC version.
    pub version: u8,
}

/// The values of the LAPIC registers that the LAPIC operations read and
/// write. Writing a register back to the device after an operation performs
/// the operation on the device.
#[derive(Debug, Clone, Copy)]
pub struct LapicRegisters {
    /// Local APIC ID register.
    pub id: u32,
    /// Version register.
    pub version: u32,
    /// Error status register.
    pub esr: u32,
    /// The second in-service register (bits 63:32).
    pub isr1: u32,
    /// Interrupt command register, bits 31:0.
    pub icr_low: u32,
    /// Interrupt command register, bits 63:32.
    pub icr_high: u32,
    /// EOI register.
    pub eoi: u32,
    /// LVT timer register.
    pub lvt_timer: u32,
    /// Divide configuration register.
    pub dcr_timer: u32,
    /// Initial count register.
    pub icr_timer: u32,
    /// Current count register.
    pub ccr_timer: u32,
    /// Spurious interrupt vector register.
    pub svr: u32,
}

impl LapicRegisters {
    /// Returns the local APIC version.
    pub fn version(&self) -> (r: LapicVersion)
        ensures
            r.supports_eoi_broadcast_suppression == (self.version & 0x100_0000u32 != 0),
            r.max_lvt_entries == (self.version >> 16u32) as u8,
            r.version == self.version as u8,
    {
        LapicVersion {
            supports_eoi_broadcast_suppression: (self.version & 0x100_0000u32) != 0,
            max_lvt_entries: (self.version >> 16u32) as u8,
            version: self.version as u8,
        }
    }

    /// Returns the local APIC ID.
    pub fn id(&self) -> (r: u8)
        ensures
            r == (self.id >> 24u32) as u8,
    {
        (self.id >> 24u32) as u8
    }

    /// Clears the errors in the local APIC.
    pub fn clear_errors(&mut self)
        ensures
            *final(self) == (LapicRegisters { esr: 0, ..*old(self) }),
    {
        self.esr = 0;
    }

    /// Selects the secondary processor we want to interact with.
    pub fn set_target_apic(&mut self, apic_id: u8)
        ensures
            *final(self) == (LapicRegisters {
                icr_high: (old(self).isr1 & 0x00FF_FFFFu32) | ((apic_id as u32) << 24u32),
                ..*old(self)
            }),
    {
        let v = self.isr1;
        self.icr_high = (v & 0x00FF_FFFFu32) | ((apic_id as u32) << 24u32);
    }

    /// Triggers an INIT IPI to the currently selected target secondary processor
    /// (selected via [`Self::set_target_apic()`]).
    pub fn send_init_ipi(&mut self)
        ensures
            *final(self) == (LapicRegisters {
                icr_low: (old(self).icr_low & 0xFFF0_0000u32) | 0x00_C500u32,
                ..*old(self)
            }),
    {
        self.icr_low = (self.icr_low & 0xFFF0_0000u32) | 0x00_C500u32;
    }

    /// Whether the last IPI has not been acknowledged by its target yet
    /// (the delivery status bit).
    pub fn ipi_pending(&self) -> (r: bool)
        ensures
            r == (self.icr_low & 0x1000u32 != 0),
    {
        (self.icr_low & 0x1000u32) != 0
    }

    /// Deasserts the INIT IPI.
    pub fn deassert_init_ipi(&mut self)
        ensures
            *final(self) == (LapicRegisters {
                icr_low: (old(self).icr_low & 0xFFF0_0000u32) | 0x00_8500u32,
                ..*old(self)
            }),
    {
        self.icr_low = (self.icr_low & 0xFFF0_0000u32) | 0x00_8500u32;
    }

    /// Sends a startup IPI to the currently selected target secondary processor
    /// (selected via [`Self::set_target_apic()`]).
    pub fn send_startup_ipi(&mut self, cs_page: u8)
        ensures
            *final(self) == (LapicRegisters {
                icr_low: (old(self).icr_low & 0xFFF0_F800u32) | 0x00_0600u32 | (cs_page as u32),
                ..*old(self)
            }),
    {
        self.icr_low = (self.icr_low & 0xFFF0_F800u32) | 0x00_0600u32 | (cs_page as u32);
    }

    /// Sends an End Of Interrupt (EOI) signal to the LAPIC.
    pub fn eoi(&mut self)
        ensures
            *final(self) == (LapicRegisters { eoi: 0, ..*old(self) }),
    {
        self.eoi = 0;
    }

    /// Configures the LAPIC timer.
    pub fn configure_timer(&mut self, config: ApicTimerConfig)
        ensures
            *final(self) == (LapicRegisters { lvt_timer: config@, ..*old(self) }),
    {
        self.lvt_timer = config.bits();
    }

    /// Sets the LAPIC timer divider value.
    pub fn set_timer_divider(&mut self, divide_by: ApicTimerDivideBy)
        ensures
            *final(self) == (LapicRegisters { dcr_timer: divide_by.value(), ..*old(self) }),
    {
        self.dcr_timer = divide_by.bits();
    }

    /// Reads the LAPIC timer's configuration.
    pub fn timer_config(&self) -> (r: ApicTimerConfig)
        ensures
            r@ == self.lvt_timer,
    {
        ApicTimerConfig(self.lvt_timer)
    }

    /// Reads the LAPIC timer's divide-by value.
    pub fn timer_divide_by(&self) -> (r: ApicTimerDivideBy)
        ensures
            r.value() == self.dcr_timer & 0b1011u32,
    {
        ApicTimerDivideBy::from_register(self.dcr_timer)
    }

    /// Sets the LAPIC timer's initial count.
    pub fn set_timer_initial_count(&mut self, count: u32)
        ensures
            *final(self) == (LapicRegisters { icr_timer: count, ..*old(self) }),
    {
        self.icr_timer = count;
    }

    /// Cancels the timer: a write of 0 to the initial-count register stops
    /// the timer, in both one-shot and periodic mode.
    pub fn cancel_timer(&mut self)
        ensures
            *final(self) == (LapicRegisters { icr_timer: 0, ..*old(self) }),
    {
        self.set_timer_initial_count(0);
    }

    /// Reads the LAPIC timer's current count.
    pub fn timer_current_count(&self) -> (r: u32)
        ensures
            r == self.ccr_timer,
    {
        self.ccr_timer
    }

    /// Reads the LAPIC's spurious interrupt vector (SVR) value.
    pub fn spurious_vector(&self) -> (r: ApicSvr)
        ensures
            r@ == self.svr,
    {
        ApicSvr(self.svr)
    }

    /// Sets the LAPIC's spurious interrupt vector (SVR) value.
    pub fn set_spurious_vector(&mut self, svr: ApicSvr)
        ensures
            *final(self) == (LapicRegisters { svr: svr@, ..*old(self) }),
    {
        self.svr = svr.bits();
    }
}

/// The interrupt vector of the LAPIC timer.
pub const TIMER_VECTOR: u8 = 32;

/// The interrupt vector of the LAPIC's spurious interrupts.
pub const APIC_SVR_VECTOR: u8 = 255;

proof fn lemma_irq_register_values()
    by (bit_vector)
    ensures
        ((0u32 & 0xFFFF_FF00u32) | 255u32) | 0x100u32 == 0x1FFu32,
        ((((0u32 & 0xFFFF_FF00u32) | 32u32) & 0xFFF9_FFFFu32) | 0u32) == 32u32,
{
}

/// Programs the LAPIC's interrupts as the kernel runs them: spurious
/// interrupts go to [`APIC_SVR_VECTOR`] with the APIC software-enabled, and
/// the timer divides its clock by 128 and fires once at [`TIMER_VECTOR`].
pub fn initialize_lapic_irqs(lapic: &mut LapicRegisters)
    ensures
        *final(lapic) == (LapicRegisters { svr: 0x1FF, dcr_timer: 0b1010, lvt_timer: 32, ..*old(lapic) }),
{
    proof {
        lemma_irq_register_values();
    }
    lapic.set_spurious_vector(ApicSvr::new().with_vector(APIC_SVR_VECTOR).with_software_enable());
    lapic.set_timer_divider(ApicTimerDivideBy::Div128);
    lapic.configure_timer(ApicTimerConfig::new().with_vector(TIMER_VECTOR).with_mode(ApicTimerMode::OneShot));
}

} // verus!
