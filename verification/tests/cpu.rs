use oro_arch_x86_64::address_space::AddressSpaceHandle;
use oro_arch_x86_64::gdt::{gdt_bytes, gdt_limit, KERNEL_CS, KERNEL_DS, USER_CS, USER_DS};
use oro_arch_x86_64::hpet::{HpetCapsAndId, HpetHandle, HpetTimerSlot};
use oro_arch_x86_64::idt::IdtEntry;
use oro_arch_x86_64::instance::InstanceHandle;
use oro_arch_x86_64::lapic::{ApicSvr, ApicTimerConfig, ApicTimerDivideBy, ApicTimerMode};
use oro_arch_x86_64::msr::{interrupts_enabled_in, msr_halves, msr_value, FS_BASE_MSR, GS_BASE_MSR};
use oro_arch_x86_64::paging::PagingLevel;
use oro_arch_x86_64::reg::Cr0;
use oro_arch_x86_64::syscall::{
    canonical_address_mask, irq_stack_base, syscall_efer, syscall_exit, Switch, SyscallExit, SyscallResponse,
    UserContext, SYSCALL_FLAG_MASK,
};
use oro_arch_x86_64::task::initialize_user_irq_stack;
use oro_arch_x86_64::tss::TssPtr;
use oro_arch_x86_64::cpuid::{CpuidA07C0, CpuidResult};
use oro_arch_x86_64::idt::exception_pushes_error_code;
use oro_arch_x86_64::instance::CoreHandle;
use oro_arch_x86_64::lapic::{initialize_lapic_irqs, LapicRegisters};
use oro_arch_x86_64::reg::{boot_cr4, Cr4};
use oro_arch_x86_64::task::irq_stack_layout;
use oro_arch_x86_64::tss::Tss;

#[test]
fn gdt_selectors_and_entries() {
    assert_eq!((KERNEL_CS, KERNEL_DS, USER_CS, USER_DS), (0x08, 0x10, 0x18, 0x20));
    assert_eq!(gdt_limit(), 39);
    let bytes = gdt_bytes();
    assert_eq!(bytes.len(), 40);
    assert_eq!(&bytes[0..8], &[0u8; 8]);
    assert_eq!(&bytes[8..16], &0x0020_9900_0000_0000u64.to_le_bytes());
    assert_eq!(&bytes[16..24], &0x0020_9300_0000_0000u64.to_le_bytes());
    assert_eq!(&bytes[24..32], &0x0020_F900_0000_0000u64.to_le_bytes());
    assert_eq!(&bytes[32..40], &0x0020_F300_0000_0000u64.to_le_bytes());
}

#[test]
fn idt_entry_holds_isr_address() {
    let e = IdtEntry::new().with_kernel_cs().with_attributes(0x8E).with_isr_raw(0xFFFF_8000_1234_5678);
    assert_eq!(e.isr(), 0xFFFF_8000_1234_5678);
    assert_eq!(e.code_segment(), 0x08);
    assert_eq!(e.attributes(), 0x8E);
}

#[test]
fn tss_pointer_halves() {
    let p = TssPtr::from(0x1122_3344_5566_7788u64);
    assert_eq!(p.low, 0x5566_7788);
    assert_eq!(p.high, 0x1122_3344);
}

#[test]
fn apic_timer_config_fields() {
    let c = ApicTimerConfig::new().with_vector(0x20).with_mode(ApicTimerMode::Periodic).with_masked();
    assert_eq!(c.vector(), 0x20);
    assert_eq!(c.mode(), Some(ApicTimerMode::Periodic));
    assert!(c.masked());
    assert_eq!(ApicTimerConfig::default().bits(), 0);
    let s = ApicSvr::new().with_vector(0xFF).with_software_enable();
    assert_eq!(s.bits(), 0x1FF);
    assert!(s.software_enable());
    assert_eq!(ApicTimerDivideBy::from_register(ApicTimerDivideBy::Div16.bits()), ApicTimerDivideBy::Div16);
}

#[test]
fn hpet_timer_slots() {
    let caps = HpetCapsAndId::new(0x0000_0000_0000_0400);
    assert_eq!(caps.count_timers(), 5);
    assert_eq!(caps.get_timer(0), Some(HpetTimerSlot::Timer0));
    assert_eq!(caps.get_timer(4), Some(HpetTimerSlot::Further(1)));
    assert_eq!(caps.get_timer(5), None);
    let mut h = HpetHandle { counter: 10, femtosecond_magic: 3 };
    assert_eq!(h.now(5), 45);
    assert_eq!(h.counter, 15);
}

#[test]
fn cr0_inherits_unsupported_bits() {
    let cr0 = Cr0::new().with_paging_enable().with_protected_mode_enable();
    let merged = cr0.inherit(0xFFFF_FFFF_FFFF_FFFF);
    assert_eq!(u64::from(merged), 0x8000_0001 | !0xC005_000Fu64);
    assert_eq!(Cr0::mask(), !0xC005_000Fu64);
}

#[test]
fn syscall_register_values() {
    assert_eq!(syscall_efer(0x500), 0x501);
    assert_eq!(SYSCALL_FLAG_MASK, 0x300);
    assert_eq!(canonical_address_mask(PagingLevel::Level4), 0x0000_7FFF_FFFF_FFFF);
    assert_eq!(canonical_address_mask(PagingLevel::Level5), 0x00FF_FFFF_FFFF_FFFF);
    assert_eq!(irq_stack_base(PagingLevel::Level4), 0x0000_097F_FFFF_F000);
    assert_eq!(irq_stack_base(PagingLevel::Level5), 0x0012_FFFF_FFFF_F000);
}

#[test]
fn syscall_exits() {
    let ctx = UserContext { cr3: 0x5000, irq_stack_ptr: 0x0000_097F_FFFF_FF58 };
    assert_eq!(
        syscall_exit(Switch::UserResume(ctx, None), PagingLevel::Level4),
        SyscallExit::UserToUser { cr3: 0x5000, rsp: 0x0000_097F_FFFF_FF58, rsp0: 0x0000_097F_FFFF_F000 }
    );
    assert_eq!(
        syscall_exit(Switch::UserToUser(ctx, Some(SyscallResponse { error: 2, ret: 7 })), PagingLevel::Level5),
        SyscallExit::UserToUserSysret {
            cr3: 0x5000,
            rsp: 0x0000_097F_FFFF_FF58,
            error: 2,
            ret: 7,
            rsp0: 0x0012_FFFF_FFFF_F000,
        }
    );
    assert_eq!(syscall_exit(Switch::UserToKernel, PagingLevel::Level4), SyscallExit::ReturnToKernel);
}

#[test]
fn irq_stack_frame_layout() {
    let mut page = vec![0xAAAA_AAAA_AAAA_AAAAu64; 512];
    let written = initialize_user_irq_stack(&mut page, 0x40_0000, 0x7FFF_F000, 0x2);
    assert_eq!(written, 168);
    assert_eq!(page[511], 0x23);
    assert_eq!(page[510], 0x7FFF_F000);
    assert_eq!(page[509], 0x202);
    assert_eq!(page[508], 0x1B);
    assert_eq!(page[507], 0x40_0000);
    assert!(page[491..507].iter().all(|&w| w == 0));
    assert_eq!(page[490], 0xAAAA_AAAA_AAAA_AAAA);
}

#[test]
fn msr_values_split_and_join() {
    assert_eq!(msr_value(0x1234_5678, 0x9ABC_DEF0), 0x1234_5678_9ABC_DEF0);
    assert_eq!(msr_halves(0x1234_5678_9ABC_DEF0), (0x1234_5678, 0x9ABC_DEF0));
    let (hi, lo) = msr_halves(0xFFFF_0000_0000_FFFF);
    assert_eq!(msr_value(hi, lo), 0xFFFF_0000_0000_FFFF);
    assert_eq!((FS_BASE_MSR, GS_BASE_MSR), (0xC000_0100, 0xC000_0101));
    assert!(interrupts_enabled_in(0x202));
    assert!(!interrupts_enabled_in(0x002));
}

#[test]
fn instance_handle_keeps_its_space() {
    let space = AddressSpaceHandle { base_phys: 0x8000, paging_level: PagingLevel::Level4 };
    let h = InstanceHandle::new(space).unwrap();
    assert_eq!(h.mapper().base_phys, 0x8000);
}

#[test]
fn lapic_interrupt_registers() {
    let mut regs = LapicRegisters {
        id: 0x0300_0000,
        version: 0x0105_0014,
        esr: 0,
        isr1: 0,
        icr_low: 0,
        icr_high: 0,
        eoi: 0,
        lvt_timer: 0x1_0000,
        dcr_timer: 0,
        icr_timer: 0,
        ccr_timer: 0,
        svr: 0xFF,
    };
    initialize_lapic_irqs(&mut regs);
    assert_eq!((regs.svr, regs.dcr_timer, regs.lvt_timer), (0x1FF, 0b1010, 32));
    assert_eq!(regs.id(), 3);
    let v = regs.version();
    assert!(v.supports_eoi_broadcast_suppression);
    assert_eq!((v.max_lvt_entries, v.version), (5, 0x14));
}

#[test]
fn exceptions_with_error_codes() {
    let with: Vec<u8> = (0..32).filter(|&v| exception_pushes_error_code(v)).collect();
    assert_eq!(with, vec![8, 10, 11, 12, 13, 14, 17, 21, 29, 30]);
    assert!(!exception_pushes_error_code(32));
}

#[test]
fn boot_cr4_enables_fsgsbase_when_supported() {
    let leaf = CpuidA07C0::get(Some(CpuidResult { eax: 0, ebx: 1, ecx: 0, edx: 0 }));
    let cr4 = boot_cr4(Cr4::new(0x20), leaf).unwrap();
    assert_eq!(cr4.bits(), 0x20 | 0x10000 | 0x4);
    let without = CpuidA07C0::get(Some(CpuidResult { eax: 0, ebx: 0, ecx: 0, edx: 0 }));
    assert!(boot_cr4(Cr4::new(0x20), without).is_none());
    assert!(boot_cr4(Cr4::new(0x20), None).is_none());
}

#[test]
fn core_timer_and_idle() {
    let zero = TssPtr::from(0u64);
    let tss = Tss {
        res0: 0,
        rsp0: zero,
        rsp1: zero,
        rsp2: zero,
        res1: 0,
        res2: 0,
        ist1: zero,
        ist2: zero,
        ist3: zero,
        ist4: zero,
        ist5: zero,
        ist6: zero,
        ist7: zero,
        res3: 0,
        res4: 0,
        res5: 0,
        iopb_offset: 0,
    };
    let lapic = LapicRegisters {
        id: 0,
        version: 0,
        esr: 0,
        isr1: 0,
        icr_low: 0,
        icr_high: 0,
        eoi: 0,
        lvt_timer: 0,
        dcr_timer: 0,
        icr_timer: 7,
        ccr_timer: 0,
        svr: 0,
    };
    let mut core = CoreHandle { lapic, tss, kernel_stack: 0x1000, kernel_irq_stack: 0x2000 };
    core.prepare_idle(None);
    assert_eq!(core.lapic.icr_timer, 7);
    core.prepare_idle(Some(1000));
    assert_eq!(core.lapic.icr_timer, 1000);
    core.cancel_timer();
    assert_eq!(core.lapic.icr_timer, 0);
    core.schedule_timer(55);
    assert_eq!(core.lapic.icr_timer, 55);
    assert_eq!((core.kernel_stack, core.kernel_irq_stack), (0x1000, 0x2000));
}

#[test]
fn irq_stack_pages_by_level() {
    assert_eq!(
        irq_stack_layout(PagingLevel::Level4),
        (0x0000_097F_FFFF_F000, 0x0000_097F_FFFF_E000, 0x0000_097F_FFFF_D000)
    );
    assert_eq!(
        irq_stack_layout(PagingLevel::Level5),
        (0x0012_FFFF_FFFF_F000, 0x0012_FFFF_FFFF_E000, 0x0012_FFFF_FFFF_D000)
    );
}
