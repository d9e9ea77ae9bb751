use oro_arch_x86_64::paging::{PageTableEntry, PagingLevel};
use oro_arch_x86_64::mapper::FixedAddressPageFrameManager;
use oro_arch_x86_64::phys::PhysicalMemory;
use oro_arch_x86_64::reg::Cr4;
use oro_arch_x86_64::root_ring::{module_page_count, module_page_fill, module_segment, ElfSegmentType};
use oro_arch_x86_64::secondary::{
    gdtr_bytes, secondary_cr4_bits, secondary_poll, secondary_stack_pages, BootError, SECONDARY_ABORT_FLAG,
    SECONDARY_POLL_LIMIT,
};

#[test]
fn secondary_poll_outcomes() {
    assert_eq!(secondary_poll(1, 0), Some(Ok(())));
    assert_eq!(secondary_poll(0, 5), None);
    assert_eq!(secondary_poll(7, 5), Some(Err(BootError::SecondaryError(7))));
    assert_eq!(secondary_poll(0, SECONDARY_POLL_LIMIT - 1), Some(Err(BootError::SecondaryTimeout)));
    assert_eq!(secondary_poll(1, SECONDARY_POLL_LIMIT - 1), Some(Ok(())));
    assert_eq!(SECONDARY_ABORT_FLAG, 0xFFFF_FFFF_FFFF_FFFE);
}

#[test]
fn secondary_boot_values() {
    assert_eq!(secondary_cr4_bits(Cr4::new(0x1_0000_06A0)), 0x0000_0620);
    assert_eq!(gdtr_bytes(40, 0x8860), [39, 0, 0x60, 0x88, 0, 0]);
    let (top, pages, guard) = secondary_stack_pages(PagingLevel::Level4, 3);
    assert_eq!(top, 0xFFFF_80FF_FFFF_F000);
    assert_eq!(pages, vec![0xFFFF_80FF_FFFF_E000, 0xFFFF_80FF_FFFF_D000, 0xFFFF_80FF_FFFF_C000]);
    assert_eq!(guard, 0xFFFF_80FF_FFFF_B000);
    let (top5, none, guard5) = secondary_stack_pages(PagingLevel::Level5, 0);
    assert_eq!(top5, 0xFF01_FFFF_FFFF_F000);
    assert!(none.is_empty());
    assert_eq!(guard5, top5 - 4096);
}

#[test]
fn root_ring_segments() {
    let code = module_segment(ElfSegmentType::ModuleCode).unwrap();
    assert_eq!(code.valid_range, (5, 16));
    assert_eq!(code.entry_template.bits(), 0x5);
    assert_eq!(module_segment(ElfSegmentType::ModuleData).unwrap().entry_template.bits(), 0x8000_0000_0000_0007);
    assert_eq!(module_segment(ElfSegmentType::ModuleRoData).unwrap().entry_template.bits(), 0x8000_0000_0000_0005);
    assert!(module_segment(ElfSegmentType::KernelCode).is_none());
    assert!(module_segment(ElfSegmentType::Ignored).is_none());
    assert!(module_segment(ElfSegmentType::Invalid { flags: 1, ptype: 2 }).is_none());
}

#[test]
fn root_ring_page_fills() {
    assert_eq!(module_page_count(0), 0);
    assert_eq!(module_page_count(1), 1);
    assert_eq!(module_page_count(0x2001), 3);
    assert_eq!(module_page_count(u64::MAX), u64::MAX >> 12);
    assert_eq!(module_page_fill(0x1800, 0), (0, 0x1000));
    assert_eq!(module_page_fill(0x1800, 1), (0x1000, 0x800));
    assert_eq!(module_page_fill(0x1800, 2), (0x2000, 0));
}

#[test]
fn fixed_address_manager_reads_and_writes_first_words() {
    let mut mem = PhysicalMemory::new(4);
    let mut m = FixedAddressPageFrameManager::new(0x20_0000, PageTableEntry::new());
    m.write_u64(&mut mem, 0x2000, 0xDEAD_BEEF);
    assert_eq!(m.read_u64(&mem, 0x2000), 0xDEAD_BEEF);
    assert_eq!(m.read_u64(&mem, 0x3000), 0);
    assert_eq!(m.entry().address(), 0x3000);
}
