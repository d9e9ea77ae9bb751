use oro_arch_x86_64::boot_memory::{
    check_low_memory, free_regions, linear_map_offset, linear_map_step, linear_region, LinearMapStep, MemoryMapEntry, MemoryMapEntryType,
    MemoryMapPfa,
};
use oro_arch_x86_64::phys::PageFrameAllocator;
use oro_arch_x86_64::boot_memory::read_phys_split;
use oro_arch_x86_64::boot_memory::{linear_entry_index, recursive_table_address};
use oro_arch_x86_64::boot_memory::{linear_huge_entry, linear_steps, linear_table_entry};
use oro_arch_x86_64::boot_memory::{recursive_entry_mapped, unmap_lower_half_and_recursive};
use oro_arch_x86_64::boot_memory::{recursive_root_address, OnTheFlyMapper};
use oro_arch_x86_64::paging::PageTableEntry;
use oro_arch_x86_64::paging::PagingLevel;

fn region(base: u64, length: u64, ty: MemoryMapEntryType, used: u64) -> MemoryMapEntry {
    MemoryMapEntry { base, length, ty, used, next: 0 }
}

#[test]
fn default_memory_map_entry_is_empty() {
    let e = MemoryMapEntry::default();
    assert_eq!(e, region(0, 0, MemoryMapEntryType::Unknown, 0));
}

#[test]
fn low_memory_with_boot_pages() {
    let map = vec![
        region(0, 0x9F000, MemoryMapEntryType::Usable, 0x9F000),
        region(0x100000, 0x100000, MemoryMapEntryType::Usable, 0),
    ];
    assert_eq!(check_low_memory(&map), Ok(true));
}

#[test]
fn low_memory_without_the_second_boot_page() {
    let map = vec![region(0, 0x9000, MemoryMapEntryType::Usable, 0x9000)];
    assert_eq!(check_low_memory(&map), Ok(false));
}

#[test]
fn low_memory_region_with_too_few_used_bytes() {
    let map = vec![
        region(0x100000, 0x1000, MemoryMapEntryType::Usable, 0),
        region(0x80000, 0x100000, MemoryMapEntryType::Usable, 0x7F000),
    ];
    // The second region has 0x80000 bytes below 1 MiB but marks fewer as used.
    assert_eq!(check_low_memory(&map), Err(1));
}

#[test]
fn memory_map_pfa_skips_used_and_unusable_memory() {
    let map = vec![
        region(0x1000, 0x4000, MemoryMapEntryType::Unknown, 0),
        region(0x10000, 0x3000, MemoryMapEntryType::Usable, 0x1800),
        region(0x20000, 0x1000, MemoryMapEntryType::Usable, 0),
    ];
    let mut pfa = MemoryMapPfa::new(map);
    // 0x10000 + 0x1800 rounds up to 0x12000; one page is left there.
    assert_eq!(pfa.next(), Some(0x12000));
    assert_eq!(pfa.next(), Some(0x20000));
    assert_eq!(pfa.next(), None);
    let (current, rest) = pfa.into_inner();
    assert_eq!(current.base, 0x21000);
    assert_eq!(current.length, 0);
    assert!(rest.is_empty());
}

#[test]
fn memory_map_pfa_into_inner_keeps_untouched_regions() {
    let map = vec![
        region(0x10000, 0x2000, MemoryMapEntryType::Usable, 0),
        region(0x40000, 0x2000, MemoryMapEntryType::Usable, 0),
    ];
    let mut pfa = MemoryMapPfa::new(map);
    assert_eq!(pfa.next(), Some(0x10000));
    let (current, rest) = pfa.into_inner();
    assert_eq!(current, region(0x11000, 0x1000, MemoryMapEntryType::Usable, 0));
    assert_eq!(rest, vec![region(0x40000, 0x2000, MemoryMapEntryType::Usable, 0)]);
}

#[test]
fn free_regions_hands_out_remaining_usable_pages() {
    let mut pfa = PageFrameAllocator::new();
    let current = region(0x11000, 0x1000, MemoryMapEntryType::Usable, 0);
    let rest = vec![
        region(0x40000, 0x2800, MemoryMapEntryType::Usable, 0x800),
        region(0x80000, 0x4000, MemoryMapEntryType::Unknown, 0),
    ];
    free_regions(current, &rest, &mut pfa);
    // 0x11000; then 0x40800 rounds up to 0x41000 with 0x1800 bytes left (two pages).
    assert_eq!(pfa.len(), 3);
    assert_eq!(pfa.allocate(), Some(0x42000));
    assert_eq!(pfa.allocate(), Some(0x41000));
    assert_eq!(pfa.allocate(), Some(0x11000));
}

#[test]
fn linear_map_offset_is_segment_base() {
    let base = 0xFFFF_8180_0000_0000u64;
    let last = 0xFFFF_A07F_FFFF_FFFFu64;
    let offset = linear_map_offset(base);
    assert_eq!(offset, base);
    // A region above 2 MiB lands at its physical address plus the offset.
    let high = region(0x30_0000, 0x1000, MemoryMapEntryType::Usable, 0);
    let (virt, phys, _) = linear_region(high, base, last).unwrap();
    assert_eq!(virt, phys + offset);
}

#[test]
fn linear_map_step_decisions() {
    let absent = PageTableEntry::new();
    let present = PageTableEntry::new().with_present().with_address(0x5000);
    assert!(matches!(linear_map_step(2, present, 0x20_0000), LinearMapStep::Skip));
    assert!(matches!(linear_map_step(4, present, 0x20_0000), LinearMapStep::Skip));
    match linear_map_step(2, absent, 0x20_0000) {
        LinearMapStep::WriteHuge(e) => assert_eq!(e.bits(), 0x8000_0000_0020_0183),
        _ => panic!("expected a 2 MiB page entry"),
    }
    assert!(matches!(linear_map_step(3, absent, 0x20_0000), LinearMapStep::AllocateTable));
}

#[test]
fn linear_region_alignment_and_bounds() {
    let base = 0xFFFF_8180_0000_0000u64;
    let last = 0xFFFF_A07F_FFFF_FFFFu64;
    let r = region(0x30_1000, 0x1000, MemoryMapEntryType::Usable, 0);
    assert_eq!(linear_region(r, base, last), Some((base + 0x20_0000, 0x20_0000, 0x20_0000)));
    let wide = region(0x1F_F000, 0x2000, MemoryMapEntryType::Usable, 0);
    assert_eq!(linear_region(wide, base, last), Some((base, 0, 0x40_0000)));
    // Past the end of the segment: skipped.
    let huge = region(0x2000_0000_0000, 0x1000, MemoryMapEntryType::Usable, 0);
    assert_eq!(linear_region(huge, base, last), None);
}

#[test]
fn recursive_and_window_addresses() {
    assert_eq!(recursive_root_address(PagingLevel::Level4), 0xFFFF_8040_2010_0000);
    assert_eq!(recursive_root_address(PagingLevel::Level5), 0xFF00_8040_2010_0000);
    let otf = OnTheFlyMapper::new(PagingLevel::Level4);
    assert_eq!(otf.base_virt, 0xFFFF_8040_200F_E000);
    assert_eq!(otf.l1_page_table_entry, 0xFFFF_8040_2010_07F0);
    assert_eq!(otf.window_entry(0x1234_5000).bits(), 0x8000_0000_1234_500B);
}

#[test]
fn physical_reads_across_a_page_boundary() {
    assert_eq!(read_phys_split(0x5010, 40), (0x5000, 0x10, 40, 0));
    assert_eq!(read_phys_split(0x5FF0, 40), (0x5000, 0xFF0, 16, 24));
    assert_eq!(read_phys_split(0x6000, 4096), (0x6000, 0, 4096, 0));
}

#[test]
fn recursive_table_addresses_for_the_linear_map() {
    let virt = 0xFFFF_8180_0060_0000u64;
    assert_eq!(recursive_table_address(PagingLevel::Level4, virt, 2), 0xFFFF_8040_2060_0000);
    assert_eq!(recursive_table_address(PagingLevel::Level4, virt, 3), 0xFFFF_8040_2010_3000);
    assert_eq!(recursive_table_address(PagingLevel::Level4, virt, 4), 0xFFFF_8040_2010_0000);
    assert_eq!(linear_entry_index(virt, 4), 259);
    assert_eq!(linear_entry_index(virt, 3), 0);
    assert_eq!(linear_entry_index(virt, 2), 3);
}

#[test]
fn linear_entries_and_steps() {
    assert_eq!(linear_table_entry(0x7000).bits(), 0x8000_0000_0000_7103);
    assert_eq!(linear_huge_entry(0x20_0000).bits(), 0x8000_0000_0020_0183);
    assert_eq!(
        linear_steps(0xFFFF_8180_0000_0000, 0, 0x40_0000),
        vec![(0xFFFF_8180_0000_0000, 0), (0xFFFF_8180_0020_0000, 0x20_0000)]
    );
    assert!(linear_steps(0x1000, 0x1000, 0).is_empty());
}

#[test]
fn recursive_slot_check_and_teardown() {
    let root = 0x2000u64;
    let mut table = vec![0u64; 512];
    assert!(!recursive_entry_mapped(&table, root));
    table[256] = PageTableEntry::new().with_present().with_address(root).bits();
    table[3] = PageTableEntry::new().with_present().with_address(0x3000).bits();
    table[511] = PageTableEntry::new().with_present().with_address(0x1000).bits();
    assert!(recursive_entry_mapped(&table, root));
    assert!(!recursive_entry_mapped(&table, 0x3000));
    unmap_lower_half_and_recursive(&mut table);
    assert!(!recursive_entry_mapped(&table, root));
    assert_eq!(table[3], 0);
    assert_eq!(table[511], 0x1001);
}
