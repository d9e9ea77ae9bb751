use oro_arch_x86_64::boot_memory::{MemoryMapEntry, MemoryMapEntryType, MemoryMapPfa};
use oro_arch_x86_64::linear_map::{linear_map_bounds, linear_map_regions};
use oro_arch_x86_64::paging::PagingLevel;
use oro_arch_x86_64::phys::PhysicalMemory;

fn usable(base: u64, length: u64) -> MemoryMapEntry {
    MemoryMapEntry { base, length, ty: MemoryMapEntryType::Usable, used: 0, next: 0 }
}

#[test]
fn linear_map_bounds_per_level() {
    assert_eq!(linear_map_bounds(PagingLevel::Level4), (0xFFFF_8180_0000_0000, 0xFFFF_A07F_FFFF_FFFF));
    assert_eq!(linear_map_bounds(PagingLevel::Level5), (0xFF03_0000_0000_0000, 0xFF40_FFFF_FFFF_FFFF));
}

#[test]
fn linear_map_places_pages_at_the_offset() {
    let mut mem = PhysicalMemory::new(16);
    let root = 0x1000u64;
    let map = vec![usable(0x2000, 0xE000), usable(0x1_2340_0000, 0x40_0000)];
    let mut pfa = MemoryMapPfa::new(vec![usable(0x2000, 0xE000)]);
    let base = 0xFFFF_8180_0000_0000u64;
    assert_eq!(linear_map_regions(&mut mem, root, PagingLevel::Level4, &mut pfa, &map), Some(base));
    // Root slot 259 leads to the table of the first 512 GiB; its first four
    // entries to the tables of the 2 MiB pages of the first 4 GiB.
    let l3 = mem.read_entry(root, 259);
    assert!(l3.present());
    assert_eq!(l3.bits(), 0x8000_0000_0000_0103 | 0x2000);
    let pd0 = mem.read_entry(l3.address(), 0);
    assert_eq!(mem.read_entry(pd0.address(), 1).bits(), 0x8000_0000_0020_0183);
    // The region above 4 GiB: physical 0x1_2340_0000 sits in the fifth GiB.
    let pd4 = mem.read_entry(l3.address(), 4);
    assert!(pd4.present());
    let slot = (0x1_2340_0000u64 >> 21) & 0x1FF;
    assert_eq!(mem.read_entry(pd4.address(), slot as usize).bits(), 0x8000_0000_0000_0183 | 0x1_2340_0000);
    assert_eq!(mem.read_entry(pd4.address(), slot as usize + 1).bits(), 0x8000_0000_0000_0183 | 0x1_2360_0000);
    // One table for the 512 GiB slot and five for the page tables: six frames.
    assert_eq!(pfa.next(), Some(0x8000));
}

#[test]
fn linear_map_runs_dry() {
    let mut mem = PhysicalMemory::new(16);
    let mut pfa = MemoryMapPfa::new(vec![usable(0x2000, 0x2000)]);
    assert_eq!(linear_map_regions(&mut mem, 0x1000, PagingLevel::Level4, &mut pfa, &vec![]), None);
    assert_eq!(pfa.next(), None);
}
