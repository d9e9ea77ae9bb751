use oro_arch_x86_64::mapper::{
    encode_to_entry_l4, encode_to_entry_l5, FixedAddressPageFrameManager, Layout, RecursiveMapper,
    TranslatorMapper,
};
use oro_arch_x86_64::paging::{PageTableEntry, PagingLevel};
use oro_arch_x86_64::phys::{PageFrameAllocator, PhysicalMemory};
use oro_arch_x86_64::segment::{MapError, UnmapError};

fn frames(n: usize) -> (PhysicalMemory, PageFrameAllocator) {
    let mem = PhysicalMemory::new(n);
    let mut alloc = PageFrameAllocator::new();
    for k in 1..n {
        alloc.free((k as u64) * 4096);
    }
    (mem, alloc)
}

#[test]
fn layout_descriptors() {
    assert_eq!(Layout::RECURSIVE_IDX, 256);
    let code = Layout::kernel_code();
    assert_eq!(code.valid_range, (511, 511));
    assert_eq!(code.entry_template.bits(), 0x105);
    assert_eq!(Layout::kernel_data().entry_template.bits(), 0x8000_0000_0000_0103);
    assert_eq!(Layout::kernel_rodata().entry_template.bits(), 0x8000_0000_0000_0101);
}

#[test]
fn recursive_entry_addresses() {
    assert_eq!(encode_to_entry_l4(1, 2, 3, 4), 0xFFFF_8000_4040_3020);
    assert_eq!(encode_to_entry_l5(1, 2, 3, 4, 5), 0xFF00_0080_8060_4028);
    // The root table's own recursive slot.
    assert_eq!(encode_to_entry_l4(256, 256, 256, 256), 0xFFFF_8040_2010_0800);
}

#[test]
fn recursive_address_decodes_to_its_indices() {
    let a = encode_to_entry_l4(17, 300, 5, 511);
    assert_eq!((a >> 39) & 0x1FF, 256);
    assert_eq!((a >> 30) & 0x1FF, 17);
    assert_eq!((a >> 21) & 0x1FF, 300);
    assert_eq!((a >> 12) & 0x1FF, 5);
    assert_eq!(a & 0xFFF, 511 * 8);
}

#[test]
fn recursive_mapper_takes_over_the_root() {
    let (mut mem, mut alloc) = frames(8);
    let root = alloc.allocate().unwrap();
    mem.zero_frame(root);
    mem.write_entry(root, 256, PageTableEntry::new().with_present().with_user().with_address(root));
    let mapper = RecursiveMapper::take(&mut mem, root, PagingLevel::Level4);
    assert_eq!(mapper.handle(), root);
    let slot = mem.read_entry(root, 256);
    assert!(slot.present() && slot.no_exec() && !slot.user());
    assert_eq!(slot.bits(), 0x8000_0000_0000_0001 | root);
}

#[test]
fn recursive_mapper_make_active_swaps_handles() {
    let (mut mem, mut alloc) = frames(4);
    let root = alloc.allocate().unwrap();
    mem.zero_frame(root);
    mem.write_entry(root, 256, PageTableEntry::new().with_present().with_address(root));
    let mut mapper = RecursiveMapper::take(&mut mem, root, PagingLevel::Level4);
    assert_eq!(mapper.make_active(0x9000), root);
    assert_eq!(mapper.handle(), 0x9000);
    assert_eq!(mapper.make_active(0x9000), 0x9000);
}

#[test]
fn recursive_segment_map_and_unmap() {
    let (mut mem, mut alloc) = frames(16);
    let root = alloc.allocate().unwrap();
    mem.zero_frame(root);
    mem.write_entry(root, 256, PageTableEntry::new().with_present().with_writable().with_address(root));
    let mapper = RecursiveMapper::take(&mut mem, root, PagingLevel::Level4);
    let mut seg = mapper.for_supervisor_segment(Layout::kernel_data());
    let virt = 0xFFFF_FF80_0000_5000u64;
    assert_eq!(seg.map(&mut mem, &mut alloc, virt, 0xABC000), Ok(()));
    assert_eq!(seg.map(&mut mem, &mut alloc, virt, 0xABC000), Err(MapError::Exists));
    assert_eq!(seg.map(&mut mem, &mut alloc, 0x5000, 0xABC000), Err(MapError::VirtOutOfRange));
    assert_eq!(seg.map(&mut mem, &mut alloc, virt + 8, 0xABC000), Err(MapError::VirtNotAligned));
    let free_before = alloc.len();
    assert_eq!(seg.unmap(&mut mem, &mut alloc, virt), Ok(0xABC000));
    assert_eq!(alloc.len(), free_before + 3);
    assert_eq!(seg.unmap(&mut mem, &mut alloc, virt), Err(UnmapError::NotMapped));
    assert_eq!(alloc.len(), free_before + 3);
}

#[test]
fn translator_mapper_maps_into_a_new_space() {
    let (mut mem, mut alloc) = frames(16);
    let mapper = TranslatorMapper::new(&mut mem, &mut alloc, PagingLevel::Level4).unwrap();
    assert_eq!(mapper.page_table_phys(), 15 * 4096);
    let mut seg = mapper.for_supervisor_segment(Layout::kernel_rodata());
    let virt = 0xFFFF_FF80_0020_0000u64;
    assert_eq!(seg.map(&mut mem, &mut alloc, virt, 0x7000), Ok(()));
    assert_eq!(seg.map(&mut mem, &mut alloc, virt, 0x8000), Err(MapError::Exists));
    assert_eq!(seg.remap(&mut mem, &mut alloc, virt, 0x8000), Ok(()));
    assert_eq!(seg.unmap(&mut mem, &mut alloc, virt), Ok(0x8000));
    assert_eq!(seg.unmap(&mut mem, &mut alloc, virt), Err(UnmapError::NotMapped));
    assert_eq!(seg.unmap(&mut mem, &mut alloc, 0x1000), Err(UnmapError::VirtOutOfRange));
}

#[test]
fn translator_mapper_clone_top_level_copies_the_root() {
    let (mut mem, mut alloc) = frames(16);
    let mapper = TranslatorMapper::new(&mut mem, &mut alloc, PagingLevel::Level4).unwrap();
    let mut seg = mapper.for_supervisor_segment(Layout::kernel_code());
    assert_eq!(seg.map(&mut mem, &mut alloc, 0xFFFF_FF80_0000_0000, 0x3000), Ok(()));
    let copy = mapper.clone_top_level(&mut mem, &mut alloc);
    assert_ne!(copy.page_table_phys(), mapper.page_table_phys());
    assert_eq!(
        mem.read_entry(copy.page_table_phys(), 511).bits(),
        mem.read_entry(mapper.page_table_phys(), 511).bits()
    );
    let token = copy.clone_token();
    let back = TranslatorMapper::from_token(token, PagingLevel::Level4);
    assert_eq!(back.page_table_phys(), copy.page_table_phys());
}

#[test]
fn translator_mapper_without_frames() {
    let mut mem = PhysicalMemory::new(2);
    let mut alloc = PageFrameAllocator::new();
    assert!(TranslatorMapper::new(&mut mem, &mut alloc, PagingLevel::Level4).is_none());
    let current = TranslatorMapper::get_current(0x4000, PagingLevel::Level5);
    assert_eq!(current.page_table_phys(), 0x4000);
}

#[test]
fn fixed_address_manager_loads_frames_once() {
    let mut m = FixedAddressPageFrameManager::new(0x20_0000, PageTableEntry::new());
    assert_eq!(m.virtual_address(), 0x20_0000);
    assert!(m.load_page_frame(0x5000));
    assert_eq!(m.entry().bits(), 0x8000_0000_0000_5003);
    assert!(!m.load_page_frame(0x5000));
    assert!(m.load_page_frame(0x6000));
    assert_eq!(m.entry().address(), 0x6000);
}

#[test]
fn five_level_segments_check_the_root_index() {
    let (mut mem, mut alloc) = frames(16);
    let mapper = TranslatorMapper::new(&mut mem, &mut alloc, PagingLevel::Level5).unwrap();
    let mut seg = mapper.for_supervisor_segment(Layout::kernel_data());
    // L5 index 511, L4 index 0: inside the kernel segment.
    let inside = 0xFFFF_0000_0000_3000u64;
    // L5 index 0, L4 index 511: outside it.
    let outside = 0x0000_FF80_0000_3000u64;
    assert_eq!(seg.map(&mut mem, &mut alloc, outside, 0x9000), Err(MapError::VirtOutOfRange));
    assert_eq!(seg.unmap(&mut mem, &mut alloc, outside), Err(UnmapError::VirtOutOfRange));
    let free_before = alloc.len();
    assert_eq!(seg.map(&mut mem, &mut alloc, inside, 0x9000), Ok(()));
    assert_eq!(alloc.len(), free_before - 4);
    assert_eq!(seg.unmap(&mut mem, &mut alloc, inside), Ok(0x9000));
    assert_eq!(alloc.len(), free_before);
    assert_eq!(seg.unmap(&mut mem, &mut alloc, inside), Err(UnmapError::NotMapped));
}

#[test]
fn remap_writes_the_descriptor_entry() {
    let (mut mem, mut alloc) = frames(16);
    let mapper = TranslatorMapper::new(&mut mem, &mut alloc, PagingLevel::Level4).unwrap();
    let root = mapper.page_table_phys();
    let mut seg = mapper.for_supervisor_segment(Layout::kernel_rodata());
    let virt = 0xFFFF_FF80_0020_0000u64;
    assert_eq!(seg.remap(&mut mem, &mut alloc, virt, 0x7000), Ok(()));
    // Walk the tables by hand down to the leaf.
    let l4 = mem.read_entry(root, 511);
    assert_eq!(l4.bits() & 0xFFF0_0000_0000_0FFF, 0x8000_0000_0000_0101);
    let l3 = mem.read_entry(l4.address(), 0);
    let l2 = mem.read_entry(l3.address(), 1);
    let leaf = mem.read_entry(l2.address(), 0);
    assert_eq!(leaf.bits(), 0x8000_0000_0000_7101);
}

#[test]
fn unmap_leaves_neighbours_and_frees_emptied_tables() {
    let (mut mem, mut alloc) = frames(16);
    let mapper = TranslatorMapper::new(&mut mem, &mut alloc, PagingLevel::Level4).unwrap();
    let mut seg = mapper.for_supervisor_segment(Layout::kernel_data());
    let a = 0xFFFF_FF80_0000_1000u64;
    let b = 0xFFFF_FF80_0000_2000u64;
    assert_eq!(seg.map(&mut mem, &mut alloc, a, 0x5000), Ok(()));
    assert_eq!(seg.map(&mut mem, &mut alloc, b, 0x6000), Ok(()));
    let free_after_maps = alloc.len();
    // The tables still hold `b`: nothing is freed and `b` stays mapped.
    assert_eq!(seg.unmap(&mut mem, &mut alloc, a), Ok(0x5000));
    assert_eq!(alloc.len(), free_after_maps);
    assert_eq!(seg.remap(&mut mem, &mut alloc, b, 0x6000), Ok(()));
    assert_eq!(alloc.len(), free_after_maps);
    // Unmapping `b` empties the three tables below the root: all freed.
    assert_eq!(seg.unmap(&mut mem, &mut alloc, b), Ok(0x6000));
    assert_eq!(alloc.len(), free_after_maps + 3);
    assert!(!mem.read_entry(mapper.page_table_phys(), 511).present());
}
