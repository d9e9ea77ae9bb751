use oro_arch_x86_64::address_space::{AddressSpaceHandle, AddressSpaceLayout};
use oro_arch_x86_64::paging::{PageTable, PageTableEntry, PagingLevel};
use oro_arch_x86_64::phys::{PageFrameAllocator, PhysicalMemory};
use oro_arch_x86_64::segment::{sign_extend_l4, sign_extend_l5, MapError, UnmapError};
use oro_arch_x86_64::thread::ThreadHandle;

fn memory_with_free_frames(frames: usize) -> (PhysicalMemory, PageFrameAllocator) {
    let mem = PhysicalMemory::new(frames);
    let mut alloc = PageFrameAllocator::new();
    for k in 1..frames {
        alloc.free((k as u64) * 4096);
    }
    (mem, alloc)
}

#[test]
fn entry_flags_set_and_clear() {
    let mut e = PageTableEntry::new();
    assert_eq!(e.bits(), 0);
    e.set_present();
    e.set_writable();
    e.set_no_exec();
    assert!(e.present() && e.writable() && e.no_exec());
    assert_eq!(e.bits(), 0x8000_0000_0000_0003);
    e.clear_writable();
    assert!(!e.writable());
    assert_eq!(e.bits(), 0x8000_0000_0000_0001);
    e.reset();
    assert_eq!(e.bits(), 0);
}

#[test]
fn entry_builder_flags() {
    let e = PageTableEntry::new()
        .with_user()
        .with_global()
        .with_dirty()
        .with_accessed()
        .with_write_through()
        .with_cache_disable()
        .with_huge();
    assert_eq!(e.bits(), 0x4 | 0x100 | 0x40 | 0x20 | 0x8 | 0x10 | 0x80);
    assert!(e.user() && e.global() && e.dirty() && e.accessed());
    assert!(e.write_through() && e.cache_disable() && e.huge());
    assert!(!e.present());
}

#[test]
fn entry_supervisor_is_user_bit_clear() {
    let e = PageTableEntry::new().with_user();
    assert!(!e.supervisor());
    let s = e.with_supervisor();
    assert!(s.supervisor());
    assert!(!s.user());
}

#[test]
fn entry_address_keeps_flags() {
    let e = PageTableEntry::new().with_present().with_no_exec().with_address(0x1234_5678_9ABC_DEF0);
    assert_eq!(e.address(), 0x0004_5678_9ABC_D000);
    assert_eq!(e.bits(), 0x8004_5678_9ABC_D001);
    let again = e.with_address(e.address());
    assert_eq!(again.bits(), e.bits());
}

#[test]
fn entry_set_address_truncates_to_address_bits() {
    let mut e = PageTableEntry::new().with_present();
    e.set_address(0xFFFF_FFFF_FFFF_FFFF);
    assert_eq!(e.address(), 0x000F_FFFF_FFFF_F000);
    assert!(e.present());
}

#[test]
fn entry_available_bits() {
    let mut e = PageTableEntry::new().with_present();
    {
        let mut a = e.available();
        a.set_first(0x5);
        a.set_second(0x3);
    }
    {
        let a = e.available();
        assert_eq!(a.first(), 0x5);
        assert_eq!(a.second(), 0x3);
    }
    assert!(e.present());
    let w = PageTableEntry::new().with_available(0);
    assert_eq!(w.bits(), 0);
}

#[test]
fn entry_available_set_bit_three() {
    let mut e = PageTableEntry::new();
    {
        let mut a = e.available();
        a.set(3);
        assert!(a.get(3));
        assert_eq!(a.as_u16(), 0x8);
    }
    assert_eq!(u64::from(e), 0x0010_0000_0000_0000);
}

#[test]
fn entry_from_and_into_bits() {
    let e = PageTableEntry::from(0x8000_0000_0000_0103u64);
    assert!(e.present() && e.writable() && e.global() && e.no_exec());
    let raw: u64 = e.into();
    assert_eq!(raw, 0x8000_0000_0000_0103);
}

#[test]
fn page_table_reset_and_empty() {
    let mut t = PageTable::new();
    assert!(t.empty());
    t.set_entry(7, PageTableEntry::new().with_present());
    assert!(!t.empty());
    assert!(t.index(7).present());
    t.reset();
    assert!(t.empty());
}

#[test]
fn paging_level_from_cr4() {
    assert_eq!(PagingLevel::current_from_cpu(0), PagingLevel::Level4);
    assert_eq!(PagingLevel::current_from_cpu(0x1000), PagingLevel::Level5);
    assert_eq!(PagingLevel::Level4.as_usize(), 4);
    assert_eq!(PagingLevel::Level5.as_usize(), 5);
}

#[test]
fn sign_extension_of_addresses() {
    assert_eq!(sign_extend_l4(0x0000_8000_0000_0000), 0xFFFF_8000_0000_0000);
    assert_eq!(sign_extend_l4(0x0000_7FFF_FFFF_FFFF), 0x0000_7FFF_FFFF_FFFF);
    assert_eq!(sign_extend_l5(0x0100_0000_0000_0000), 0xFF00_0000_0000_0000);
    assert_eq!(sign_extend_l5(0x00FF_FFFF_FFFF_FFFF), 0x00FF_FFFF_FFFF_FFFF);
}

#[test]
fn segment_ranges() {
    let seg = AddressSpaceLayout::kernel_stack();
    assert_eq!(seg.range(PagingLevel::Level4), (0xFFFF_8080_0000_0000, 0xFFFF_80FF_FFFF_FFFF));
    let low = AddressSpaceLayout::interrupt_stack();
    assert_eq!(low.range(PagingLevel::Level4), (0x0000_0900_0000_0000, 0x0000_097F_FFFF_FFFF));
    assert_eq!(low.range(PagingLevel::Level5), (0x0012_0000_0000_0000, 0x0012_FFFF_FFFF_FFFF));
}

#[test]
fn map_then_unmap_gives_frame_back() {
    let (mut mem, mut alloc) = memory_with_free_frames(16);
    let space = AddressSpaceLayout::new_supervisor_space_in(&mut mem, &mut alloc, PagingLevel::Level4).unwrap();
    assert_eq!(space.base_phys, 15 * 4096);
    let seg = AddressSpaceLayout::kernel_stack();
    let virt = 0xFFFF_8080_0000_1000u64;
    assert_eq!(seg.map(&mut mem, &space, &mut alloc, virt, 0x1234_5000), Ok(()));
    // Three intermediate tables were taken from the allocator.
    assert_eq!(alloc.len(), 11);
    assert_eq!(seg.unmap(&mut mem, &space, &mut alloc, virt), Ok(0x1234_5000));
    // The emptied tables went back to the allocator.
    assert_eq!(alloc.len(), 14);
    assert_eq!(seg.unmap(&mut mem, &space, &mut alloc, virt), Err(UnmapError::NotMapped));
}

#[test]
fn map_of_mapped_address_is_refused() {
    let (mut mem, mut alloc) = memory_with_free_frames(16);
    let space = AddressSpaceLayout::new_supervisor_space_in(&mut mem, &mut alloc, PagingLevel::Level4).unwrap();
    let seg = AddressSpaceLayout::kernel_stack();
    let virt = 0xFFFF_8080_0000_2000u64;
    assert_eq!(seg.map(&mut mem, &space, &mut alloc, virt, 0x5000), Ok(()));
    assert_eq!(seg.map(&mut mem, &space, &mut alloc, virt, 0x6000), Err(MapError::Exists));
    assert_eq!(seg.remap(&mut mem, &space, &mut alloc, virt, 0x6000), Ok(Some(0x5000)));
    assert_eq!(seg.unmap(&mut mem, &space, &mut alloc, virt), Ok(0x6000));
}

#[test]
fn map_errors_for_alignment_range_and_memory() {
    let (mut mem, mut alloc) = memory_with_free_frames(4);
    let space = AddressSpaceLayout::new_supervisor_space_in(&mut mem, &mut alloc, PagingLevel::Level4).unwrap();
    let seg = AddressSpaceLayout::kernel_stack();
    assert_eq!(seg.map(&mut mem, &space, &mut alloc, 0xFFFF_8080_0000_0010, 0x5000), Err(MapError::VirtNotAligned));
    assert_eq!(seg.map(&mut mem, &space, &mut alloc, 0x1000, 0x5000), Err(MapError::VirtOutOfRange));
    // Two frames are left but three tables are needed.
    assert_eq!(alloc.len(), 2);
    assert_eq!(seg.map(&mut mem, &space, &mut alloc, 0xFFFF_8080_0000_0000, 0x5000), Err(MapError::OutOfMemory));
    assert_eq!(seg.unmap(&mut mem, &space, &mut alloc, 0x1000), Err(UnmapError::VirtOutOfRange));
    assert_eq!(seg.unmap(&mut mem, &space, &mut alloc, 0xFFFF_8080_0000_0008), Err(UnmapError::VirtNotAligned));
}

#[test]
fn five_level_map_and_unmap() {
    let (mut mem, mut alloc) = memory_with_free_frames(16);
    let space = AddressSpaceLayout::new_supervisor_space_in(&mut mem, &mut alloc, PagingLevel::Level5).unwrap();
    let seg = AddressSpaceLayout::interrupt_stack();
    let virt = 0x0012_0000_0000_3000u64;
    assert_eq!(seg.map(&mut mem, &space, &mut alloc, virt, 0x7000), Ok(()));
    assert_eq!(alloc.len(), 10);
    assert_eq!(seg.unmap(&mut mem, &space, &mut alloc, virt), Ok(0x7000));
    assert_eq!(alloc.len(), 14);
}

#[test]
fn recursive_entry_references_the_root() {
    let (mut mem, mut alloc) = memory_with_free_frames(4);
    let space = AddressSpaceLayout::new_supervisor_space_in(&mut mem, &mut alloc, PagingLevel::Level4).unwrap();
    AddressSpaceLayout::map_recursive_entry(&mut mem, &space);
    let e = mem.read_entry(space.base_phys, 256);
    assert!(e.present() && e.writable() && e.no_exec());
    assert_eq!(e.address(), space.base_phys);
}

#[test]
fn user_space_drops_core_local_and_kernel_stack() {
    let (mut mem, mut alloc) = memory_with_free_frames(16);
    let sup = AddressSpaceLayout::new_supervisor_space_in(&mut mem, &mut alloc, PagingLevel::Level4).unwrap();
    let stack = AddressSpaceLayout::kernel_stack();
    let code = AddressSpaceLayout::kernel_code();
    assert_eq!(stack.map(&mut mem, &sup, &mut alloc, 0xFFFF_8080_0000_0000, 0x9000), Ok(()));
    assert_eq!(code.map(&mut mem, &sup, &mut alloc, 0xFFFF_FF80_0000_0000, 0xA000), Ok(()));
    let user = AddressSpaceLayout::new_user_space_in(&mut mem, &sup, &mut alloc, PagingLevel::Level4).unwrap();
    assert!(!mem.read_entry(user.base_phys, 257).present());
    assert!(mem.read_entry(user.base_phys, 511).present());
    assert_eq!(
        mem.read_entry(user.base_phys, 511).bits(),
        mem.read_entry(sup.base_phys, 511).bits()
    );
}

#[test]
fn new_space_without_frames_fails() {
    let mut mem = PhysicalMemory::new(2);
    let mut alloc = PageFrameAllocator::new();
    assert!(AddressSpaceLayout::new_supervisor_space_in(&mut mem, &mut alloc, PagingLevel::Level4).is_none());
}

#[test]
fn handle_fields() {
    let h = AddressSpaceHandle { base_phys: 0x3000, paging_level: PagingLevel::Level5 };
    assert_eq!(h.base_phys, 0x3000);
    assert_eq!(h.paging_level, PagingLevel::Level5);
}

#[test]
fn thread_irq_stack_is_mapped_and_primed() {
    let (mut mem, mut alloc) = memory_with_free_frames(16);
    let space = AddressSpaceLayout::new_supervisor_space_in(&mut mem, &mut alloc, PagingLevel::Level4).unwrap();
    let t = ThreadHandle::new(space, 0x7FFF_0000, 0x40_1000, &mut mem, &mut alloc, 0x2).unwrap();
    assert_eq!(t.irq_stack_ptr, 0x0000_097F_FFFF_F000 - 168);
    assert_eq!(t.mapper().base_phys, space.base_phys);
    // The stack page came from the allocator (the last frame it held), the
    // three intermediate tables after it.
    let top = mem.read_words(14 * 4096);
    assert_eq!(top[511], 0x23);
    assert_eq!(top[510], 0x7FFF_0000);
    assert_eq!(top[509], 0x202);
    assert_eq!(top[508], 0x1B);
    assert_eq!(top[507], 0x40_1000);
    assert_eq!(alloc.len(), 10);
    let seg = AddressSpaceLayout::interrupt_stack();
    assert_eq!(seg.unmap(&mut mem, &space, &mut alloc, 0x0000_097F_FFFF_E000), Ok(14 * 4096));
}

#[test]
fn thread_without_frames_fails() {
    let (mut mem, mut alloc) = memory_with_free_frames(2);
    let space = AddressSpaceLayout::new_supervisor_space_in(&mut mem, &mut alloc, PagingLevel::Level4).unwrap();
    assert_eq!(alloc.len(), 0);
    let r = ThreadHandle::new(space, 0, 0, &mut mem, &mut alloc, 0);
    assert!(matches!(r, Err(MapError::OutOfMemory)));
}
