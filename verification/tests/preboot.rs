use oro_arch_x86_64::preboot::{
    boot_memory_map, cstr_eq, find_kernel_module, hex_digits, is_oro_region_allocatable, kernel_stack_layout,
    load_kernel_elf_err, map_limine_to_oro_region, page_fill, plan_segments, KernelElfError, LimineMemmapEntry,
    LimineMemoryType, LiminePageFrameAllocator, MemoryRegion, MemoryRegionKind, OroBootAllocator, SegmentLoad,
    PAGE_NO_EXECUTE, PAGE_PRESENT, PAGE_WRITABLE,
};

fn entry(base: u64, len: u64, typ: LimineMemoryType) -> LimineMemmapEntry {
    LimineMemmapEntry { base, len, typ }
}

fn push_u16(v: &mut Vec<u8>, x: u16) {
    v.extend_from_slice(&x.to_le_bytes());
}

fn push_u32(v: &mut Vec<u8>, x: u32) {
    v.extend_from_slice(&x.to_le_bytes());
}

fn push_u64(v: &mut Vec<u8>, x: u64) {
    v.extend_from_slice(&x.to_le_bytes());
}

/// A little-endian ELF64 executable with the given program headers
/// (type, flags, offset, vaddr, filesz, memsz) right after its header.
fn elf_image(entry_point: u64, headers: &[(u32, u32, u64, u64, u64, u64)]) -> Vec<u8> {
    let mut v = vec![0x7F, b'E', b'L', b'F', 2, 1, 1, 0, 0, 0, 0, 0, 0, 0, 0, 0];
    push_u16(&mut v, 2);
    push_u16(&mut v, 0x3E);
    push_u32(&mut v, 1);
    push_u64(&mut v, entry_point);
    push_u64(&mut v, if headers.is_empty() { 0 } else { 64 });
    push_u64(&mut v, 0);
    push_u32(&mut v, 0);
    push_u16(&mut v, 64);
    push_u16(&mut v, 56);
    push_u16(&mut v, headers.len() as u16);
    push_u16(&mut v, 64);
    push_u16(&mut v, 0);
    push_u16(&mut v, 0);
    for h in headers {
        push_u32(&mut v, h.0);
        push_u32(&mut v, h.1);
        push_u64(&mut v, h.2);
        push_u64(&mut v, h.3);
        push_u64(&mut v, 0);
        push_u64(&mut v, h.4);
        push_u64(&mut v, h.5);
        push_u64(&mut v, 0x1000);
    }
    v
}

#[test]
fn limine_region_kinds() {
    assert_eq!(map_limine_to_oro_region(&LimineMemoryType::Usable), MemoryRegionKind::Usable);
    assert_eq!(map_limine_to_oro_region(&LimineMemoryType::BootloaderReclaimable), MemoryRegionKind::Usable);
    assert_eq!(map_limine_to_oro_region(&LimineMemoryType::KernelAndModules), MemoryRegionKind::Modules);
    assert_eq!(map_limine_to_oro_region(&LimineMemoryType::AcpiNvs), MemoryRegionKind::Reserved);
    assert_eq!(map_limine_to_oro_region(&LimineMemoryType::Framebuffer), MemoryRegionKind::Reserved);
    assert!(is_oro_region_allocatable(&MemoryRegionKind::Usable));
    assert!(!is_oro_region_allocatable(&MemoryRegionKind::Modules));
    assert!(!is_oro_region_allocatable(&MemoryRegionKind::Reserved));
}

#[test]
fn limine_pfa_walks_allocatable_regions() {
    let map = vec![
        entry(0x1000, 0x2000, LimineMemoryType::Reserved),
        entry(0x10000, 0x1000, LimineMemoryType::AcpiReclaimable),
        entry(0x20000, 0x1000, LimineMemoryType::Usable),
        entry(0x30000, 0x2000, LimineMemoryType::BootloaderReclaimable),
    ];
    let mut pfa = LiminePageFrameAllocator::new(map);
    // The first region is handed out whatever its type.
    assert_eq!(pfa.allocate_frame(), Some(0x1000));
    assert_eq!(pfa.allocate_frame(), Some(0x2000));
    assert_eq!(pfa.allocate_frame(), Some(0x20000));
    assert_eq!(pfa.allocate_frame(), Some(0x30000));
    assert_eq!(pfa.allocate_frame(), Some(0x31000));
    assert_eq!(pfa.allocate_frame(), None);
    assert_eq!(pfa.allocate_frame(), None);
    assert_eq!(pfa.total_allocations(), 5);
}

#[test]
fn limine_pfa_on_empty_map() {
    let mut pfa = LiminePageFrameAllocator::new(Vec::new());
    assert_eq!(pfa.allocate_frame(), None);
    assert_eq!(pfa.total_allocations(), 0);
}

#[test]
fn hex_digits_of_numbers() {
    assert_eq!(hex_digits(0), b"0000000000000000".to_vec());
    assert_eq!(hex_digits(0xDEAD_BEEF_0123_4567), b"DEADBEEF01234567".to_vec());
    assert_eq!(hex_digits(u64::MAX), b"FFFFFFFFFFFFFFFF".to_vec());
}

#[test]
fn cstr_comparisons() {
    assert!(cstr_eq(b"/oro-kernel\0", b"/oro-kernel\0"));
    assert!(!cstr_eq(b"/oro-kernel2\0", b"/oro-kernel\0"));
    assert!(!cstr_eq(b"/oro\0", b"/oro-kernel\0"));
    assert!(cstr_eq(b"\0", b"\0"));
}

#[test]
fn kernel_module_is_found_by_path() {
    let paths = vec![b"/boot/other\0".to_vec(), b"/oro-kernel\0".to_vec(), b"/oro-kernel\0".to_vec()];
    assert_eq!(find_kernel_module(&paths), Some(1));
    let none = vec![b"/oro-kernel.elf\0".to_vec()];
    assert_eq!(find_kernel_module(&none), None);
}

#[test]
fn boot_allocator_backs_each_page_once() {
    let mut a = OroBootAllocator::new(0x10_0000);
    assert_eq!(a.position(), 0x10_0000);
    assert_eq!(a.allocate(0x10), vec![0x100]);
    assert_eq!(a.allocate(0x1000), vec![0x101]);
    assert_eq!(a.allocate(0x20), Vec::<u64>::new());
    assert_eq!(a.allocate(0x2000), vec![0x102, 0x103]);
    assert_eq!(a.position(), 0x10_0000 + 0x10 + 0x1000 + 0x20 + 0x2000);
}

#[test]
fn boot_memory_map_converts_kinds() {
    let map = vec![entry(0, 0x1000, LimineMemoryType::BadMemory), entry(0x1000, 0x2000, LimineMemoryType::Usable)];
    assert_eq!(
        boot_memory_map(&map),
        vec![
            MemoryRegion { base: 0, length: 0x1000, kind: MemoryRegionKind::Reserved },
            MemoryRegion { base: 0x1000, length: 0x2000, kind: MemoryRegionKind::Usable },
        ]
    );
}

#[test]
fn kernel_stack_pages() {
    assert_eq!(
        kernel_stack_layout(0xFFFF_80FF_FFFF_FFFF),
        (0xFFFF_80FF_FFFF_F000, 0xFFFF_80FF_FFFF_F - 16, 0xFFFF_80FF_FFFF_F)
    );
}

#[test]
fn segment_plan_flags() {
    let headers = vec![
        (1u32, 5u32, 0u64, 0xFFFF_FFFF_8000_0000u64, 0x80u64, 0x1800u64),
        (4u32, 4u32, 0x200u64, 0u64, 0x20u64, 0x20u64),
        (1u32, 6u32, 0x1000u64, 0xFFFF_FFFF_8000_2000u64, 0x1000u64, 0x3000u64),
    ];
    assert_eq!(
        plan_segments(&headers),
        vec![
            SegmentLoad {
                start_page: 0xFFFF_FFFF_8000_0,
                end_page: 0xFFFF_FFFF_8000_1,
                flags: PAGE_PRESENT,
                file_offset: 0,
                file_size: 0x80,
            },
            SegmentLoad {
                start_page: 0xFFFF_FFFF_8000_2,
                end_page: 0xFFFF_FFFF_8000_5,
                flags: PAGE_PRESENT | PAGE_WRITABLE | PAGE_NO_EXECUTE,
                file_offset: 0x1000,
                file_size: 0x1000,
            },
        ]
    );
}

#[test]
fn page_fill_copies_then_zeroes() {
    let load = SegmentLoad { start_page: 0x100, end_page: 0x102, flags: PAGE_PRESENT, file_offset: 0x2000, file_size: 0x1800 };
    assert_eq!(page_fill(&load, 0x100), (0x2000, 0x1000, 0));
    assert_eq!(page_fill(&load, 0x101), (0x3000, 0x800, 0x800));
    assert_eq!(page_fill(&load, 0x102), (0x4000, 0, 0x1000));
}

#[test]
fn kernel_elf_is_read_through_the_parser() {
    let image = elf_image(
        0xFFFF_FFFF_8000_1000,
        &[(1, 5, 0, 0xFFFF_FFFF_8000_0000, 0x80, 0x1800), (4, 4, 0x40, 0, 0x20, 0x20)],
    );
    let (entry_point, plan) = load_kernel_elf_err(&image).unwrap();
    assert_eq!(entry_point, 0xFFFF_FFFF_8000_1000);
    assert_eq!(
        plan,
        vec![SegmentLoad {
            start_page: 0xFFFF_FFFF_8000_0,
            end_page: 0xFFFF_FFFF_8000_1,
            flags: PAGE_PRESENT,
            file_offset: 0,
            file_size: 0x80,
        }]
    );
}

#[test]
fn kernel_elf_errors() {
    assert_eq!(load_kernel_elf_err(b"not an elf file at all").unwrap_err(), KernelElfError::Parse);
    let no_headers = elf_image(0x1000, &[]);
    assert_eq!(load_kernel_elf_err(&no_headers).unwrap_err(), KernelElfError::NoSegments);
}
