use oro_arch_x86_64::boot_memory::read_phys_bytes;
use oro_arch_x86_64::paging::PagingLevel;
use oro_arch_x86_64::primary::{acpi_needs_enable, kernel_to_user_exit, KernelToUserExit};
use oro_arch_x86_64::syscall::{SyscallResponse, UserContext};
use oro_arch_x86_64::xfer::{stubs_layout, target_address, TransferToken, STUBS_ADDR};

#[test]
fn stubs_target_address() {
    assert_eq!(target_address(PagingLevel::Level4), 0x0000_6000_0000_0000);
    assert_eq!(target_address(PagingLevel::Level5), 192u64 << 48);
    assert_eq!(STUBS_ADDR, target_address(PagingLevel::Level4));
}

#[test]
fn stubs_layout_pages() {
    let layout = stubs_layout(0x100, 0x103).unwrap();
    assert_eq!(
        layout,
        vec![
            (0x0000_6000_0000_0000, 0x10_0000),
            (0x0000_6000_0000_1000, 0x10_1000),
            (0x0000_6000_0000_2000, 0x10_2000),
        ]
    );
    assert_eq!(stubs_layout(0x100, 0x100 + 512).unwrap().len(), 512);
    assert!(stubs_layout(0x100, 0x100 + 513).is_none());
}

#[test]
fn transfer_token_fields() {
    let t = TransferToken { stack_ptr: 0x1000, page_table_phys: 0x2000, core_id: 3, core_is_primary: false };
    assert_eq!((t.stack_ptr, t.page_table_phys, t.core_id, t.core_is_primary), (0x1000, 0x2000, 3, false));
}

#[test]
fn acpi_enable_decision() {
    // Hardware-reduced ACPI: nothing to switch on.
    assert!(!acpi_needs_enable(0x0010_0000, 0xB2, 0xA0, 0x404));
    // SMI port and enable value present: switch it on.
    assert!(acpi_needs_enable(0, 0xB2, 0xA0, 0x404));
    // No SMI port, no enable value and SCI_EN set: already on.
    assert!(!acpi_needs_enable(0, 0, 0, 0x1));
    // No SMI port but SCI_EN clear: still to switch on.
    assert!(acpi_needs_enable(0, 0, 0, 0x2));
}

#[test]
fn kernel_to_user_exits() {
    let ctx = UserContext { cr3: 0x5000, irq_stack_ptr: 0x0000_097F_FFFF_EF58 };
    assert_eq!(
        kernel_to_user_exit(ctx, None, 0x10, 0x20, PagingLevel::Level4),
        KernelToUserExit::Iret { cr3: 0x5000, rsp: 0x0000_097F_FFFF_EF58, kernel_rsp: 0x10, kernel_irq_rsp: 0x20, rsp0: 0x0000_097F_FFFF_F000 }
    );
    let resp = SyscallResponse { error: 1, ret: 42 };
    assert_eq!(
        kernel_to_user_exit(ctx, Some(resp), 0x10, 0x20, PagingLevel::Level5),
        KernelToUserExit::Sysret {
            cr3: 0x5000,
            rsp: 0x0000_097F_FFFF_EF58,
            kernel_rsp: 0x10,
            kernel_irq_rsp: 0x20,
            rsp0: 0x0012_FFFF_FFFF_F000,
            error: 1,
            ret: 42,
        }
    );
}

#[test]
fn phys_bytes_across_a_page_boundary() {
    let first: Vec<u8> = (0..4096).map(|i| (i % 251) as u8).collect();
    let second: Vec<u8> = (0..4096).map(|i| (i % 13) as u8 + 100).collect();
    assert_eq!(read_phys_bytes(&first, &second, 4094, 4), vec![(4094 % 251) as u8, (4095 % 251) as u8, 100, 101]);
    assert_eq!(read_phys_bytes(&first, &second, 8, 2), vec![8, 9]);
    assert!(read_phys_bytes(&first, &second, 0, 0).is_empty());
}
