//! Decisions of the primary core's boot and of the kernel's switch into a
//! user task.
use vstd::prelude::*;

use crate::paging::PagingLevel;
use crate::syscall::{irq_stack_base, SyscallResponse, UserContext};

verus! {

/// The FADT flag of hardware-reduced ACPI systems, which have no legacy
/// ACPI mode to switch on.
pub const ACPI_FADT_HW_REDUCED: u32 = 0x0010_0000;

/// Whether ACPI must be switched on through the SMI command port, given the
/// FADT's flags, SMI command port, ACPI-enable value and PM1a control
/// block: not on hardware-reduced systems, and not where ACPI is on already
/// (no SMI command port, no enable value, and SCI_EN set in PM1a control).
pub fn acpi_needs_enable(flags: u32, smi_command: u32, acpi_enable: u8, pm1a_control_block: u32) -> (r: bool)
    ensures
        r == (flags & ACPI_FADT_HW_REDUCED == 0 && !(smi_command == 0 && acpi_enable == 0
            && pm1a_control_block & 1 != 0)),
{
    (flags & ACPI_FADT_HW_REDUCED) == 0 && !(smi_command == 0 && acpi_enable == 0 && (pm1a_control_block & 1) != 0)
}

/// How the kernel enters a user task it switches to.
#[derive(Debug, Clone, Copy, PartialEq, Eq, Structural)]
pub enum KernelToUserExit {
    /// Through `iretq`: the task's root table and IRQ stack pointer, the
    /// kernel's stack and IRQ stack pointers, and `rsp0` for the TSS.
    Iret { cr3: u64, rsp: u64, kernel_rsp: u64, kernel_irq_rsp: u64, rsp0: u64 },
    /// Through `sysret`, handing the task a system call's response.
    Sysret {
        cr3: u64,
        rsp: u64,
        kernel_rsp: u64,
        kernel_irq_rsp: u64,
        rsp0: u64,
        error: u64,
        ret: u64,
    },
}

/// The values with which the kernel switches to the user task `ctx`
/// (answering a system call where `response` holds one): the task's root
/// table and IRQ stack pointer, the core's kernel stack pointers, and the
/// head of the interrupt stack segment as the TSS's `rsp0`.
pub fn kernel_to_user_exit(
    ctx: UserContext,
    response: Option<SyscallResponse>,
    kernel_rsp: u64,
    kernel_irq_rsp: u64,
    paging_level: PagingLevel,
) -> (r: KernelToUserExit)
    ensures
        ({
            let rsp0: u64 = if paging_level == PagingLevel::Level4 {
                0x0000_097F_FFFF_F000u64
            } else {
                0x0012_FFFF_FFFF_F000u64
            };
            match response {
                None => r == KernelToUserExit::Iret {
                    cr3: ctx.cr3,
                    rsp: ctx.irq_stack_ptr,
                    kernel_rsp,
                    kernel_irq_rsp,
                    rsp0,
                },
                Some(resp) => r == KernelToUserExit::Sysret {
                    cr3: ctx.cr3,
                    rsp: ctx.irq_stack_ptr,
                    kernel_rsp,
                    kernel_irq_rsp,
                    rsp0,
                    error: resp.error,
                    ret: resp.ret,
                },
            }
        }),
{
    let rsp0 = irq_stack_base(paging_level);
    match response {
        None => KernelToUserExit::Iret { cr3: ctx.cr3, rsp: ctx.irq_stack_ptr, kernel_rsp, kernel_irq_rsp, rsp0 },
        Some(resp) => KernelToUserExit::Sysret {
            cr3: ctx.cr3,
            rsp: ctx.irq_stack_ptr,
            kernel_rsp,
            kernel_irq_rsp,
            rsp0,
            error: resp.error,
            ret: resp.ret,
        },
    }
}

} // verus!
