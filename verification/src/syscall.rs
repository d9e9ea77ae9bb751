//! The system call path: the values the model-specific registers are
//! programmed with, and where a system call returns to.
use vstd::prelude::*;

use crate::address_space::AddressSpaceLayout;
use crate::paging::PagingLevel;
use crate::segment::{sign_extend_48, sign_extend_57};

verus! {

/// The `IA32_EFER` model-specific register.
pub const IA32_EFER: u32 = 0xC000_0080;

/// The `STAR` model-specific register (system call segment selectors).
pub const IA32_STAR: u32 = 0xC000_0081;

/// The `LSTAR` model-specific register (64-bit system call entry point).
pub const IA32_LSTAR: u32 = 0xC000_0082;

/// The `SFMASK` model-specific register (flags cleared on system call).
pub const IA32_FMASK: u32 = 0xC000_0084;

/// The flags cleared on entry to a system call: the interrupt enable flag
/// (IF) and the trap flag (TF).
pub const SYSCALL_FLAG_MASK: u64 = 0x0200 | 0x0100;

/// The `IA32_EFER` value that enables `syscall`/`sysret`: the current value
/// with the SCE bit set.
pub fn syscall_efer(current: u64) -> (r: u64)
    ensures
        r == current | 1u64,
{
    current | 1u64
}

/// The mask that keeps a user address in the lower, canonical half of the
/// address space for the given paging level.
pub fn canonical_address_mask(paging_level: PagingLevel) -> (r: u64)
    ensures
        paging_level == PagingLevel::Level4 ==> r == 0x0000_7FFF_FFFF_FFFFu64,
        paging_level == PagingLevel::Level5 ==> r == 0x00FF_FFFF_FFFF_FFFFu64,
{
    match paging_level {
        PagingLevel::Level4 => 0x0000_7FFF_FFFF_FFFF,
        PagingLevel::Level5 => 0x00FF_FFFF_FFFF_FFFF,
    }
}

proof fn lemma_irq_stack_base_values()
    by (bit_vector)
    ensures
        sign_extend_48((18u64 << 39u64) | 0x0000_007F_FFFF_FFFFu64) & !0xFFFu64 == 0x0000_097F_FFFF_F000u64,
        sign_extend_57((18u64 << 48u64) | 0x0000_FFFF_FFFF_FFFFu64) & !0xFFFu64 == 0x0012_FFFF_FFFF_F000u64,
{
}

/// The base (highest page) of a user task's IRQ stack: the last page of the
/// interrupt stack segment.
pub fn irq_stack_base(paging_level: PagingLevel) -> (r: u64)
    ensures
        paging_level == PagingLevel::Level4 ==> r == 0x0000_097F_FFFF_F000u64,
        paging_level == PagingLevel::Level5 ==> r == 0x0012_FFFF_FFFF_F000u64,
{
    proof {
        lemma_irq_stack_base_values();
    }
    AddressSpaceLayout::interrupt_stack().range(paging_level).1 & !0xFFFu64
}

/// What a system call returns to a user task.
#[derive(Debug, Clone, Copy, PartialEq, Eq, Structural)]
pub struct SyscallResponse {
    /// The error code.
    pub error: u64,
    /// The return value.
    pub ret: u64,
}

/// The user task a system call resumes: its address space and the stack
/// pointer of its IRQ stack.
#[derive(Debug, Clone, Copy, PartialEq, Eq, Structural)]
pub struct UserContext {
    /// The physical address of the task's root page table.
    pub cr3: u64,
    /// The task's IRQ stack pointer.
    pub irq_stack_ptr: u64,
}

/// The scheduler's decision after a system call.
#[derive(Debug, Clone, Copy, PartialEq, Eq, Structural)]
pub enum Switch {
    /// Resume the kernel.
    KernelResume,
    /// Switch from the kernel to a user task.
    KernelToUser,
    /// Resume the calling user task, with a response or without one.
    UserResume(UserContext, Option<SyscallResponse>),
    /// Switch to another user task, with a response or without one.
    UserToUser(UserContext, Option<SyscallResponse>),
    /// Switch from the user task back to the kernel.
    UserToKernel,
}

/// Where the system call path jumps once the scheduler has decided.
#[derive(Debug, Clone, Copy, PartialEq, Eq, Structural)]
pub enum SyscallExit {
    /// Resume a user task through `iretq`; `rsp0` is the IRQ stack head to
    /// store in the TSS.
    UserToUser { cr3: u64, rsp: u64, rsp0: u64 },
    /// Resume a user task through `sysret`, handing it a response.
    UserToUserSysret { cr3: u64, rsp: u64, error: u64, ret: u64, rsp0: u64 },
    /// Return to the kernel's stacks and address space.
    ReturnToKernel,
}

/// Whether the scheduler decision can follow a system call at all: the
/// kernel itself never makes one.
pub open spec fn is_user_switch(s: Switch) -> bool {
    !(s is KernelResume) && !(s is KernelToUser)
}

/// The exit taken for the scheduler decision `s`, given the IRQ stack base
/// of the paging level.
pub open spec fn syscall_exit_spec(s: Switch, stack_base: u64) -> SyscallExit {
    match s {
        Switch::UserResume(ctx, None) | Switch::UserToUser(ctx, None) => SyscallExit::UserToUser {
            cr3: ctx.cr3,
            rsp: ctx.irq_stack_ptr,
            rsp0: stack_base,
        },
        Switch::UserResume(ctx, Some(resp)) | Switch::UserToUser(ctx, Some(resp)) =>
            SyscallExit::UserToUserSysret {
            cr3: ctx.cr3,
            rsp: ctx.irq_stack_ptr,
            error: resp.error,
            ret: resp.ret,
            rsp0: stack_base,
        },
        _ => SyscallExit::ReturnToKernel,
    }
}

/// Decides where a system call returns to after the scheduler chose `s`.
pub fn syscall_exit(s: Switch, paging_level: PagingLevel) -> (r: SyscallExit)
    requires
        is_user_switch(s),
    ensures
        paging_level == PagingLevel::Level4 ==> r == syscall_exit_spec(s, 0x0000_097F_FFFF_F000u64),
        paging_level == PagingLevel::Level5 ==> r == syscall_exit_spec(s, 0x0012_FFFF_FFFF_F000u64),
{
    match s {
        Switch::UserResume(ctx, None) | Switch::UserToUser(ctx, None) => SyscallExit::UserToUser {
            cr3: ctx.cr3,
            rsp: ctx.irq_stack_ptr,
            rsp0: irq_stack_base(paging_level),
        },
        Switch::UserResume(ctx, Some(resp)) | Switch::UserToUser(ctx, Some(resp)) => {
            SyscallExit::UserToUserSysret {
                cr3: ctx.cr3,
                rsp: ctx.irq_stack_ptr,
                error: resp.error,
                ret: resp.ret,
                rsp0: irq_stack_base(paging_level),
            }
        },
        _ => SyscallExit::ReturnToKernel,
    }
}

} // verus!
