//! Verified building blocks of the Oro kernel's `x86_64` architecture
//! support: page table entries and walks, descriptor tables, control
//! registers, local APIC and HPET register encodings, CPUID decoding and
//! the boot-time memory bookkeeping.
use vstd::prelude::*;

pub mod paging;
pub mod phys;
pub mod address_space;
pub mod segment;
pub mod laws;
pub mod cpuid;
pub mod reg;
pub mod hpet;
pub mod gdt;
pub mod idt;
pub mod tss;
pub mod lapic;
pub mod mapper;
pub mod task;
pub mod syscall;
pub mod msr;
pub mod instance;
pub mod boot_memory;
pub mod preboot;
pub mod thread;
pub mod secondary;
pub mod root_ring;
pub mod xfer;
pub mod primary;
pub mod linear_map;

verus! {

} // verus!
