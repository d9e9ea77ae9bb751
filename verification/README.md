# oro_arch_x86_64

The `x86_64` architecture support of the Oro kernel and its Limine boot
stage. The library's logic carries its contracts and proofs.

## Layout

- `src/` — the verified library.
  - `paging.rs`, `phys.rs` — page table entries and tables; physical memory
    seen as frames of page tables, and a first-in-last-out frame allocator.
  - `segment.rs`, `address_space.rs`, `mapper.rs` — mapping, remapping and
    unmapping inside address space segments; the kernel's address space
    layout; the recursive and translator mappers.
  - `boot_memory.rs`, `preboot.rs` — the memory map checks, allocators and
    linear map computations of boot, and the decisions of the Limine boot
    stage (ELF segment layout, boot structure allocation, module lookup).
  - `linear_map.rs` — the linear map of physical memory with 2 MiB pages,
    built with page tables taken from the memory map.
  - `xfer.rs`, `primary.rs` — where the transfer stubs go; decisions of the
    primary core's boot and of the kernel's switch into a user task.
  - `thread.rs`, `task.rs`, `syscall.rs`, `secondary.rs` — thread IRQ
    stacks, system call exits and the secondary core boot handshake.
  - `gdt.rs`, `idt.rs`, `tss.rs`, `reg.rs`, `lapic.rs`, `hpet.rs`,
    `cpuid/`, `msr.rs`, `instance.rs` — register and descriptor encodings.
  - `laws.rs` — properties that relate the operations to one another.
- `tests/` — tests of the library on concrete values.
- `app/` — the boot stage binary and the hardware glue: instructions,
  memory-mapped registers and raw memory accesses around the library, and
  the primary core's kernel entry (memory preparation, local APIC setup).
