//! Per-instance and per-core architecture state.
use vstd::prelude::*;

use crate::address_space::AddressSpaceHandle;
use crate::lapic::LapicRegisters;
use crate::segment::MapError;
use crate::tss::Tss;

verus! {

/// The architecture's handle of a module instance: its address space.
#[derive(Debug)]
pub struct InstanceHandle {
    mapper: AddressSpaceHandle,
}

impl InstanceHandle {
    /// Creates the handle of an instance living in `mapper`.
    pub fn new(mapper: AddressSpaceHandle) -> (r: Result<Self, MapError>)
        ensures
            r is Ok,
            r->Ok_0.spec_mapper() == mapper,
    {
        Ok(InstanceHandle { mapper })
    }

    /// The instance's address space.
    pub closed spec fn spec_mapper(&self) -> AddressSpaceHandle {
        self.mapper
    }

    /// The instance's address space.
    pub fn mapper(&self) -> (r: &AddressSpaceHandle)
        ensures
            *r == self.spec_mapper(),
    {
        &self.mapper
    }
}

/// Core local state: the local APIC, the task state segment and the
/// kernel's saved stack pointers.
pub struct CoreHandle {
    /// The local APIC's registers.
    pub lapic: LapicRegisters,
    /// The task state segment of the core.
    pub tss: Tss,
    /// The kernel stack pointer saved when a user task runs.
    pub kernel_stack: u64,
    /// The kernel IRQ stack pointer saved when a user task runs.
    pub kernel_irq_stack: u64,
}

impl CoreHandle {
    /// Arms the core's timer to fire after `ticks`.
    pub fn schedule_timer(&mut self, ticks: u32)
        ensures
            final(self).lapic == (LapicRegisters { icr_timer: ticks, ..old(self).lapic }),
            final(self).tss == old(self).tss,
            final(self).kernel_stack == old(self).kernel_stack,
            final(self).kernel_irq_stack == old(self).kernel_irq_stack,
    {
        self.lapic.set_timer_initial_count(ticks);
    }

    /// Cancels the core's timer.
    pub fn cancel_timer(&mut self)
        ensures
            final(self).lapic == (LapicRegisters { icr_timer: 0, ..old(self).lapic }),
            final(self).tss == old(self).tss,
            final(self).kernel_stack == old(self).kernel_stack,
            final(self).kernel_irq_stack == old(self).kernel_irq_stack,
    {
        self.lapic.cancel_timer();
    }

    /// Prepares the core to idle until its next timer interrupt: the timer
    /// is armed with `ticks` where given and left as it is otherwise.
    /// Interrupts are then enabled and the core halts.
    pub fn prepare_idle(&mut self, ticks: Option<u32>)
        ensures
            ticks is Some ==> final(self).lapic == (LapicRegisters {
                icr_timer: ticks->0,
                ..old(self).lapic
            }),
            ticks is None ==> final(self).lapic == old(self).lapic,
            final(self).tss == old(self).tss,
            final(self).kernel_stack == old(self).kernel_stack,
            final(self).kernel_irq_stack == old(self).kernel_irq_stack,
    {
        if let Some(t) = ticks {
            self.schedule_timer(t);
        }
    }
}

} // verus!
