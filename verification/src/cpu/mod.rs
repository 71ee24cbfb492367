use vstd::prelude::*;

use crate::cpu::mos6502::{irq_released, other_source, CpuView, Mos6502};

pub mod mos6502;

verus! {

/// Identifies the device that raised an interrupt.
pub type InterruptSource = u32;

/// A device's line to the processor's interrupt inputs.
#[derive(Debug, Clone, Copy, PartialEq, Eq, Structural)]
pub struct InterruptConnection {
    pub source: InterruptSource,
}

impl InterruptConnection {
    /// The line of the device `source`.
    pub fn new(source: InterruptSource) -> (c: InterruptConnection)
        ensures
            c.source == source,
    {
        InterruptConnection { source }
    }

    /// Raises the interrupt (NMI where `nmi`, else IRQ).
    pub fn trigger(&self, cpu: &mut Mos6502, nmi: bool)
        ensures
            final(cpu)@ == (if nmi {
                CpuView { nmi: old(cpu)@.nmi.push(self.source), ..old(cpu)@ }
            } else {
                CpuView { irq: old(cpu)@.irq.push(self.source), ..old(cpu)@ }
            }),
            final(cpu).clock_rate() == old(cpu).clock_rate(),
    {
        cpu.irq_trigger(nmi, self.source);
    }

    /// Releases the interrupt.
    pub fn release(&self, cpu: &mut Mos6502, nmi: bool)
        ensures
            final(cpu)@ == (if nmi {
                CpuView { nmi: old(cpu)@.nmi.filter(other_source(self.source)), ..old(cpu)@ }
            } else {
                irq_released(old(cpu)@, self.source)
            }),
            final(cpu).clock_rate() == old(cpu).clock_rate(),
    {
        cpu.irq_release(nmi, self.source);
    }
}

} // verus!
