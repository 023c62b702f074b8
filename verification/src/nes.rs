use crate::cpu::{CPU, RUN_CYCLES};
use crate::interconnect::{complete_image, payload};
use crate::state::{CpuView, TraceEntry};
use vstd::prelude::*;

verus! {

/// A device that can be switched on and reset.
pub trait Powerable {
    /// The device holds what it needs to work: it has been switched on.
    spec fn powered(&self) -> bool;

    /// Brings the device into its state after power is applied.
    fn power_on(&mut self)
        ensures
            final(self).powered(),
    ;

    /// Brings the device into its state after the reset line was pulled. A
    /// device that was switched on stays so.
    fn reset(&mut self)
        ensures
            old(self).powered() ==> final(self).powered(),
    ;
}

/// The console: the processor with the bus that it owns.
pub struct NES {
    cpu: CPU,
}

impl View for NES {
    type V = CpuView;

    closed spec fn view(&self) -> CpuView {
        self.cpu@
    }
}

impl NES {
    /// Stages the program of a cartridge image where the processor finds it.
    pub fn load_rom(&mut self, ines: Vec<u8>)
        requires
            complete_image(ines@),
        ensures
            final(self)@ == (CpuView {
                ic: old(self)@.ic.with_program(payload(ines@)),
                ..old(self)@
            }),
            old(self)@.wf() ==> final(self)@.wf(),
    {
        self.cpu.load_rom(ines)
    }

    /// Runs the processor for `RUN_CYCLES` clock cycles and gives the trace
    /// of the instructions that started in them.
    pub fn run(&mut self) -> (trace: Vec<TraceEntry>)
        requires
            old(self)@.wf(),
        ensures
            final(self)@ == old(self)@.ticks(RUN_CYCLES as nat),
            trace@ == old(self)@.trace(RUN_CYCLES as nat),
            final(self)@.wf(),
    {
        self.cpu.run()
    }

    /// The unmapped address that stopped the processor, if one did.
    pub fn bus_fault(&self) -> (fault: Option<u16>)
        ensures
            fault == self@.bus_fault,
    {
        self.cpu.bus_fault
    }
}

impl Default for NES {
    fn default() -> (nes: Self)
        ensures
            nes@ == CpuView::unpowered(),
    {
        NES { cpu: CPU::default() }
    }
}

impl Powerable for NES {
    open spec fn powered(&self) -> bool {
        self@.wf()
    }

    fn power_on(&mut self)
        ensures
            final(self)@ == old(self)@.powered_on(),
            final(self)@.wf(),
    {
        self.cpu.power_on();
    }

    fn reset(&mut self)
        ensures
            final(self)@ == old(self)@.reset(),
            old(self)@.wf() ==> final(self)@.wf(),
            old(self)@.ic.wf() ==> final(self)@.reg_pc == old(self)@.ic.reset().read_word(
                crate::cpu::RESET_VECTOR_ADDR,
            ),
    {
        self.cpu.reset();
    }
}

} // verus!
