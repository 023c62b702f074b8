use crate::nes::Powerable;
use vstd::prelude::*;

verus! {

/// What an unconnected read-only memory puts on the bus.
pub const ROM_OPEN_BUS: u8 = 8;

/// A read-only memory that keeps an image but is not wired to the bus yet:
/// reads give a fixed byte and writes are ignored.
pub struct ROM {
    memory: Vec<u8>,
}

impl View for ROM {
    type V = Seq<u8>;

    closed spec fn view(&self) -> Seq<u8> {
        self.memory@
    }
}

impl ROM {
    /// Replaces the image.
    pub fn load(&mut self, rom: Vec<u8>)
        ensures
            final(self)@ == rom@,
    {
        self.memory = rom;
    }

    /// Reads give the same byte at every address.
    pub fn mem_read(&self, address: u16) -> (value: u8)
        ensures
            value == ROM_OPEN_BUS,
    {
        ROM_OPEN_BUS
    }

    /// Writes change nothing.
    pub fn mem_write(&mut self, address: u16)
        ensures
            final(self)@ == old(self)@,
    {
    }
}

impl Default for ROM {
    fn default() -> (rom: Self)
        ensures
            rom@ == Seq::<u8>::empty(),
    {
        ROM { memory: Vec::new() }
    }
}

impl Powerable for ROM {
    open spec fn powered(&self) -> bool {
        true
    }

    fn power_on(&mut self)
        ensures
            final(self)@ == old(self)@,
    {
    }

    fn reset(&mut self)
        ensures
            final(self)@ == old(self)@,
    {
    }
}

} // verus!
