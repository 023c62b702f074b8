use crate::nes::Powerable;
use crate::utils::{zeroed, zeros};
use vstd::prelude::*;

verus! {

/// The size of the working memory in bytes.
pub const RAM_SIZE: usize = 2 * 1024;

/// The working memory. It holds nothing until power is applied.
pub struct RAM {
    memory: Vec<u8>,
}

impl View for RAM {
    type V = Seq<u8>;

    closed spec fn view(&self) -> Seq<u8> {
        self.memory@
    }
}

impl RAM {
    /// The memory has its full size, as it has once power was applied.
    pub open spec fn wf(&self) -> bool {
        self@.len() == RAM_SIZE
    }

    /// Whether the memory has its full size.
    pub fn is_powered(&self) -> (powered: bool)
        ensures
            powered == self.wf(),
    {
        self.memory.len() == RAM_SIZE
    }

    /// The byte at `address`.
    pub fn read_mem(&self, address: u16) -> (value: u8)
        requires
            address < self@.len(),
        ensures
            value == self@[address as int],
    {
        self.memory[address as usize]
    }

    /// Stores `value` at `address` and leaves every other byte alone.
    pub fn write_mem(&mut self, address: u16, value: u8)
        requires
            address < old(self)@.len(),
        ensures
            final(self)@ == old(self)@.update(address as int, value),
    {
        self.memory[address as usize] = value;
    }
}

impl Default for RAM {
    fn default() -> (ram: Self)
        ensures
            ram@ == Seq::<u8>::empty(),
    {
        RAM { memory: Vec::new() }
    }
}

impl Powerable for RAM {
    open spec fn powered(&self) -> bool {
        self.wf()
    }

    fn power_on(&mut self)
        ensures
            final(self)@ == zeros(RAM_SIZE as nat),
            final(self).wf(),
    {
        self.memory = zeroed(RAM_SIZE);
    }

    fn reset(&mut self)
        ensures
            final(self)@ == zeros(RAM_SIZE as nat),
            final(self).wf(),
    {
        self.memory = zeroed(RAM_SIZE);
    }
}

} // verus!
