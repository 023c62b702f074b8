use crate::nes::Powerable;
use crate::utils::{zeroed, zeros};
use vstd::prelude::*;

verus! {

/// The first bus address that the cartridge answers.
pub const CARTRIDGE_BASE: u16 = 0x4020;

/// The size of the cartridge's window on the bus: from `CARTRIDGE_BASE` to
/// the top of the address space.
pub const MEMORY_SIZE: usize = 0x10000 - 0x4020;

/// The cartridge's memory, as the bus sees it. It holds nothing until power
/// is applied.
pub struct Cartridge {
    memory: Vec<u8>,
}

impl View for Cartridge {
    type V = Seq<u8>;

    closed spec fn view(&self) -> Seq<u8> {
        self.memory@
    }
}

/// `memory` with `image` laid over it from `address` on. The part of the
/// image that would lie past the end of the memory is left out.
pub open spec fn overlaid(memory: Seq<u8>, address: int, image: Seq<u8>) -> Seq<u8> {
    Seq::new(
        memory.len(),
        |i: int|
            if address <= i < address + image.len() {
                image[i - address]
            } else {
                memory[i]
            },
    )
}

impl Cartridge {
    /// The memory has its full size, as it has once power was applied.
    pub open spec fn wf(&self) -> bool {
        self@.len() == MEMORY_SIZE
    }

    /// Whether the memory has its full size.
    pub fn is_powered(&self) -> (powered: bool)
        ensures
            powered == self.wf(),
    {
        self.memory.len() == MEMORY_SIZE
    }

    /// Copies `mem` into the memory from `address` on, as far as it fits.
    pub fn load_at(&mut self, address: u16, mem: Vec<u8>)
        ensures
            final(self)@ == overlaid(old(self)@, address as int, mem@),
    {
        let start: usize = address as usize;
        let room: usize = if start < self.memory.len() {
            self.memory.len() - start
        } else {
            0
        };
        let mut copied: usize = 0;
        while copied < mem.len() && copied < room
            invariant
                start == address,
                copied <= mem.len(),
                copied <= room,
                room == 0 || start + room == self.memory.len(),
                self.memory@.len() == old(self).memory@.len(),
                forall|i: int|
                    0 <= i < self.memory@.len() ==> self.memory@[i] == (if start <= i < start
                        + copied {
                        mem@[i - start]
                    } else {
                        old(self).memory@[i]
                    }),
            decreases mem.len() - copied,
        {
            self.memory[start + copied] = mem[copied];
            copied = copied + 1;
        }
        assert(self.memory@ =~= overlaid(old(self).memory@, address as int, mem@));
    }

    /// The byte at `address`, counted from the start of the cartridge's
    /// window.
    pub fn read_mem(&self, address: u16) -> (value: u8)
        requires
            address < self@.len(),
        ensures
            value == self@[address as int],
    {
        self.memory[address as usize]
    }

    /// Stores `value` at `address`, counted from the start of the window, and
    /// leaves every other byte alone.
    pub fn write_mem(&mut self, address: u16, value: u8)
        requires
            address < old(self)@.len(),
        ensures
            final(self)@ == old(self)@.update(address as int, value),
    {
        self.memory[address as usize] = value;
    }
}

impl Default for Cartridge {
    fn default() -> (cartridge: Self)
        ensures
            cartridge@ == Seq::<u8>::empty(),
    {
        Cartridge { memory: Vec::new() }
    }
}

impl Powerable for Cartridge {
    open spec fn powered(&self) -> bool {
        self.wf()
    }

    fn power_on(&mut self)
        ensures
            final(self)@ == zeros(MEMORY_SIZE as nat),
            final(self).wf(),
    {
        self.memory = zeroed(MEMORY_SIZE);
    }

    fn reset(&mut self)
        ensures
            final(self)@ == old(self)@,
    {
    }
}

} // verus!
