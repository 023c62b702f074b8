use crate::apu::APU;
use crate::cartridge::{overlaid, Cartridge, CARTRIDGE_BASE, MEMORY_SIZE};
use crate::ines::Flags6;
use crate::nes::Powerable;
use crate::ppu::{PpuView, PPU};
use crate::ram::{RAM, RAM_SIZE};
use crate::utils::{build_u16, word_of, zeros};
use vstd::prelude::*;

verus! {

/// The bus address at which a program image is staged.
pub const PROGRAM_START: u16 = 0xC000;

/// The length of the header of a cartridge image.
pub const HEADER_SIZE: usize = 16;

/// The length of one bank of program memory in a cartridge image.
pub const PRG_BANK_SIZE: usize = 16 * 1024;

/// The length of the trainer that may stand before the program.
pub const TRAINER_SIZE: usize = 512;

/// The bus: working memory, the picture unit's registers, the audio unit and
/// the cartridge, each behind its own range of addresses.
pub struct Interconnect {
    cartridge: Cartridge,
    ram: RAM,
    ppu: PPU,
    apu: APU,
}

/// What the devices on the bus hold.
pub struct InterconnectView {
    pub cartridge: Seq<u8>,
    pub ram: Seq<u8>,
    pub ppu: PpuView,
}

/// Whether a device answers at `address`. Working memory and its mirrors lie
/// below 0x2000, the picture unit's registers and their mirrors below 0x4000,
/// the cartridge from 0x4020 up. Nothing answers in between.
pub open spec fn mapped(address: u16) -> bool {
    address < 0x4000 || address >= CARTRIDGE_BASE
}

/// The address after `address`, going round at the top of the address space.
pub open spec fn next_address(address: u16) -> u16 {
    if address == 0xFFFF {
        0
    } else {
        (address + 1) as u16
    }
}

impl InterconnectView {
    /// Working memory and cartridge have their full sizes, as they have once
    /// power was applied.
    pub open spec fn wf(self) -> bool {
        &&& self.ram.len() == RAM_SIZE
        &&& self.cartridge.len() == MEMORY_SIZE
    }

    /// The byte that a read at a mapped `address` gives.
    pub open spec fn read(self, address: u16) -> u8 {
        if address < 0x2000 {
            self.ram[(address % 0x800) as int]
        } else if address < 0x4000 {
            self.ppu.read_reg((address % 8) as u8)
        } else {
            self.cartridge[address - CARTRIDGE_BASE]
        }
    }

    /// The bus after `value` was written at a mapped `address`.
    pub open spec fn write(self, address: u16, value: u8) -> InterconnectView {
        if address < 0x2000 {
            InterconnectView { ram: self.ram.update((address % 0x800) as int, value), ..self }
        } else if address < 0x4000 {
            InterconnectView { ppu: self.ppu.write_reg((address % 8) as u8, value), ..self }
        } else {
            InterconnectView {
                cartridge: self.cartridge.update(address - CARTRIDGE_BASE, value),
                ..self
            }
        }
    }

    /// The little-endian word at `address`: the low byte at `address`, the
    /// high byte at the address after it.
    pub open spec fn read_word(self, address: u16) -> u16 {
        word_of(self.read(next_address(address)), self.read(address))
    }

    /// The bus before power was ever applied: the devices hold nothing.
    pub open spec fn unpowered() -> InterconnectView {
        InterconnectView {
            cartridge: Seq::empty(),
            ram: Seq::empty(),
            ppu: PpuView::unpowered(),
        }
    }

    /// The bus after power was applied: working memory and cartridge are
    /// cleared and have their full sizes.
    pub open spec fn powered_on(self) -> InterconnectView {
        InterconnectView {
            cartridge: zeros(MEMORY_SIZE as nat),
            ram: zeros(RAM_SIZE as nat),
            ppu: self.ppu.powered_on(),
        }
    }

    /// The bus after a reset: working memory is cleared, the cartridge keeps
    /// what it holds.
    pub open spec fn reset(self) -> InterconnectView {
        InterconnectView { ram: zeros(RAM_SIZE as nat), ppu: self.ppu.reset(), ..self }
    }

    /// The bus after `image` was staged at `PROGRAM_START`.
    pub open spec fn with_program(self, image: Seq<u8>) -> InterconnectView {
        InterconnectView {
            cartridge: overlaid(self.cartridge, PROGRAM_START - CARTRIDGE_BASE, image),
            ..self
        }
    }
}

/// The length of what a cartridge image holds for the program window: the
/// program banks that byte 4 of the header counts, and the trainer if
/// byte 6 announces one.
pub open spec fn payload_len(ines: Seq<u8>) -> int {
    ines[4] * PRG_BANK_SIZE + if Flags6(ines[6]).spec_trainer() {
        TRAINER_SIZE as int
    } else {
        0
    }
}

/// Whether a cartridge image holds its header and all that the header
/// announces for the program window.
pub open spec fn complete_image(ines: Seq<u8>) -> bool {
    &&& ines.len() >= HEADER_SIZE
    &&& ines.len() >= HEADER_SIZE + payload_len(ines)
}

/// What a cartridge image holds for the program window: the bytes that
/// follow the header.
pub open spec fn payload(ines: Seq<u8>) -> Seq<u8> {
    ines.subrange(HEADER_SIZE as int, HEADER_SIZE + payload_len(ines))
}

impl View for Interconnect {
    type V = InterconnectView;

    closed spec fn view(&self) -> InterconnectView {
        InterconnectView { cartridge: self.cartridge@, ram: self.ram@, ppu: self.ppu@ }
    }
}

impl Interconnect {
    /// Whether working memory and cartridge have their full sizes, as they
    /// have once power was applied.
    pub fn is_powered(&self) -> (powered: bool)
        ensures
            powered == self@.wf(),
    {
        self.ram.is_powered() && self.cartridge.is_powered()
    }

    /// Whether a device answers at `address`.
    pub fn is_mapped(address: u16) -> (answer: bool)
        ensures
            answer == mapped(address),
    {
        address < 0x4000 || address >= CARTRIDGE_BASE
    }

    /// Whether a cartridge image holds all that its header announces, so that
    /// `load_rom` can take it.
    pub fn is_complete_image(ines: &Vec<u8>) -> (complete: bool)
        ensures
            complete == complete_image(ines@),
    {
        if ines.len() < HEADER_SIZE {
            return false;
        }
        let banks: usize = ines[4] as usize;
        let trainer: usize = if Flags6::from_bits(ines[6]).trainer() {
            TRAINER_SIZE
        } else {
            0
        };
        ines.len() - HEADER_SIZE >= banks * PRG_BANK_SIZE + trainer
    }

    /// Stages the program of a cartridge image at `PROGRAM_START`. The image
    /// starts with a header of 16 bytes; what follows it, as long as the
    /// header says, goes to the cartridge as it is.
    pub fn load_rom(&mut self, ines: Vec<u8>)
        requires
            complete_image(ines@),
        ensures
            final(self)@ == old(self)@.with_program(payload(ines@)),
    {
        let banks: usize = ines[4] as usize;
        let prg_rom_size: usize = banks * PRG_BANK_SIZE;
        let flags = Flags6::from_bits(ines[6]);
        let end: usize = if flags.trainer() {
            HEADER_SIZE + TRAINER_SIZE + prg_rom_size
        } else {
            HEADER_SIZE + prg_rom_size
        };
        let mut prg_rom: Vec<u8> = Vec::new();
        let mut at: usize = HEADER_SIZE;
        while at < end
            invariant
                HEADER_SIZE <= at <= end <= ines.len(),
                prg_rom@ == ines@.subrange(HEADER_SIZE as int, at as int),
            decreases end - at,
        {
            prg_rom.push(ines[at]);
            at = at + 1;
        }
        // only direct mapping: the program lies where the processor starts
        self.cartridge.load_at(PROGRAM_START - CARTRIDGE_BASE, prg_rom);
    }

    /// Stages a raw program image at `PROGRAM_START`, as far as it fits
    /// below the top of the address space.
    pub fn load_program(&mut self, bytes: Vec<u8>)
        ensures
            final(self)@ == old(self)@.with_program(bytes@),
    {
        self.cartridge.load_at(PROGRAM_START - CARTRIDGE_BASE, bytes);
    }

    /// Reads the byte at a mapped address.
    pub fn read_mem(&self, address: u16) -> (value: u8)
        requires
            self@.wf(),
            mapped(address),
        ensures
            value == self@.read(address),
    {
        if address < 0x2000 {
            // working memory is mirrored every 2 KiB
            self.ram.read_mem(address % 0x800)
        } else if address < 0x4000 {
            // the eight registers are mirrored every 8 bytes
            self.ppu.read_reg((address % 8) as u8)
        } else {
            self.cartridge.read_mem(address - CARTRIDGE_BASE)
        }
    }

    /// Writes a byte at a mapped address.
    pub fn write_mem(&mut self, address: u16, value: u8)
        requires
            old(self)@.wf(),
            mapped(address),
        ensures
            final(self)@ == old(self)@.write(address, value),
            final(self)@.wf(),
    {
        if address < 0x2000 {
            self.ram.write_mem(address % 0x800, value)
        } else if address < 0x4000 {
            self.ppu.write_reg((address % 8) as u8, value)
        } else {
            self.cartridge.write_mem(address - CARTRIDGE_BASE, value)
        }
    }

    /// Reads the little-endian word whose low byte lies at `address`.
    pub fn read_mem_word(&self, address: u16) -> (word: u16)
        requires
            self@.wf(),
            mapped(address),
            mapped(next_address(address)),
        ensures
            word == self@.read_word(address),
    {
        let low = self.read_mem(address);
        let high = self.read_mem(address.wrapping_add(1));
        build_u16(high, low)
    }
}

impl Default for Interconnect {
    fn default() -> (ic: Self)
        ensures
            ic@ == InterconnectView::unpowered(),
    {
        Interconnect {
            cartridge: Cartridge::default(),
            ram: RAM::default(),
            ppu: PPU::default(),
            apu: APU::default(),
        }
    }
}

impl Powerable for Interconnect {
    open spec fn powered(&self) -> bool {
        self@.wf()
    }

    fn power_on(&mut self)
        ensures
            final(self)@ == old(self)@.powered_on(),
            final(self)@.wf(),
    {
        self.cartridge.power_on();
        self.ram.power_on();
        self.ppu.power_on();
        self.apu.power_on();
    }

    fn reset(&mut self)
        ensures
            final(self)@ == old(self)@.reset(),
            old(self)@.wf() ==> final(self)@.wf(),
    {
        self.cartridge.reset();
        self.ram.reset();
        self.ppu.reset();
        self.apu.reset();
    }
}

/// A byte that was written at a mapped address is the byte that a read at
/// that address gives, and the devices keep their sizes.
pub proof fn lemma_read_after_write(bus: InterconnectView, address: u16, value: u8)
    requires
        bus.wf(),
        mapped(address),
    ensures
        bus.write(address, value).read(address) == value,
        bus.write(address, value).wf(),
{
}

/// A write leaves the byte at every address alone that does not reach the
/// same cell: in working memory the cells repeat every 2 KiB, among the
/// picture unit's registers every 8 bytes.
pub proof fn lemma_write_elsewhere(bus: InterconnectView, address: u16, value: u8, other: u16)
    requires
        bus.wf(),
        mapped(address),
        mapped(other),
        !same_cell(address, other),
    ensures
        bus.write(address, value).read(other) == bus.read(other),
{
}

/// Whether two mapped addresses reach the same cell of a device.
pub open spec fn same_cell(a: u16, b: u16) -> bool {
    if a < 0x2000 {
        b < 0x2000 && a % 0x800 == b % 0x800
    } else if a < 0x4000 {
        0x2000 <= b < 0x4000 && a % 8 == b % 8
    } else {
        a == b
    }
}

} // verus!
