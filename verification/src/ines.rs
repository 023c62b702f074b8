use vstd::prelude::*;

verus! {

/// How the two name tables of the picture unit are laid out.
#[derive(Debug, Clone, Copy, PartialEq, Eq, Structural)]
pub enum NametableArrangement {
    VERTICAL,
    HORIZONTAL,
}

impl NametableArrangement {
    /// The bit that stands for the arrangement in a header.
    pub open spec fn spec_into_bits(self) -> u8 {
        match self {
            NametableArrangement::VERTICAL => 0,
            NametableArrangement::HORIZONTAL => 1,
        }
    }

    /// The bit that stands for the arrangement in a header.
    #[verifier::when_used_as_spec(spec_into_bits)]
    pub fn into_bits(self) -> (bits: u8)
        ensures
            bits == self.spec_into_bits(),
    {
        match self {
            NametableArrangement::VERTICAL => 0,
            NametableArrangement::HORIZONTAL => 1,
        }
    }

    /// The arrangement that a header bit stands for.
    pub fn from_bits(value: u8) -> (arrangement: Self)
        requires
            value < 2,
        ensures
            arrangement.spec_into_bits() == value,
            arrangement == (if value == 0 {
                NametableArrangement::VERTICAL
            } else {
                NametableArrangement::HORIZONTAL
            }),
    {
        if value == 0 {
            NametableArrangement::VERTICAL
        } else {
            NametableArrangement::HORIZONTAL
        }
    }
}

/// The seventh byte of a cartridge image's header. From the lowest bit up:
/// the name table arrangement, battery-backed memory, a trainer before the
/// program, the alternative name table layout, and in the four high bits the
/// low half of the mapper number.
#[derive(Debug, Clone, Copy, PartialEq, Eq, Structural)]
pub struct Flags6(pub u8);

impl Flags6 {
    /// Bit 0: the name table arrangement.
    pub open spec fn spec_nametable_arrangement(&self) -> NametableArrangement {
        if self.0 % 2 == 0 {
            NametableArrangement::VERTICAL
        } else {
            NametableArrangement::HORIZONTAL
        }
    }

    /// Bit 1: the cartridge keeps memory on a battery.
    pub open spec fn spec_battery_backed_prg_ram(&self) -> bool {
        (self.0 / 2) % 2 == 1
    }

    /// Bit 2: a trainer of 512 bytes stands before the program.
    pub open spec fn spec_trainer(&self) -> bool {
        (self.0 / 4) % 2 == 1
    }

    /// Bit 3: the alternative name table layout.
    pub open spec fn spec_alt_nametable_layout(&self) -> bool {
        (self.0 / 8) % 2 == 1
    }

    /// Bits 4 to 7: the low half of the mapper number.
    pub open spec fn spec_mapper_number_lower_nibble(&self) -> u8 {
        self.0 / 16
    }

    /// The flags with every bit clear.
    pub fn new() -> (flags: Self)
        ensures
            flags.0 == 0,
    {
        Flags6(0)
    }

    /// The flags that a header byte holds.
    pub fn from_bits(bits: u8) -> (flags: Self)
        ensures
            flags.0 == bits,
    {
        Flags6(bits)
    }

    /// The header byte that holds the flags.
    pub fn into_bits(self) -> (bits: u8)
        ensures
            bits == self.0,
    {
        self.0
    }

    /// Bit 0: the name table arrangement.
    #[verifier::when_used_as_spec(spec_nametable_arrangement)]
    pub fn nametable_arrangement(&self) -> (arrangement: NametableArrangement)
        ensures
            arrangement == self.spec_nametable_arrangement(),
    {
        NametableArrangement::from_bits(self.0 % 2)
    }

    /// Bit 1: the cartridge keeps memory on a battery.
    #[verifier::when_used_as_spec(spec_battery_backed_prg_ram)]
    pub fn battery_backed_prg_ram(&self) -> (flag: bool)
        ensures
            flag == self.spec_battery_backed_prg_ram(),
    {
        (self.0 / 2) % 2 == 1
    }

    /// Bit 2: a trainer of 512 bytes stands before the program.
    #[verifier::when_used_as_spec(spec_trainer)]
    pub fn trainer(&self) -> (flag: bool)
        ensures
            flag == self.spec_trainer(),
    {
        (self.0 / 4) % 2 == 1
    }

    /// Bit 3: the alternative name table layout.
    #[verifier::when_used_as_spec(spec_alt_nametable_layout)]
    pub fn alt_nametable_layout(&self) -> (flag: bool)
        ensures
            flag == self.spec_alt_nametable_layout(),
    {
        (self.0 / 8) % 2 == 1
    }

    /// Bits 4 to 7: the low half of the mapper number.
    #[verifier::when_used_as_spec(spec_mapper_number_lower_nibble)]
    pub fn mapper_number_lower_nibble(&self) -> (nibble: u8)
        ensures
            nibble == self.spec_mapper_number_lower_nibble(),
            nibble < 16,
    {
        self.0 / 16
    }
}

impl Default for Flags6 {
    fn default() -> (flags: Self)
        ensures
            flags.0 == 0,
    {
        Flags6(0)
    }
}

} // verus!
