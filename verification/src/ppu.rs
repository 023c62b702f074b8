use crate::nes::Powerable;
use crate::utils::{zeroed, zeros};
use vstd::prelude::*;

verus! {

/// The name table that the picture unit starts from.
#[derive(Debug, Clone, Copy, PartialEq, Eq, Structural)]
pub enum RegPPUCtrlNametableSelect {
    Address2000,
    Address2400,
    Address2800,
    Address2C00,
}

impl RegPPUCtrlNametableSelect {
    /// The number that stands for the choice in the register.
    pub open spec fn spec_into_bits(self) -> u8 {
        match self {
            RegPPUCtrlNametableSelect::Address2000 => 0,
            RegPPUCtrlNametableSelect::Address2400 => 1,
            RegPPUCtrlNametableSelect::Address2800 => 2,
            RegPPUCtrlNametableSelect::Address2C00 => 3,
        }
    }

    /// The number that stands for the choice in the register.
    #[verifier::when_used_as_spec(spec_into_bits)]
    pub fn into_bits(self) -> (bits: u8)
        ensures
            bits == self.spec_into_bits(),
            bits < 4,
    {
        match self {
            RegPPUCtrlNametableSelect::Address2000 => 0,
            RegPPUCtrlNametableSelect::Address2400 => 1,
            RegPPUCtrlNametableSelect::Address2800 => 2,
            RegPPUCtrlNametableSelect::Address2C00 => 3,
        }
    }

    /// The choice that a number stands for.
    pub open spec fn spec_from_bits(value: u8) -> RegPPUCtrlNametableSelect {
        if value == 0 {
            RegPPUCtrlNametableSelect::Address2000
        } else if value == 1 {
            RegPPUCtrlNametableSelect::Address2400
        } else if value == 2 {
            RegPPUCtrlNametableSelect::Address2800
        } else {
            RegPPUCtrlNametableSelect::Address2C00
        }
    }

    /// The choice that a number stands for.
    #[verifier::when_used_as_spec(spec_from_bits)]
    pub fn from_bits(value: u8) -> (choice: Self)
        requires
            value < 4,
        ensures
            choice == Self::spec_from_bits(value),
            choice.spec_into_bits() == value,
    {
        match value {
            0 => RegPPUCtrlNametableSelect::Address2000,
            1 => RegPPUCtrlNametableSelect::Address2400,
            2 => RegPPUCtrlNametableSelect::Address2800,
            _ => RegPPUCtrlNametableSelect::Address2C00,
        }
    }
}

/// How far the video address moves after each access.
#[derive(Debug, Clone, Copy, PartialEq, Eq, Structural)]
pub enum RegPPUIncrementMode {
    AddOneGoingAcross,
    Add32GoingDown,
}

impl RegPPUIncrementMode {
    /// The number that stands for the choice in the register.
    pub open spec fn spec_into_bits(self) -> u8 {
        match self {
            RegPPUIncrementMode::AddOneGoingAcross => 0,
            RegPPUIncrementMode::Add32GoingDown => 1,
        }
    }

    /// The number that stands for the choice in the register.
    #[verifier::when_used_as_spec(spec_into_bits)]
    pub fn into_bits(self) -> (bits: u8)
        ensures
            bits == self.spec_into_bits(),
            bits < 2,
    {
        match self {
            RegPPUIncrementMode::AddOneGoingAcross => 0,
            RegPPUIncrementMode::Add32GoingDown => 1,
        }
    }

    /// The choice that a number stands for.
    pub open spec fn spec_from_bits(value: u8) -> RegPPUIncrementMode {
        if value == 0 {
            RegPPUIncrementMode::AddOneGoingAcross
        } else {
            RegPPUIncrementMode::Add32GoingDown
        }
    }

    /// The choice that a number stands for.
    #[verifier::when_used_as_spec(spec_from_bits)]
    pub fn from_bits(value: u8) -> (choice: Self)
        requires
            value < 2,
        ensures
            choice == Self::spec_from_bits(value),
            choice.spec_into_bits() == value,
    {
        match value {
            0 => RegPPUIncrementMode::AddOneGoingAcross,
            _ => RegPPUIncrementMode::Add32GoingDown,
        }
    }
}

/// The pattern table of the sprites.
#[derive(Debug, Clone, Copy, PartialEq, Eq, Structural)]
pub enum RegPPUSprTileSelect {
    Address0000,
    Address1000,
}

impl RegPPUSprTileSelect {
    /// The number that stands for the choice in the register.
    pub open spec fn spec_into_bits(self) -> u8 {
        match self {
            RegPPUSprTileSelect::Address0000 => 0,
            RegPPUSprTileSelect::Address1000 => 1,
        }
    }

    /// The number that stands for the choice in the register.
    #[verifier::when_used_as_spec(spec_into_bits)]
    pub fn into_bits(self) -> (bits: u8)
        ensures
            bits == self.spec_into_bits(),
            bits < 2,
    {
        match self {
            RegPPUSprTileSelect::Address0000 => 0,
            RegPPUSprTileSelect::Address1000 => 1,
        }
    }

    /// The choice that a number stands for.
    pub open spec fn spec_from_bits(value: u8) -> RegPPUSprTileSelect {
        if value == 0 {
            RegPPUSprTileSelect::Address0000
        } else {
            RegPPUSprTileSelect::Address1000
        }
    }

    /// The choice that a number stands for.
    #[verifier::when_used_as_spec(spec_from_bits)]
    pub fn from_bits(value: u8) -> (choice: Self)
        requires
            value < 2,
        ensures
            choice == Self::spec_from_bits(value),
            choice.spec_into_bits() == value,
    {
        match value {
            0 => RegPPUSprTileSelect::Address0000,
            _ => RegPPUSprTileSelect::Address1000,
        }
    }
}

/// The pattern table of the background.
#[derive(Debug, Clone, Copy, PartialEq, Eq, Structural)]
pub enum RegPPUBgTileSelect {
    Address0000,
    Address1000,
}

impl RegPPUBgTileSelect {
    /// The number that stands for the choice in the register.
    pub open spec fn spec_into_bits(self) -> u8 {
        match self {
            RegPPUBgTileSelect::Address0000 => 0,
            RegPPUBgTileSelect::Address1000 => 1,
        }
    }

    /// The number that stands for the choice in the register.
    #[verifier::when_used_as_spec(spec_into_bits)]
    pub fn into_bits(self) -> (bits: u8)
        ensures
            bits == self.spec_into_bits(),
            bits < 2,
    {
        match self {
            RegPPUBgTileSelect::Address0000 => 0,
            RegPPUBgTileSelect::Address1000 => 1,
        }
    }

    /// The choice that a number stands for.
    pub open spec fn spec_from_bits(value: u8) -> RegPPUBgTileSelect {
        if value == 0 {
            RegPPUBgTileSelect::Address0000
        } else {
            RegPPUBgTileSelect::Address1000
        }
    }

    /// The choice that a number stands for.
    #[verifier::when_used_as_spec(spec_from_bits)]
    pub fn from_bits(value: u8) -> (choice: Self)
        requires
            value < 2,
        ensures
            choice == Self::spec_from_bits(value),
            choice.spec_into_bits() == value,
    {
        match value {
            0 => RegPPUBgTileSelect::Address0000,
            _ => RegPPUBgTileSelect::Address1000,
        }
    }
}

/// The size of a sprite.
#[derive(Debug, Clone, Copy, PartialEq, Eq, Structural)]
pub enum RegPPUSprHeight {
    EightByEight,
    EightBySixteen,
}

impl RegPPUSprHeight {
    /// The number that stands for the choice in the register.
    pub open spec fn spec_into_bits(self) -> u8 {
        match self {
            RegPPUSprHeight::EightByEight => 0,
            RegPPUSprHeight::EightBySixteen => 1,
        }
    }

    /// The number that stands for the choice in the register.
    #[verifier::when_used_as_spec(spec_into_bits)]
    pub fn into_bits(self) -> (bits: u8)
        ensures
            bits == self.spec_into_bits(),
            bits < 2,
    {
        match self {
            RegPPUSprHeight::EightByEight => 0,
            RegPPUSprHeight::EightBySixteen => 1,
        }
    }

    /// The choice that a number stands for.
    pub open spec fn spec_from_bits(value: u8) -> RegPPUSprHeight {
        if value == 0 {
            RegPPUSprHeight::EightByEight
        } else {
            RegPPUSprHeight::EightBySixteen
        }
    }

    /// The choice that a number stands for.
    #[verifier::when_used_as_spec(spec_from_bits)]
    pub fn from_bits(value: u8) -> (choice: Self)
        requires
            value < 2,
        ensures
            choice == Self::spec_from_bits(value),
            choice.spec_into_bits() == value,
    {
        match value {
            0 => RegPPUSprHeight::EightByEight,
            _ => RegPPUSprHeight::EightBySixteen,
        }
    }
}

/// What the picture unit does with its EXT pins.
#[derive(Debug, Clone, Copy, PartialEq, Eq, Structural)]
pub enum RegPPUMasterSlave {
    ReadBackdropFromEXT,
    OutputColorOnEXT,
}

impl RegPPUMasterSlave {
    /// The number that stands for the choice in the register.
    pub open spec fn spec_into_bits(self) -> u8 {
        match self {
            RegPPUMasterSlave::ReadBackdropFromEXT => 0,
            RegPPUMasterSlave::OutputColorOnEXT => 1,
        }
    }

    /// The number that stands for the choice in the register.
    #[verifier::when_used_as_spec(spec_into_bits)]
    pub fn into_bits(self) -> (bits: u8)
        ensures
            bits == self.spec_into_bits(),
            bits < 2,
    {
        match self {
            RegPPUMasterSlave::ReadBackdropFromEXT => 0,
            RegPPUMasterSlave::OutputColorOnEXT => 1,
        }
    }

    /// The choice that a number stands for.
    pub open spec fn spec_from_bits(value: u8) -> RegPPUMasterSlave {
        if value == 0 {
            RegPPUMasterSlave::ReadBackdropFromEXT
        } else {
            RegPPUMasterSlave::OutputColorOnEXT
        }
    }

    /// The choice that a number stands for.
    #[verifier::when_used_as_spec(spec_from_bits)]
    pub fn from_bits(value: u8) -> (choice: Self)
        requires
            value < 2,
        ensures
            choice == Self::spec_from_bits(value),
            choice.spec_into_bits() == value,
    {
        match value {
            0 => RegPPUMasterSlave::ReadBackdropFromEXT,
            _ => RegPPUMasterSlave::OutputColorOnEXT,
        }
    }
}

/// The control register of the picture unit.
#[derive(Debug, Clone, Copy, PartialEq, Eq, Structural)]
pub struct RegPPUCtrl(pub u8);

impl RegPPUCtrl {
    /// Bits 0 and 1: the name table that the picture unit starts from.
    pub open spec fn spec_nametable_select(&self) -> RegPPUCtrlNametableSelect {
        RegPPUCtrlNametableSelect::spec_from_bits(self.0 % 4)
    }

    /// Bit 2: how far the video address moves after each access.
    pub open spec fn spec_increment_mode(&self) -> RegPPUIncrementMode {
        RegPPUIncrementMode::spec_from_bits((self.0 / 4) % 2)
    }

    /// Bit 3: the pattern table of the sprites.
    pub open spec fn spec_spr_tile_select(&self) -> RegPPUSprTileSelect {
        RegPPUSprTileSelect::spec_from_bits((self.0 / 8) % 2)
    }

    /// Bit 4: the pattern table of the background.
    pub open spec fn spec_bg_tile_select(&self) -> RegPPUBgTileSelect {
        RegPPUBgTileSelect::spec_from_bits((self.0 / 16) % 2)
    }

    /// Bit 5: the size of a sprite.
    pub open spec fn spec_spr_height(&self) -> RegPPUSprHeight {
        RegPPUSprHeight::spec_from_bits((self.0 / 32) % 2)
    }

    /// Bit 6: what the picture unit does with its EXT pins.
    pub open spec fn spec_ppu_master_slave(&self) -> RegPPUMasterSlave {
        RegPPUMasterSlave::spec_from_bits((self.0 / 64) % 2)
    }

    /// Bit 7: an interrupt is raised when the vertical blank begins.
    pub open spec fn spec_nmi_enable(&self) -> bool {
        self.0 / 128 == 1
    }

    /// The register with every bit clear.
    pub fn new() -> (register: Self)
        ensures
            register.0 == 0,
    {
        RegPPUCtrl(0)
    }

    /// The register that holds `bits`.
    pub fn from_bits(bits: u8) -> (register: Self)
        ensures
            register.0 == bits,
    {
        RegPPUCtrl(bits)
    }

    /// The byte that the register holds.
    pub fn into_bits(self) -> (bits: u8)
        ensures
            bits == self.0,
    {
        self.0
    }

    /// Bits 0 and 1: the name table that the picture unit starts from.
    #[verifier::when_used_as_spec(spec_nametable_select)]
    pub fn nametable_select(&self) -> (field: RegPPUCtrlNametableSelect)
        ensures
            field == self.spec_nametable_select(),
    {
        RegPPUCtrlNametableSelect::from_bits(self.0 % 4)
    }

    /// Bit 2: how far the video address moves after each access.
    #[verifier::when_used_as_spec(spec_increment_mode)]
    pub fn increment_mode(&self) -> (field: RegPPUIncrementMode)
        ensures
            field == self.spec_increment_mode(),
    {
        RegPPUIncrementMode::from_bits((self.0 / 4) % 2)
    }

    /// Bit 3: the pattern table of the sprites.
    #[verifier::when_used_as_spec(spec_spr_tile_select)]
    pub fn spr_tile_select(&self) -> (field: RegPPUSprTileSelect)
        ensures
            field == self.spec_spr_tile_select(),
    {
        RegPPUSprTileSelect::from_bits((self.0 / 8) % 2)
    }

    /// Bit 4: the pattern table of the background.
    #[verifier::when_used_as_spec(spec_bg_tile_select)]
    pub fn bg_tile_select(&self) -> (field: RegPPUBgTileSelect)
        ensures
            field == self.spec_bg_tile_select(),
    {
        RegPPUBgTileSelect::from_bits((self.0 / 16) % 2)
    }

    /// Bit 5: the size of a sprite.
    #[verifier::when_used_as_spec(spec_spr_height)]
    pub fn spr_height(&self) -> (field: RegPPUSprHeight)
        ensures
            field == self.spec_spr_height(),
    {
        RegPPUSprHeight::from_bits((self.0 / 32) % 2)
    }

    /// Bit 6: what the picture unit does with its EXT pins.
    #[verifier::when_used_as_spec(spec_ppu_master_slave)]
    pub fn ppu_master_slave(&self) -> (field: RegPPUMasterSlave)
        ensures
            field == self.spec_ppu_master_slave(),
    {
        RegPPUMasterSlave::from_bits((self.0 / 64) % 2)
    }

    /// Bit 7: an interrupt is raised when the vertical blank begins.
    #[verifier::when_used_as_spec(spec_nmi_enable)]
    pub fn nmi_enable(&self) -> (field: bool)
        ensures
            field == self.spec_nmi_enable(),
    {
        self.0 / 128 == 1
    }

}

/// The mask register of the picture unit.
#[derive(Debug, Clone, Copy, PartialEq, Eq, Structural)]
pub struct RegPPUMask(pub u8);

impl RegPPUMask {
    /// Bit 0: the picture is shown in grey.
    pub open spec fn spec_greyscale(&self) -> bool {
        self.0 % 2 == 1
    }

    /// Bit 1: the background shows in the leftmost eight pixels.
    pub open spec fn spec_bg_left_col_enable(&self) -> bool {
        (self.0 / 2) % 2 == 1
    }

    /// Bit 2: sprites show in the leftmost eight pixels.
    pub open spec fn spec_spr_left_col_enable(&self) -> bool {
        (self.0 / 4) % 2 == 1
    }

    /// Bit 3: the background is shown.
    pub open spec fn spec_bg_enable(&self) -> bool {
        (self.0 / 8) % 2 == 1
    }

    /// Bit 4: sprites are shown.
    pub open spec fn spec_spr_enable(&self) -> bool {
        (self.0 / 16) % 2 == 1
    }

    /// Bit 5: red is emphasized.
    pub open spec fn spec_emphasize_red(&self) -> bool {
        (self.0 / 32) % 2 == 1
    }

    /// Bit 6: green is emphasized.
    pub open spec fn spec_emphasize_green(&self) -> bool {
        (self.0 / 64) % 2 == 1
    }

    /// Bit 7: blue is emphasized.
    pub open spec fn spec_emphasize_blue(&self) -> bool {
        self.0 / 128 == 1
    }

    /// The register with every bit clear.
    pub fn new() -> (register: Self)
        ensures
            register.0 == 0,
    {
        RegPPUMask(0)
    }

    /// The register that holds `bits`.
    pub fn from_bits(bits: u8) -> (register: Self)
        ensures
            register.0 == bits,
    {
        RegPPUMask(bits)
    }

    /// The byte that the register holds.
    pub fn into_bits(self) -> (bits: u8)
        ensures
            bits == self.0,
    {
        self.0
    }

    /// Bit 0: the picture is shown in grey.
    #[verifier::when_used_as_spec(spec_greyscale)]
    pub fn greyscale(&self) -> (field: bool)
        ensures
            field == self.spec_greyscale(),
    {
        self.0 % 2 == 1
    }

    /// Bit 1: the background shows in the leftmost eight pixels.
    #[verifier::when_used_as_spec(spec_bg_left_col_enable)]
    pub fn bg_left_col_enable(&self) -> (field: bool)
        ensures
            field == self.spec_bg_left_col_enable(),
    {
        (self.0 / 2) % 2 == 1
    }

    /// Bit 2: sprites show in the leftmost eight pixels.
    #[verifier::when_used_as_spec(spec_spr_left_col_enable)]
    pub fn spr_left_col_enable(&self) -> (field: bool)
        ensures
            field == self.spec_spr_left_col_enable(),
    {
        (self.0 / 4) % 2 == 1
    }

    /// Bit 3: the background is shown.
    #[verifier::when_used_as_spec(spec_bg_enable)]
    pub fn bg_enable(&self) -> (field: bool)
        ensures
            field == self.spec_bg_enable(),
    {
        (self.0 / 8) % 2 == 1
    }

    /// Bit 4: sprites are shown.
    #[verifier::when_used_as_spec(spec_spr_enable)]
    pub fn spr_enable(&self) -> (field: bool)
        ensures
            field == self.spec_spr_enable(),
    {
        (self.0 / 16) % 2 == 1
    }

    /// Bit 5: red is emphasized.
    #[verifier::when_used_as_spec(spec_emphasize_red)]
    pub fn emphasize_red(&self) -> (field: bool)
        ensures
            field == self.spec_emphasize_red(),
    {
        (self.0 / 32) % 2 == 1
    }

    /// Bit 6: green is emphasized.
    #[verifier::when_used_as_spec(spec_emphasize_green)]
    pub fn emphasize_green(&self) -> (field: bool)
        ensures
            field == self.spec_emphasize_green(),
    {
        (self.0 / 64) % 2 == 1
    }

    /// Bit 7: blue is emphasized.
    #[verifier::when_used_as_spec(spec_emphasize_blue)]
    pub fn emphasize_blue(&self) -> (field: bool)
        ensures
            field == self.spec_emphasize_blue(),
    {
        self.0 / 128 == 1
    }

}

/// The status register of the picture unit.
#[derive(Debug, Clone, Copy, PartialEq, Eq, Structural)]
pub struct RegPPUStatus(pub u8);

impl RegPPUStatus {
    /// Bits 0 to 4: what was last on the bus.
    pub open spec fn spec_open_bus(&self) -> u8 {
        self.0 % 32
    }

    /// Bit 5: more than eight sprites lay on one line.
    pub open spec fn spec_spr_overflow(&self) -> bool {
        (self.0 / 32) % 2 == 1
    }

    /// Bit 6: sprite 0 met the background.
    pub open spec fn spec_spr_0_hit(&self) -> bool {
        (self.0 / 64) % 2 == 1
    }

    /// Bit 7: the vertical blank has begun.
    pub open spec fn spec_in_vblank(&self) -> bool {
        self.0 / 128 == 1
    }

    /// The register with every bit clear.
    pub fn new() -> (register: Self)
        ensures
            register.0 == 0,
    {
        RegPPUStatus(0)
    }

    /// The register that holds `bits`.
    pub fn from_bits(bits: u8) -> (register: Self)
        ensures
            register.0 == bits,
    {
        RegPPUStatus(bits)
    }

    /// The byte that the register holds.
    pub fn into_bits(self) -> (bits: u8)
        ensures
            bits == self.0,
    {
        self.0
    }

    /// Bits 0 to 4: what was last on the bus.
    #[verifier::when_used_as_spec(spec_open_bus)]
    pub fn open_bus(&self) -> (field: u8)
        ensures
            field == self.spec_open_bus(),
    {
        self.0 % 32
    }

    /// Bit 5: more than eight sprites lay on one line.
    #[verifier::when_used_as_spec(spec_spr_overflow)]
    pub fn spr_overflow(&self) -> (field: bool)
        ensures
            field == self.spec_spr_overflow(),
    {
        (self.0 / 32) % 2 == 1
    }

    /// Bit 6: sprite 0 met the background.
    #[verifier::when_used_as_spec(spec_spr_0_hit)]
    pub fn spr_0_hit(&self) -> (field: bool)
        ensures
            field == self.spec_spr_0_hit(),
    {
        (self.0 / 64) % 2 == 1
    }

    /// Bit 7: the vertical blank has begun.
    #[verifier::when_used_as_spec(spec_in_vblank)]
    pub fn in_vblank(&self) -> (field: bool)
        ensures
            field == self.spec_in_vblank(),
    {
        self.0 / 128 == 1
    }

    /// The register with bit 6, the sprite 0 hit, set to `hit` and every
    /// other bit as it is.
    pub open spec fn with_spr_0_hit(self, hit: bool) -> RegPPUStatus {
        if hit == self.spec_spr_0_hit() {
            self
        } else if hit {
            RegPPUStatus((self.0 + 64) as u8)
        } else {
            RegPPUStatus((self.0 - 64) as u8)
        }
    }

    /// Sets or clears bit 6, the sprite 0 hit.
    pub fn set_spr_0_hit(&mut self, hit: bool)
        ensures
            *final(self) == old(self).with_spr_0_hit(hit),
            final(self).spec_spr_0_hit() == hit,
            final(self).spec_open_bus() == old(self).spec_open_bus(),
            final(self).spec_spr_overflow() == old(self).spec_spr_overflow(),
            final(self).spec_in_vblank() == old(self).spec_in_vblank(),
    {
        let set: bool = (self.0 / 64) % 2 == 1;
        if hit && !set {
            self.0 = self.0 + 64;
        } else if !hit && set {
            self.0 = self.0 - 64;
        }
    }
}

/// The size of the picture unit's video memory in bytes.
pub const VRAM_SIZE: usize = 2 * 1024;

/// The picture unit: its video memory and its registers.
pub struct PPU {
    memory: Vec<u8>,
    reg_ppuctrl: RegPPUCtrl,
    reg_ppumask: RegPPUMask,
    reg_ppustatus: RegPPUStatus,
    reg_oamaddr: u8,
    reg_oamdata: u8,
    reg_ppuscroll: u8,
    reg_ppuaddr: u8,
    reg_ppudata: u8,
    reg_oamdma: u8,
}

/// What the picture unit holds.
pub struct PpuView {
    pub memory: Seq<u8>,
    pub ppuctrl: u8,
    pub ppumask: u8,
    pub ppustatus: u8,
    pub oamaddr: u8,
    pub oamdata: u8,
    pub ppuscroll: u8,
    pub ppuaddr: u8,
    pub ppudata: u8,
    pub oamdma: u8,
}

impl PpuView {
    /// What a read of register `reg` gives.
    pub open spec fn read_reg(self, reg: u8) -> u8 {
        match reg {
            0 => self.ppuctrl,
            1 => self.ppumask,
            2 => self.ppustatus,
            3 => self.oamaddr,
            4 => self.oamdata,
            5 => self.ppuscroll,
            6 => self.ppuaddr,
            _ => self.ppudata,
        }
    }

    /// The picture unit after `value` was written to register `reg`.
    pub open spec fn write_reg(self, reg: u8, value: u8) -> PpuView {
        match reg {
            0 => PpuView { ppuctrl: value, ..self },
            1 => PpuView { ppumask: value, ..self },
            2 => PpuView { ppustatus: value, ..self },
            3 => PpuView { oamaddr: value, ..self },
            4 => PpuView { oamdata: value, ..self },
            5 => PpuView { ppuscroll: value, ..self },
            6 => PpuView { ppuaddr: value, ..self },
            _ => PpuView { ppudata: value, ..self },
        }
    }

    /// The picture unit before power was ever applied: no video memory, and
    /// every register clear.
    pub open spec fn unpowered() -> PpuView {
        PpuView {
            memory: Seq::empty(),
            ppuctrl: 0,
            ppumask: 0,
            ppustatus: 0,
            oamaddr: 0,
            oamdata: 0,
            ppuscroll: 0,
            ppuaddr: 0,
            ppudata: 0,
            oamdma: 0,
        }
    }

    /// The picture unit after power was applied: the video memory and the
    /// registers are cleared, but for the sprite data and transfer registers,
    /// which keep what they hold, and the status register, which only loses
    /// its sprite 0 hit.
    pub open spec fn powered_on(self) -> PpuView {
        PpuView {
            memory: zeros(VRAM_SIZE as nat),
            ppuctrl: 0,
            ppumask: 0,
            ppustatus: RegPPUStatus(self.ppustatus).with_spr_0_hit(false).0,
            oamaddr: 0,
            ppuscroll: 0,
            ppuaddr: 0,
            ppudata: 0,
            ..self
        }
    }

    /// The picture unit after a reset: the video memory and the control,
    /// mask, scroll and data registers are cleared.
    pub open spec fn reset(self) -> PpuView {
        PpuView {
            memory: zeros(VRAM_SIZE as nat),
            ppuctrl: 0,
            ppumask: 0,
            ppuscroll: 0,
            ppudata: 0,
            ..self
        }
    }
}

impl View for PPU {
    type V = PpuView;

    closed spec fn view(&self) -> PpuView {
        PpuView {
            memory: self.memory@,
            ppuctrl: self.reg_ppuctrl.0,
            ppumask: self.reg_ppumask.0,
            ppustatus: self.reg_ppustatus.0,
            oamaddr: self.reg_oamaddr,
            oamdata: self.reg_oamdata,
            ppuscroll: self.reg_ppuscroll,
            ppuaddr: self.reg_ppuaddr,
            ppudata: self.reg_ppudata,
            oamdma: self.reg_oamdma,
        }
    }
}

impl PPU {
    /// Reads one of the eight registers that the bus reaches.
    pub fn read_reg(&self, reg: u8) -> (value: u8)
        requires
            reg < 8,
        ensures
            value == self@.read_reg(reg),
    {
        match reg {
            0 => self.reg_ppuctrl.into_bits(),
            1 => self.reg_ppumask.into_bits(),
            2 => self.reg_ppustatus.into_bits(),
            3 => self.reg_oamaddr,
            4 => self.reg_oamdata,
            5 => self.reg_ppuscroll,
            6 => self.reg_ppuaddr,
            _ => self.reg_ppudata,
        }
    }

    /// Writes one of the eight registers that the bus reaches.
    pub fn write_reg(&mut self, reg: u8, value: u8)
        requires
            reg < 8,
        ensures
            final(self)@ == old(self)@.write_reg(reg, value),
    {
        match reg {
            0 => self.reg_ppuctrl = RegPPUCtrl::from_bits(value),
            1 => self.reg_ppumask = RegPPUMask::from_bits(value),
            2 => self.reg_ppustatus = RegPPUStatus::from_bits(value),
            3 => self.reg_oamaddr = value,
            4 => self.reg_oamdata = value,
            5 => self.reg_ppuscroll = value,
            6 => self.reg_ppuaddr = value,
            _ => self.reg_ppudata = value,
        }
    }
}

impl Default for PPU {
    fn default() -> (ppu: Self)
        ensures
            ppu@ == PpuView::unpowered(),
    {
        PPU {
            memory: Vec::new(),
            reg_ppuctrl: RegPPUCtrl::new(),
            reg_ppumask: RegPPUMask::new(),
            reg_ppustatus: RegPPUStatus::new(),
            reg_oamaddr: 0,
            reg_oamdata: 0,
            reg_ppuscroll: 0,
            reg_ppuaddr: 0,
            reg_ppudata: 0,
            reg_oamdma: 0,
        }
    }
}

impl Powerable for PPU {
    open spec fn powered(&self) -> bool {
        self@.memory.len() == VRAM_SIZE
    }

    fn power_on(&mut self)
        ensures
            final(self)@ == old(self)@.powered_on(),
    {
        self.memory = zeroed(VRAM_SIZE);
        self.reg_ppuctrl = RegPPUCtrl::from_bits(0);
        self.reg_ppumask = RegPPUMask::from_bits(0);
        self.reg_ppustatus.set_spr_0_hit(false);
        self.reg_oamaddr = 0;
        self.reg_ppuscroll = 0;
        self.reg_ppuaddr = 0;
        self.reg_ppudata = 0;
    }

    fn reset(&mut self)
        ensures
            final(self)@ == old(self)@.reset(),
    {
        self.memory = zeroed(VRAM_SIZE);
        self.reg_ppuctrl = RegPPUCtrl::from_bits(0);
        self.reg_ppumask = RegPPUMask::from_bits(0);
        self.reg_ppuscroll = 0;
        self.reg_ppudata = 0;
    }
}

} // verus!
