use nesty::apu::APU;
use nesty::cartridge::{Cartridge, MEMORY_SIZE};
use nesty::ines::{Flags6, NametableArrangement};
use nesty::interconnect::{Interconnect, PROGRAM_START};
use nesty::nes::Powerable;
use nesty::ppu::{
    RegPPUBgTileSelect, RegPPUCtrl, RegPPUCtrlNametableSelect, RegPPUIncrementMode,
    RegPPUMask, RegPPUMasterSlave, RegPPUSprHeight, RegPPUSprTileSelect, RegPPUStatus, PPU,
};
use nesty::ram::{RAM, RAM_SIZE};
use nesty::rom::ROM;

fn powered_bus() -> Interconnect {
    let mut ic = Interconnect::default();
    ic.power_on();
    ic
}

fn image(banks: u8, flags6: u8, payload: &[u8]) -> Vec<u8> {
    let mut ines = vec![0x4E, 0x45, 0x53, 0x1A, banks, 0, flags6, 0, 0, 0, 0, 0, 0, 0, 0, 0];
    ines.extend_from_slice(payload);
    ines
}

#[test]
fn ram_is_clear_after_power_on() {
    let mut ram = RAM::default();
    ram.power_on();
    assert_eq!(RAM_SIZE, 2048);
    for address in [0u16, 1, 0x10, 0x7FF] {
        assert_eq!(ram.read_mem(address), 0);
    }
}

#[test]
fn ram_keeps_what_is_written() {
    let mut ram = RAM::default();
    ram.power_on();
    ram.write_mem(0x0010, 0x05);
    ram.write_mem(0x07FF, 0xAB);
    assert_eq!(ram.read_mem(0x0010), 0x05);
    assert_eq!(ram.read_mem(0x07FF), 0xAB);
    assert_eq!(ram.read_mem(0x0011), 0x00);
    ram.reset();
    assert_eq!(ram.read_mem(0x0010), 0x00);
}

#[test]
fn cartridge_spans_the_window_to_the_top() {
    let mut cartridge = Cartridge::default();
    cartridge.power_on();
    assert_eq!(MEMORY_SIZE, 0xBFE0);
    cartridge.write_mem(0xBFDF, 0x77);
    assert_eq!(cartridge.read_mem(0xBFDF), 0x77);
    assert_eq!(cartridge.read_mem(0), 0);
    cartridge.reset();
    assert_eq!(cartridge.read_mem(0xBFDF), 0x77);
}

#[test]
fn cartridge_load_copies_the_image() {
    let mut cartridge = Cartridge::default();
    cartridge.power_on();
    cartridge.write_mem(0x0FFF, 0xEE);
    cartridge.write_mem(0x1003, 0xEE);
    cartridge.load_at(0x1000, vec![1, 2, 3]);
    assert_eq!(cartridge.read_mem(0x0FFF), 0xEE);
    assert_eq!(cartridge.read_mem(0x1000), 1);
    assert_eq!(cartridge.read_mem(0x1001), 2);
    assert_eq!(cartridge.read_mem(0x1002), 3);
    assert_eq!(cartridge.read_mem(0x1003), 0xEE);
}

#[test]
fn cartridge_load_stops_at_the_end() {
    let mut cartridge = Cartridge::default();
    cartridge.power_on();
    cartridge.load_at(0xBFDE, vec![9, 8, 7, 6]);
    assert_eq!(cartridge.read_mem(0xBFDE), 9);
    assert_eq!(cartridge.read_mem(0xBFDF), 8);
    cartridge.load_at(0xFFFF, vec![1]);
    assert_eq!(cartridge.read_mem(0xBFDF), 8);
}

#[test]
fn rom_answers_with_a_fixed_byte() {
    let mut rom = ROM::default();
    rom.power_on();
    rom.load(vec![1, 2, 3]);
    assert_eq!(rom.mem_read(0), 8);
    assert_eq!(rom.mem_read(0xFFFF), 8);
    rom.mem_write(0);
    assert_eq!(rom.mem_read(0), 8);
    rom.reset();
    assert_eq!(rom.mem_read(1), 8);
}

#[test]
fn apu_can_be_powered() {
    let mut apu = APU::default();
    apu.power_on();
    apu.reset();
}

#[test]
fn nametable_arrangement_bits() {
    assert_eq!(NametableArrangement::VERTICAL.into_bits(), 0);
    assert_eq!(NametableArrangement::HORIZONTAL.into_bits(), 1);
    assert_eq!(NametableArrangement::from_bits(0), NametableArrangement::VERTICAL);
    assert_eq!(NametableArrangement::from_bits(1), NametableArrangement::HORIZONTAL);
}

#[test]
fn flags6_fields() {
    let flags = Flags6::from_bits(0b1010_0101);
    assert_eq!(flags.nametable_arrangement(), NametableArrangement::HORIZONTAL);
    assert_eq!(flags.battery_backed_prg_ram(), false);
    assert_eq!(flags.trainer(), true);
    assert_eq!(flags.alt_nametable_layout(), false);
    assert_eq!(flags.mapper_number_lower_nibble(), 0b1010);
    assert_eq!(flags.into_bits(), 0b1010_0101);
    let flags = Flags6::from_bits(0b0000_1010);
    assert_eq!(flags.nametable_arrangement(), NametableArrangement::VERTICAL);
    assert_eq!(flags.battery_backed_prg_ram(), true);
    assert_eq!(flags.trainer(), false);
    assert_eq!(flags.alt_nametable_layout(), true);
    assert_eq!(flags.mapper_number_lower_nibble(), 0);
    assert_eq!(Flags6::new().into_bits(), 0);
    assert_eq!(Flags6::default(), Flags6::new());
}

#[test]
fn picture_unit_choices_round_trip() {
    assert_eq!(RegPPUCtrlNametableSelect::from_bits(0), RegPPUCtrlNametableSelect::Address2000);
    assert_eq!(RegPPUCtrlNametableSelect::from_bits(1), RegPPUCtrlNametableSelect::Address2400);
    assert_eq!(RegPPUCtrlNametableSelect::from_bits(2), RegPPUCtrlNametableSelect::Address2800);
    assert_eq!(RegPPUCtrlNametableSelect::from_bits(3), RegPPUCtrlNametableSelect::Address2C00);
    assert_eq!(RegPPUCtrlNametableSelect::Address2C00.into_bits(), 3);
    assert_eq!(RegPPUIncrementMode::from_bits(0), RegPPUIncrementMode::AddOneGoingAcross);
    assert_eq!(RegPPUIncrementMode::from_bits(1), RegPPUIncrementMode::Add32GoingDown);
    assert_eq!(RegPPUIncrementMode::Add32GoingDown.into_bits(), 1);
    assert_eq!(RegPPUSprTileSelect::from_bits(0), RegPPUSprTileSelect::Address0000);
    assert_eq!(RegPPUSprTileSelect::from_bits(1), RegPPUSprTileSelect::Address1000);
    assert_eq!(RegPPUSprTileSelect::Address0000.into_bits(), 0);
    assert_eq!(RegPPUBgTileSelect::from_bits(0), RegPPUBgTileSelect::Address0000);
    assert_eq!(RegPPUBgTileSelect::from_bits(1), RegPPUBgTileSelect::Address1000);
    assert_eq!(RegPPUBgTileSelect::Address1000.into_bits(), 1);
    assert_eq!(RegPPUSprHeight::from_bits(0), RegPPUSprHeight::EightByEight);
    assert_eq!(RegPPUSprHeight::from_bits(1), RegPPUSprHeight::EightBySixteen);
    assert_eq!(RegPPUSprHeight::EightBySixteen.into_bits(), 1);
    assert_eq!(RegPPUMasterSlave::from_bits(0), RegPPUMasterSlave::ReadBackdropFromEXT);
    assert_eq!(RegPPUMasterSlave::from_bits(1), RegPPUMasterSlave::OutputColorOnEXT);
    assert_eq!(RegPPUMasterSlave::ReadBackdropFromEXT.into_bits(), 0);
}

#[test]
fn picture_unit_control_fields() {
    let ctrl = RegPPUCtrl::from_bits(0b1010_0110);
    assert_eq!(ctrl.nametable_select(), RegPPUCtrlNametableSelect::Address2800);
    assert_eq!(ctrl.increment_mode(), RegPPUIncrementMode::Add32GoingDown);
    assert_eq!(ctrl.spr_tile_select(), RegPPUSprTileSelect::Address0000);
    assert_eq!(ctrl.bg_tile_select(), RegPPUBgTileSelect::Address0000);
    assert_eq!(ctrl.spr_height(), RegPPUSprHeight::EightBySixteen);
    assert_eq!(ctrl.ppu_master_slave(), RegPPUMasterSlave::ReadBackdropFromEXT);
    assert_eq!(ctrl.nmi_enable(), true);
    assert_eq!(ctrl.into_bits(), 0b1010_0110);
    let ctrl = RegPPUCtrl::from_bits(0b0101_1001);
    assert_eq!(ctrl.nametable_select(), RegPPUCtrlNametableSelect::Address2400);
    assert_eq!(ctrl.increment_mode(), RegPPUIncrementMode::AddOneGoingAcross);
    assert_eq!(ctrl.spr_tile_select(), RegPPUSprTileSelect::Address1000);
    assert_eq!(ctrl.bg_tile_select(), RegPPUBgTileSelect::Address1000);
    assert_eq!(ctrl.spr_height(), RegPPUSprHeight::EightByEight);
    assert_eq!(ctrl.ppu_master_slave(), RegPPUMasterSlave::OutputColorOnEXT);
    assert_eq!(ctrl.nmi_enable(), false);
    assert_eq!(RegPPUCtrl::new().into_bits(), 0);
}

#[test]
fn picture_unit_mask_fields() {
    let mask = RegPPUMask::from_bits(0b1010_0101);
    assert_eq!(mask.greyscale(), true);
    assert_eq!(mask.bg_left_col_enable(), false);
    assert_eq!(mask.spr_left_col_enable(), true);
    assert_eq!(mask.bg_enable(), false);
    assert_eq!(mask.spr_enable(), false);
    assert_eq!(mask.emphasize_red(), true);
    assert_eq!(mask.emphasize_green(), false);
    assert_eq!(mask.emphasize_blue(), true);
    assert_eq!(mask.into_bits(), 0b1010_0101);
    assert_eq!(RegPPUMask::new().into_bits(), 0);
}

#[test]
fn picture_unit_status_fields() {
    let mut status = RegPPUStatus::from_bits(0b1111_0101);
    assert_eq!(status.open_bus(), 0b1_0101);
    assert_eq!(status.spr_overflow(), true);
    assert_eq!(status.spr_0_hit(), true);
    assert_eq!(status.in_vblank(), true);
    status.set_spr_0_hit(false);
    assert_eq!(status.into_bits(), 0b1011_0101);
    status.set_spr_0_hit(false);
    assert_eq!(status.into_bits(), 0b1011_0101);
    status.set_spr_0_hit(true);
    assert_eq!(status.into_bits(), 0b1111_0101);
    assert_eq!(RegPPUStatus::new().into_bits(), 0);
}

#[test]
fn picture_unit_registers_keep_what_is_written() {
    let mut ppu = PPU::default();
    ppu.power_on();
    for reg in 0..8u8 {
        assert_eq!(ppu.read_reg(reg), 0);
        ppu.write_reg(reg, 0x10 + reg);
    }
    for reg in 0..8u8 {
        assert_eq!(ppu.read_reg(reg), 0x10 + reg);
    }
}

#[test]
fn picture_unit_power_on_and_reset() {
    let mut ppu = PPU::default();
    for reg in 0..8u8 {
        ppu.write_reg(reg, 0xFF);
    }
    ppu.reset();
    // control, mask, scroll and data are cleared
    assert_eq!(ppu.read_reg(0), 0);
    assert_eq!(ppu.read_reg(1), 0);
    assert_eq!(ppu.read_reg(2), 0xFF);
    assert_eq!(ppu.read_reg(3), 0xFF);
    assert_eq!(ppu.read_reg(4), 0xFF);
    assert_eq!(ppu.read_reg(5), 0);
    assert_eq!(ppu.read_reg(6), 0xFF);
    assert_eq!(ppu.read_reg(7), 0);
    ppu.power_on();
    // the status loses the sprite 0 hit, the sprite data stays
    assert_eq!(ppu.read_reg(2), 0xBF);
    assert_eq!(ppu.read_reg(3), 0);
    assert_eq!(ppu.read_reg(4), 0xFF);
    assert_eq!(ppu.read_reg(6), 0);
}

#[test]
fn the_bus_map() {
    assert!(Interconnect::is_mapped(0x0000));
    assert!(Interconnect::is_mapped(0x1FFF));
    assert!(Interconnect::is_mapped(0x2000));
    assert!(Interconnect::is_mapped(0x3FFF));
    assert!(!Interconnect::is_mapped(0x4000));
    assert!(!Interconnect::is_mapped(0x4014));
    assert!(!Interconnect::is_mapped(0x401F));
    assert!(Interconnect::is_mapped(0x4020));
    assert!(Interconnect::is_mapped(0xFFFF));
}

#[test]
fn working_memory_is_mirrored() {
    let mut ic = powered_bus();
    ic.write_mem(0x0010, 0x05);
    assert_eq!(ic.read_mem(0x0010), 0x05);
    assert_eq!(ic.read_mem(0x0810), 0x05);
    assert_eq!(ic.read_mem(0x1010), 0x05);
    assert_eq!(ic.read_mem(0x1810), 0x05);
    ic.write_mem(0x1FFF, 0x99);
    assert_eq!(ic.read_mem(0x07FF), 0x99);
    assert_eq!(ic.read_mem(0x0011), 0x00);
}

#[test]
fn picture_unit_registers_are_mirrored() {
    let mut ic = powered_bus();
    ic.write_mem(0x2001, 0x1E);
    assert_eq!(ic.read_mem(0x2001), 0x1E);
    assert_eq!(ic.read_mem(0x2009), 0x1E);
    assert_eq!(ic.read_mem(0x3FF9), 0x1E);
    ic.write_mem(0x3FFF, 0x42);
    assert_eq!(ic.read_mem(0x2007), 0x42);
    assert_eq!(ic.read_mem(0x2000), 0x00);
}

#[test]
fn the_cartridge_answers_from_0x4020() {
    let mut ic = powered_bus();
    ic.write_mem(0x4020, 0x11);
    ic.write_mem(0xFFFF, 0x22);
    assert_eq!(ic.read_mem(0x4020), 0x11);
    assert_eq!(ic.read_mem(0xFFFF), 0x22);
    assert_eq!(ic.read_mem(0x4021), 0x00);
}

#[test]
fn words_are_read_low_byte_first() {
    let mut ic = powered_bus();
    ic.write_mem(0xFFFC, 0x34);
    ic.write_mem(0xFFFD, 0x12);
    assert_eq!(ic.read_mem_word(0xFFFC), 0x1234);
    ic.write_mem(0x0000, 0xAB);
    ic.write_mem(0xFFFF, 0xCD);
    // the high byte of the word at the top lies at the bottom
    assert_eq!(ic.read_mem_word(0xFFFF), 0xABCD);
}

#[test]
fn a_raw_program_is_staged_at_the_start_address() {
    let mut ic = powered_bus();
    ic.load_program(vec![0xA9, 0x05, 0x85, 0x10]);
    assert_eq!(PROGRAM_START, 0xC000);
    assert_eq!(ic.read_mem(0xBFFF), 0x00);
    assert_eq!(ic.read_mem(0xC000), 0xA9);
    assert_eq!(ic.read_mem(0xC001), 0x05);
    assert_eq!(ic.read_mem(0xC002), 0x85);
    assert_eq!(ic.read_mem(0xC003), 0x10);
    assert_eq!(ic.read_mem(0xC004), 0x00);
}

#[test]
fn an_image_is_complete_with_all_its_banks() {
    assert!(!Interconnect::is_complete_image(&vec![]));
    assert!(!Interconnect::is_complete_image(&vec![0; 15]));
    assert!(Interconnect::is_complete_image(&image(0, 0, &[])));
    assert!(!Interconnect::is_complete_image(&image(1, 0, &[0; 16383])));
    assert!(Interconnect::is_complete_image(&image(1, 0, &[0; 16384])));
    assert!(!Interconnect::is_complete_image(&image(1, 0x04, &[0; 16384])));
    assert!(Interconnect::is_complete_image(&image(1, 0x04, &[0; 16384 + 512])));
    assert!(!Interconnect::is_complete_image(&image(2, 0, &[0; 16384])));
}

#[test]
fn the_program_of_an_image_is_staged() {
    let mut payload = vec![0u8; 16384];
    payload[0] = 0xA9;
    payload[1] = 0x05;
    payload[0x3FFC] = 0x00;
    payload[0x3FFD] = 0xC0;
    let mut ines = image(1, 0, &payload);
    // what follows the banks is not staged
    ines.push(0x99);
    let mut ic = powered_bus();
    ic.load_rom(ines);
    assert_eq!(ic.read_mem(0xC000), 0xA9);
    assert_eq!(ic.read_mem(0xC001), 0x05);
    assert_eq!(ic.read_mem_word(0xFFFC), 0xC000);
    assert_eq!(ic.read_mem(0xBFFF), 0x00);
}

#[test]
fn a_trainer_is_staged_with_the_program() {
    let mut payload = vec![0u8; 512 + 16384];
    payload[0] = 0x77;
    payload[512] = 0xA9;
    let mut ic = powered_bus();
    ic.load_rom(image(1, 0x04, &payload));
    assert_eq!(ic.read_mem(0xC000), 0x77);
    assert_eq!(ic.read_mem(0xC200), 0xA9);
}

#[test]
fn bus_reset_clears_working_memory_only() {
    let mut ic = powered_bus();
    ic.write_mem(0x0010, 0x05);
    ic.write_mem(0xC000, 0xA9);
    ic.reset();
    assert_eq!(ic.read_mem(0x0010), 0x00);
    assert_eq!(ic.read_mem(0xC000), 0xA9);
    ic.power_on();
    assert_eq!(ic.read_mem(0xC000), 0x00);
}

#[test]
fn devices_tell_whether_they_are_powered() {
    let mut ram = RAM::default();
    assert!(!ram.is_powered());
    ram.power_on();
    assert!(ram.is_powered());
    let mut cartridge = Cartridge::default();
    assert!(!cartridge.is_powered());
    cartridge.power_on();
    assert!(cartridge.is_powered());
    let mut ic = Interconnect::default();
    assert!(!ic.is_powered());
    ic.reset();
    // a reset gives working memory its size, but not the cartridge
    assert!(!ic.is_powered());
    ic.power_on();
    assert!(ic.is_powered());
}
