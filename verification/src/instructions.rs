use vstd::prelude::*;

pub mod addressing;
pub mod logic;

verus! {

/// The mnemonics of the processor, and `Illegal` for an opcode that the
/// processor's opcode matrix leaves undocumented.
#[derive(Debug, Clone, Copy, PartialEq, Eq, Structural)]
pub enum InstructionType {
    Illegal,
    ADC,
    AND,
    ASL,
    BCC,
    BCS,
    BEQ,
    BIT,
    BMI,
    BNE,
    BPL,
    BRK,
    BVC,
    BVS,
    CLC,
    CLD,
    CLI,
    CLV,
    CMP,
    CPX,
    CPY,
    DEC,
    DEX,
    DEY,
    EOR,
    INC,
    INX,
    INY,
    JMP,
    JSR,
    LDA,
    LDX,
    LDY,
    LSR,
    NOP,
    ORA,
    PHA,
    PHP,
    PLA,
    PLP,
    ROL,
    ROR,
    RTI,
    RTS,
    SBC,
    SEC,
    SED,
    SEI,
    STA,
    STX,
    STY,
    TAX,
    TAY,
    TSX,
    TXA,
    TXS,
    TYA,
}

/// How an instruction finds its operand. `Illegal` belongs to the opcodes
/// that the processor's opcode matrix leaves undocumented.
#[derive(Debug, Clone, Copy, PartialEq, Eq, Structural)]
pub enum AddressingMode {
    Illegal,
    ZeroPageIndexedX,
    ZeroPageIndexedY,
    AbsoluteIndexedX,
    AbsoluteIndexedY,
    IndexedIndirect,
    IndirectIndexed,
    Implicit,
    Accumulator,
    Immediate,
    ZeroPage,
    Absolute,
    Relative,
    Indirect,
}

/// A decoded opcode: what to do, and where the operand comes from.
#[derive(Debug, Clone, Copy, PartialEq, Eq, Structural)]
pub struct Instruction {
    pub inst_type: InstructionType,
    pub addr_mode: AddressingMode,
}

/// The mnemonic that the processor's opcode matrix gives for an opcode,
/// one line per mnemonic.
pub open spec fn documented_type(byte: u8) -> InstructionType {
    match byte {
        0x61 | 0x65 | 0x69 | 0x6D | 0x71 | 0x75 | 0x79 | 0x7D => InstructionType::ADC,
        0x21 | 0x25 | 0x29 | 0x2D | 0x31 | 0x35 | 0x39 | 0x3D => InstructionType::AND,
        0x06 | 0x0A | 0x0E | 0x16 | 0x1E => InstructionType::ASL,
        0x90 => InstructionType::BCC,
        0xB0 => InstructionType::BCS,
        0xF0 => InstructionType::BEQ,
        0x24 | 0x2C => InstructionType::BIT,
        0x30 => InstructionType::BMI,
        0xD0 => InstructionType::BNE,
        0x10 => InstructionType::BPL,
        0x00 => InstructionType::BRK,
        0x50 => InstructionType::BVC,
        0x70 => InstructionType::BVS,
        0x18 => InstructionType::CLC,
        0xD8 => InstructionType::CLD,
        0x58 => InstructionType::CLI,
        0xB8 => InstructionType::CLV,
        0xC1 | 0xC5 | 0xC9 | 0xCD | 0xD1 | 0xD5 | 0xD9 | 0xDD => InstructionType::CMP,
        0xE0 | 0xE4 | 0xEC => InstructionType::CPX,
        0xC0 | 0xC4 | 0xCC => InstructionType::CPY,
        0xC6 | 0xCE | 0xD6 | 0xDE => InstructionType::DEC,
        0xCA => InstructionType::DEX,
        0x88 => InstructionType::DEY,
        0x41 | 0x45 | 0x49 | 0x4D | 0x51 | 0x55 | 0x59 | 0x5D => InstructionType::EOR,
        0xE6 | 0xEE | 0xF6 | 0xFE => InstructionType::INC,
        0xE8 => InstructionType::INX,
        0xC8 => InstructionType::INY,
        0x4C | 0x6C => InstructionType::JMP,
        0x20 => InstructionType::JSR,
        0xA1 | 0xA5 | 0xA9 | 0xAD | 0xB1 | 0xB5 | 0xB9 | 0xBD => InstructionType::LDA,
        0xA2 | 0xA6 | 0xAE | 0xB6 | 0xBE => InstructionType::LDX,
        0xA0 | 0xA4 | 0xAC | 0xB4 | 0xBC => InstructionType::LDY,
        0x46 | 0x4A | 0x4E | 0x56 | 0x5E => InstructionType::LSR,
        0xEA => InstructionType::NOP,
        0x01 | 0x05 | 0x09 | 0x0D | 0x11 | 0x15 | 0x19 | 0x1D => InstructionType::ORA,
        0x48 => InstructionType::PHA,
        0x08 => InstructionType::PHP,
        0x68 => InstructionType::PLA,
        0x28 => InstructionType::PLP,
        0x26 | 0x2A | 0x2E | 0x36 | 0x3E => InstructionType::ROL,
        0x66 | 0x6A | 0x6E | 0x76 | 0x7E => InstructionType::ROR,
        0x40 => InstructionType::RTI,
        0x60 => InstructionType::RTS,
        0xE1 | 0xE5 | 0xE9 | 0xED | 0xF1 | 0xF5 | 0xF9 | 0xFD => InstructionType::SBC,
        0x38 => InstructionType::SEC,
        0xF8 => InstructionType::SED,
        0x78 => InstructionType::SEI,
        0x81 | 0x85 | 0x8D | 0x91 | 0x95 | 0x99 | 0x9D => InstructionType::STA,
        0x86 | 0x8E | 0x96 => InstructionType::STX,
        0x84 | 0x8C | 0x94 => InstructionType::STY,
        0xAA => InstructionType::TAX,
        0xA8 => InstructionType::TAY,
        0xBA => InstructionType::TSX,
        0x8A => InstructionType::TXA,
        0x9A => InstructionType::TXS,
        0x98 => InstructionType::TYA,
        _ => InstructionType::Illegal,
    }
}

/// The addressing mode that the processor's opcode matrix gives for an opcode.
pub open spec fn documented_mode(byte: u8) -> AddressingMode {
    match byte {
        0x15 | 0x16 | 0x35 | 0x36 | 0x55 | 0x56 | 0x75 | 0x76 | 0x94 | 0x95 | 0xB4 | 0xB5 | 0xD5
        | 0xD6 | 0xF5 | 0xF6 => AddressingMode::ZeroPageIndexedX,
        0x96 | 0xB6 => AddressingMode::ZeroPageIndexedY,
        0x1D | 0x1E | 0x3D | 0x3E | 0x5D | 0x5E | 0x7D | 0x7E | 0x9D | 0xBC | 0xBD | 0xDD | 0xDE
        | 0xFD | 0xFE => AddressingMode::AbsoluteIndexedX,
        0x19 | 0x39 | 0x59 | 0x79 | 0x99 | 0xB9 | 0xBE | 0xD9 | 0xF9
        => AddressingMode::AbsoluteIndexedY,
        0x01 | 0x21 | 0x41 | 0x61 | 0x81 | 0xA1 | 0xC1 | 0xE1 => AddressingMode::IndexedIndirect,
        0x11 | 0x31 | 0x51 | 0x71 | 0x91 | 0xB1 | 0xD1 | 0xF1 => AddressingMode::IndirectIndexed,
        0x00 | 0x08 | 0x18 | 0x28 | 0x38 | 0x40 | 0x48 | 0x58 | 0x60 | 0x68 | 0x78 | 0x88 | 0x8A
        | 0x98 | 0x9A | 0xA8 | 0xAA | 0xB8 | 0xBA | 0xC8 | 0xCA | 0xD8 | 0xE8 | 0xEA | 0xF8
        => AddressingMode::Implicit,
        0x0A | 0x2A | 0x4A | 0x6A => AddressingMode::Accumulator,
        0x09 | 0x29 | 0x49 | 0x69 | 0xA0 | 0xA2 | 0xA9 | 0xC0 | 0xC9 | 0xE0 | 0xE9
        => AddressingMode::Immediate,
        0x05 | 0x06 | 0x24 | 0x25 | 0x26 | 0x45 | 0x46 | 0x65 | 0x66 | 0x84 | 0x85 | 0x86 | 0xA4
        | 0xA5 | 0xA6 | 0xC4 | 0xC5 | 0xC6 | 0xE4 | 0xE5 | 0xE6 => AddressingMode::ZeroPage,
        0x0D | 0x0E | 0x20 | 0x2C | 0x2D | 0x2E | 0x4C | 0x4D | 0x4E | 0x6D | 0x6E | 0x8C | 0x8D
        | 0x8E | 0xAC | 0xAD | 0xAE | 0xCC | 0xCD | 0xCE | 0xEC | 0xED | 0xEE
        => AddressingMode::Absolute,
        0x10 | 0x30 | 0x50 | 0x70 | 0x90 | 0xB0 | 0xD0 | 0xF0 => AddressingMode::Relative,
        0x6C => AddressingMode::Indirect,
        _ => AddressingMode::Illegal,
    }
}

/// Whether the processor's opcode matrix documents the opcode.
pub open spec fn is_documented(byte: u8) -> bool {
    documented_type(byte) != InstructionType::Illegal
}

/// The number of operand bytes that follow the opcode, by addressing mode.
pub open spec fn operand_count(addr_mode: AddressingMode) -> nat {
    match addr_mode {
        AddressingMode::Illegal | AddressingMode::Implicit | AddressingMode::Accumulator => 0,
        AddressingMode::Absolute
        | AddressingMode::AbsoluteIndexedX
        | AddressingMode::AbsoluteIndexedY
        | AddressingMode::Indirect => 2,
        _ => 1,
    }
}

/// The length in bytes of the instruction that starts with the opcode, as the
/// processor's programming manual lists it opcode by opcode. An undocumented
/// opcode stands alone.
pub open spec fn documented_length(byte: u8) -> nat {
    match byte {
        0x0D | 0x0E | 0x19 | 0x1D | 0x1E | 0x20 | 0x2C | 0x2D | 0x2E | 0x39 | 0x3D | 0x3E | 0x4C
        | 0x4D | 0x4E | 0x59 | 0x5D | 0x5E | 0x6C | 0x6D | 0x6E | 0x79 | 0x7D | 0x7E | 0x8C
        | 0x8D | 0x8E | 0x99 | 0x9D | 0xAC | 0xAD | 0xAE | 0xB9 | 0xBC | 0xBD | 0xBE | 0xCC
        | 0xCD | 0xCE | 0xD9 | 0xDD | 0xDE | 0xEC | 0xED | 0xEE | 0xF9 | 0xFD | 0xFE => 3,
        0x01 | 0x05 | 0x06 | 0x09 | 0x10 | 0x11 | 0x15 | 0x16 | 0x21 | 0x24 | 0x25 | 0x26 | 0x29
        | 0x30 | 0x31 | 0x35 | 0x36 | 0x41 | 0x45 | 0x46 | 0x49 | 0x50 | 0x51 | 0x55 | 0x56
        | 0x61 | 0x65 | 0x66 | 0x69 | 0x70 | 0x71 | 0x75 | 0x76 | 0x81 | 0x84 | 0x85 | 0x86
        | 0x90 | 0x91 | 0x94 | 0x95 | 0x96 | 0xA0 | 0xA1 | 0xA2 | 0xA4 | 0xA5 | 0xA6 | 0xA9
        | 0xB0 | 0xB1 | 0xB4 | 0xB5 | 0xB6 | 0xC0 | 0xC1 | 0xC4 | 0xC5 | 0xC6 | 0xC9 | 0xD0
        | 0xD1 | 0xD5 | 0xD6 | 0xE0 | 0xE1 | 0xE4 | 0xE5 | 0xE6 | 0xE9 | 0xF0 | 0xF1 | 0xF5
        | 0xF6 => 2,
        _ => 1,
    }
}

/// How the fields of an opcode, which the decoder cuts out with masks and
/// shifts, read as arithmetic on the byte.
proof fn lemma_opcode_fields(byte: u8)
    by (bit_vector)
    ensures
        byte & 0b11 == byte % 4,
        byte & 0b1111_1100 == (byte / 4) * 4,
        byte & 0b1110_0000 == (byte / 32) * 32,
        (byte & 0b0001_1100) >> 2 == (byte / 4) % 8,
{
}

/// Decodes the mnemonic of an opcode. The two low bits select a column of the
/// opcode matrix, the remaining bits a mnemonic within it; a bit pattern that
/// the matrix leaves empty decodes to `Illegal`.
pub fn get_inst_type(byte: u8) -> (inst_type: InstructionType)
    ensures
        inst_type == documented_type(byte),
{
    proof {
        lemma_opcode_fields(byte);
    }
    let row: u8 = byte & 0b1110_0000;
    let sub: u8 = (byte & 0b0001_1100) >> 2;
    match byte & 0b11 {
        0 => {
            // control flow, flags, stack, index registers
            match byte & 0b1111_1100 {
                0x00 => InstructionType::BRK,
                0x08 => InstructionType::PHP,
                0x10 => InstructionType::BPL,
                0x18 => InstructionType::CLC,
                0x20 => InstructionType::JSR,
                0x24 => InstructionType::BIT,
                0x28 => InstructionType::PLP,
                0x2C => InstructionType::BIT,
                0x30 => InstructionType::BMI,
                0x38 => InstructionType::SEC,
                0x40 => InstructionType::RTI,
                0x48 => InstructionType::PHA,
                0x4C => InstructionType::JMP,
                0x50 => InstructionType::BVC,
                0x58 => InstructionType::CLI,
                0x60 => InstructionType::RTS,
                0x68 => InstructionType::PLA,
                0x6C => InstructionType::JMP,
                0x70 => InstructionType::BVS,
                0x78 => InstructionType::SEI,
                0x84 => InstructionType::STY,
                0x88 => InstructionType::DEY,
                0x8C => InstructionType::STY,
                0x90 => InstructionType::BCC,
                0x94 => InstructionType::STY,
                0x98 => InstructionType::TYA,
                0xA0 => InstructionType::LDY,
                0xA4 => InstructionType::LDY,
                0xA8 => InstructionType::TAY,
                0xAC => InstructionType::LDY,
                0xB0 => InstructionType::BCS,
                0xB4 => InstructionType::LDY,
                0xB8 => InstructionType::CLV,
                0xBC => InstructionType::LDY,
                0xC0 => InstructionType::CPY,
                0xC4 => InstructionType::CPY,
                0xC8 => InstructionType::INY,
                0xCC => InstructionType::CPY,
                0xD0 => InstructionType::BNE,
                0xD8 => InstructionType::CLD,
                0xE0 => InstructionType::CPX,
                0xE4 => InstructionType::CPX,
                0xE8 => InstructionType::INX,
                0xEC => InstructionType::CPX,
                0xF0 => InstructionType::BEQ,
                0xF8 => InstructionType::SED,
                _ => InstructionType::Illegal,
            }
        },
        1 => {
            // accumulator arithmetic and logic; a store has no immediate form
            if byte == 0x89 {
                InstructionType::Illegal
            } else {
                match row {
                    0x00 => InstructionType::ORA,
                    0x20 => InstructionType::AND,
                    0x40 => InstructionType::EOR,
                    0x60 => InstructionType::ADC,
                    0x80 => InstructionType::STA,
                    0xA0 => InstructionType::LDA,
                    0xC0 => InstructionType::CMP,
                    _ => InstructionType::SBC,
                }
            }
        },
        2 => {
            // shifts, X register loads and stores, memory increments
            match row {
                0x00 => match sub {
                    1 | 2 | 3 | 5 | 7 => InstructionType::ASL,
                    _ => InstructionType::Illegal,
                },
                0x20 => match sub {
                    1 | 2 | 3 | 5 | 7 => InstructionType::ROL,
                    _ => InstructionType::Illegal,
                },
                0x40 => match sub {
                    1 | 2 | 3 | 5 | 7 => InstructionType::LSR,
                    _ => InstructionType::Illegal,
                },
                0x60 => match sub {
                    1 | 2 | 3 | 5 | 7 => InstructionType::ROR,
                    _ => InstructionType::Illegal,
                },
                0x80 => match sub {
                    1 | 3 | 5 => InstructionType::STX,
                    2 => InstructionType::TXA,
                    6 => InstructionType::TXS,
                    _ => InstructionType::Illegal,
                },
                0xA0 => match sub {
                    0 | 1 | 3 | 5 | 7 => InstructionType::LDX,
                    2 => InstructionType::TAX,
                    6 => InstructionType::TSX,
                    _ => InstructionType::Illegal,
                },
                0xC0 => match sub {
                    1 | 3 | 5 | 7 => InstructionType::DEC,
                    2 => InstructionType::DEX,
                    _ => InstructionType::Illegal,
                },
                _ => match sub {
                    1 | 3 | 5 | 7 => InstructionType::INC,
                    2 => InstructionType::NOP,
                    _ => InstructionType::Illegal,
                },
            }
        },
        _ => InstructionType::Illegal,
    }
}

/// Decodes the addressing mode of an opcode from its column (the two low
/// bits), its three-bit mode field and, where a column has exceptions, its
/// row. An opcode that the matrix leaves empty decodes to `Illegal`.
pub fn get_addr_mode(byte: u8) -> (addr_mode: AddressingMode)
    ensures
        addr_mode == documented_mode(byte),
{
    proof {
        lemma_opcode_fields(byte);
    }
    let row: u8 = byte & 0b1110_0000;
    let sub: u8 = (byte & 0b0001_1100) >> 2;
    match byte & 0b11 {
        0 => {
            match sub {
                0 => match row {
                    0x00 | 0x40 | 0x60 => AddressingMode::Implicit,
                    0x20 => AddressingMode::Absolute,
                    0xA0 | 0xC0 | 0xE0 => AddressingMode::Immediate,
                    _ => AddressingMode::Illegal,
                },
                1 => match row {
                    0x20 | 0x80 | 0xA0 | 0xC0 | 0xE0 => AddressingMode::ZeroPage,
                    _ => AddressingMode::Illegal,
                },
                2 => AddressingMode::Implicit,
                3 => match row {
                    0x00 => AddressingMode::Illegal,
                    // the one indirect jump
                    0x60 => AddressingMode::Indirect,
                    _ => AddressingMode::Absolute,
                },
                4 => AddressingMode::Relative,
                5 => match row {
                    0x80 | 0xA0 => AddressingMode::ZeroPageIndexedX,
                    _ => AddressingMode::Illegal,
                },
                6 => AddressingMode::Implicit,
                _ => match row {
                    0xA0 => AddressingMode::AbsoluteIndexedX,
                    _ => AddressingMode::Illegal,
                },
            }
        },
        1 => {
            if byte == 0x89 {
                AddressingMode::Illegal
            } else {
                match sub {
                    0 => AddressingMode::IndexedIndirect,
                    1 => AddressingMode::ZeroPage,
                    2 => AddressingMode::Immediate,
                    3 => AddressingMode::Absolute,
                    4 => AddressingMode::IndirectIndexed,
                    5 => AddressingMode::ZeroPageIndexedX,
                    6 => AddressingMode::AbsoluteIndexedY,
                    _ => AddressingMode::AbsoluteIndexedX,
                }
            }
        },
        2 => {
            match sub {
                0 => match row {
                    0xA0 => AddressingMode::Immediate,
                    _ => AddressingMode::Illegal,
                },
                1 => AddressingMode::ZeroPage,
                2 => match row {
                    // the four shifts work on the accumulator here
                    0x00 | 0x20 | 0x40 | 0x60 => AddressingMode::Accumulator,
                    _ => AddressingMode::Implicit,
                },
                3 => AddressingMode::Absolute,
                4 => AddressingMode::Illegal,
                5 => match row {
                    // the X register cannot index itself
                    0x80 | 0xA0 => AddressingMode::ZeroPageIndexedY,
                    _ => AddressingMode::ZeroPageIndexedX,
                },
                6 => match row {
                    0x80 | 0xA0 => AddressingMode::Implicit,
                    _ => AddressingMode::Illegal,
                },
                _ => match row {
                    0x80 => AddressingMode::Illegal,
                    0xA0 => AddressingMode::AbsoluteIndexedY,
                    _ => AddressingMode::AbsoluteIndexedX,
                },
            }
        },
        _ => AddressingMode::Illegal,
    }
}

/// The number of operand bytes that an addressing mode takes.
pub fn get_num_of_operands(addr_mode: &AddressingMode) -> (count: usize)
    ensures
        count == operand_count(*addr_mode),
        count <= 2,
{
    match addr_mode {
        AddressingMode::Illegal => 0,
        AddressingMode::ZeroPageIndexedX => 1,
        AddressingMode::ZeroPageIndexedY => 1,
        AddressingMode::AbsoluteIndexedX => 2,
        AddressingMode::AbsoluteIndexedY => 2,
        AddressingMode::IndexedIndirect => 1,
        AddressingMode::IndirectIndexed => 1,
        AddressingMode::Implicit => 0,
        AddressingMode::Accumulator => 0,
        AddressingMode::Immediate => 1,
        AddressingMode::ZeroPage => 1,
        AddressingMode::Absolute => 2,
        AddressingMode::Relative => 1,
        AddressingMode::Indirect => 2,
    }
}

/// Every opcode decodes, and the decoded addressing mode asks for exactly the
/// operand bytes that the programming manual lists for the opcode: one byte
/// of opcode and none, one or two of operand. An opcode has a mnemonic
/// exactly if it has an addressing mode.
pub proof fn lemma_decoded_length(byte: u8)
    ensures
        1 + operand_count(documented_mode(byte)) == documented_length(byte),
        1 <= documented_length(byte) <= 3,
        documented_type(byte) == InstructionType::Illegal <==> documented_mode(byte)
            == AddressingMode::Illegal,
{
}

} // verus!

