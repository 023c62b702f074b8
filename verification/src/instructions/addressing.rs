use crate::cpu::CPU;
use crate::instructions::logic::MicroOp;
use crate::instructions::{AddressingMode, InstructionType};
use crate::state::{signed, wrap16, wrap8};
use crate::utils::build_u16;
use vstd::prelude::*;

verus! {

/// What decoding asks of the bus for an instruction's operand.
#[derive(Debug, Clone, Copy, PartialEq, Eq, Structural)]
pub enum MemoryOp {
    Read,
    Write,
}

/// Reads the operand from the effective address.
pub fn read_mem(cpu: &mut CPU)
    requires
        old(cpu)@.can_apply(MicroOp::ReadMem),
    ensures
        final(cpu)@ == old(cpu)@.read_operand(),
{
    cpu.value = cpu.ic.read_mem(cpu.addr);
}

/// Writes the staged byte to the effective address.
pub fn write_mem(cpu: &mut CPU)
    requires
        old(cpu)@.can_apply(MicroOp::WriteMem),
    ensures
        final(cpu)@ == old(cpu)@.write_staged(),
{
    cpu.ic.write_mem(cpu.addr, cpu.write);
}

/// The byte `index` places after `base` within a page, which follows 0xFF
/// with 0x00.
fn page_offset(base: u8, index: u8) -> (offset: u8)
    ensures
        offset == wrap8(base + index),
{
    base.wrapping_add(index)
}

/// The address `index` places after `base`, going round at the top of the
/// address space.
fn indexed(base: u16, index: u8) -> (address: u16)
    ensures
        address == wrap16(base + index),
{
    base.wrapping_add(index as u16)
}

/// The target of a branch: `offset`, read as a signed byte, is added to the
/// address of the next instruction.
fn branch_target(next: u16, offset: u8) -> (target: u16)
    ensures
        target == wrap16(next + signed(offset)),
{
    if offset < 0x80 {
        next.wrapping_add(offset as u16)
    } else {
        next.wrapping_sub(0x100 - offset as u16)
    }
}

/// Reads the little-endian word in the zero page at `pointer`.
fn read_zero_page_word(cpu: &CPU, pointer: u8) -> (word: u16)
    requires
        cpu@.ic.wf(),
    ensures
        word == cpu@.zero_page_word(pointer),
{
    let low = cpu.ic.read_mem(pointer as u16);
    let high = cpu.ic.read_mem(page_offset(pointer, 1) as u16);
    build_u16(high, low)
}

/// Stages what an addressing mode gives for the operand bytes: the operand
/// value for the immediate and accumulator modes, nothing for the implicit
/// mode, the effective address for every other mode.
fn stage_operand(cpu: &mut CPU, addr_mode: AddressingMode)
    requires
        old(cpu)@.curr_inst matches Some(inst) && inst.addr_mode == addr_mode,
        old(cpu)@.can_resolve(),
    ensures
        final(cpu)@ == old(cpu)@.staged(addr_mode),
{
    match addr_mode {
        AddressingMode::Illegal => {},
        AddressingMode::ZeroPageIndexedX => {
            cpu.addr = page_offset(cpu.operands[0], cpu.reg_x) as u16;
        },
        AddressingMode::ZeroPageIndexedY => {
            cpu.addr = page_offset(cpu.operands[0], cpu.reg_y) as u16;
        },
        AddressingMode::AbsoluteIndexedX => {
            cpu.addr = indexed(build_u16(cpu.operands[1], cpu.operands[0]), cpu.reg_x);
        },
        AddressingMode::AbsoluteIndexedY => {
            cpu.addr = indexed(build_u16(cpu.operands[1], cpu.operands[0]), cpu.reg_y);
        },
        AddressingMode::IndexedIndirect => {
            cpu.addr = read_zero_page_word(cpu, page_offset(cpu.operands[0], cpu.reg_x));
        },
        AddressingMode::IndirectIndexed => {
            cpu.addr = indexed(read_zero_page_word(cpu, cpu.operands[0]), cpu.reg_y);
        },
        AddressingMode::Implicit => {},
        AddressingMode::Accumulator => {
            cpu.value = cpu.reg_a;
        },
        AddressingMode::Immediate => {
            cpu.value = cpu.operands[0];
        },
        AddressingMode::ZeroPage => {
            cpu.addr = cpu.operands[0] as u16;
        },
        AddressingMode::Absolute => {
            cpu.addr = build_u16(cpu.operands[1], cpu.operands[0]);
        },
        AddressingMode::Relative => {
            cpu.addr = branch_target(cpu.reg_pc, cpu.operands[0]);
        },
        AddressingMode::Indirect => {
            cpu.addr = cpu.ic.read_mem_word(build_u16(cpu.operands[1], cpu.operands[0]));
        },
    }
}

/// Resolves the operand of the instruction in flight from its operand bytes:
/// stages the operand value or the effective address, as the addressing mode
/// says, and queues the bus cycle that the instruction needs for its operand,
/// a read or a write.
pub fn queue_push_memory_op(cpu: &mut CPU, op: MemoryOp)
    requires
        old(cpu)@.can_resolve(),
    ensures
        final(cpu)@ == old(cpu)@.resolve(op),
{
    let inst = match cpu.curr_inst {
        Some(inst) => inst,
        None => {
            return ;
        },
    };
    stage_operand(cpu, inst.addr_mode);
    match op {
        MemoryOp::Read => {
            match inst.addr_mode {
                AddressingMode::Immediate
                | AddressingMode::Accumulator
                | AddressingMode::Implicit
                | AddressingMode::Relative => {},
                _ => {
                    match inst.inst_type {
                        InstructionType::JMP => {},
                        _ => {
                            cpu.inst_queue.push_back((MicroOp::ReadMem, 1));
                        },
                    }
                },
            };
        },
        MemoryOp::Write => {
            cpu.inst_queue.push_back((MicroOp::WriteMem, 1));
        },
    }
}

} // verus!
