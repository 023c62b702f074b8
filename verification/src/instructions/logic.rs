use crate::cpu::{CPU, IRQ_VECTOR_ADDR};
use crate::instructions::AddressingMode;
use crate::state::{signed, wrap16, wrap8, CpuView};
use crate::status::{
    Status, BREAK, CARRY, DECIMAL, INTERRUPT_DISABLE, NEGATIVE, OVERFLOW, ZERO,
};
use crate::utils::{build_u16, get_lsb, get_msb, high_byte, low_byte, word_of};
use vstd::prelude::*;

verus! {

/// One step of an instruction: what the processor does in it. The steps of
/// an instruction wait in the processor's queue, each with its cost.
#[derive(Debug, Clone, Copy, PartialEq, Eq, Structural)]
pub enum MicroOp {
    ReadMem,
    WriteMem,
    Adc1,
    And1,
    Asl1,
    Bcc1,
    Bcs1,
    Beq1,
    Bit1,
    Bmi1,
    Bne1,
    Bpl1,
    Brk1,
    Brk2,
    Brk3,
    Brk4,
    Bvc1,
    Bvs1,
    Clc1,
    Cld1,
    Cli1,
    Clv1,
    Cmp1,
    Cpx1,
    Cpy1,
    Dec1,
    Dec2,
    Dex1,
    Dey1,
    Eor1,
    Inc1,
    Inc2,
    Inx1,
    Iny1,
    Jmp1,
    Jsr1,
    Jsr2,
    Lda1,
    Ldx1,
    Ldy1,
    Lsr1,
    Nop,
    Ora1,
    Pha1,
    Php1,
    Pla1,
    Plp1,
    Rol1,
    Ror1,
    Rti1,
    Rti2,
    Rti3,
    Rts1,
    Rts2,
    Sbc1,
    Sec1,
    Sed1,
    Sei1,
    Tax1,
    Tay1,
    Tsx1,
    Txa1,
    Txs1,
    Tya1,
}

/// In a sum of two bytes and a carry, the carry into bit 7 differs from the
/// carry out of it exactly if the signed sum leaves the range of a signed
/// byte.
proof fn lemma_signed_sum(a: u8, b: u8, carry: int)
    requires
        carry == 0 || carry == 1,
    ensures
        ((a % 0x80) + (b % 0x80) + carry >= 0x80) != (a + b + carry > 0xFF) <==> (signed(a)
            + signed(b) + carry < -128 || signed(a) + signed(b) + carry > 127),
        a + b + carry > 0xFF ==> wrap8(a + b + carry) == a + b + carry - 0x100,
        a + b + carry <= 0xFF ==> wrap8(a + b + carry) == a + b + carry,
{
}

/// In a difference of two bytes and a borrow, the borrow into bit 7 differs
/// from the borrow out of it exactly if the signed difference leaves the
/// range of a signed byte.
proof fn lemma_signed_difference(a: u8, b: u8, borrow: int)
    requires
        borrow == 0 || borrow == 1,
    ensures
        ((a % 0x80) < (b % 0x80) + borrow) != (a < b + borrow) <==> (signed(a) - signed(b)
            - borrow < -128 || signed(a) - signed(b) - borrow > 127),
        a < b + borrow ==> wrap8(a - b - borrow) == a - b - borrow + 0x100,
        a >= b + borrow ==> wrap8(a - b - borrow) == a - b - borrow,
{
}

/// Puts a value into a register and sets the zero and negative flags by it.
fn set_register_with_flags(reg: &mut u8, status: &mut Status, value: u8)
    ensures
        *final(reg) == value,
        *final(status) == old(status).with_zn(value),
{
    *reg = value;
    status.set_zero(value == 0);
    status.set_negative(value >= 0x80);
}

/// Takes a branch: queues one idle cycle, and one more if the target lies in
/// another page than the instruction after the branch, and jumps.
fn handle_successful_branching(cpu: &mut CPU)
    ensures
        final(cpu)@ == old(cpu)@.branch(true),
{
    cpu.inst_queue.push_back((MicroOp::Nop, 1));
    if cpu.reg_pc / 0x100 != cpu.addr / 0x100 {
        // new page
        cpu.inst_queue.push_back((MicroOp::Nop, 1));
    }
    cpu.reg_pc = cpu.addr;
}

/// What a shift works on: the accumulator, or the operand read from memory.
fn shift_source(cpu: &CPU) -> (source: u8)
    requires
        cpu@.curr_inst is Some,
    ensures
        source == cpu@.shift_source(),
{
    match cpu.curr_inst {
        Some(inst) => match inst.addr_mode {
            AddressingMode::Accumulator => cpu.reg_a,
            _ => cpu.value,
        },
        None => cpu.value,
    }
}

/// Puts the result of a shift back where its source came from, and sets the
/// flags.
fn put_shifted(cpu: &mut CPU, result: u8, carry: bool)
    requires
        old(cpu)@.curr_inst is Some,
        !old(cpu)@.on_accumulator() ==> old(cpu)@.ic.wf() && crate::interconnect::mapped(
            old(cpu).addr,
        ),
    ensures
        final(cpu)@ == old(cpu)@.shifted(result, carry),
{
    let accumulator: bool = match cpu.curr_inst {
        Some(inst) => match inst.addr_mode {
            AddressingMode::Accumulator => true,
            _ => false,
        },
        None => false,
    };
    if accumulator {
        cpu.reg_a = result;
    } else {
        cpu.ic.write_mem(cpu.addr, result);
    }
    cpu.status.set_carry(carry);
    cpu.status.set_zero(result == 0);
    cpu.status.set_negative(result >= 0x80);
}

/// ADC: adds the operand and the carry flag to the accumulator.
pub fn adc_1(cpu: &mut CPU)
    ensures
        final(cpu)@ == old(cpu)@.adc(),
{
    let carry_in: u8 = if cpu.status.carry() {
        1
    } else {
        0
    };
    // the carry into bit 7 against the carry out of it tells a signed overflow
    let low: u8 = (cpu.reg_a % 0x80) + (cpu.value % 0x80) + carry_in;
    let carry_6: bool = low >= 0x80;
    let sum: u16 = cpu.reg_a as u16 + cpu.value as u16 + carry_in as u16;
    let carry_out: bool = sum > 0xFF;
    let result: u8 = if carry_out {
        (sum - 0x100) as u8
    } else {
        sum as u8
    };
    proof {
        lemma_signed_sum(cpu.reg_a, cpu.value, carry_in as int);
    }
    cpu.status.set_carry(carry_out);
    cpu.status.set_zero(result == 0);
    cpu.status.set_overflow(carry_6 != carry_out);
    cpu.status.set_negative(result >= 0x80);
    cpu.reg_a = result;
}

/// AND: the accumulator keeps the bits that the operand has too.
pub fn and_1(cpu: &mut CPU)
    ensures
        final(cpu)@ == old(cpu)@.load_a(old(cpu).reg_a & old(cpu).value),
{
    let anded = cpu.reg_a & cpu.value;
    set_register_with_flags(&mut cpu.reg_a, &mut cpu.status, anded);
}

/// ASL: shifts the accumulator or the operand in memory left by one bit.
pub fn asl_1(cpu: &mut CPU)
    requires
        old(cpu)@.can_apply(MicroOp::Asl1),
    ensures
        final(cpu)@ == old(cpu)@.asl(),
{
    let source = shift_source(cpu);
    put_shifted(cpu, (source % 0x80) * 2, source >= 0x80);
}

/// BCC: branches if the carry flag is clear.
pub fn bcc_1(cpu: &mut CPU)
    ensures
        final(cpu)@ == old(cpu)@.branch(!old(cpu).status.flag(CARRY)),
{
    if !cpu.status.carry() {
        handle_successful_branching(cpu);
    }
}

/// BCS: branches if the carry flag is set.
pub fn bcs_1(cpu: &mut CPU)
    ensures
        final(cpu)@ == old(cpu)@.branch(old(cpu).status.flag(CARRY)),
{
    if cpu.status.carry() {
        handle_successful_branching(cpu);
    }
}

/// BEQ: branches if the zero flag is set.
pub fn beq_1(cpu: &mut CPU)
    ensures
        final(cpu)@ == old(cpu)@.branch(old(cpu).status.flag(ZERO)),
{
    if cpu.status.zero() {
        handle_successful_branching(cpu);
    }
}

/// BIT: tests the operand against the accumulator.
pub fn bit_1(cpu: &mut CPU)
    ensures
        final(cpu)@ == old(cpu)@.bit_test(),
{
    cpu.status.set_zero(cpu.reg_a & cpu.value == 0);
    cpu.status.set_overflow(cpu.value & 0x40 != 0);
    cpu.status.set_negative(cpu.value & 0x80 != 0);
}

/// BMI: branches if the negative flag is set.
pub fn bmi_1(cpu: &mut CPU)
    ensures
        final(cpu)@ == old(cpu)@.branch(old(cpu).status.flag(NEGATIVE)),
{
    if cpu.status.negative() {
        handle_successful_branching(cpu);
    }
}

/// BNE: branches if the zero flag is clear.
pub fn bne_1(cpu: &mut CPU)
    ensures
        final(cpu)@ == old(cpu)@.branch(!old(cpu).status.flag(ZERO)),
{
    if !cpu.status.zero() {
        handle_successful_branching(cpu);
    }
}

/// BPL: branches if the negative flag is clear.
pub fn bpl_1(cpu: &mut CPU)
    ensures
        final(cpu)@ == old(cpu)@.branch(!old(cpu).status.flag(NEGATIVE)),
{
    if !cpu.status.negative() {
        handle_successful_branching(cpu);
    }
}

/// BRK, first step: sets the break mark and pushes the high byte of the
/// program counter.
pub fn brk_1(cpu: &mut CPU)
    requires
        old(cpu)@.can_apply(MicroOp::Brk1),
    ensures
        final(cpu)@ == old(cpu)@.with_flag(BREAK, true).push(high_byte(old(cpu).reg_pc)),
{
    cpu.status.set_b(true);
    cpu.push_to_stack(get_msb(cpu.reg_pc));
}

/// BRK, second step: pushes the low byte of the program counter.
pub fn brk_2(cpu: &mut CPU)
    requires
        old(cpu)@.can_apply(MicroOp::Brk2),
    ensures
        final(cpu)@ == old(cpu)@.push(low_byte(old(cpu).reg_pc)),
{
    cpu.push_to_stack(get_lsb(cpu.reg_pc));
}

/// BRK, third step: pushes the status register, break mark and reserved bit
/// set.
pub fn brk_3(cpu: &mut CPU)
    requires
        old(cpu)@.can_apply(MicroOp::Brk3),
    ensures
        final(cpu)@ == old(cpu)@.push(old(cpu).status.pushed()),
{
    cpu.push_to_stack(cpu.status.to_pushed());
}

/// BRK, last step: the program counter takes the interrupt vector.
pub fn brk_4(cpu: &mut CPU)
    requires
        old(cpu)@.can_apply(MicroOp::Brk4),
    ensures
        final(cpu)@ == (CpuView { reg_pc: old(cpu)@.ic.read_word(IRQ_VECTOR_ADDR), ..old(cpu)@ }),
{
    cpu.reg_pc = cpu.ic.read_mem_word(IRQ_VECTOR_ADDR);
}

/// BVC: branches if the overflow flag is clear.
pub fn bvc_1(cpu: &mut CPU)
    ensures
        final(cpu)@ == old(cpu)@.branch(!old(cpu).status.flag(OVERFLOW)),
{
    if !cpu.status.overflow() {
        handle_successful_branching(cpu);
    }
}

/// BVS: branches if the overflow flag is set.
pub fn bvs_1(cpu: &mut CPU)
    ensures
        final(cpu)@ == old(cpu)@.branch(old(cpu).status.flag(OVERFLOW)),
{
    if cpu.status.overflow() {
        handle_successful_branching(cpu);
    }
}

/// CLC: clears the carry flag.
pub fn clc_1(cpu: &mut CPU)
    ensures
        final(cpu)@ == old(cpu)@.with_flag(CARRY, false),
{
    cpu.status.set_carry(false);
}

/// CLD: clears the decimal flag.
pub fn cld_1(cpu: &mut CPU)
    ensures
        final(cpu)@ == old(cpu)@.with_flag(DECIMAL, false),
{
    cpu.status.set_decimal(false);
}

/// CLI: clears the interrupt-disable flag.
pub fn cli_1(cpu: &mut CPU)
    ensures
        final(cpu)@ == old(cpu)@.with_flag(INTERRUPT_DISABLE, false),
{
    cpu.status.set_interrupt_disable(false);
}

/// CLV: clears the overflow flag.
pub fn clv_1(cpu: &mut CPU)
    ensures
        final(cpu)@ == old(cpu)@.with_flag(OVERFLOW, false),
{
    cpu.status.set_overflow(false);
}

/// CMP: compares the accumulator with the operand.
pub fn cmp_1(cpu: &mut CPU)
    ensures
        final(cpu)@ == old(cpu)@.compare(old(cpu).reg_a),
{
    let res = cpu.reg_a.wrapping_sub(cpu.value);
    cpu.status.set_carry(cpu.reg_a >= cpu.value);
    cpu.status.set_zero(res == 0);
    cpu.status.set_negative(res >= 0x80);
}

/// CPX: compares the X register with the operand.
pub fn cpx_1(cpu: &mut CPU)
    ensures
        final(cpu)@ == old(cpu)@.compare(old(cpu).reg_x),
{
    let res = cpu.reg_x.wrapping_sub(cpu.value);
    cpu.status.set_carry(cpu.reg_x >= cpu.value);
    cpu.status.set_zero(res == 0);
    cpu.status.set_negative(res >= 0x80);
}

/// CPY: compares the Y register with the operand.
pub fn cpy_1(cpu: &mut CPU)
    ensures
        final(cpu)@ == old(cpu)@.compare(old(cpu).reg_y),
{
    let res = cpu.reg_y.wrapping_sub(cpu.value);
    cpu.status.set_carry(cpu.reg_y >= cpu.value);
    cpu.status.set_zero(res == 0);
    cpu.status.set_negative(res >= 0x80);
}

/// DEC, first step: writes the operand back as it is.
pub fn dec_1(cpu: &mut CPU)
    requires
        old(cpu)@.can_apply(MicroOp::Dec1),
    ensures
        final(cpu)@ == old(cpu)@.write_back(),
{
    cpu.ic.write_mem(cpu.addr, cpu.value);
}

/// DEC, second step: writes the operand less one.
pub fn dec_2(cpu: &mut CPU)
    requires
        old(cpu)@.can_apply(MicroOp::Dec2),
    ensures
        final(cpu)@ == old(cpu)@.write_changed(-1),
{
    let sub = cpu.value.wrapping_sub(1);
    cpu.ic.write_mem(cpu.addr, sub);
    cpu.status.set_zero(sub == 0);
    cpu.status.set_negative(sub >= 0x80);
}

/// DEX: the X register less one.
pub fn dex_1(cpu: &mut CPU)
    ensures
        final(cpu)@ == old(cpu)@.load_x(wrap8(old(cpu).reg_x - 1)),
{
    let changed = cpu.reg_x.wrapping_sub(1);
    set_register_with_flags(&mut cpu.reg_x, &mut cpu.status, changed);
}

/// DEY: the Y register less one.
pub fn dey_1(cpu: &mut CPU)
    ensures
        final(cpu)@ == old(cpu)@.load_y(wrap8(old(cpu).reg_y - 1)),
{
    let changed = cpu.reg_y.wrapping_sub(1);
    set_register_with_flags(&mut cpu.reg_y, &mut cpu.status, changed);
}

/// EOR: the accumulator keeps the bits in which it differs from the operand.
pub fn eor_1(cpu: &mut CPU)
    ensures
        final(cpu)@ == old(cpu)@.load_a(old(cpu).reg_a ^ old(cpu).value),
{
    let eorred = cpu.reg_a ^ cpu.value;
    set_register_with_flags(&mut cpu.reg_a, &mut cpu.status, eorred);
}

/// INC, first step: writes the operand back as it is.
pub fn inc_1(cpu: &mut CPU)
    requires
        old(cpu)@.can_apply(MicroOp::Inc1),
    ensures
        final(cpu)@ == old(cpu)@.write_back(),
{
    cpu.ic.write_mem(cpu.addr, cpu.value);
}

/// INC, second step: writes the operand plus one.
pub fn inc_2(cpu: &mut CPU)
    requires
        old(cpu)@.can_apply(MicroOp::Inc2),
    ensures
        final(cpu)@ == old(cpu)@.write_changed(1),
{
    let inc = cpu.value.wrapping_add(1);
    cpu.ic.write_mem(cpu.addr, inc);
    cpu.status.set_zero(inc == 0);
    cpu.status.set_negative(inc >= 0x80);
}

/// INX: the X register plus one.
pub fn inx_1(cpu: &mut CPU)
    ensures
        final(cpu)@ == old(cpu)@.load_x(wrap8(old(cpu).reg_x + 1)),
{
    let changed = cpu.reg_x.wrapping_add(1);
    set_register_with_flags(&mut cpu.reg_x, &mut cpu.status, changed);
}

/// INY: the Y register plus one.
pub fn iny_1(cpu: &mut CPU)
    ensures
        final(cpu)@ == old(cpu)@.load_y(wrap8(old(cpu).reg_y + 1)),
{
    let changed = cpu.reg_y.wrapping_add(1);
    set_register_with_flags(&mut cpu.reg_y, &mut cpu.status, changed);
}

/// JMP: the program counter takes the effective address.
pub fn jmp_1(cpu: &mut CPU)
    ensures
        final(cpu)@ == (CpuView { reg_pc: old(cpu).addr, ..old(cpu)@ }),
{
    cpu.reg_pc = cpu.addr;
}

/// JSR, first step: pushes the high byte of the address of the instruction's
/// last byte.
pub fn jsr_1(cpu: &mut CPU)
    requires
        old(cpu)@.can_apply(MicroOp::Jsr1),
    ensures
        final(cpu)@ == old(cpu)@.push(high_byte(wrap16(old(cpu).reg_pc - 1))),
{
    cpu.push_to_stack(get_msb(cpu.reg_pc.wrapping_sub(1)));
}

/// JSR, second step: pushes the low byte of that address and jumps.
pub fn jsr_2(cpu: &mut CPU)
    requires
        old(cpu)@.can_apply(MicroOp::Jsr2),
    ensures
        final(cpu)@ == (CpuView {
            reg_pc: old(cpu).addr,
            ..old(cpu)@.push(low_byte(wrap16(old(cpu).reg_pc - 1)))
        }),
{
    cpu.push_to_stack(get_lsb(cpu.reg_pc.wrapping_sub(1)));
    cpu.reg_pc = cpu.addr;
}

/// LDA: the accumulator takes the operand.
pub fn lda_1(cpu: &mut CPU)
    ensures
        final(cpu)@ == old(cpu)@.load_a(old(cpu).value),
{
    let value = cpu.value;
    set_register_with_flags(&mut cpu.reg_a, &mut cpu.status, value);
}

/// LDX: the X register takes the operand.
pub fn ldx_1(cpu: &mut CPU)
    ensures
        final(cpu)@ == old(cpu)@.load_x(old(cpu).value),
{
    let value = cpu.value;
    set_register_with_flags(&mut cpu.reg_x, &mut cpu.status, value);
}

/// LDY: the Y register takes the operand.
pub fn ldy_1(cpu: &mut CPU)
    ensures
        final(cpu)@ == old(cpu)@.load_y(old(cpu).value),
{
    let value = cpu.value;
    set_register_with_flags(&mut cpu.reg_y, &mut cpu.status, value);
}

/// LSR: shifts the accumulator or the operand in memory right by one bit.
pub fn lsr_1(cpu: &mut CPU)
    requires
        old(cpu)@.can_apply(MicroOp::Lsr1),
    ensures
        final(cpu)@ == old(cpu)@.lsr(),
{
    let source = shift_source(cpu);
    put_shifted(cpu, source / 2, source % 2 == 1);
}

/// An idle cycle: nothing changes.
pub fn nop(cpu: &mut CPU)
    ensures
        final(cpu)@ == old(cpu)@,
{
}

/// ORA: the accumulator takes the bits of the operand too.
pub fn ora_1(cpu: &mut CPU)
    ensures
        final(cpu)@ == old(cpu)@.load_a(old(cpu).reg_a | old(cpu).value),
{
    let orred = cpu.reg_a | cpu.value;
    set_register_with_flags(&mut cpu.reg_a, &mut cpu.status, orred);
}

/// PHA: pushes the accumulator.
pub fn pha_1(cpu: &mut CPU)
    requires
        old(cpu)@.can_apply(MicroOp::Pha1),
    ensures
        final(cpu)@ == old(cpu)@.push(old(cpu).reg_a),
{
    cpu.push_to_stack(cpu.reg_a);
}

/// PHP: pushes the status register, break mark and reserved bit set.
pub fn php_1(cpu: &mut CPU)
    requires
        old(cpu)@.can_apply(MicroOp::Php1),
    ensures
        final(cpu)@ == old(cpu)@.push(old(cpu).status.pushed()),
{
    cpu.push_to_stack(cpu.status.to_pushed());
}

/// PLA: pulls the accumulator.
pub fn pla_1(cpu: &mut CPU)
    requires
        old(cpu)@.can_apply(MicroOp::Pla1),
    ensures
        final(cpu)@ == old(cpu)@.pull().load_a(old(cpu)@.pulled()),
{
    let s = cpu.pull_from_stack();
    set_register_with_flags(&mut cpu.reg_a, &mut cpu.status, s);
}

/// PLP: pulls the status register; the break mark comes back clear, the
/// reserved bit set.
pub fn plp_1(cpu: &mut CPU)
    requires
        old(cpu)@.can_apply(MicroOp::Plp1),
    ensures
        final(cpu)@ == (CpuView { status: Status::pulled(old(cpu)@.pulled()), ..old(cpu)@.pull() }),
{
    let s = cpu.pull_from_stack();
    cpu.status = Status::from_pulled(s);
}

/// ROL: rotates the accumulator or the operand in memory left through the
/// carry flag.
pub fn rol_1(cpu: &mut CPU)
    requires
        old(cpu)@.can_apply(MicroOp::Rol1),
    ensures
        final(cpu)@ == old(cpu)@.rol(),
{
    let source = shift_source(cpu);
    let carry_in: u8 = if cpu.status.carry() {
        1
    } else {
        0
    };
    put_shifted(cpu, (source % 0x80) * 2 + carry_in, source >= 0x80);
}

/// ROR: rotates the accumulator or the operand in memory right through the
/// carry flag.
pub fn ror_1(cpu: &mut CPU)
    requires
        old(cpu)@.can_apply(MicroOp::Ror1),
    ensures
        final(cpu)@ == old(cpu)@.ror(),
{
    let source = shift_source(cpu);
    let carry_in: u8 = if cpu.status.carry() {
        0x80
    } else {
        0
    };
    put_shifted(cpu, source / 2 + carry_in, source % 2 == 1);
}

/// RTI, first step: pulls the status register; the break mark comes back
/// clear, the reserved bit set.
pub fn rti_1(cpu: &mut CPU)
    requires
        old(cpu)@.can_apply(MicroOp::Rti1),
    ensures
        final(cpu)@ == (CpuView { status: Status::pulled(old(cpu)@.pulled()), ..old(cpu)@.pull() }),
{
    let s = cpu.pull_from_stack();
    cpu.status = Status::from_pulled(s);
}

/// RTI, second step: pulls the low byte of the program counter.
pub fn rti_2(cpu: &mut CPU)
    requires
        old(cpu)@.can_apply(MicroOp::Rti2),
    ensures
        final(cpu)@ == (CpuView { reg_pc: old(cpu)@.pulled() as u16, ..old(cpu)@.pull() }),
{
    let lsb = cpu.pull_from_stack();
    cpu.reg_pc = lsb as u16;
}

/// RTI, last step: pulls the high byte of the program counter.
pub fn rti_3(cpu: &mut CPU)
    requires
        old(cpu)@.can_apply(MicroOp::Rti3),
    ensures
        final(cpu)@ == (CpuView {
            reg_pc: word_of(old(cpu)@.pulled(), low_byte(old(cpu).reg_pc)),
            ..old(cpu)@.pull()
        }),
{
    let msb = cpu.pull_from_stack();
    cpu.reg_pc = build_u16(msb, get_lsb(cpu.reg_pc));
}

/// RTS, first step: pulls the low byte of the return address.
pub fn rts_1(cpu: &mut CPU)
    requires
        old(cpu)@.can_apply(MicroOp::Rts1),
    ensures
        final(cpu)@ == (CpuView { reg_pc: old(cpu)@.pulled() as u16, ..old(cpu)@.pull() }),
{
    let lsb = cpu.pull_from_stack();
    cpu.reg_pc = lsb as u16;
}

/// RTS, second step: pulls the high byte of the return address and goes to
/// the byte after it.
pub fn rts_2(cpu: &mut CPU)
    requires
        old(cpu)@.can_apply(MicroOp::Rts2),
    ensures
        final(cpu)@ == (CpuView {
            reg_pc: wrap16(old(cpu).reg_pc + old(cpu)@.pulled() * 0x100 + 1),
            ..old(cpu)@.pull()
        }),
{
    let msb = cpu.pull_from_stack();
    cpu.reg_pc = cpu.reg_pc.wrapping_add(build_u16(msb, 0)).wrapping_add(1);
}

/// SBC: takes the operand, and one more if the carry flag is clear, from the
/// accumulator.
pub fn sbc_1(cpu: &mut CPU)
    ensures
        final(cpu)@ == old(cpu)@.sbc(),
{
    let borrow_in: u8 = if cpu.status.carry() {
        0
    } else {
        1
    };
    // the borrow into bit 7 against the borrow out of it tells a signed overflow
    let borrow_6: bool = cpu.reg_a % 0x80 < (cpu.value % 0x80) + borrow_in;
    let borrow_out: bool = (cpu.reg_a as u16) < cpu.value as u16 + borrow_in as u16;
    let result: u8 = cpu.reg_a.wrapping_sub(cpu.value).wrapping_sub(borrow_in);
    proof {
        lemma_signed_difference(cpu.reg_a, cpu.value, borrow_in as int);
    }
    cpu.status.set_carry(!borrow_out);
    cpu.status.set_zero(result == 0);
    cpu.status.set_overflow(borrow_6 != borrow_out);
    cpu.status.set_negative(result >= 0x80);
    cpu.reg_a = result;
}

/// SEC: sets the carry flag.
pub fn sec_1(cpu: &mut CPU)
    ensures
        final(cpu)@ == old(cpu)@.with_flag(CARRY, true),
{
    cpu.status.set_carry(true);
}

/// SED: sets the decimal flag.
pub fn sed_1(cpu: &mut CPU)
    ensures
        final(cpu)@ == old(cpu)@.with_flag(DECIMAL, true),
{
    cpu.status.set_decimal(true);
}

/// SEI: sets the interrupt-disable flag.
pub fn sei_1(cpu: &mut CPU)
    ensures
        final(cpu)@ == old(cpu)@.with_flag(INTERRUPT_DISABLE, true),
{
    cpu.status.set_interrupt_disable(true);
}

/// TAX: the X register takes the accumulator.
pub fn tax_1(cpu: &mut CPU)
    ensures
        final(cpu)@ == old(cpu)@.load_x(old(cpu).reg_a),
{
    let value = cpu.reg_a;
    set_register_with_flags(&mut cpu.reg_x, &mut cpu.status, value);
}

/// TAY: the Y register takes the accumulator.
pub fn tay_1(cpu: &mut CPU)
    ensures
        final(cpu)@ == old(cpu)@.load_y(old(cpu).reg_a),
{
    let value = cpu.reg_a;
    set_register_with_flags(&mut cpu.reg_y, &mut cpu.status, value);
}

/// TSX: the X register takes the stack pointer.
pub fn tsx_1(cpu: &mut CPU)
    ensures
        final(cpu)@ == old(cpu)@.load_x(old(cpu).reg_s),
{
    let value = cpu.reg_s;
    set_register_with_flags(&mut cpu.reg_x, &mut cpu.status, value);
}

/// TXA: the accumulator takes the X register.
pub fn txa_1(cpu: &mut CPU)
    ensures
        final(cpu)@ == old(cpu)@.load_a(old(cpu).reg_x),
{
    let value = cpu.reg_x;
    set_register_with_flags(&mut cpu.reg_a, &mut cpu.status, value);
}

/// TXS: the stack pointer takes the X register.
pub fn txs_1(cpu: &mut CPU)
    ensures
        final(cpu)@ == old(cpu)@.load_s(old(cpu).reg_x),
{
    let value = cpu.reg_x;
    set_register_with_flags(&mut cpu.reg_s, &mut cpu.status, value);
}

/// TYA: the accumulator takes the Y register.
pub fn tya_1(cpu: &mut CPU)
    ensures
        final(cpu)@ == old(cpu)@.load_a(old(cpu).reg_y),
{
    let value = cpu.reg_y;
    set_register_with_flags(&mut cpu.reg_a, &mut cpu.status, value);
}

/// Runs one step.
pub fn run_micro_op(cpu: &mut CPU, op: MicroOp)
    requires
        old(cpu)@.can_apply(op),
    ensures
        final(cpu)@ == old(cpu)@.apply(op),
{
    reveal(CpuView::apply);
    match op {
        MicroOp::ReadMem => crate::instructions::addressing::read_mem(cpu),
        MicroOp::WriteMem => crate::instructions::addressing::write_mem(cpu),
        MicroOp::Adc1 => adc_1(cpu),
        MicroOp::And1 => and_1(cpu),
        MicroOp::Asl1 => asl_1(cpu),
        MicroOp::Bcc1 => bcc_1(cpu),
        MicroOp::Bcs1 => bcs_1(cpu),
        MicroOp::Beq1 => beq_1(cpu),
        MicroOp::Bit1 => bit_1(cpu),
        MicroOp::Bmi1 => bmi_1(cpu),
        MicroOp::Bne1 => bne_1(cpu),
        MicroOp::Bpl1 => bpl_1(cpu),
        MicroOp::Brk1 => brk_1(cpu),
        MicroOp::Brk2 => brk_2(cpu),
        MicroOp::Brk3 => brk_3(cpu),
        MicroOp::Brk4 => brk_4(cpu),
        MicroOp::Bvc1 => bvc_1(cpu),
        MicroOp::Bvs1 => bvs_1(cpu),
        MicroOp::Clc1 => clc_1(cpu),
        MicroOp::Cld1 => cld_1(cpu),
        MicroOp::Cli1 => cli_1(cpu),
        MicroOp::Clv1 => clv_1(cpu),
        MicroOp::Cmp1 => cmp_1(cpu),
        MicroOp::Cpx1 => cpx_1(cpu),
        MicroOp::Cpy1 => cpy_1(cpu),
        MicroOp::Dec1 => dec_1(cpu),
        MicroOp::Dec2 => dec_2(cpu),
        MicroOp::Dex1 => dex_1(cpu),
        MicroOp::Dey1 => dey_1(cpu),
        MicroOp::Eor1 => eor_1(cpu),
        MicroOp::Inc1 => inc_1(cpu),
        MicroOp::Inc2 => inc_2(cpu),
        MicroOp::Inx1 => inx_1(cpu),
        MicroOp::Iny1 => iny_1(cpu),
        MicroOp::Jmp1 => jmp_1(cpu),
        MicroOp::Jsr1 => jsr_1(cpu),
        MicroOp::Jsr2 => jsr_2(cpu),
        MicroOp::Lda1 => lda_1(cpu),
        MicroOp::Ldx1 => ldx_1(cpu),
        MicroOp::Ldy1 => ldy_1(cpu),
        MicroOp::Lsr1 => lsr_1(cpu),
        MicroOp::Nop => nop(cpu),
        MicroOp::Ora1 => ora_1(cpu),
        MicroOp::Pha1 => pha_1(cpu),
        MicroOp::Php1 => php_1(cpu),
        MicroOp::Pla1 => pla_1(cpu),
        MicroOp::Plp1 => plp_1(cpu),
        MicroOp::Rol1 => rol_1(cpu),
        MicroOp::Ror1 => ror_1(cpu),
        MicroOp::Rti1 => rti_1(cpu),
        MicroOp::Rti2 => rti_2(cpu),
        MicroOp::Rti3 => rti_3(cpu),
        MicroOp::Rts1 => rts_1(cpu),
        MicroOp::Rts2 => rts_2(cpu),
        MicroOp::Sbc1 => sbc_1(cpu),
        MicroOp::Sec1 => sec_1(cpu),
        MicroOp::Sed1 => sed_1(cpu),
        MicroOp::Sei1 => sei_1(cpu),
        MicroOp::Tax1 => tax_1(cpu),
        MicroOp::Tay1 => tay_1(cpu),
        MicroOp::Tsx1 => tsx_1(cpu),
        MicroOp::Txa1 => txa_1(cpu),
        MicroOp::Txs1 => txs_1(cpu),
        MicroOp::Tya1 => tya_1(cpu),
    }
}

} // verus!
