use nesty::cpu::{Status, CPU};
use nesty::instructions::addressing::{queue_push_memory_op, read_mem, write_mem, MemoryOp};
use nesty::instructions::logic::{
    adc_1, and_1, asl_1, bcc_1, bcs_1, beq_1, bit_1, bmi_1, bne_1, bpl_1, brk_1, brk_2, brk_3,
    brk_4, bvc_1, bvs_1, clc_1, cld_1, cli_1, clv_1, cmp_1, cpx_1, cpy_1, dec_1, dec_2, dex_1,
    dey_1, eor_1, inc_1, inc_2, inx_1, iny_1, jmp_1, jsr_1, jsr_2, lda_1, ldx_1, ldy_1, lsr_1,
    nop, ora_1, pha_1, php_1, pla_1, plp_1, rol_1, ror_1, rti_1, rti_2, rti_3, rts_1, rts_2,
    run_micro_op, sbc_1, sec_1, sed_1, sei_1, tax_1, tay_1, tsx_1, txa_1, txs_1, tya_1, MicroOp,
};
use nesty::instructions::{AddressingMode, Instruction, InstructionType};
use nesty::nes::Powerable;

fn powered_cpu() -> CPU {
    let mut cpu = CPU::default();
    cpu.power_on();
    cpu
}

fn in_flight(cpu: &mut CPU, inst_type: InstructionType, addr_mode: AddressingMode, operands: &[u8]) {
    cpu.curr_inst = Some(Instruction { inst_type, addr_mode });
    cpu.operands = operands.to_vec();
    cpu.num_operands = operands.len();
}

fn flags(cpu: &CPU) -> (bool, bool, bool, bool) {
    (cpu.status.carry(), cpu.status.zero(), cpu.status.overflow(), cpu.status.negative())
}

#[test]
fn adc_of_0x50_and_0x50_overflows() {
    let mut cpu = powered_cpu();
    cpu.reg_a = 0x50;
    cpu.value = 0x50;
    cpu.status.set_carry(false);
    adc_1(&mut cpu);
    assert_eq!(cpu.reg_a, 0xA0);
    assert_eq!(cpu.status.overflow(), true);
    assert_eq!(cpu.status.negative(), true);
    assert_eq!(cpu.status.carry(), false);
    assert_eq!(cpu.status.zero(), false);
}

#[test]
fn adc_cases() {
    // (a, operand, carry in) -> (result, carry, zero, overflow, negative)
    let cases = [
        (0x00u8, 0x00u8, false, 0x00u8, false, true, false, false),
        (0x01, 0x01, true, 0x03, false, false, false, false),
        (0xFF, 0x01, false, 0x00, true, true, false, false),
        (0x7F, 0x01, false, 0x80, false, false, true, true),
        (0x80, 0x80, false, 0x00, true, true, true, false),
        (0x80, 0xFF, false, 0x7F, true, false, true, false),
        (0xD0, 0x90, false, 0x60, true, false, true, false),
        (0x50, 0xD0, false, 0x20, true, false, false, false),
        (0x7F, 0x7F, true, 0xFF, false, false, true, true),
        (0xFF, 0xFF, true, 0xFF, true, false, false, true),
        (0x05, 0x03, false, 0x08, false, false, false, false),
    ];
    for (a, operand, carry_in, result, carry, zero, overflow, negative) in cases {
        let mut cpu = powered_cpu();
        cpu.reg_a = a;
        cpu.value = operand;
        cpu.status.set_carry(carry_in);
        adc_1(&mut cpu);
        assert_eq!(cpu.reg_a, result, "{:#04X} + {:#04X}", a, operand);
        assert_eq!(flags(&cpu), (carry, zero, overflow, negative), "{:#04X} + {:#04X}", a, operand);
    }
}

#[test]
fn adc_ignores_decimal_mode() {
    let mut cpu = powered_cpu();
    cpu.status.set_decimal(true);
    cpu.reg_a = 0x09;
    cpu.value = 0x01;
    adc_1(&mut cpu);
    assert_eq!(cpu.reg_a, 0x0A);
    assert!(cpu.status.decimal());
}

#[test]
fn sbc_cases() {
    // (a, operand, carry in) -> (result, carry, zero, overflow, negative)
    let cases = [
        (0x50u8, 0xF0u8, true, 0x60u8, false, false, false, false),
        (0x50, 0xB0, true, 0xA0, false, false, true, true),
        (0x50, 0x70, true, 0xE0, false, false, false, true),
        (0x50, 0x30, true, 0x20, true, false, false, false),
        (0xD0, 0x70, true, 0x60, true, false, true, false),
        (0x05, 0x05, true, 0x00, true, true, false, false),
        (0x05, 0x05, false, 0xFF, false, false, false, true),
        (0x00, 0x00, false, 0xFF, false, false, false, true),
        (0x80, 0x00, false, 0x7F, true, false, true, false),
        (0x00, 0xFF, false, 0x00, false, true, false, false),
    ];
    for (a, operand, carry_in, result, carry, zero, overflow, negative) in cases {
        let mut cpu = powered_cpu();
        cpu.reg_a = a;
        cpu.value = operand;
        cpu.status.set_carry(carry_in);
        sbc_1(&mut cpu);
        assert_eq!(cpu.reg_a, result, "{:#04X} - {:#04X}", a, operand);
        assert_eq!(flags(&cpu), (carry, zero, overflow, negative), "{:#04X} - {:#04X}", a, operand);
    }
}

#[test]
fn cmp_of_0x10_and_0x20() {
    let mut cpu = powered_cpu();
    cpu.reg_a = 0x10;
    cpu.value = 0x20;
    cmp_1(&mut cpu);
    assert_eq!(cpu.status.carry(), false);
    assert_eq!(cpu.status.zero(), false);
    assert_eq!(cpu.status.negative(), true);
    assert_eq!(cpu.reg_a, 0x10);
}

#[test]
fn compares_of_each_register() {
    let mut cpu = powered_cpu();
    cpu.reg_a = 0x20;
    cpu.reg_x = 0x30;
    cpu.reg_y = 0x00;
    cpu.value = 0x20;
    cmp_1(&mut cpu);
    assert_eq!((cpu.status.carry(), cpu.status.zero(), cpu.status.negative()), (true, true, false));
    cpx_1(&mut cpu);
    assert_eq!((cpu.status.carry(), cpu.status.zero(), cpu.status.negative()), (true, false, false));
    cpy_1(&mut cpu);
    assert_eq!((cpu.status.carry(), cpu.status.zero(), cpu.status.negative()), (false, false, true));
    assert_eq!((cpu.reg_a, cpu.reg_x, cpu.reg_y), (0x20, 0x30, 0x00));
}

#[test]
fn logic_on_the_accumulator() {
    let mut cpu = powered_cpu();
    cpu.reg_a = 0b1100_1100;
    cpu.value = 0b1010_1010;
    and_1(&mut cpu);
    assert_eq!(cpu.reg_a, 0b1000_1000);
    assert_eq!((cpu.status.zero(), cpu.status.negative()), (false, true));
    cpu.value = 0b0111_0111;
    and_1(&mut cpu);
    assert_eq!(cpu.reg_a, 0);
    assert_eq!((cpu.status.zero(), cpu.status.negative()), (true, false));
    cpu.value = 0b0000_1111;
    ora_1(&mut cpu);
    assert_eq!(cpu.reg_a, 0b0000_1111);
    assert_eq!((cpu.status.zero(), cpu.status.negative()), (false, false));
    cpu.value = 0b1111_1111;
    eor_1(&mut cpu);
    assert_eq!(cpu.reg_a, 0b1111_0000);
    assert_eq!((cpu.status.zero(), cpu.status.negative()), (false, true));
}

#[test]
fn bit_tests_the_operand() {
    let mut cpu = powered_cpu();
    cpu.reg_a = 0x0F;
    cpu.value = 0xF0;
    bit_1(&mut cpu);
    assert_eq!((cpu.status.zero(), cpu.status.overflow(), cpu.status.negative()), (true, true, true));
    cpu.value = 0x41;
    bit_1(&mut cpu);
    assert_eq!((cpu.status.zero(), cpu.status.overflow(), cpu.status.negative()), (false, true, false));
    cpu.value = 0x81;
    bit_1(&mut cpu);
    assert_eq!((cpu.status.zero(), cpu.status.overflow(), cpu.status.negative()), (false, false, true));
    assert_eq!(cpu.reg_a, 0x0F);
}

#[test]
fn shifts_on_the_accumulator() {
    let mut cpu = powered_cpu();
    in_flight(&mut cpu, InstructionType::ASL, AddressingMode::Accumulator, &[]);
    cpu.reg_a = 0b1000_0001;
    asl_1(&mut cpu);
    assert_eq!(cpu.reg_a, 0b0000_0010);
    assert_eq!((cpu.status.carry(), cpu.status.zero(), cpu.status.negative()), (true, false, false));
    cpu.reg_a = 0b0000_0001;
    lsr_1(&mut cpu);
    assert_eq!(cpu.reg_a, 0);
    assert_eq!((cpu.status.carry(), cpu.status.zero(), cpu.status.negative()), (true, true, false));
    cpu.reg_a = 0b0100_0000;
    rol_1(&mut cpu);
    assert_eq!(cpu.reg_a, 0b1000_0001);
    assert_eq!((cpu.status.carry(), cpu.status.zero(), cpu.status.negative()), (false, false, true));
    cpu.status.set_carry(true);
    cpu.reg_a = 0b0000_0010;
    ror_1(&mut cpu);
    assert_eq!(cpu.reg_a, 0b1000_0001);
    assert_eq!((cpu.status.carry(), cpu.status.zero(), cpu.status.negative()), (false, false, true));
    ror_1(&mut cpu);
    assert_eq!(cpu.reg_a, 0b0100_0000);
    assert_eq!((cpu.status.carry(), cpu.status.zero(), cpu.status.negative()), (true, false, false));
}

#[test]
fn shifts_in_memory_write_back() {
    let mut cpu = powered_cpu();
    in_flight(&mut cpu, InstructionType::ASL, AddressingMode::ZeroPage, &[0x10]);
    cpu.addr = 0x0010;
    cpu.reg_a = 0x55;
    cpu.value = 0b1000_0000;
    asl_1(&mut cpu);
    assert_eq!(cpu.ic.read_mem(0x0010), 0);
    // the flags follow the result, not the accumulator
    assert_eq!((cpu.status.carry(), cpu.status.zero(), cpu.status.negative()), (true, true, false));
    assert_eq!(cpu.reg_a, 0x55);
    cpu.value = 0b0000_0011;
    lsr_1(&mut cpu);
    assert_eq!(cpu.ic.read_mem(0x0010), 0b0000_0001);
    assert_eq!((cpu.status.carry(), cpu.status.zero(), cpu.status.negative()), (true, false, false));
    cpu.value = 0b0100_0000;
    rol_1(&mut cpu);
    assert_eq!(cpu.ic.read_mem(0x0010), 0b1000_0001);
    assert_eq!((cpu.status.carry(), cpu.status.zero(), cpu.status.negative()), (false, false, true));
    cpu.value = 0b0000_0001;
    ror_1(&mut cpu);
    assert_eq!(cpu.ic.read_mem(0x0010), 0);
    assert_eq!((cpu.status.carry(), cpu.status.zero(), cpu.status.negative()), (true, true, false));
    assert_eq!(cpu.reg_a, 0x55);
}

#[test]
fn loads_and_transfers_set_zero_and_negative() {
    let mut cpu = powered_cpu();
    cpu.value = 0x80;
    lda_1(&mut cpu);
    assert_eq!(cpu.reg_a, 0x80);
    assert_eq!((cpu.status.zero(), cpu.status.negative()), (false, true));
    cpu.value = 0x00;
    ldx_1(&mut cpu);
    assert_eq!(cpu.reg_x, 0x00);
    assert_eq!((cpu.status.zero(), cpu.status.negative()), (true, false));
    cpu.value = 0x7F;
    ldy_1(&mut cpu);
    assert_eq!(cpu.reg_y, 0x7F);
    assert_eq!((cpu.status.zero(), cpu.status.negative()), (false, false));
    tax_1(&mut cpu);
    assert_eq!(cpu.reg_x, 0x80);
    assert_eq!(cpu.status.negative(), true);
    cpu.reg_a = 0x00;
    tay_1(&mut cpu);
    assert_eq!(cpu.reg_y, 0x00);
    assert_eq!(cpu.status.zero(), true);
    cpu.reg_s = 0x42;
    tsx_1(&mut cpu);
    assert_eq!(cpu.reg_x, 0x42);
    assert_eq!((cpu.status.zero(), cpu.status.negative()), (false, false));
    cpu.reg_x = 0x91;
    txa_1(&mut cpu);
    assert_eq!(cpu.reg_a, 0x91);
    assert_eq!(cpu.status.negative(), true);
    cpu.reg_x = 0x00;
    txs_1(&mut cpu);
    assert_eq!(cpu.reg_s, 0x00);
    assert_eq!(cpu.status.zero(), true);
    cpu.reg_y = 0x33;
    tya_1(&mut cpu);
    assert_eq!(cpu.reg_a, 0x33);
    assert_eq!((cpu.status.zero(), cpu.status.negative()), (false, false));
}

#[test]
fn index_registers_count_round() {
    let mut cpu = powered_cpu();
    cpu.reg_x = 0xFF;
    inx_1(&mut cpu);
    assert_eq!(cpu.reg_x, 0x00);
    assert_eq!((cpu.status.zero(), cpu.status.negative()), (true, false));
    dex_1(&mut cpu);
    assert_eq!(cpu.reg_x, 0xFF);
    assert_eq!((cpu.status.zero(), cpu.status.negative()), (false, true));
    cpu.reg_y = 0x7F;
    iny_1(&mut cpu);
    assert_eq!(cpu.reg_y, 0x80);
    assert_eq!((cpu.status.zero(), cpu.status.negative()), (false, true));
    dey_1(&mut cpu);
    assert_eq!(cpu.reg_y, 0x7F);
    assert_eq!((cpu.status.zero(), cpu.status.negative()), (false, false));
}

#[test]
fn memory_counts_round() {
    let mut cpu = powered_cpu();
    cpu.addr = 0x0200;
    cpu.value = 0xFF;
    inc_1(&mut cpu);
    assert_eq!(cpu.ic.read_mem(0x0200), 0xFF);
    inc_2(&mut cpu);
    assert_eq!(cpu.ic.read_mem(0x0200), 0x00);
    assert_eq!((cpu.status.zero(), cpu.status.negative()), (true, false));
    cpu.value = 0x00;
    dec_1(&mut cpu);
    assert_eq!(cpu.ic.read_mem(0x0200), 0x00);
    dec_2(&mut cpu);
    assert_eq!(cpu.ic.read_mem(0x0200), 0xFF);
    assert_eq!((cpu.status.zero(), cpu.status.negative()), (false, true));
}

#[test]
fn flag_instructions() {
    let mut cpu = powered_cpu();
    cpu.status = Status::from_bits(0x00);
    sec_1(&mut cpu);
    assert_eq!(cpu.status.into_bits(), 0x01);
    sed_1(&mut cpu);
    assert_eq!(cpu.status.into_bits(), 0x09);
    sei_1(&mut cpu);
    assert_eq!(cpu.status.into_bits(), 0x0D);
    cpu.status = Status::from_bits(0xFF);
    clc_1(&mut cpu);
    assert_eq!(cpu.status.into_bits(), 0xFE);
    cld_1(&mut cpu);
    assert_eq!(cpu.status.into_bits(), 0xF6);
    cli_1(&mut cpu);
    assert_eq!(cpu.status.into_bits(), 0xF2);
    clv_1(&mut cpu);
    assert_eq!(cpu.status.into_bits(), 0xB2);
}

#[test]
fn an_untaken_branch_changes_nothing() {
    let mut cpu = powered_cpu();
    cpu.reg_pc = 0xC002;
    cpu.addr = 0xC010;
    cpu.status = Status::from_bits(0x00);
    bcs_1(&mut cpu);
    beq_1(&mut cpu);
    bmi_1(&mut cpu);
    bvs_1(&mut cpu);
    cpu.status = Status::from_bits(0xFF);
    bcc_1(&mut cpu);
    bne_1(&mut cpu);
    bpl_1(&mut cpu);
    bvc_1(&mut cpu);
    assert_eq!(cpu.reg_pc, 0xC002);
    assert_eq!(cpu.inst_queue.len(), 0);
}

#[test]
fn a_taken_branch_costs_one_cycle_within_the_page() {
    let mut cpu = powered_cpu();
    cpu.reg_pc = 0xC002;
    cpu.addr = 0xC0FF;
    cpu.status = Status::from_bits(0x00);
    bcc_1(&mut cpu);
    assert_eq!(cpu.reg_pc, 0xC0FF);
    assert_eq!(cpu.inst_queue.len(), 1);
    assert_eq!(cpu.inst_queue[0], (MicroOp::Nop, 1));
}

#[test]
fn a_taken_branch_costs_two_cycles_across_pages() {
    let mut cpu = powered_cpu();
    cpu.reg_pc = 0xC0F0;
    cpu.addr = 0xC100;
    cpu.status = Status::from_bits(0x02);
    beq_1(&mut cpu);
    assert_eq!(cpu.reg_pc, 0xC100);
    assert_eq!(cpu.inst_queue.len(), 2);
    assert_eq!(cpu.inst_queue[0], (MicroOp::Nop, 1));
    assert_eq!(cpu.inst_queue[1], (MicroOp::Nop, 1));
}

#[test]
fn every_branch_looks_at_its_flag() {
    let taken: [(fn(&mut CPU), u8); 8] = [
        (bcc_1, 0xFE),
        (bcs_1, 0x01),
        (beq_1, 0x02),
        (bne_1, 0xFD),
        (bmi_1, 0x80),
        (bpl_1, 0x7F),
        (bvs_1, 0x40),
        (bvc_1, 0xBF),
    ];
    for (branch, bits) in taken {
        let mut cpu = powered_cpu();
        cpu.reg_pc = 0x0200;
        cpu.addr = 0x0210;
        cpu.status = Status::from_bits(bits);
        branch(&mut cpu);
        assert_eq!(cpu.reg_pc, 0x0210);
        let mut cpu = powered_cpu();
        cpu.reg_pc = 0x0200;
        cpu.addr = 0x0210;
        cpu.status = Status::from_bits(!bits);
        branch(&mut cpu);
        assert_eq!(cpu.reg_pc, 0x0200);
    }
}

#[test]
fn jmp_takes_the_effective_address() {
    let mut cpu = powered_cpu();
    cpu.addr = 0x1234;
    jmp_1(&mut cpu);
    assert_eq!(cpu.reg_pc, 0x1234);
}

#[test]
fn stack_push_and_pull() {
    let mut cpu = powered_cpu();
    assert_eq!(cpu.reg_s, 0xFD);
    cpu.push_to_stack(0x42);
    assert_eq!(cpu.reg_s, 0xFC);
    assert_eq!(cpu.ic.read_mem(0x01FD), 0x42);
    assert_eq!(cpu.pull_from_stack(), 0x42);
    assert_eq!(cpu.reg_s, 0xFD);
}

#[test]
fn the_stack_pointer_wraps_from_0x00_to_0xff() {
    let mut cpu = powered_cpu();
    cpu.reg_s = 0x00;
    cpu.reg_a = 0x11;
    pha_1(&mut cpu);
    assert_eq!(cpu.reg_s, 0xFF);
    assert_eq!(cpu.ic.read_mem(0x0100), 0x11);
    cpu.reg_a = 0x22;
    pha_1(&mut cpu);
    assert_eq!(cpu.reg_s, 0xFE);
    assert_eq!(cpu.ic.read_mem(0x01FF), 0x22);
    cpu.reg_a = 0x33;
    pha_1(&mut cpu);
    assert_eq!(cpu.reg_s, 0xFD);
    assert_eq!(cpu.bus_fault, None);
    cpu.reg_a = 0x00;
    pla_1(&mut cpu);
    assert_eq!(cpu.reg_a, 0x33);
    pla_1(&mut cpu);
    assert_eq!(cpu.reg_a, 0x22);
    assert_eq!(cpu.reg_s, 0xFF);
    pla_1(&mut cpu);
    assert_eq!(cpu.reg_a, 0x11);
    assert_eq!(cpu.reg_s, 0x00);
    assert_eq!(cpu.bus_fault, None);
}

#[test]
fn pla_sets_zero_and_negative() {
    let mut cpu = powered_cpu();
    cpu.push_to_stack(0x00);
    cpu.push_to_stack(0x80);
    pla_1(&mut cpu);
    assert_eq!((cpu.status.zero(), cpu.status.negative()), (false, true));
    pla_1(&mut cpu);
    assert_eq!((cpu.status.zero(), cpu.status.negative()), (true, false));
}

#[test]
fn plp_after_php_restores_the_flags() {
    for bits in 0..=255u8 {
        let mut cpu = powered_cpu();
        cpu.status = Status::from_bits(bits);
        php_1(&mut cpu);
        // the copy on the stack has break and reserved set
        assert_eq!(cpu.ic.read_mem(0x01FD), bits | 0x30);
        assert_eq!(cpu.status.into_bits(), bits);
        cpu.status = Status::from_bits(!bits);
        plp_1(&mut cpu);
        assert_eq!(cpu.status.into_bits() & 0xCF, bits & 0xCF);
        assert!(cpu.status.one());
        assert!(!cpu.status.b());
        assert_eq!(cpu.reg_s, 0xFD);
    }
}

#[test]
fn plp_sets_the_reserved_bit_whatever_was_pushed() {
    for bits in [0x00u8, 0x10, 0x20, 0xCF, 0xFF] {
        let mut cpu = powered_cpu();
        cpu.push_to_stack(bits);
        plp_1(&mut cpu);
        assert!(cpu.status.one());
        assert!(!cpu.status.b());
        assert_eq!(cpu.status.into_bits(), (bits & 0xCF) | 0x20);
    }
}

#[test]
fn jsr_pushes_the_address_of_its_last_byte() {
    let mut cpu = powered_cpu();
    // the program counter stands behind the two operand bytes
    cpu.reg_pc = 0xC003;
    cpu.addr = 0xC100;
    jsr_1(&mut cpu);
    jsr_2(&mut cpu);
    assert_eq!(cpu.reg_pc, 0xC100);
    assert_eq!(cpu.reg_s, 0xFB);
    assert_eq!(cpu.ic.read_mem(0x01FD), 0xC0);
    assert_eq!(cpu.ic.read_mem(0x01FC), 0x02);
}

#[test]
fn rts_returns_behind_the_jsr() {
    for next in [0xC003u16, 0x0203, 0xC100, 0xC0FF, 0x0000, 0xFFFF, 0x0001] {
        let mut cpu = powered_cpu();
        cpu.reg_pc = next;
        cpu.addr = 0x1234;
        jsr_1(&mut cpu);
        jsr_2(&mut cpu);
        assert_eq!(cpu.reg_pc, 0x1234);
        rts_1(&mut cpu);
        rts_2(&mut cpu);
        assert_eq!(cpu.reg_pc, next);
        assert_eq!(cpu.reg_s, 0xFD);
    }
}

#[test]
fn brk_stacks_and_takes_the_interrupt_vector() {
    let mut cpu = powered_cpu();
    cpu.ic.write_mem(0xFFFE, 0x34);
    cpu.ic.write_mem(0xFFFF, 0x12);
    cpu.ic.write_mem(0xFFFC, 0x78);
    cpu.ic.write_mem(0xFFFD, 0x56);
    cpu.reg_pc = 0xC001;
    cpu.status = Status::from_bits(0x03);
    brk_1(&mut cpu);
    brk_2(&mut cpu);
    brk_3(&mut cpu);
    brk_4(&mut cpu);
    assert_eq!(cpu.reg_pc, 0x1234);
    assert_eq!(cpu.reg_s, 0xFA);
    assert_eq!(cpu.ic.read_mem(0x01FD), 0xC0);
    assert_eq!(cpu.ic.read_mem(0x01FC), 0x01);
    assert_eq!(cpu.ic.read_mem(0x01FB), 0x33);
    assert!(cpu.status.b());
}

#[test]
fn rti_restores_status_and_program_counter() {
    let mut cpu = powered_cpu();
    cpu.ic.write_mem(0xFFFE, 0x00);
    cpu.ic.write_mem(0xFFFF, 0x02);
    cpu.reg_pc = 0xC123;
    cpu.status = Status::from_bits(0xC3);
    brk_1(&mut cpu);
    brk_2(&mut cpu);
    brk_3(&mut cpu);
    brk_4(&mut cpu);
    cpu.status = Status::from_bits(0x00);
    rti_1(&mut cpu);
    assert_eq!(cpu.status.into_bits(), 0xE3);
    rti_2(&mut cpu);
    rti_3(&mut cpu);
    assert_eq!(cpu.reg_pc, 0xC123);
    assert_eq!(cpu.reg_s, 0xFD);
}

#[test]
fn nop_changes_nothing() {
    let mut cpu = powered_cpu();
    cpu.reg_a = 1;
    cpu.reg_pc = 0xC000;
    let status = cpu.status;
    nop(&mut cpu);
    assert_eq!((cpu.reg_a, cpu.reg_x, cpu.reg_y, cpu.reg_pc, cpu.reg_s), (1, 0, 0, 0xC000, 0xFD));
    assert_eq!(cpu.status, status);
    assert_eq!(cpu.inst_queue.len(), 0);
}

#[test]
fn bus_steps_read_and_write_at_the_effective_address() {
    let mut cpu = powered_cpu();
    cpu.addr = 0x0010;
    cpu.write = 0x05;
    write_mem(&mut cpu);
    assert_eq!(cpu.ic.read_mem(0x0010), 0x05);
    cpu.value = 0;
    read_mem(&mut cpu);
    assert_eq!(cpu.value, 0x05);
}

#[test]
fn the_dispatcher_runs_the_step() {
    let mut cpu = powered_cpu();
    cpu.value = 0x44;
    run_micro_op(&mut cpu, MicroOp::Lda1);
    assert_eq!(cpu.reg_a, 0x44);
    run_micro_op(&mut cpu, MicroOp::Tax1);
    assert_eq!(cpu.reg_x, 0x44);
    run_micro_op(&mut cpu, MicroOp::Pha1);
    assert_eq!(cpu.ic.read_mem(0x01FD), 0x44);
    cpu.value = 0x44;
    run_micro_op(&mut cpu, MicroOp::Cmp1);
    assert!(cpu.status.zero() && cpu.status.carry());
    cpu.addr = 0x0300;
    cpu.write = 0x99;
    run_micro_op(&mut cpu, MicroOp::WriteMem);
    run_micro_op(&mut cpu, MicroOp::ReadMem);
    assert_eq!(cpu.value, 0x99);
    run_micro_op(&mut cpu, MicroOp::Nop);
    run_micro_op(&mut cpu, MicroOp::Sec1);
    run_micro_op(&mut cpu, MicroOp::Adc1);
    assert_eq!(cpu.reg_a, 0x44 + 0x99 + 1);
}

fn resolve(
    inst_type: InstructionType,
    addr_mode: AddressingMode,
    operands: &[u8],
    op: MemoryOp,
) -> CPU {
    let mut cpu = powered_cpu();
    cpu.reg_a = 0x0A;
    cpu.reg_x = 0x04;
    cpu.reg_y = 0x10;
    cpu.reg_pc = 0xC002;
    cpu.addr = 0xEEEE;
    cpu.value = 0xEE;
    // pointers in the zero page
    cpu.ic.write_mem(0x0024, 0x74);
    cpu.ic.write_mem(0x0025, 0x20);
    cpu.ic.write_mem(0x00FF, 0x34);
    cpu.ic.write_mem(0x0000, 0x12);
    cpu.ic.write_mem(0x0300, 0xCD);
    cpu.ic.write_mem(0x0301, 0xAB);
    in_flight(&mut cpu, inst_type, addr_mode, operands);
    queue_push_memory_op(&mut cpu, op);
    cpu
}

#[test]
fn effective_addresses() {
    let lda = InstructionType::LDA;
    let read = MemoryOp::Read;
    assert_eq!(resolve(lda, AddressingMode::ZeroPage, &[0x80], read).addr, 0x0080);
    assert_eq!(resolve(lda, AddressingMode::ZeroPageIndexedX, &[0x80], read).addr, 0x0084);
    assert_eq!(resolve(lda, AddressingMode::ZeroPageIndexedX, &[0xFE], read).addr, 0x0002);
    assert_eq!(resolve(lda, AddressingMode::ZeroPageIndexedY, &[0x80], read).addr, 0x0090);
    assert_eq!(resolve(lda, AddressingMode::ZeroPageIndexedY, &[0xF8], read).addr, 0x0008);
    assert_eq!(resolve(lda, AddressingMode::Absolute, &[0x34, 0x12], read).addr, 0x1234);
    assert_eq!(resolve(lda, AddressingMode::AbsoluteIndexedX, &[0x34, 0x12], read).addr, 0x1238);
    assert_eq!(resolve(lda, AddressingMode::AbsoluteIndexedX, &[0xFE, 0x12], read).addr, 0x1302);
    assert_eq!(resolve(lda, AddressingMode::AbsoluteIndexedY, &[0x34, 0x12], read).addr, 0x1244);
    assert_eq!(resolve(lda, AddressingMode::AbsoluteIndexedY, &[0xF8, 0xFF], read).addr, 0x0008);
    assert_eq!(resolve(lda, AddressingMode::IndexedIndirect, &[0x20], read).addr, 0x2074);
    assert_eq!(resolve(lda, AddressingMode::IndexedIndirect, &[0xFB], read).addr, 0x1234);
    assert_eq!(resolve(lda, AddressingMode::IndirectIndexed, &[0x24], read).addr, 0x2084);
    assert_eq!(resolve(lda, AddressingMode::IndirectIndexed, &[0xFF], read).addr, 0x1244);
    assert_eq!(resolve(lda, AddressingMode::Indirect, &[0x00, 0x03], read).addr, 0xABCD);
    assert_eq!(resolve(lda, AddressingMode::Relative, &[0x10], read).addr, 0xC012);
    assert_eq!(resolve(lda, AddressingMode::Relative, &[0x7F], read).addr, 0xC081);
    assert_eq!(resolve(lda, AddressingMode::Relative, &[0xFE], read).addr, 0xC000);
    assert_eq!(resolve(lda, AddressingMode::Relative, &[0x80], read).addr, 0xBF82);
}

#[test]
fn operand_values_are_staged_without_a_bus_cycle() {
    let cpu = resolve(InstructionType::LDA, AddressingMode::Immediate, &[0x05], MemoryOp::Read);
    assert_eq!(cpu.value, 0x05);
    assert_eq!(cpu.addr, 0xEEEE);
    assert_eq!(cpu.inst_queue.len(), 0);
    let cpu = resolve(InstructionType::ASL, AddressingMode::Accumulator, &[], MemoryOp::Read);
    assert_eq!(cpu.value, 0x0A);
    assert_eq!(cpu.inst_queue.len(), 0);
    let cpu = resolve(InstructionType::CLC, AddressingMode::Implicit, &[], MemoryOp::Read);
    assert_eq!((cpu.value, cpu.addr), (0xEE, 0xEEEE));
    assert_eq!(cpu.inst_queue.len(), 0);
    let cpu = resolve(InstructionType::BNE, AddressingMode::Relative, &[0x02], MemoryOp::Read);
    assert_eq!(cpu.inst_queue.len(), 0);
}

#[test]
fn a_read_is_queued_for_an_operand_in_memory() {
    let cpu = resolve(InstructionType::LDA, AddressingMode::ZeroPage, &[0x10], MemoryOp::Read);
    assert_eq!(cpu.inst_queue.len(), 1);
    assert_eq!(cpu.inst_queue[0], (MicroOp::ReadMem, 1));
    let cpu = resolve(InstructionType::JSR, AddressingMode::Absolute, &[0x00, 0xC1], MemoryOp::Read);
    assert_eq!(cpu.inst_queue.len(), 1);
    // a jump wants the address only
    let cpu = resolve(InstructionType::JMP, AddressingMode::Absolute, &[0x00, 0xC1], MemoryOp::Read);
    assert_eq!(cpu.addr, 0xC100);
    assert_eq!(cpu.inst_queue.len(), 0);
    let cpu = resolve(InstructionType::JMP, AddressingMode::Indirect, &[0x00, 0x03], MemoryOp::Read);
    assert_eq!(cpu.inst_queue.len(), 0);
}

#[test]
fn a_write_is_queued_for_a_store() {
    let cpu = resolve(InstructionType::STA, AddressingMode::ZeroPage, &[0x10], MemoryOp::Write);
    assert_eq!(cpu.addr, 0x0010);
    assert_eq!(cpu.inst_queue.len(), 1);
    assert_eq!(cpu.inst_queue[0], (MicroOp::WriteMem, 1));
}
