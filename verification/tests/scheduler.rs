use nesty::cpu::{Status, CPU, IRQ_VECTOR_ADDR, RESET_VECTOR_ADDR, RUN_CYCLES};
use nesty::instructions::logic::MicroOp;
use nesty::instructions::{AddressingMode, Instruction, InstructionType};
use nesty::nes::{Powerable, NES};
use nesty::state::TraceEntry;

const START: u16 = 0xC000;

/// A processor after power-on and start-up, with `program` at the start
/// address and the reset vector pointing there.
fn started_with(program: &[u8]) -> CPU {
    let mut cpu = CPU::default();
    cpu.power_on();
    cpu.load_program(program.to_vec());
    cpu.ic.write_mem(0xFFFC, 0x00);
    cpu.ic.write_mem(0xFFFD, 0xC0);
    assert_eq!(cpu.do_cycle(), None);
    assert_eq!(cpu.reg_pc, START);
    cpu
}

fn idle(cpu: &CPU) -> bool {
    cpu.curr_inst.is_none() && cpu.curr_inst_byte.is_none() && cpu.inst_queue.is_empty()
}

/// Runs one instruction and counts its clock cycles.
fn cycles_of_next(cpu: &mut CPU) -> u32 {
    assert!(idle(cpu));
    let mut cycles = 0;
    loop {
        cpu.do_cycle();
        cycles += 1;
        assert_eq!(cpu.bus_fault, None);
        assert!(cycles < 10);
        if idle(cpu) {
            return cycles;
        }
    }
}

/// A cartridge image of one bank with `program` at its start and the reset
/// vector pointing there.
fn image_of(program: &[u8]) -> Vec<u8> {
    let mut ines = vec![0x4E, 0x45, 0x53, 0x1A, 1, 0, 0, 0, 0, 0, 0, 0, 0, 0, 0, 0];
    let mut bank = vec![0u8; 16384];
    bank[..program.len()].copy_from_slice(program);
    bank[0x3FFC] = 0x00;
    bank[0x3FFD] = 0xC0;
    ines.extend_from_slice(&bank);
    ines
}

#[test]
fn the_vectors() {
    assert_eq!(RESET_VECTOR_ADDR, 0xFFFC);
    assert_eq!(IRQ_VECTOR_ADDR, 0xFFFE);
    assert_eq!(RUN_CYCLES, 2000);
}

#[test]
fn power_on_state() {
    let mut cpu = CPU::default();
    cpu.reg_a = 1;
    cpu.reg_x = 2;
    cpu.reg_y = 3;
    cpu.cycle = 99;
    cpu.status = Status::from_bits(0xDB);
    cpu.power_on();
    assert_eq!((cpu.reg_a, cpu.reg_x, cpu.reg_y), (0, 0, 0));
    assert_eq!(cpu.reg_s, 0xFD);
    assert_eq!(cpu.reg_pc, 0xFFFC);
    // interrupt-disable and the reserved bit are set, the break mark stays
    assert_eq!(cpu.status.into_bits(), 0x34);
    assert_eq!(cpu.cycle, 0);
    assert!(idle(&cpu));
    assert_eq!(cpu.operands.len(), 0);
    assert_eq!(cpu.bus_fault, None);
    let mut cpu = CPU::default();
    cpu.power_on();
    assert_eq!(cpu.status.into_bits(), 0x24);
}

#[test]
fn reset_state() {
    let mut cpu = started_with(&[0xA9, 0x05, 0xAD]);
    cpu.reg_a = 1;
    cpu.reg_x = 2;
    cpu.reg_y = 3;
    cpu.status = Status::from_bits(0x01);
    cpu.ic.write_mem(0x0010, 0x55);
    // stop within an instruction
    cpu.do_cycle();
    assert!(!idle(&cpu));
    cpu.reset();
    assert_eq!((cpu.reg_a, cpu.reg_x, cpu.reg_y), (1, 2, 3));
    assert_eq!(cpu.reg_s, 0xFA);
    // the program counter holds the word of the reset vector
    assert_eq!(cpu.reg_pc, 0xC000);
    assert_eq!(cpu.status.into_bits(), 0x05);
    assert_eq!(cpu.cycle, 0);
    assert!(idle(&cpu));
    assert_eq!(cpu.operands.len(), 0);
    assert_eq!(cpu.inst_queue.len(), 0);
    // working memory is cleared, the cartridge keeps the program
    assert_eq!(cpu.ic.read_mem(0x0010), 0x00);
    assert_eq!(cpu.ic.read_mem(0xC000), 0xA9);
    // the start-up leaves it there
    cpu.do_cycle();
    assert_eq!(cpu.reg_pc, 0xC000);
    assert_eq!(cpu.cycle, 7);
}

#[test]
fn reset_seeds_the_program_counter_from_the_reset_vector() {
    let vectors = [(0x34u8, 0x12u8), (0x00, 0x00), (0xFC, 0xFF), (0xFF, 0xFF), (0x00, 0x80)];
    for (low, high) in vectors {
        let mut cpu = CPU::default();
        cpu.power_on();
        cpu.ic.write_mem(0xFFFC, low);
        cpu.ic.write_mem(0xFFFD, high);
        cpu.reg_a = 0x11;
        cpu.reg_x = 0x22;
        cpu.reg_y = 0x33;
        cpu.reg_s = 0x44;
        cpu.status = Status::from_bits(0x00);
        cpu.reset();
        assert_eq!(cpu.reg_pc, (high as u16) << 8 | low as u16);
        assert_eq!((cpu.reg_a, cpu.reg_x, cpu.reg_y), (0x11, 0x22, 0x33));
        assert_eq!(cpu.reg_s, 0x41);
        assert!(cpu.status.interrupt_disable());
        assert!(cpu.operands.is_empty() && cpu.inst_queue.is_empty());
    }
}

#[test]
fn reset_without_power_leaves_the_program_counter() {
    let mut cpu = CPU::default();
    cpu.reg_pc = 0x1234;
    assert!(!cpu.ic.is_powered());
    cpu.reset();
    assert_eq!(cpu.reg_pc, 0x1234);
    assert_eq!(cpu.reg_s, 0xFD);
    assert!(cpu.status.interrupt_disable());
    cpu.power_on();
    assert!(cpu.ic.is_powered());
}

#[test]
fn execute_runs_nothing_without_an_instruction() {
    let mut cpu = started_with(&[0xEA]);
    assert!(idle(&cpu));
    assert_eq!(cpu.num_operands, 0);
    assert_eq!(cpu.execute(false), None);
    assert_eq!(cpu.execute(true), None);
    assert!(idle(&cpu));
    assert_eq!(cpu.reg_pc, 0xC000);
}

#[test]
fn reset_moves_the_stack_pointer_round() {
    let mut cpu = CPU::default();
    cpu.power_on();
    cpu.reg_s = 0x01;
    cpu.reset();
    assert_eq!(cpu.reg_s, 0xFE);
}

#[test]
fn the_start_up_reads_the_reset_vector() {
    let mut cpu = CPU::default();
    cpu.power_on();
    cpu.ic.write_mem(0xFFFC, 0x34);
    cpu.ic.write_mem(0xFFFD, 0x12);
    assert_eq!(cpu.do_cycle(), None);
    assert_eq!(cpu.reg_pc, 0x1234);
    assert_eq!(cpu.cycle, 7);
    assert!(idle(&cpu));
}

#[test]
fn lda_immediate_takes_2_cycles() {
    let mut cpu = started_with(&[0xA9, 0x05]);
    assert_eq!(cycles_of_next(&mut cpu), 2);
    assert_eq!(cpu.reg_a, 0x05);
    assert_eq!(cpu.reg_pc, 0xC002);
    assert_eq!(cpu.cycle, 9);
}

#[test]
fn lda_absolute_takes_4_cycles() {
    let mut cpu = started_with(&[0xAD, 0x00, 0x03]);
    cpu.ic.write_mem(0x0300, 0x99);
    assert_eq!(cycles_of_next(&mut cpu), 4);
    assert_eq!(cpu.reg_a, 0x99);
    assert_eq!(cpu.reg_pc, 0xC003);
    assert!(cpu.status.negative());
}

#[test]
fn an_untaken_branch_takes_2_cycles() {
    // BNE +2 with the zero flag set
    let mut cpu = started_with(&[0xD0, 0x02]);
    cpu.status.set_zero(true);
    assert_eq!(cycles_of_next(&mut cpu), 2);
    assert_eq!(cpu.reg_pc, 0xC002);
}

#[test]
fn a_taken_branch_within_the_page_takes_3_cycles() {
    let mut cpu = started_with(&[0xD0, 0x02]);
    cpu.status.set_zero(false);
    assert_eq!(cycles_of_next(&mut cpu), 3);
    assert_eq!(cpu.reg_pc, 0xC004);
}

#[test]
fn a_taken_branch_across_pages_takes_4_cycles() {
    // BNE -3 from 0xC002 goes to 0xBFFF
    let mut cpu = started_with(&[0xD0, 0xFD]);
    cpu.status.set_zero(false);
    assert_eq!(cycles_of_next(&mut cpu), 4);
    assert_eq!(cpu.reg_pc, 0xBFFF);
}

#[test]
fn cycle_counts_of_the_instructions() {
    // (program, cycles)
    let cases: [(&[u8], u32); 30] = [
        (&[0xEA], 2),
        (&[0x02], 2),
        (&[0xFF], 2),
        (&[0xAA], 2),
        (&[0x18], 2),
        (&[0x0A], 2),
        (&[0xE8], 2),
        (&[0x69, 0x01], 2),
        (&[0xC9, 0x01], 2),
        (&[0xA5, 0x10], 3),
        (&[0x85, 0x10], 3),
        (&[0xB5, 0x10], 3),
        (&[0x24, 0x10], 3),
        (&[0xA1, 0x10], 3),
        (&[0xB1, 0x10], 3),
        (&[0x8D, 0x00, 0x02], 4),
        (&[0xBD, 0x00, 0x02], 4),
        (&[0x2C, 0x00, 0x02], 4),
        (&[0x4C, 0x00, 0x02], 3),
        (&[0x6C, 0x00, 0x02], 3),
        (&[0x06, 0x10], 3),
        (&[0x0E, 0x00, 0x02], 4),
        (&[0xC6, 0x10], 5),
        (&[0xEE, 0x00, 0x02], 6),
        (&[0x20, 0x00, 0x02], 6),
        (&[0x48], 2),
        (&[0x08], 2),
        (&[0x68], 3),
        (&[0x28], 3),
        (&[0x00], 5),
    ];
    for (program, cycles) in cases {
        let mut cpu = started_with(program);
        assert_eq!(cycles_of_next(&mut cpu), cycles, "opcode {:#04X}", program[0]);
    }
    let mut cpu = started_with(&[0x60]);
    assert_eq!(cycles_of_next(&mut cpu), 5);
    let mut cpu = started_with(&[0x40]);
    assert_eq!(cycles_of_next(&mut cpu), 4);
}

#[test]
fn jsr_and_rts_come_back_behind_the_jsr() {
    // C000: JSR $C005; C003: NOP; C004: NOP; C005: RTS
    let mut cpu = started_with(&[0x20, 0x05, 0xC0, 0xEA, 0xEA, 0x60]);
    assert_eq!(cycles_of_next(&mut cpu), 6);
    assert_eq!(cpu.reg_pc, 0xC005);
    assert_eq!(cpu.reg_s, 0xFB);
    assert_eq!(cycles_of_next(&mut cpu), 5);
    assert_eq!(cpu.reg_pc, 0xC003);
    assert_eq!(cpu.reg_s, 0xFD);
}

#[test]
fn a_short_program_runs_to_its_end() {
    // LDA #$05; STA $10; LDA $10; ADC #$03
    let mut cpu = started_with(&[0xA9, 0x05, 0x85, 0x10, 0xA5, 0x10, 0x69, 0x03]);
    let mut cycles = 0;
    for _ in 0..4 {
        cycles += cycles_of_next(&mut cpu);
    }
    assert_eq!(cycles, 10);
    assert_eq!(cpu.reg_a, 0x08);
    assert_eq!(cpu.status.zero(), false);
    assert_eq!(cpu.status.negative(), false);
    assert_eq!(cpu.status.carry(), false);
    assert_eq!(cpu.ic.read_mem(0x0010), 0x05);
    assert_eq!(cpu.reg_pc, 0xC008);
    assert_eq!(cpu.cycle, 17);
}

#[test]
fn a_cartridge_image_runs_to_its_end() {
    let mut cpu = CPU::default();
    cpu.power_on();
    cpu.load_rom(image_of(&[0xA9, 0x05, 0x85, 0x10, 0xA5, 0x10, 0x69, 0x03]));
    for _ in 0..11 {
        cpu.do_cycle();
    }
    assert!(idle(&cpu));
    assert_eq!(cpu.reg_a, 0x08);
    assert_eq!(cpu.ic.read_mem(0x0010), 0x05);
}

#[test]
fn the_trace_has_one_entry_for_each_instruction() {
    let mut cpu = CPU::default();
    cpu.power_on();
    cpu.load_program(vec![0xA9, 0x05, 0x85, 0x10, 0xA5, 0x10, 0x69, 0x03]);
    cpu.ic.write_mem(0xFFFC, 0x00);
    cpu.ic.write_mem(0xFFFD, 0xC0);
    let mut trace = Vec::new();
    for _ in 0..11 {
        if let Some(entry) = cpu.do_cycle() {
            trace.push(entry);
        }
    }
    assert_eq!(
        trace,
        vec![
            TraceEntry { pc: 0xC000, a: 0x00, x: 0, y: 0, p: 0x24, sp: 0xFD, cycle: 7 },
            TraceEntry { pc: 0xC002, a: 0x05, x: 0, y: 0, p: 0x24, sp: 0xFD, cycle: 9 },
            TraceEntry { pc: 0xC004, a: 0x05, x: 0, y: 0, p: 0x24, sp: 0xFD, cycle: 12 },
            TraceEntry { pc: 0xC006, a: 0x05, x: 0, y: 0, p: 0x24, sp: 0xFD, cycle: 15 },
        ]
    );
}

#[test]
fn an_illegal_opcode_is_an_idle_instruction() {
    let mut cpu = started_with(&[0x02, 0xFF, 0x89, 0xA9, 0x07]);
    cpu.reg_a = 0x11;
    cpu.reg_x = 0x22;
    let status = cpu.status;
    for opcode in 0..3u16 {
        assert_eq!(cycles_of_next(&mut cpu), 2);
        assert_eq!(cpu.reg_pc, 0xC001 + opcode);
        assert_eq!((cpu.reg_a, cpu.reg_x, cpu.reg_y, cpu.reg_s), (0x11, 0x22, 0, 0xFD));
        assert_eq!(cpu.status, status);
    }
    assert_eq!(cycles_of_next(&mut cpu), 2);
    assert_eq!(cpu.reg_a, 0x07);
}

#[test]
fn decoding_waits_for_the_operand_bytes() {
    let mut cpu = started_with(&[0xAD, 0x00, 0x03]);
    cpu.fetch();
    assert_eq!(cpu.curr_inst_byte, Some(0xAD));
    assert_eq!(cpu.decode(), false);
    assert_eq!(
        cpu.curr_inst,
        Some(Instruction { inst_type: InstructionType::LDA, addr_mode: AddressingMode::Absolute })
    );
    assert_eq!(cpu.num_operands, 2);
    assert_eq!(cpu.execute(false), None);
    cpu.fetch();
    assert_eq!(cpu.operands, vec![0x00]);
    assert_eq!(cpu.decode(), false);
    cpu.fetch();
    assert_eq!(cpu.operands, vec![0x00, 0x03]);
    assert_eq!(cpu.decode(), true);
    assert_eq!(cpu.curr_inst_byte, None);
    assert_eq!(cpu.addr, 0x0300);
    assert_eq!(cpu.inst_queue.len(), 2);
    assert_eq!(cpu.inst_queue[0], (MicroOp::ReadMem, 1));
    assert_eq!(cpu.inst_queue[1], (MicroOp::Lda1, 0));
    // the cycle of the last fetch runs free steps only
    assert!(cpu.execute(true).is_some());
    assert_eq!(cpu.inst_queue.len(), 2);
    // with steps waiting nothing is fetched
    cpu.fetch();
    assert_eq!(cpu.reg_pc, 0xC003);
    assert_eq!(cpu.decode(), false);
    assert_eq!(cpu.execute(false), None);
    assert!(idle(&cpu));
    assert_eq!(cpu.operands.len(), 0);
}

#[test]
fn the_budget_lets_one_costly_step_run() {
    let mut cpu = started_with(&[]);
    cpu.curr_inst =
        Some(Instruction { inst_type: InstructionType::NOP, addr_mode: AddressingMode::Implicit });
    cpu.num_operands = 0;
    cpu.inst_queue.push_back((MicroOp::Inx1, 0));
    cpu.inst_queue.push_back((MicroOp::Inx1, 1));
    cpu.inst_queue.push_back((MicroOp::Inx1, 0));
    cpu.inst_queue.push_back((MicroOp::Inx1, 1));
    cpu.execute(true);
    assert_eq!(cpu.reg_x, 1);
    assert_eq!(cpu.inst_queue.len(), 3);
    cpu.execute(false);
    assert_eq!(cpu.reg_x, 3);
    assert_eq!(cpu.inst_queue.len(), 1);
    assert!(cpu.curr_inst.is_some());
    cpu.execute(false);
    assert_eq!(cpu.reg_x, 4);
    assert_eq!(cpu.inst_queue.len(), 0);
    assert!(cpu.curr_inst.is_none());
}

#[test]
fn the_queue_of_each_instruction() {
    let cases: [(&[u8], &[(MicroOp, u32)]); 12] = [
        (&[0xEA], &[(MicroOp::Nop, 1)]),
        (&[0x02], &[(MicroOp::Nop, 1)]),
        // steps with a cost need no idle cycle behind them
        (&[0x00], &[
            (MicroOp::Brk1, 1),
            (MicroOp::Brk2, 1),
            (MicroOp::Brk3, 1),
            (MicroOp::Brk4, 1),
        ]),
        (&[0x60], &[(MicroOp::Rts1, 1), (MicroOp::Nop, 1), (MicroOp::Rts2, 1), (MicroOp::Nop, 1)]),
        (&[0x40], &[(MicroOp::Rti1, 1), (MicroOp::Rti2, 1), (MicroOp::Rti3, 1)]),
        (&[0x68], &[(MicroOp::Pla1, 1), (MicroOp::Nop, 1)]),
        (&[0x0A], &[(MicroOp::Asl1, 0), (MicroOp::Nop, 1)]),
        (&[0xE6, 0x10], &[(MicroOp::ReadMem, 1), (MicroOp::Inc1, 1), (MicroOp::Inc2, 1)]),
        (&[0x86, 0x10], &[(MicroOp::WriteMem, 1)]),
        (&[0x20, 0x00, 0x02], &[(MicroOp::ReadMem, 1), (MicroOp::Jsr1, 1), (MicroOp::Jsr2, 1)]),
        (&[0x4C, 0x00, 0x02], &[(MicroOp::Jmp1, 0)]),
        (&[0xC9, 0x01], &[(MicroOp::Cmp1, 0)]),
    ];
    for (program, queue) in cases {
        let mut cpu = started_with(program);
        for _ in 0..program.len() {
            cpu.fetch();
            cpu.decode();
        }
        let queued: Vec<(MicroOp, u32)> = cpu.inst_queue.iter().copied().collect();
        assert_eq!(queued, queue.to_vec(), "opcode {:#04X}", program[0]);
    }
}

#[test]
fn stores_write_their_register() {
    // STA $10; STX $11; STY $12
    let mut cpu = started_with(&[0x85, 0x10, 0x86, 0x11, 0x84, 0x12]);
    cpu.reg_a = 0xAA;
    cpu.reg_x = 0xBB;
    cpu.reg_y = 0xCC;
    for _ in 0..3 {
        assert_eq!(cycles_of_next(&mut cpu), 3);
    }
    assert_eq!(cpu.ic.read_mem(0x0010), 0xAA);
    assert_eq!(cpu.ic.read_mem(0x0011), 0xBB);
    assert_eq!(cpu.ic.read_mem(0x0012), 0xCC);
}

#[test]
fn inc_and_dec_change_memory() {
    // INC $10; INC $10; DEC $11
    let mut cpu = started_with(&[0xE6, 0x10, 0xE6, 0x10, 0xC6, 0x11]);
    for _ in 0..3 {
        assert_eq!(cycles_of_next(&mut cpu), 5);
    }
    assert_eq!(cpu.ic.read_mem(0x0010), 0x02);
    assert_eq!(cpu.ic.read_mem(0x0011), 0xFF);
    assert!(cpu.status.negative());
}

#[test]
fn a_loop_counts_down() {
    // LDX #$03; DEX; BNE -3; NOP
    let mut cpu = started_with(&[0xA2, 0x03, 0xCA, 0xD0, 0xFD, 0xEA]);
    let mut cycles = cycles_of_next(&mut cpu);
    for _ in 0..6 {
        cycles += cycles_of_next(&mut cpu);
    }
    assert_eq!(cpu.reg_x, 0);
    assert_eq!(cpu.reg_pc, 0xC005);
    assert!(cpu.status.zero());
    // 2 + 3 * 2 for DEX + 2 * 3 for the taken branches + 2 for the last
    assert_eq!(cycles, 16);
}

#[test]
fn a_fetch_at_an_unmapped_address_stops_the_processor() {
    // JMP $4000
    let mut cpu = started_with(&[0x4C, 0x00, 0x40]);
    assert_eq!(cycles_of_next(&mut cpu), 3);
    assert_eq!(cpu.reg_pc, 0x4000);
    let cycle = cpu.cycle;
    assert_eq!(cpu.do_cycle(), None);
    assert_eq!(cpu.bus_fault, Some(0x4000));
    assert_eq!(cpu.cycle, cycle);
    assert_eq!(cpu.reg_pc, 0x4000);
    // a stopped processor stays as it is
    assert_eq!(cpu.do_cycle(), None);
    assert_eq!(cpu.bus_fault, Some(0x4000));
    assert_eq!(cpu.cycle, cycle);
    // power brings it back
    cpu.power_on();
    assert_eq!(cpu.bus_fault, None);
}

#[test]
fn a_read_at_an_unmapped_address_stops_the_processor() {
    // LDA $4014
    let mut cpu = started_with(&[0xAD, 0x14, 0x40]);
    cpu.reg_a = 0x77;
    for _ in 0..4 {
        cpu.do_cycle();
    }
    assert_eq!(cpu.bus_fault, Some(0x4014));
    assert_eq!(cpu.reg_a, 0x77);
    // the step that could not run stays on the queue
    assert_eq!(cpu.inst_queue[0], (MicroOp::ReadMem, 1));
}

#[test]
fn a_write_at_an_unmapped_address_stops_the_processor() {
    // STA $4000
    let mut cpu = started_with(&[0x8D, 0x00, 0x40]);
    for _ in 0..4 {
        cpu.do_cycle();
    }
    assert_eq!(cpu.bus_fault, Some(0x4000));
}

#[test]
fn an_unmapped_pointer_stops_the_processor() {
    // JMP ($401F): the low byte of the pointer is unmapped
    let mut cpu = started_with(&[0x6C, 0x1F, 0x40]);
    for _ in 0..3 {
        cpu.do_cycle();
    }
    assert_eq!(cpu.bus_fault, Some(0x401F));
    // JMP ($3FFF): the high byte of the pointer is unmapped
    let mut cpu = started_with(&[0x6C, 0xFF, 0x3F]);
    for _ in 0..3 {
        cpu.do_cycle();
    }
    assert_eq!(cpu.bus_fault, Some(0x4000));
    assert_eq!(cpu.curr_inst_byte, Some(0x6C));
}

#[test]
fn a_run_takes_2000_cycles() {
    // a loop: JMP $C000
    let mut cpu = CPU::default();
    cpu.power_on();
    cpu.load_program(vec![0x4C, 0x00, 0xC0]);
    cpu.ic.write_mem(0xFFFC, 0x00);
    cpu.ic.write_mem(0xFFFD, 0xC0);
    let trace = cpu.run();
    assert_eq!(cpu.cycle, 7 + 1999);
    assert_eq!(cpu.bus_fault, None);
    // the jump takes three cycles and is traced in its last
    assert_eq!(trace.len(), 666);
    assert_eq!(trace[0], TraceEntry { pc: 0xC000, a: 0, x: 0, y: 0, p: 0x24, sp: 0xFD, cycle: 7 });
    assert_eq!(trace[1], TraceEntry { pc: 0xC000, a: 0, x: 0, y: 0, p: 0x24, sp: 0xFD, cycle: 10 });
}

#[test]
fn the_console_runs_a_cartridge_image() {
    let mut nes = NES::default();
    nes.power_on();
    nes.load_rom(image_of(&[0xA9, 0x80, 0xAA, 0x4C, 0x03, 0xC0]));
    let trace = nes.run();
    assert_eq!(trace[0], TraceEntry { pc: 0xC000, a: 0, x: 0, y: 0, p: 0x24, sp: 0xFD, cycle: 7 });
    assert_eq!(trace[1], TraceEntry { pc: 0xC002, a: 0x80, x: 0, y: 0, p: 0xA4, sp: 0xFD, cycle: 9 });
    assert_eq!(
        trace[2],
        TraceEntry { pc: 0xC003, a: 0x80, x: 0x80, y: 0, p: 0xA4, sp: 0xFD, cycle: 11 }
    );
    assert_eq!(
        trace[3],
        TraceEntry { pc: 0xC003, a: 0x80, x: 0x80, y: 0, p: 0xA4, sp: 0xFD, cycle: 14 }
    );
    nes.reset();
    let again = nes.run();
    assert_eq!(again[0].sp, 0xFA);
    assert_eq!(again[0].a, 0x80);
}

#[test]
fn the_console_tells_of_a_stop() {
    let mut nes = NES::default();
    nes.power_on();
    // JMP $4000
    nes.load_rom(image_of(&[0x4C, 0x00, 0x40]));
    assert_eq!(nes.bus_fault(), None);
    let trace = nes.run();
    assert_eq!(trace.len(), 1);
    assert_eq!(nes.bus_fault(), Some(0x4000));
}
