use crate::cpu::{IRQ_VECTOR_ADDR, RESET_VECTOR_ADDR};
use crate::instructions::addressing::MemoryOp;
use crate::instructions::logic::MicroOp;
use crate::instructions::{
    documented_mode, documented_type, operand_count, AddressingMode, Instruction, InstructionType,
};
use crate::interconnect::{mapped, next_address, InterconnectView};
use crate::status::{
    Status, BREAK, CARRY, DECIMAL, INTERRUPT_DISABLE, NEGATIVE, ONE, OVERFLOW, ZERO,
};
use crate::utils::{high_byte, low_byte, word_of};
use vstd::prelude::*;

verus! {

/// The cycle count after the start-up sequence.
pub const STARTUP_CYCLES: u64 = 7;

/// The page of the stack.
pub const STACK_BASE: u16 = 0x100;

/// What the trace holds of an instruction: where it starts, and the registers
/// and the cycle count as they are before its first step runs.
#[derive(Debug, Clone, Copy, PartialEq, Eq, Structural)]
pub struct TraceEntry {
    pub pc: u16,
    pub a: u8,
    pub x: u8,
    pub y: u8,
    pub p: u8,
    pub sp: u8,
    pub cycle: u64,
}

/// The byte that an integer leaves in eight bits.
pub open spec fn wrap8(value: int) -> u8 {
    (value % 0x100) as u8
}

/// The word that an integer leaves in sixteen bits.
pub open spec fn wrap16(value: int) -> u16 {
    (value % 0x1_0000) as u16
}

/// A cycle count after `cycles` more cycles. The count stays at its greatest
/// value once it has reached it.
pub open spec fn count_up(cycle: u64, cycles: nat) -> u64 {
    if cycle + cycles > u64::MAX {
        u64::MAX
    } else {
        (cycle + cycles) as u64
    }
}

/// A byte read as a signed number in two's complement.
pub open spec fn signed(value: u8) -> int {
    if value >= 0x80 {
        value - 0x100
    } else {
        value as int
    }
}

/// Whether a step is that of a branch: only these put further steps on the
/// queue.
pub open spec fn is_branch(op: MicroOp) -> bool {
    op == MicroOp::Bcc1 || op == MicroOp::Bcs1 || op == MicroOp::Beq1 || op == MicroOp::Bmi1 || op
        == MicroOp::Bne1 || op == MicroOp::Bpl1 || op == MicroOp::Bvc1 || op == MicroOp::Bvs1
}

/// Whether a step shifts or rotates, in the accumulator or in memory.
pub open spec fn is_shift(op: MicroOp) -> bool {
    op == MicroOp::Asl1 || op == MicroOp::Lsr1 || op == MicroOp::Rol1 || op == MicroOp::Ror1
}

/// A bound on the steps that one queued step can stand for: a branch may put
/// two more on the queue.
pub open spec fn step_weight(op: MicroOp) -> nat {
    if is_branch(op) {
        3
    } else {
        1
    }
}

/// The sum of the weights of the queued steps.
pub open spec fn queue_weight(queue: Seq<(MicroOp, u32)>) -> nat
    decreases queue.len(),
{
    if queue.len() == 0 {
        0
    } else {
        queue_weight(queue.drop_last()) + step_weight(queue.last().0)
    }
}

/// Whether the queued steps from position `from` on cost nothing.
pub open spec fn free_from(queue: Seq<(MicroOp, u32)>, from: int) -> bool {
    forall|i: int| from <= i < queue.len() ==> (#[trigger] queue[i]).1 == 0
}

/// What decoding asks of the bus for an instruction: nothing for the
/// instructions that work on registers, flags or the stack, a write for the
/// stores, a read for the rest.
pub open spec fn memory_op_of(inst_type: InstructionType) -> Option<MemoryOp> {
    match inst_type {
        InstructionType::STA | InstructionType::STX | InstructionType::STY => Some(
            MemoryOp::Write,
        ),
        InstructionType::ADC
        | InstructionType::AND
        | InstructionType::ASL
        | InstructionType::BCC
        | InstructionType::BCS
        | InstructionType::BEQ
        | InstructionType::BIT
        | InstructionType::BMI
        | InstructionType::BNE
        | InstructionType::BPL
        | InstructionType::BVC
        | InstructionType::BVS
        | InstructionType::CMP
        | InstructionType::CPX
        | InstructionType::CPY
        | InstructionType::DEC
        | InstructionType::EOR
        | InstructionType::INC
        | InstructionType::JMP
        | InstructionType::JSR
        | InstructionType::LDA
        | InstructionType::LDX
        | InstructionType::LDY
        | InstructionType::LSR
        | InstructionType::ORA
        | InstructionType::ROL
        | InstructionType::ROR
        | InstructionType::SBC => Some(MemoryOp::Read),
        _ => None,
    }
}

/// The steps that carry out an instruction once its operand is resolved,
/// each with its cost in bus cycles.
pub open spec fn handler_ops(inst_type: InstructionType) -> Seq<(MicroOp, u32)> {
    match inst_type {
        InstructionType::Illegal => seq![],
        InstructionType::ADC => seq![(MicroOp::Adc1, 0u32)],
        InstructionType::AND => seq![(MicroOp::And1, 0u32)],
        InstructionType::ASL => seq![(MicroOp::Asl1, 0u32)],
        InstructionType::BCC => seq![(MicroOp::Bcc1, 0u32)],
        InstructionType::BCS => seq![(MicroOp::Bcs1, 0u32)],
        InstructionType::BEQ => seq![(MicroOp::Beq1, 0u32)],
        InstructionType::BIT => seq![(MicroOp::Bit1, 0u32)],
        InstructionType::BMI => seq![(MicroOp::Bmi1, 0u32)],
        InstructionType::BNE => seq![(MicroOp::Bne1, 0u32)],
        InstructionType::BPL => seq![(MicroOp::Bpl1, 0u32)],
        InstructionType::BRK => seq![
            (MicroOp::Brk1, 1u32),
            (MicroOp::Brk2, 1u32),
            (MicroOp::Brk3, 1u32),
            (MicroOp::Brk4, 1u32),
        ],
        InstructionType::BVC => seq![(MicroOp::Bvc1, 0u32)],
        InstructionType::BVS => seq![(MicroOp::Bvs1, 0u32)],
        InstructionType::CLC => seq![(MicroOp::Clc1, 0u32)],
        InstructionType::CLD => seq![(MicroOp::Cld1, 0u32)],
        InstructionType::CLI => seq![(MicroOp::Cli1, 0u32)],
        InstructionType::CLV => seq![(MicroOp::Clv1, 0u32)],
        InstructionType::CMP => seq![(MicroOp::Cmp1, 0u32)],
        InstructionType::CPX => seq![(MicroOp::Cpx1, 0u32)],
        InstructionType::CPY => seq![(MicroOp::Cpy1, 0u32)],
        InstructionType::DEC => seq![(MicroOp::Dec1, 1u32), (MicroOp::Dec2, 1u32)],
        InstructionType::DEX => seq![(MicroOp::Dex1, 0u32)],
        InstructionType::DEY => seq![(MicroOp::Dey1, 0u32)],
        InstructionType::EOR => seq![(MicroOp::Eor1, 0u32)],
        InstructionType::INC => seq![(MicroOp::Inc1, 1u32), (MicroOp::Inc2, 1u32)],
        InstructionType::INX => seq![(MicroOp::Inx1, 0u32)],
        InstructionType::INY => seq![(MicroOp::Iny1, 0u32)],
        InstructionType::JMP => seq![(MicroOp::Jmp1, 0u32)],
        InstructionType::JSR => seq![(MicroOp::Jsr1, 1u32), (MicroOp::Jsr2, 1u32)],
        InstructionType::LDA => seq![(MicroOp::Lda1, 0u32)],
        InstructionType::LDX => seq![(MicroOp::Ldx1, 0u32)],
        InstructionType::LDY => seq![(MicroOp::Ldy1, 0u32)],
        InstructionType::LSR => seq![(MicroOp::Lsr1, 0u32)],
        InstructionType::NOP => seq![],
        InstructionType::ORA => seq![(MicroOp::Ora1, 0u32)],
        InstructionType::PHA => seq![(MicroOp::Pha1, 1u32)],
        InstructionType::PHP => seq![(MicroOp::Php1, 1u32)],
        InstructionType::PLA => seq![(MicroOp::Pla1, 1u32), (MicroOp::Nop, 1u32)],
        InstructionType::PLP => seq![(MicroOp::Plp1, 1u32), (MicroOp::Nop, 1u32)],
        InstructionType::ROL => seq![(MicroOp::Rol1, 0u32)],
        InstructionType::ROR => seq![(MicroOp::Ror1, 0u32)],
        InstructionType::RTI => seq![
            (MicroOp::Rti1, 1u32),
            (MicroOp::Rti2, 1u32),
            (MicroOp::Rti3, 1u32),
        ],
        InstructionType::RTS => seq![
            (MicroOp::Rts1, 1u32),
            (MicroOp::Nop, 1u32),
            (MicroOp::Rts2, 1u32),
            (MicroOp::Nop, 1u32),
        ],
        InstructionType::SBC => seq![(MicroOp::Sbc1, 0u32)],
        InstructionType::SEC => seq![(MicroOp::Sec1, 0u32)],
        InstructionType::SED => seq![(MicroOp::Sed1, 0u32)],
        InstructionType::SEI => seq![(MicroOp::Sei1, 0u32)],
        InstructionType::STA => seq![],
        InstructionType::STX => seq![],
        InstructionType::STY => seq![],
        InstructionType::TAX => seq![(MicroOp::Tax1, 0u32)],
        InstructionType::TAY => seq![(MicroOp::Tay1, 0u32)],
        InstructionType::TSX => seq![(MicroOp::Tsx1, 0u32)],
        InstructionType::TXA => seq![(MicroOp::Txa1, 0u32)],
        InstructionType::TXS => seq![(MicroOp::Txs1, 0u32)],
        InstructionType::TYA => seq![(MicroOp::Tya1, 0u32)],
    }
}

/// What the processor holds: its registers, the instruction in flight with
/// the operand bytes fetched so far, the queue of steps still to run, and the
/// bus it owns.
#[verifier::ext_equal]
pub struct CpuView {
    /// Clock cycles since power-on or reset; zero before the start-up.
    pub cycle: u64,
    /// The cycle in which the opcode of the instruction in flight was fetched.
    pub cycle_debug: u64,
    /// The opcode that was fetched and not decoded to the end yet.
    pub curr_inst_byte: Option<u8>,
    /// The instruction in flight.
    pub curr_inst: Option<Instruction>,
    /// The operand bytes fetched so far.
    pub operands: Seq<u8>,
    /// The operand bytes that the instruction in flight takes.
    pub num_operands: usize,
    /// The operand value.
    pub value: u8,
    /// The effective address.
    pub addr: u16,
    /// The byte that a store puts on the bus.
    pub write: u8,
    /// The steps still to run, each with its cost.
    pub inst_queue: Seq<(MicroOp, u32)>,
    /// Whether the instruction in flight is in the trace.
    pub traced: bool,
    pub reg_a: u8,
    pub reg_x: u8,
    pub reg_y: u8,
    pub reg_pc: u16,
    pub reg_s: u8,
    pub status: Status,
    pub ic: InterconnectView,
    /// The unmapped address that stopped the processor, if one did.
    pub bus_fault: Option<u16>,
}

impl CpuView {
    // ---------------------------------------------------------------- state

    /// The processor is well formed: the devices are powered; the operand
    /// buffer holds no more bytes than the instruction in flight takes, which
    /// are two at most; every queued step costs 0 or 1; queued steps,
    /// operand bytes and the mark of the trace belong to an instruction in
    /// flight; and that instruction takes the operand bytes of its
    /// addressing mode, and has an addressing mode if it has a mnemonic.
    pub open spec fn wf(self) -> bool {
        &&& self.ic.wf()
        &&& self.num_operands <= 2
        &&& self.operands.len() <= self.num_operands
        &&& forall|i: int| 0 <= i < self.inst_queue.len() ==> (#[trigger] self.inst_queue[i]).1 <= 1
        &&& self.inst_queue.len() > 0 ==> self.curr_inst is Some
        &&& self.operands.len() > 0 ==> self.curr_inst is Some
        &&& self.traced ==> self.curr_inst is Some
        &&& self.curr_inst matches Some(inst) ==> {
            &&& self.num_operands == operand_count(inst.addr_mode)
            &&& inst.inst_type != InstructionType::Illegal ==> inst.addr_mode
                != AddressingMode::Illegal
        }
    }

    /// No instruction is in flight: the next byte that is fetched is an
    /// opcode.
    pub open spec fn idle(self) -> bool {
        &&& self.curr_inst is None
        &&& self.curr_inst_byte is None
        &&& self.inst_queue.len() == 0
        &&& self.operands.len() == 0
    }

    /// Whether the instruction in flight works on the accumulator.
    pub open spec fn on_accumulator(self) -> bool {
        self.curr_inst matches Some(inst) && inst.addr_mode == AddressingMode::Accumulator
    }

    /// The carry flag as a number.
    pub open spec fn carry_in(self) -> int {
        if self.status.flag(CARRY) {
            1
        } else {
            0
        }
    }

    // ------------------------------------------------------------ registers

    /// A value goes to the accumulator and sets the zero and negative flags.
    pub open spec fn load_a(self, value: u8) -> CpuView {
        CpuView { reg_a: value, status: self.status.with_zn(value), ..self }
    }

    /// A value goes to the X register and sets the zero and negative flags.
    pub open spec fn load_x(self, value: u8) -> CpuView {
        CpuView { reg_x: value, status: self.status.with_zn(value), ..self }
    }

    /// A value goes to the Y register and sets the zero and negative flags.
    pub open spec fn load_y(self, value: u8) -> CpuView {
        CpuView { reg_y: value, status: self.status.with_zn(value), ..self }
    }

    /// A value goes to the stack pointer and sets the zero and negative flags.
    pub open spec fn load_s(self, value: u8) -> CpuView {
        CpuView { reg_s: value, status: self.status.with_zn(value), ..self }
    }

    /// One flag is set or cleared.
    pub open spec fn with_flag(self, mask: u8, value: bool) -> CpuView {
        CpuView { status: self.status.with_flag(mask, value), ..self }
    }

    // ---------------------------------------------------------------- stack

    /// The address that the stack pointer points at.
    pub open spec fn stack_top(self) -> u16 {
        (STACK_BASE + self.reg_s) as u16
    }

    /// A byte goes on the stack: it is written where the stack pointer
    /// points, and the stack pointer moves down, from 0x00 round to 0xFF.
    pub open spec fn push(self, value: u8) -> CpuView {
        CpuView {
            ic: self.ic.write(self.stack_top(), value),
            reg_s: wrap8(self.reg_s - 1),
            ..self
        }
    }

    /// The stack pointer moves up, from 0xFF round to 0x00.
    pub open spec fn pull(self) -> CpuView {
        CpuView { reg_s: wrap8(self.reg_s + 1), ..self }
    }

    /// The byte that the next pull takes from the stack.
    pub open spec fn pulled(self) -> u8 {
        self.ic.read(self.pull().stack_top())
    }

    // ----------------------------------------------------------- arithmetic

    /// Add with carry: the accumulator takes the sum of itself, the operand
    /// and the carry flag. The carry flag says whether the unsigned sum left
    /// eight bits, the overflow flag whether the signed sum left the range
    /// of a signed byte. Decimal mode is not looked at.
    pub open spec fn adc(self) -> CpuView {
        let sum = self.reg_a + self.value + self.carry_in();
        let signed_sum = signed(self.reg_a) + signed(self.value) + self.carry_in();
        let result = wrap8(sum);
        CpuView {
            reg_a: result,
            status: self.status.with_flag(CARRY, sum > 0xFF).with_flag(ZERO, result == 0).with_flag(
                OVERFLOW,
                signed_sum < -128 || signed_sum > 127,
            ).with_flag(NEGATIVE, result >= 0x80),
            ..self
        }
    }

    /// Subtract with borrow: the accumulator loses the operand and, if the
    /// carry flag is clear, one more. The carry flag says that no borrow was
    /// needed, the overflow flag that the signed difference left the range
    /// of a signed byte. Decimal mode is not looked at.
    pub open spec fn sbc(self) -> CpuView {
        let difference = self.reg_a - self.value - (1 - self.carry_in());
        let signed_difference = signed(self.reg_a) - signed(self.value) - (1 - self.carry_in());
        let result = wrap8(difference);
        CpuView {
            reg_a: result,
            status: self.status.with_flag(CARRY, difference >= 0).with_flag(
                ZERO,
                result == 0,
            ).with_flag(OVERFLOW, signed_difference < -128 || signed_difference > 127).with_flag(
                NEGATIVE,
                result >= 0x80,
            ),
            ..self
        }
    }

    /// Compare: the flags of `register` minus the operand. The carry flag
    /// says that the register is not below the operand.
    pub open spec fn compare(self, register: u8) -> CpuView {
        CpuView {
            status: self.status.with_flag(CARRY, register >= self.value).with_zn(
                wrap8(register - self.value),
            ),
            ..self
        }
    }

    /// Bit test: the zero flag says whether accumulator and operand share no
    /// bit; the overflow and negative flags take bits 6 and 7 of the operand.
    pub open spec fn bit_test(self) -> CpuView {
        CpuView {
            status: self.status.with_flag(ZERO, self.reg_a & self.value == 0).with_flag(
                OVERFLOW,
                self.value & 0x40 != 0,
            ).with_flag(NEGATIVE, self.value & 0x80 != 0),
            ..self
        }
    }

    // --------------------------------------------------------------- shifts

    /// What a shift works on: the accumulator, or the operand read from
    /// memory.
    pub open spec fn shift_source(self) -> u8 {
        if self.on_accumulator() {
            self.reg_a
        } else {
            self.value
        }
    }

    /// A shift puts its result back where its source came from, the bit that
    /// left into the carry flag, and sets the zero and negative flags.
    pub open spec fn shifted(self, result: u8, carry: bool) -> CpuView {
        let status = self.status.with_flag(CARRY, carry).with_zn(result);
        if self.on_accumulator() {
            CpuView { reg_a: result, status, ..self }
        } else {
            CpuView { ic: self.ic.write(self.addr, result), status, ..self }
        }
    }

    /// Shift left: bit 7 leaves, bit 0 is clear.
    pub open spec fn asl(self) -> CpuView {
        let source = self.shift_source();
        self.shifted(wrap8(source * 2), source >= 0x80)
    }

    /// Shift right: bit 0 leaves, bit 7 is clear.
    pub open spec fn lsr(self) -> CpuView {
        let source = self.shift_source();
        self.shifted(source / 2, source % 2 == 1)
    }

    /// Rotate left: bit 7 leaves, the carry flag comes in as bit 0.
    pub open spec fn rol(self) -> CpuView {
        let source = self.shift_source();
        self.shifted(wrap8(source * 2 + self.carry_in()), source >= 0x80)
    }

    /// Rotate right: bit 0 leaves, the carry flag comes in as bit 7.
    pub open spec fn ror(self) -> CpuView {
        let source = self.shift_source();
        self.shifted((source / 2 + 0x80 * self.carry_in()) as u8, source % 2 == 1)
    }

    // ----------------------------------------------------------- the memory

    /// The operand is read from the effective address.
    pub open spec fn read_operand(self) -> CpuView {
        CpuView { value: self.ic.read(self.addr), ..self }
    }

    /// The staged byte is written to the effective address.
    pub open spec fn write_staged(self) -> CpuView {
        CpuView { ic: self.ic.write(self.addr, self.write), ..self }
    }

    /// The operand is written back unchanged, as the processor does before it
    /// writes the changed one.
    pub open spec fn write_back(self) -> CpuView {
        CpuView { ic: self.ic.write(self.addr, self.value), ..self }
    }

    /// The operand plus `delta` is written to the effective address and sets
    /// the zero and negative flags.
    pub open spec fn write_changed(self, delta: int) -> CpuView {
        let result = wrap8(self.value + delta);
        CpuView {
            ic: self.ic.write(self.addr, result),
            status: self.status.with_zn(result),
            ..self
        }
    }

    // ------------------------------------------------------------- branches

    /// Whether a branch to the effective address leaves the page of the
    /// instruction that follows the branch.
    pub open spec fn crosses_page(self) -> bool {
        self.reg_pc / 0x100 != self.addr / 0x100
    }

    /// A branch: if it is taken, the program counter goes to the effective
    /// address, and one idle cycle is queued, or two if the target lies in
    /// another page. If it is not taken, nothing changes.
    pub open spec fn branch(self, taken: bool) -> CpuView {
        if !taken {
            self
        } else if self.crosses_page() {
            CpuView {
                inst_queue: self.inst_queue.push((MicroOp::Nop, 1u32)).push((MicroOp::Nop, 1u32)),
                reg_pc: self.addr,
                ..self
            }
        } else {
            CpuView {
                inst_queue: self.inst_queue.push((MicroOp::Nop, 1u32)),
                reg_pc: self.addr,
                ..self
            }
        }
    }

    // ---------------------------------------------------------------- steps

    /// The processor after one step has run.
    #[verifier::opaque]
    pub open spec fn apply(self, op: MicroOp) -> CpuView {
        match op {
            MicroOp::ReadMem => self.read_operand(),
            MicroOp::WriteMem => self.write_staged(),
            MicroOp::Adc1 => self.adc(),
            MicroOp::And1 => self.load_a(self.reg_a & self.value),
            MicroOp::Asl1 => self.asl(),
            MicroOp::Bcc1 => self.branch(!self.status.flag(CARRY)),
            MicroOp::Bcs1 => self.branch(self.status.flag(CARRY)),
            MicroOp::Beq1 => self.branch(self.status.flag(ZERO)),
            MicroOp::Bit1 => self.bit_test(),
            MicroOp::Bmi1 => self.branch(self.status.flag(NEGATIVE)),
            MicroOp::Bne1 => self.branch(!self.status.flag(ZERO)),
            MicroOp::Bpl1 => self.branch(!self.status.flag(NEGATIVE)),
            MicroOp::Brk1 => self.with_flag(BREAK, true).push(high_byte(self.reg_pc)),
            MicroOp::Brk2 => self.push(low_byte(self.reg_pc)),
            MicroOp::Brk3 => self.push(self.status.pushed()),
            MicroOp::Brk4 => CpuView { reg_pc: self.ic.read_word(IRQ_VECTOR_ADDR), ..self },
            MicroOp::Bvc1 => self.branch(!self.status.flag(OVERFLOW)),
            MicroOp::Bvs1 => self.branch(self.status.flag(OVERFLOW)),
            MicroOp::Clc1 => self.with_flag(CARRY, false),
            MicroOp::Cld1 => self.with_flag(DECIMAL, false),
            MicroOp::Cli1 => self.with_flag(INTERRUPT_DISABLE, false),
            MicroOp::Clv1 => self.with_flag(OVERFLOW, false),
            MicroOp::Cmp1 => self.compare(self.reg_a),
            MicroOp::Cpx1 => self.compare(self.reg_x),
            MicroOp::Cpy1 => self.compare(self.reg_y),
            MicroOp::Dec1 => self.write_back(),
            MicroOp::Dec2 => self.write_changed(-1),
            MicroOp::Dex1 => self.load_x(wrap8(self.reg_x - 1)),
            MicroOp::Dey1 => self.load_y(wrap8(self.reg_y - 1)),
            MicroOp::Eor1 => self.load_a(self.reg_a ^ self.value),
            MicroOp::Inc1 => self.write_back(),
            MicroOp::Inc2 => self.write_changed(1),
            MicroOp::Inx1 => self.load_x(wrap8(self.reg_x + 1)),
            MicroOp::Iny1 => self.load_y(wrap8(self.reg_y + 1)),
            MicroOp::Jmp1 => CpuView { reg_pc: self.addr, ..self },
            MicroOp::Jsr1 => self.push(high_byte(wrap16(self.reg_pc - 1))),
            MicroOp::Jsr2 => CpuView {
                reg_pc: self.addr,
                ..self.push(low_byte(wrap16(self.reg_pc - 1)))
            },
            MicroOp::Lda1 => self.load_a(self.value),
            MicroOp::Ldx1 => self.load_x(self.value),
            MicroOp::Ldy1 => self.load_y(self.value),
            MicroOp::Lsr1 => self.lsr(),
            MicroOp::Nop => self,
            MicroOp::Ora1 => self.load_a(self.reg_a | self.value),
            MicroOp::Pha1 => self.push(self.reg_a),
            MicroOp::Php1 => self.push(self.status.pushed()),
            MicroOp::Pla1 => self.pull().load_a(self.pulled()),
            MicroOp::Plp1 => CpuView { status: Status::pulled(self.pulled()), ..self.pull() },
            MicroOp::Rol1 => self.rol(),
            MicroOp::Ror1 => self.ror(),
            MicroOp::Rti1 => CpuView { status: Status::pulled(self.pulled()), ..self.pull() },
            MicroOp::Rti2 => CpuView { reg_pc: self.pulled() as u16, ..self.pull() },
            MicroOp::Rti3 => CpuView {
                reg_pc: word_of(self.pulled(), low_byte(self.reg_pc)),
                ..self.pull()
            },
            MicroOp::Rts1 => CpuView { reg_pc: self.pulled() as u16, ..self.pull() },
            MicroOp::Rts2 => CpuView {
                reg_pc: wrap16(self.reg_pc + self.pulled() * 0x100 + 1),
                ..self.pull()
            },
            MicroOp::Sbc1 => self.sbc(),
            MicroOp::Sec1 => self.with_flag(CARRY, true),
            MicroOp::Sed1 => self.with_flag(DECIMAL, true),
            MicroOp::Sei1 => self.with_flag(INTERRUPT_DISABLE, true),
            MicroOp::Tax1 => self.load_x(self.reg_a),
            MicroOp::Tay1 => self.load_y(self.reg_a),
            MicroOp::Tsx1 => self.load_x(self.reg_s),
            MicroOp::Txa1 => self.load_a(self.reg_x),
            MicroOp::Txs1 => self.load_s(self.reg_x),
            MicroOp::Tya1 => self.load_a(self.reg_y),
        }
    }

    /// Whether a step puts the effective address on the bus.
    pub open spec fn uses_effective_address(self, op: MicroOp) -> bool {
        match op {
            MicroOp::ReadMem
            | MicroOp::WriteMem
            | MicroOp::Dec1
            | MicroOp::Dec2
            | MicroOp::Inc1
            | MicroOp::Inc2 => true,
            MicroOp::Asl1 | MicroOp::Lsr1 | MicroOp::Rol1 | MicroOp::Ror1 => !self.on_accumulator(),
            _ => false,
        }
    }

    /// Whether a step works on the stack.
    pub open spec fn uses_stack(op: MicroOp) -> bool {
        match op {
            MicroOp::Brk1
            | MicroOp::Brk2
            | MicroOp::Brk3
            | MicroOp::Jsr1
            | MicroOp::Jsr2
            | MicroOp::Pha1
            | MicroOp::Php1
            | MicroOp::Pla1
            | MicroOp::Plp1
            | MicroOp::Rti1
            | MicroOp::Rti2
            | MicroOp::Rti3
            | MicroOp::Rts1
            | MicroOp::Rts2 => true,
            _ => false,
        }
    }

    /// Whether a step can run. A shift needs an instruction to take its mode
    /// from. A step that puts the effective address on the bus needs a device
    /// to answer there. A step that uses the bus at all needs the devices
    /// powered; the stack and the interrupt vector are then always mapped.
    pub open spec fn can_apply(self, op: MicroOp) -> bool {
        &&& is_shift(op) ==> self.curr_inst is Some
        &&& self.uses_effective_address(op) ==> self.ic.wf() && mapped(self.addr)
        &&& Self::uses_stack(op) || op == MicroOp::Brk4 ==> self.ic.wf()
    }

    // ----------------------------------------------------------- addressing

    /// The address that the two operand bytes spell, low byte first.
    pub open spec fn absolute_operand(self) -> u16 {
        word_of(self.operands[1], self.operands[0])
    }

    /// The little-endian word in the zero page at `pointer`. Its high byte
    /// lies at the next address within the zero page, which follows 0xFF
    /// with 0x00.
    pub open spec fn zero_page_word(self, pointer: u8) -> u16 {
        word_of(self.ic.read(wrap8(pointer + 1) as u16), self.ic.read(pointer as u16))
    }

    /// The effective address that an addressing mode gives for the operand
    /// bytes. Sums within the zero page stay in it; sums of sixteen bits
    /// go round at the top of the address space. No mode with an index pays
    /// for crossing a page.
    pub open spec fn effective_address(self, addr_mode: AddressingMode) -> u16 {
        match addr_mode {
            AddressingMode::ZeroPage => self.operands[0] as u16,
            AddressingMode::ZeroPageIndexedX => wrap8(self.operands[0] + self.reg_x) as u16,
            AddressingMode::ZeroPageIndexedY => wrap8(self.operands[0] + self.reg_y) as u16,
            AddressingMode::Absolute => self.absolute_operand(),
            AddressingMode::AbsoluteIndexedX => wrap16(self.absolute_operand() + self.reg_x),
            AddressingMode::AbsoluteIndexedY => wrap16(self.absolute_operand() + self.reg_y),
            AddressingMode::Indirect => self.ic.read_word(self.absolute_operand()),
            AddressingMode::IndexedIndirect => self.zero_page_word(
                wrap8(self.operands[0] + self.reg_x),
            ),
            AddressingMode::IndirectIndexed => wrap16(
                self.zero_page_word(self.operands[0]) + self.reg_y,
            ),
            AddressingMode::Relative => wrap16(self.reg_pc + signed(self.operands[0])),
            _ => self.addr,
        }
    }

    /// What an addressing mode stages: the immediate and accumulator modes
    /// the operand value, the implicit mode nothing, every other mode the
    /// effective address.
    pub open spec fn staged(self, addr_mode: AddressingMode) -> CpuView {
        match addr_mode {
            AddressingMode::Immediate => CpuView { value: self.operands[0], ..self },
            AddressingMode::Accumulator => CpuView { value: self.reg_a, ..self },
            AddressingMode::Implicit | AddressingMode::Illegal => self,
            _ => CpuView { addr: self.effective_address(addr_mode), ..self },
        }
    }

    /// Whether an instruction that reads its operand needs a bus cycle for
    /// it: not if the operand is at hand or there is none, and not a jump,
    /// which wants the address only.
    pub open spec fn needs_read(inst: Instruction) -> bool {
        &&& inst.addr_mode != AddressingMode::Immediate
        &&& inst.addr_mode != AddressingMode::Accumulator
        &&& inst.addr_mode != AddressingMode::Implicit
        &&& inst.addr_mode != AddressingMode::Relative
        &&& inst.inst_type != InstructionType::JMP
    }

    /// Whether the operand of the instruction in flight can be resolved: the
    /// instruction has an addressing mode and its operand bytes, and the
    /// addresses that the resolver itself reads are mapped.
    pub open spec fn can_resolve(self) -> bool {
        &&& self.curr_inst matches Some(inst)
        &&& inst.addr_mode != AddressingMode::Illegal
        &&& self.operands.len() >= operand_count(inst.addr_mode)
        &&& (inst.addr_mode == AddressingMode::IndexedIndirect || inst.addr_mode
            == AddressingMode::IndirectIndexed || inst.addr_mode == AddressingMode::Indirect)
            ==> self.ic.wf()
        &&& inst.addr_mode == AddressingMode::Indirect ==> mapped(self.absolute_operand())
            && mapped(next_address(self.absolute_operand()))
    }

    /// The processor after the operand of the instruction in flight was
    /// resolved: the addressing mode has staged value or address, and the
    /// bus cycle that the instruction needs for its operand is queued.
    pub open spec fn resolve(self, op: MemoryOp) -> CpuView {
        let inst = self.curr_inst.unwrap();
        let staged = self.staged(inst.addr_mode);
        match op {
            MemoryOp::Read => if Self::needs_read(inst) {
                CpuView { inst_queue: staged.inst_queue.push((MicroOp::ReadMem, 1u32)), ..staged }
            } else {
                staged
            },
            MemoryOp::Write => CpuView {
                inst_queue: staged.inst_queue.push((MicroOp::WriteMem, 1u32)),
                ..staged
            },
        }
    }

    // ---------------------------------------------------------------- fetch

    /// The fetch of a clock cycle. While steps wait in the queue, nothing is
    /// fetched. Else the byte at the program counter goes to the operand
    /// buffer, if an instruction waits for operands, and to the opcode slot
    /// if not, and the program counter moves on. If no device answers at the
    /// program counter, the processor stops.
    pub open spec fn fetch(self) -> CpuView {
        if self.inst_queue.len() > 0 {
            self
        } else if !mapped(self.reg_pc) {
            CpuView { bus_fault: Some(self.reg_pc), ..self }
        } else {
            let byte = self.ic.read(self.reg_pc);
            if self.curr_inst is Some && self.operands.len() < self.num_operands {
                CpuView {
                    operands: self.operands.push(byte),
                    reg_pc: next_address(self.reg_pc),
                    ..self
                }
            } else {
                CpuView {
                    curr_inst_byte: Some(byte),
                    cycle_debug: self.cycle,
                    reg_pc: next_address(self.reg_pc),
                    ..self
                }
            }
        }
    }

    // --------------------------------------------------------------- decode

    /// The first half of decoding: a fresh opcode, one with no operand byte
    /// behind it yet, gives the instruction in flight and the number of its
    /// operand bytes.
    pub open spec fn identified(self) -> CpuView {
        match self.curr_inst_byte {
            Some(byte) => if self.operands.len() == 0 {
                CpuView {
                    curr_inst: Some(
                        Instruction {
                            inst_type: documented_type(byte),
                            addr_mode: documented_mode(byte),
                        },
                    ),
                    num_operands: operand_count(documented_mode(byte)) as usize,
                    ..self
                }
            } else {
                self
            },
            None => self,
        }
    }

    /// The unmapped address that resolving an indirect operand would read,
    /// if there is one.
    pub open spec fn pointer_fault(self) -> Option<u16> {
        if self.curr_inst matches Some(inst) && inst.addr_mode == AddressingMode::Indirect {
            if !mapped(self.absolute_operand()) {
                Some(self.absolute_operand())
            } else if !mapped(next_address(self.absolute_operand())) {
                Some(next_address(self.absolute_operand()))
            } else {
                None
            }
        } else {
            None
        }
    }

    /// The byte that a store stages: the register that it stores.
    pub open spec fn store_source(self, inst_type: InstructionType) -> u8 {
        match inst_type {
            InstructionType::STX => self.reg_x,
            InstructionType::STY => self.reg_y,
            _ => self.reg_a,
        }
    }

    /// The processor after the operand of the instruction in flight was
    /// resolved, as far as the instruction has one. A store stages the
    /// register that it stores.
    pub open spec fn operand_resolved(self) -> CpuView {
        let inst = self.curr_inst.unwrap();
        match memory_op_of(inst.inst_type) {
            None => self,
            Some(MemoryOp::Read) => self.resolve(MemoryOp::Read),
            Some(MemoryOp::Write) => (CpuView {
                write: self.store_source(inst.inst_type),
                ..self
            }).resolve(MemoryOp::Write),
        }
    }

    /// The processor after the operand of the instruction in flight was
    /// resolved and the steps of the instruction were queued behind it.
    pub open spec fn queued(self) -> CpuView {
        let resolved = self.operand_resolved();
        CpuView {
            inst_queue: resolved.inst_queue + handler_ops(self.curr_inst.unwrap().inst_type),
            ..resolved
        }
    }

    /// The second half of decoding, once the operand bytes are there: the
    /// opcode slot is cleared, the operand is resolved, and the steps of the
    /// instruction follow in the queue. An instruction that would cost
    /// nothing, having no operand byte to fetch and no step with a cost, gets
    /// one idle cycle at the end, so that no instruction is shorter than two
    /// cycles.
    pub open spec fn completed(self) -> CpuView {
        let queued = (CpuView { curr_inst_byte: None, ..self }).queued();
        if self.num_operands == 0 && free_from(queued.inst_queue, self.inst_queue.len() as int) {
            CpuView { inst_queue: queued.inst_queue.push((MicroOp::Nop, 1u32)), ..queued }
        } else {
            queued
        }
    }

    /// Whether decoding comes to its end in this clock cycle: an opcode is
    /// pending, its operand bytes are there, and resolving the operand reads
    /// no unmapped address.
    pub open spec fn decode_completes(self) -> bool {
        &&& self.curr_inst_byte is Some
        &&& self.identified().operands.len() >= self.identified().num_operands
        &&& self.identified().pointer_fault() is None
    }

    /// The decode of a clock cycle. Without a pending opcode nothing happens.
    /// A fresh opcode is identified. While operand bytes are missing, that is
    /// all. Once they are there, decoding is completed, or the processor
    /// stops at the unmapped address that the resolver would read.
    pub open spec fn decode(self) -> CpuView {
        if self.curr_inst_byte is None {
            self
        } else {
            let identified = self.identified();
            if identified.operands.len() < identified.num_operands {
                identified
            } else {
                match identified.pointer_fault() {
                    Some(address) => CpuView { bus_fault: Some(address), ..identified },
                    None => identified.completed(),
                }
            }
        }
    }

    // -------------------------------------------------------------- execute

    /// The processor with the first step taken off the queue.
    pub open spec fn popped(self) -> CpuView {
        CpuView { inst_queue: self.inst_queue.drop_first(), ..self }
    }

    /// Runs queued steps while the budget lasts: the next step runs if its
    /// cost, added to what was spent, stays below the budget. A step that
    /// would put an unmapped address on the bus stops the processor and
    /// stays on the queue.
    pub open spec fn drain(self, spent: nat, budget: nat) -> CpuView
        decreases budget - spent, queue_weight(self.inst_queue),
    {
        if self.inst_queue.len() == 0 {
            self
        } else {
            let op = self.inst_queue[0].0;
            let cost = self.inst_queue[0].1;
            if spent + cost >= budget {
                self
            } else if self.uses_effective_address(op) && !mapped(self.addr) {
                CpuView { bus_fault: Some(self.addr), ..self }
            } else {
                proof {
                    lemma_step_shrinks_queue(self);
                }
                self.popped().apply(op).drain(spent + cost as nat, budget)
            }
        }
    }

    /// What one clock cycle may spend on steps. In the cycle in which
    /// decoding came to its end the bus was used for the fetch, and only
    /// steps without cost run. In any other cycle one step with a cost runs,
    /// and any number without.
    pub open spec fn budget(only_free: bool) -> nat {
        if only_free {
            1
        } else {
            2
        }
    }

    /// Whether an instruction is in flight, has its operand bytes and can
    /// run.
    pub open spec fn ready(self) -> bool {
        self.curr_inst is Some && self.operands.len() >= self.num_operands
    }

    /// The execute of a clock cycle. Without an instruction in flight, and
    /// while operand bytes are missing, nothing runs. Else queued steps run
    /// within the budget. When the queue is empty, the instruction is over:
    /// it leaves, and its operand bytes with it.
    pub open spec fn execute(self, only_free: bool) -> CpuView {
        if !self.ready() {
            self
        } else {
            let drained = (CpuView { traced: true, ..self }).drain(0, Self::budget(only_free));
            if drained.inst_queue.len() == 0 {
                CpuView { traced: false, curr_inst: None, operands: Seq::empty(), ..drained }
            } else {
                drained
            }
        }
    }

    /// What the trace gets of the instruction in flight: the address of its
    /// opcode, the registers, and the cycle of its fetch.
    pub open spec fn trace_entry(self) -> TraceEntry {
        TraceEntry {
            pc: wrap16(self.reg_pc - 1 - self.num_operands),
            a: self.reg_a,
            x: self.reg_x,
            y: self.reg_y,
            p: self.status.0,
            sp: self.reg_s,
            cycle: self.cycle_debug,
        }
    }

    /// What execute adds to the trace: an entry for the instruction in
    /// flight, the first time that it is ready.
    pub open spec fn execute_trace(self) -> Option<TraceEntry> {
        if self.ready() && !self.traced {
            Some(self.trace_entry())
        } else {
            None
        }
    }

    // ----------------------------------------------------------------- tick

    /// The processor after the start-up sequence: the program counter holds
    /// what the reset vector says, and seven cycles have passed.
    pub open spec fn started(self) -> CpuView {
        CpuView {
            reg_pc: self.ic.read_word(RESET_VECTOR_ADDR),
            cycle: STARTUP_CYCLES,
            ..self
        }
    }

    /// The processor after fetch, decode and execute of one clock cycle, the
    /// cycle not counted yet. A stop ends the cycle where it happens.
    pub open spec fn worked(self) -> CpuView {
        let fetched = self.fetch();
        if fetched.bus_fault is Some {
            fetched
        } else {
            let decoded = fetched.decode();
            if decoded.bus_fault is Some {
                decoded
            } else {
                decoded.execute(fetched.decode_completes())
            }
        }
    }

    /// The processor after one clock cycle. A stopped processor stays as it
    /// is. The first cycle after power-on or reset is the start-up. Every
    /// other cycle fetches, decodes and executes, and is counted if the
    /// processor did not stop in it. The count stays at its greatest value
    /// once it has reached it.
    pub open spec fn tick(self) -> CpuView {
        if self.bus_fault is Some {
            self
        } else if self.cycle == 0 {
            self.started()
        } else {
            let worked = self.worked();
            if worked.bus_fault is Some {
                worked
            } else {
                CpuView { cycle: count_up(worked.cycle, 1), ..worked }
            }
        }
    }

    /// What one clock cycle adds to the trace.
    pub open spec fn tick_trace(self) -> Option<TraceEntry> {
        if self.bus_fault is Some || self.cycle == 0 {
            None
        } else {
            let fetched = self.fetch();
            if fetched.bus_fault is Some {
                None
            } else {
                let decoded = fetched.decode();
                if decoded.bus_fault is Some {
                    None
                } else {
                    decoded.execute_trace()
                }
            }
        }
    }

    /// The processor after `count` clock cycles.
    pub open spec fn ticks(self, count: nat) -> CpuView
        decreases count,
    {
        if count == 0 {
            self
        } else {
            self.ticks((count - 1) as nat).tick()
        }
    }

    /// The trace of `count` clock cycles.
    pub open spec fn trace(self, count: nat) -> Seq<TraceEntry>
        decreases count,
    {
        if count == 0 {
            Seq::empty()
        } else {
            let before = self.trace((count - 1) as nat);
            match self.ticks((count - 1) as nat).tick_trace() {
                Some(entry) => before.push(entry),
                None => before,
            }
        }
    }

    // ------------------------------------------------------------ lifecycle

    /// The processor before power was ever applied: everything is clear, and
    /// the devices hold nothing.
    pub open spec fn unpowered() -> CpuView {
        CpuView {
            cycle: 0,
            cycle_debug: 0,
            curr_inst_byte: None,
            curr_inst: None,
            operands: Seq::empty(),
            num_operands: 0,
            value: 0,
            addr: 0,
            write: 0,
            inst_queue: Seq::empty(),
            traced: false,
            reg_a: 0,
            reg_x: 0,
            reg_y: 0,
            reg_pc: 0,
            reg_s: 0,
            status: Status(0),
            ic: InterconnectView::unpowered(),
            bus_fault: None,
        }
    }

    /// The processor after power was applied: the registers are cleared, the
    /// program counter points at the reset vector, whose word the start-up
    /// will take, the stack pointer stands at 0xFD, the interrupt-disable
    /// flag and the reserved bit are set and the other flags but the break
    /// mark clear, nothing is in flight, and the start-up is due.
    pub open spec fn powered_on(self) -> CpuView {
        CpuView {
            cycle: 0,
            curr_inst_byte: None,
            curr_inst: None,
            operands: Seq::empty(),
            num_operands: 0,
            inst_queue: Seq::empty(),
            traced: false,
            reg_a: 0,
            reg_x: 0,
            reg_y: 0,
            reg_pc: RESET_VECTOR_ADDR,
            reg_s: 0xFD,
            status: self.status.with_flag(CARRY, false).with_flag(ZERO, false).with_flag(
                INTERRUPT_DISABLE,
                true,
            ).with_flag(DECIMAL, false).with_flag(ONE, true).with_flag(OVERFLOW, false).with_flag(
                NEGATIVE,
                false,
            ),
            ic: self.ic.powered_on(),
            bus_fault: None,
            ..self
        }
    }

    /// The processor after a reset: accumulator and index registers stay,
    /// the program counter takes the word that the reset vector holds, the
    /// stack pointer moves down by three, the interrupt-disable flag is set,
    /// nothing is in flight, and the start-up is due. Without powered devices
    /// there is no vector to read, and the program counter stays.
    pub open spec fn reset(self) -> CpuView {
        CpuView {
            cycle: 0,
            curr_inst_byte: None,
            curr_inst: None,
            operands: Seq::empty(),
            inst_queue: Seq::empty(),
            traced: false,
            reg_pc: if self.ic.reset().wf() {
                self.ic.reset().read_word(RESET_VECTOR_ADDR)
            } else {
                self.reg_pc
            },
            reg_s: wrap8(self.reg_s - 3),
            status: self.status.with_flag(INTERRUPT_DISABLE, true),
            ic: self.ic.reset(),
            bus_fault: None,
            ..self
        }
    }
}

/// A step that is appended adds its weight.
pub proof fn lemma_weight_push(queue: Seq<(MicroOp, u32)>, entry: (MicroOp, u32))
    ensures
        queue_weight(queue.push(entry)) == queue_weight(queue) + step_weight(entry.0),
{
    assert(queue.push(entry).drop_last() =~= queue);
}

/// The step that leaves at the front takes its weight with it.
pub proof fn lemma_weight_pop(queue: Seq<(MicroOp, u32)>)
    requires
        queue.len() > 0,
    ensures
        queue_weight(queue.drop_first()) + step_weight(queue[0].0) == queue_weight(queue),
    decreases queue.len(),
{
    if queue.len() == 1 {
        assert(queue.drop_first() =~= Seq::empty());
        assert(queue.drop_last() =~= Seq::empty());
    } else {
        lemma_weight_pop(queue.drop_last());
        assert(queue.drop_first().drop_last() =~= queue.drop_last().drop_first());
    }
}

/// A taken branch appends one idle cycle or two, an untaken one nothing.
proof fn lemma_branch_queue(state: CpuView, taken: bool)
    ensures
        queue_weight(state.branch(taken).inst_queue) <= queue_weight(state.inst_queue) + 2,
        state.branch(taken).inst_queue.len() >= state.inst_queue.len(),
        forall|i: int|
            0 <= i < state.inst_queue.len() ==> #[trigger] state.branch(taken).inst_queue[i]
                == state.inst_queue[i],
{
    let once = state.inst_queue.push((MicroOp::Nop, 1u32));
    lemma_weight_push(state.inst_queue, (MicroOp::Nop, 1u32));
    lemma_weight_push(once, (MicroOp::Nop, 1u32));
}

/// A step leaves the queue as it is, but for a branch, which may append one
/// idle cycle or two behind the steps that wait.
pub proof fn lemma_apply_queue(state: CpuView, op: MicroOp)
    ensures
        !is_branch(op) ==> state.apply(op).inst_queue == state.inst_queue,
        queue_weight(state.apply(op).inst_queue) + 1 <= queue_weight(state.inst_queue)
            + step_weight(op),
        state.apply(op).inst_queue.len() >= state.inst_queue.len(),
        forall|i: int|
            0 <= i < state.inst_queue.len() ==> #[trigger] state.apply(op).inst_queue[i]
                == state.inst_queue[i],
{
    if is_branch(op) {
        lemma_apply_branch(state, op);
    } else {
        lemma_apply_keeps_queue(state, op);
    }
}

/// A branch appends at most two idle cycles.
proof fn lemma_apply_branch(state: CpuView, op: MicroOp)
    requires
        is_branch(op),
    ensures
        queue_weight(state.apply(op).inst_queue) <= queue_weight(state.inst_queue) + 2,
        state.apply(op).inst_queue.len() >= state.inst_queue.len(),
        forall|i: int|
            0 <= i < state.inst_queue.len() ==> #[trigger] state.apply(op).inst_queue[i]
                == state.inst_queue[i],
{
    reveal(CpuView::apply);
    match op {
        MicroOp::Bcc1 => {
            lemma_branch_queue(state, !state.status.flag(CARRY));
        },
        MicroOp::Bcs1 => {
            lemma_branch_queue(state, state.status.flag(CARRY));
        },
        MicroOp::Beq1 => {
            lemma_branch_queue(state, state.status.flag(ZERO));
        },
        MicroOp::Bmi1 => {
            lemma_branch_queue(state, state.status.flag(NEGATIVE));
        },
        MicroOp::Bne1 => {
            lemma_branch_queue(state, !state.status.flag(ZERO));
        },
        MicroOp::Bpl1 => {
            lemma_branch_queue(state, !state.status.flag(NEGATIVE));
        },
        MicroOp::Bvc1 => {
            lemma_branch_queue(state, !state.status.flag(OVERFLOW));
        },
        MicroOp::Bvs1 => {
            lemma_branch_queue(state, state.status.flag(OVERFLOW));
        },
        _ => {},
    }
}

/// A step that is no branch leaves the queue as it is.
proof fn lemma_apply_keeps_queue(state: CpuView, op: MicroOp)
    requires
        !is_branch(op),
    ensures
        state.apply(op).inst_queue == state.inst_queue,
{
    reveal(CpuView::apply);
    match op {
        MicroOp::ReadMem => {
            assert(state.apply(MicroOp::ReadMem).inst_queue == state.inst_queue);
        },
        MicroOp::WriteMem => {
            assert(state.apply(MicroOp::WriteMem).inst_queue == state.inst_queue);
        },
        MicroOp::Adc1 => {
            assert(state.apply(MicroOp::Adc1).inst_queue == state.inst_queue);
        },
        MicroOp::And1 => {
            assert(state.apply(MicroOp::And1).inst_queue == state.inst_queue);
        },
        MicroOp::Asl1 => {
            assert(state.apply(MicroOp::Asl1).inst_queue == state.inst_queue);
        },
        MicroOp::Bit1 => {
            assert(state.apply(MicroOp::Bit1).inst_queue == state.inst_queue);
        },
        MicroOp::Brk1 => {
            assert(state.apply(MicroOp::Brk1).inst_queue == state.inst_queue);
        },
        MicroOp::Brk2 => {
            assert(state.apply(MicroOp::Brk2).inst_queue == state.inst_queue);
        },
        MicroOp::Brk3 => {
            assert(state.apply(MicroOp::Brk3).inst_queue == state.inst_queue);
        },
        MicroOp::Brk4 => {
            assert(state.apply(MicroOp::Brk4).inst_queue == state.inst_queue);
        },
        MicroOp::Clc1 => {
            assert(state.apply(MicroOp::Clc1).inst_queue == state.inst_queue);
        },
        MicroOp::Cld1 => {
            assert(state.apply(MicroOp::Cld1).inst_queue == state.inst_queue);
        },
        MicroOp::Cli1 => {
            assert(state.apply(MicroOp::Cli1).inst_queue == state.inst_queue);
        },
        MicroOp::Clv1 => {
            assert(state.apply(MicroOp::Clv1).inst_queue == state.inst_queue);
        },
        MicroOp::Cmp1 => {
            assert(state.apply(MicroOp::Cmp1).inst_queue == state.inst_queue);
        },
        MicroOp::Cpx1 => {
            assert(state.apply(MicroOp::Cpx1).inst_queue == state.inst_queue);
        },
        MicroOp::Cpy1 => {
            assert(state.apply(MicroOp::Cpy1).inst_queue == state.inst_queue);
        },
        MicroOp::Dec1 => {
            assert(state.apply(MicroOp::Dec1).inst_queue == state.inst_queue);
        },
        MicroOp::Dec2 => {
            assert(state.apply(MicroOp::Dec2).inst_queue == state.inst_queue);
        },
        MicroOp::Dex1 => {
            assert(state.apply(MicroOp::Dex1).inst_queue == state.inst_queue);
        },
        MicroOp::Dey1 => {
            assert(state.apply(MicroOp::Dey1).inst_queue == state.inst_queue);
        },
        MicroOp::Eor1 => {
            assert(state.apply(MicroOp::Eor1).inst_queue == state.inst_queue);
        },
        MicroOp::Inc1 => {
            assert(state.apply(MicroOp::Inc1).inst_queue == state.inst_queue);
        },
        MicroOp::Inc2 => {
            assert(state.apply(MicroOp::Inc2).inst_queue == state.inst_queue);
        },
        MicroOp::Inx1 => {
            assert(state.apply(MicroOp::Inx1).inst_queue == state.inst_queue);
        },
        MicroOp::Iny1 => {
            assert(state.apply(MicroOp::Iny1).inst_queue == state.inst_queue);
        },
        MicroOp::Jmp1 => {
            assert(state.apply(MicroOp::Jmp1).inst_queue == state.inst_queue);
        },
        MicroOp::Jsr1 => {
            assert(state.apply(MicroOp::Jsr1).inst_queue == state.inst_queue);
        },
        MicroOp::Jsr2 => {
            assert(state.apply(MicroOp::Jsr2).inst_queue == state.inst_queue);
        },
        MicroOp::Lda1 => {
            assert(state.apply(MicroOp::Lda1).inst_queue == state.inst_queue);
        },
        MicroOp::Ldx1 => {
            assert(state.apply(MicroOp::Ldx1).inst_queue == state.inst_queue);
        },
        MicroOp::Ldy1 => {
            assert(state.apply(MicroOp::Ldy1).inst_queue == state.inst_queue);
        },
        MicroOp::Lsr1 => {
            assert(state.apply(MicroOp::Lsr1).inst_queue == state.inst_queue);
        },
        MicroOp::Nop => {
            assert(state.apply(MicroOp::Nop).inst_queue == state.inst_queue);
        },
        MicroOp::Ora1 => {
            assert(state.apply(MicroOp::Ora1).inst_queue == state.inst_queue);
        },
        MicroOp::Pha1 => {
            assert(state.apply(MicroOp::Pha1).inst_queue == state.inst_queue);
        },
        MicroOp::Php1 => {
            assert(state.apply(MicroOp::Php1).inst_queue == state.inst_queue);
        },
        MicroOp::Pla1 => {
            assert(state.apply(MicroOp::Pla1).inst_queue == state.inst_queue);
        },
        MicroOp::Plp1 => {
            assert(state.apply(MicroOp::Plp1).inst_queue == state.inst_queue);
        },
        MicroOp::Rol1 => {
            assert(state.apply(MicroOp::Rol1).inst_queue == state.inst_queue);
        },
        MicroOp::Ror1 => {
            assert(state.apply(MicroOp::Ror1).inst_queue == state.inst_queue);
        },
        MicroOp::Rti1 => {
            assert(state.apply(MicroOp::Rti1).inst_queue == state.inst_queue);
        },
        MicroOp::Rti2 => {
            assert(state.apply(MicroOp::Rti2).inst_queue == state.inst_queue);
        },
        MicroOp::Rti3 => {
            assert(state.apply(MicroOp::Rti3).inst_queue == state.inst_queue);
        },
        MicroOp::Rts1 => {
            assert(state.apply(MicroOp::Rts1).inst_queue == state.inst_queue);
        },
        MicroOp::Rts2 => {
            assert(state.apply(MicroOp::Rts2).inst_queue == state.inst_queue);
        },
        MicroOp::Sbc1 => {
            assert(state.apply(MicroOp::Sbc1).inst_queue == state.inst_queue);
        },
        MicroOp::Sec1 => {
            assert(state.apply(MicroOp::Sec1).inst_queue == state.inst_queue);
        },
        MicroOp::Sed1 => {
            assert(state.apply(MicroOp::Sed1).inst_queue == state.inst_queue);
        },
        MicroOp::Sei1 => {
            assert(state.apply(MicroOp::Sei1).inst_queue == state.inst_queue);
        },
        MicroOp::Tax1 => {
            assert(state.apply(MicroOp::Tax1).inst_queue == state.inst_queue);
        },
        MicroOp::Tay1 => {
            assert(state.apply(MicroOp::Tay1).inst_queue == state.inst_queue);
        },
        MicroOp::Tsx1 => {
            assert(state.apply(MicroOp::Tsx1).inst_queue == state.inst_queue);
        },
        MicroOp::Txa1 => {
            assert(state.apply(MicroOp::Txa1).inst_queue == state.inst_queue);
        },
        MicroOp::Txs1 => {
            assert(state.apply(MicroOp::Txs1).inst_queue == state.inst_queue);
        },
        MicroOp::Tya1 => {
            assert(state.apply(MicroOp::Tya1).inst_queue == state.inst_queue);
        },
        _ => {},
    }
}

/// Taking the first step off the queue and running it makes the queue
/// lighter.
pub proof fn lemma_step_shrinks_queue(state: CpuView)
    requires
        state.inst_queue.len() > 0,
    ensures
        queue_weight(state.popped().apply(state.inst_queue[0].0).inst_queue) < queue_weight(
            state.inst_queue,
        ),
{
    lemma_weight_pop(state.inst_queue);
    lemma_apply_queue(state.popped(), state.inst_queue[0].0);
}

/// A step that can run keeps the processor well formed.
pub proof fn lemma_apply_wf(state: CpuView, op: MicroOp)
    requires
        state.wf(),
        state.can_apply(op),
        state.curr_inst is Some,
    ensures
        state.apply(op).wf(),
{
    lemma_apply_queue(state, op);
    reveal(CpuView::apply);
    match op {
        MicroOp::ReadMem => {
            assert(state.apply(MicroOp::ReadMem).wf());
        },
        MicroOp::WriteMem => {
            assert(state.apply(MicroOp::WriteMem).wf());
        },
        MicroOp::Adc1 => {
            assert(state.apply(MicroOp::Adc1).wf());
        },
        MicroOp::And1 => {
            assert(state.apply(MicroOp::And1).wf());
        },
        MicroOp::Asl1 => {
            assert(state.apply(MicroOp::Asl1).wf());
        },
        MicroOp::Bcc1 => {
            assert(state.apply(MicroOp::Bcc1).wf());
        },
        MicroOp::Bcs1 => {
            assert(state.apply(MicroOp::Bcs1).wf());
        },
        MicroOp::Beq1 => {
            assert(state.apply(MicroOp::Beq1).wf());
        },
        MicroOp::Bit1 => {
            assert(state.apply(MicroOp::Bit1).wf());
        },
        MicroOp::Bmi1 => {
            assert(state.apply(MicroOp::Bmi1).wf());
        },
        MicroOp::Bne1 => {
            assert(state.apply(MicroOp::Bne1).wf());
        },
        MicroOp::Bpl1 => {
            assert(state.apply(MicroOp::Bpl1).wf());
        },
        MicroOp::Brk1 => {
            assert(state.apply(MicroOp::Brk1).wf());
        },
        MicroOp::Brk2 => {
            assert(state.apply(MicroOp::Brk2).wf());
        },
        MicroOp::Brk3 => {
            assert(state.apply(MicroOp::Brk3).wf());
        },
        MicroOp::Brk4 => {
            assert(state.apply(MicroOp::Brk4).wf());
        },
        MicroOp::Bvc1 => {
            assert(state.apply(MicroOp::Bvc1).wf());
        },
        MicroOp::Bvs1 => {
            assert(state.apply(MicroOp::Bvs1).wf());
        },
        MicroOp::Clc1 => {
            assert(state.apply(MicroOp::Clc1).wf());
        },
        MicroOp::Cld1 => {
            assert(state.apply(MicroOp::Cld1).wf());
        },
        MicroOp::Cli1 => {
            assert(state.apply(MicroOp::Cli1).wf());
        },
        MicroOp::Clv1 => {
            assert(state.apply(MicroOp::Clv1).wf());
        },
        MicroOp::Cmp1 => {
            assert(state.apply(MicroOp::Cmp1).wf());
        },
        MicroOp::Cpx1 => {
            assert(state.apply(MicroOp::Cpx1).wf());
        },
        MicroOp::Cpy1 => {
            assert(state.apply(MicroOp::Cpy1).wf());
        },
        MicroOp::Dec1 => {
            assert(state.apply(MicroOp::Dec1).wf());
        },
        MicroOp::Dec2 => {
            assert(state.apply(MicroOp::Dec2).wf());
        },
        MicroOp::Dex1 => {
            assert(state.apply(MicroOp::Dex1).wf());
        },
        MicroOp::Dey1 => {
            assert(state.apply(MicroOp::Dey1).wf());
        },
        MicroOp::Eor1 => {
            assert(state.apply(MicroOp::Eor1).wf());
        },
        MicroOp::Inc1 => {
            assert(state.apply(MicroOp::Inc1).wf());
        },
        MicroOp::Inc2 => {
            assert(state.apply(MicroOp::Inc2).wf());
        },
        MicroOp::Inx1 => {
            assert(state.apply(MicroOp::Inx1).wf());
        },
        MicroOp::Iny1 => {
            assert(state.apply(MicroOp::Iny1).wf());
        },
        MicroOp::Jmp1 => {
            assert(state.apply(MicroOp::Jmp1).wf());
        },
        MicroOp::Jsr1 => {
            assert(state.apply(MicroOp::Jsr1).wf());
        },
        MicroOp::Jsr2 => {
            assert(state.apply(MicroOp::Jsr2).wf());
        },
        MicroOp::Lda1 => {
            assert(state.apply(MicroOp::Lda1).wf());
        },
        MicroOp::Ldx1 => {
            assert(state.apply(MicroOp::Ldx1).wf());
        },
        MicroOp::Ldy1 => {
            assert(state.apply(MicroOp::Ldy1).wf());
        },
        MicroOp::Lsr1 => {
            assert(state.apply(MicroOp::Lsr1).wf());
        },
        MicroOp::Nop => {
            assert(state.apply(MicroOp::Nop).wf());
        },
        MicroOp::Ora1 => {
            assert(state.apply(MicroOp::Ora1).wf());
        },
        MicroOp::Pha1 => {
            assert(state.apply(MicroOp::Pha1).wf());
        },
        MicroOp::Php1 => {
            assert(state.apply(MicroOp::Php1).wf());
        },
        MicroOp::Pla1 => {
            assert(state.apply(MicroOp::Pla1).wf());
        },
        MicroOp::Plp1 => {
            assert(state.apply(MicroOp::Plp1).wf());
        },
        MicroOp::Rol1 => {
            assert(state.apply(MicroOp::Rol1).wf());
        },
        MicroOp::Ror1 => {
            assert(state.apply(MicroOp::Ror1).wf());
        },
        MicroOp::Rti1 => {
            assert(state.apply(MicroOp::Rti1).wf());
        },
        MicroOp::Rti2 => {
            assert(state.apply(MicroOp::Rti2).wf());
        },
        MicroOp::Rti3 => {
            assert(state.apply(MicroOp::Rti3).wf());
        },
        MicroOp::Rts1 => {
            assert(state.apply(MicroOp::Rts1).wf());
        },
        MicroOp::Rts2 => {
            assert(state.apply(MicroOp::Rts2).wf());
        },
        MicroOp::Sbc1 => {
            assert(state.apply(MicroOp::Sbc1).wf());
        },
        MicroOp::Sec1 => {
            assert(state.apply(MicroOp::Sec1).wf());
        },
        MicroOp::Sed1 => {
            assert(state.apply(MicroOp::Sed1).wf());
        },
        MicroOp::Sei1 => {
            assert(state.apply(MicroOp::Sei1).wf());
        },
        MicroOp::Tax1 => {
            assert(state.apply(MicroOp::Tax1).wf());
        },
        MicroOp::Tay1 => {
            assert(state.apply(MicroOp::Tay1).wf());
        },
        MicroOp::Tsx1 => {
            assert(state.apply(MicroOp::Tsx1).wf());
        },
        MicroOp::Txa1 => {
            assert(state.apply(MicroOp::Txa1).wf());
        },
        MicroOp::Txs1 => {
            assert(state.apply(MicroOp::Txs1).wf());
        },
        MicroOp::Tya1 => {
            assert(state.apply(MicroOp::Tya1).wf());
        },
    }
}

} // verus!
