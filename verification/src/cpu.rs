use crate::instructions::addressing;
use crate::instructions::addressing::MemoryOp;
use crate::instructions::logic::{run_micro_op, MicroOp};
use crate::instructions::{
    get_addr_mode, get_inst_type, get_num_of_operands, lemma_decoded_length, AddressingMode,
    Instruction, InstructionType,
};
use crate::interconnect::{complete_image, payload, Interconnect};
use crate::nes::Powerable;
use crate::state::{
    free_from, handler_ops, lemma_apply_wf, lemma_step_shrinks_queue, queue_weight, CpuView,
    TraceEntry, STACK_BASE, STARTUP_CYCLES,
};
pub use crate::status::Status;
use crate::utils::build_u16;
use std::collections::VecDeque;
use vstd::prelude::*;

verus! {

/// Where the processor finds the address at which it starts after power-on
/// and reset.
pub const RESET_VECTOR_ADDR: u16 = 0xFFFC;

/// Where the processor finds the address of the interrupt handler.
pub const IRQ_VECTOR_ADDR: u16 = 0xFFFE;

/// The processor: its registers, the instruction in flight, the queue of
/// steps still to run, and the bus, which it owns.
pub struct CPU {
    /// Clock cycles since power-on or reset; zero before the start-up.
    pub cycle: u64,
    /// The cycle in which the opcode of the instruction in flight was fetched.
    pub cycle_debug: u64,
    /// The opcode that was fetched and not decoded to the end yet.
    pub curr_inst_byte: Option<u8>,
    /// The instruction in flight.
    pub curr_inst: Option<Instruction>,
    /// The operand bytes fetched so far.
    pub operands: Vec<u8>,
    /// The operand bytes that the instruction in flight takes.
    pub num_operands: usize,
    /// The operand value.
    pub value: u8,
    /// The effective address.
    pub addr: u16,
    /// The byte that a store puts on the bus.
    pub write: u8,
    /// The steps still to run, each with its cost: 0 for a step that rides on
    /// another cycle, 1 for a step that takes a bus cycle.
    pub inst_queue: VecDeque<(MicroOp, u32)>,
    /// Whether the instruction in flight is in the trace.
    pub traced: bool,
    pub reg_a: u8,
    pub reg_x: u8,
    pub reg_y: u8,
    pub reg_pc: u16,
    pub reg_s: u8,
    pub status: Status,
    pub ic: Interconnect,
    /// The unmapped address that stopped the processor, if one did.
    pub bus_fault: Option<u16>,
}

impl View for CPU {
    type V = CpuView;

    open spec fn view(&self) -> CpuView {
        CpuView {
            cycle: self.cycle,
            cycle_debug: self.cycle_debug,
            curr_inst_byte: self.curr_inst_byte,
            curr_inst: self.curr_inst,
            operands: self.operands@,
            num_operands: self.num_operands,
            value: self.value,
            addr: self.addr,
            write: self.write,
            inst_queue: self.inst_queue@,
            traced: self.traced,
            reg_a: self.reg_a,
            reg_x: self.reg_x,
            reg_y: self.reg_y,
            reg_pc: self.reg_pc,
            reg_s: self.reg_s,
            status: self.status,
            ic: self.ic@,
            bus_fault: self.bus_fault,
        }
    }
}

impl CPU {
    /// Puts a byte on the stack: writes it where the stack pointer points and
    /// moves the stack pointer down, from 0x00 round to 0xFF.
    pub fn push_to_stack(&mut self, value: u8)
        requires
            old(self)@.ic.wf(),
        ensures
            final(self)@ == old(self)@.push(value),
            final(self)@.ic.wf(),
    {
        let top: u16 = STACK_BASE + self.reg_s as u16;
        self.ic.write_mem(top, value);
        self.reg_s = self.reg_s.wrapping_sub(1);
    }

    /// Takes a byte from the stack: moves the stack pointer up, from 0xFF
    /// round to 0x00, and reads where it then points.
    pub fn pull_from_stack(&mut self) -> (value: u8)
        requires
            old(self)@.ic.wf(),
        ensures
            final(self)@ == old(self)@.pull(),
            value == old(self)@.pulled(),
    {
        self.reg_s = self.reg_s.wrapping_add(1);
        let top: u16 = STACK_BASE + self.reg_s as u16;
        self.ic.read_mem(top)
    }

    /// Stages the program of a cartridge image where the processor finds it.
    pub fn load_rom(&mut self, ines: Vec<u8>)
        requires
            complete_image(ines@),
        ensures
            final(self)@ == (CpuView {
                ic: old(self)@.ic.with_program(payload(ines@)),
                ..old(self)@
            }),
            old(self)@.wf() ==> final(self)@.wf(),
    {
        self.ic.load_rom(ines)
    }

    /// Stages a raw program image where the processor finds it.
    pub fn load_program(&mut self, bytes: Vec<u8>)
        ensures
            final(self)@ == (CpuView { ic: old(self)@.ic.with_program(bytes@), ..old(self)@ }),
            old(self)@.wf() ==> final(self)@.wf(),
    {
        self.ic.load_program(bytes)
    }

    /// Runs the processor for `RUN_CYCLES` clock cycles and gives the trace
    /// of the instructions that started in them.
    pub fn run(&mut self) -> (trace: Vec<TraceEntry>)
        requires
            old(self)@.wf(),
        ensures
            final(self)@ == old(self)@.ticks(RUN_CYCLES as nat),
            trace@ == old(self)@.trace(RUN_CYCLES as nat),
            final(self)@.wf(),
    {
        let mut trace: Vec<TraceEntry> = Vec::new();
        let mut done: u32 = 0;
        while done < RUN_CYCLES
            invariant
                done <= RUN_CYCLES,
                self@.wf(),
                self@ == old(self)@.ticks(done as nat),
                trace@ == old(self)@.trace(done as nat),
            decreases RUN_CYCLES - done,
        {
            match self.do_cycle() {
                Some(entry) => {
                    trace.push(entry);
                },
                None => {},
            }
            done = done + 1;
        }
        trace
    }

    /// One clock cycle. A stopped processor stays as it is. The first cycle
    /// after power-on or reset is the start-up, which takes the program
    /// counter from the reset vector. Every other cycle fetches at most one
    /// byte, decodes once the operand bytes are there, and runs queued steps
    /// within the budget of the cycle. The result is the trace entry of the
    /// instruction that became ready in this cycle, if one did.
    pub fn do_cycle(&mut self) -> (entry: Option<TraceEntry>)
        requires
            old(self)@.wf(),
        ensures
            final(self)@ == old(self)@.tick(),
            entry == old(self)@.tick_trace(),
            final(self)@.wf(),
    {
        if self.bus_fault.is_some() {
            return None;
        }
        if self.cycle == 0 {
            self.reg_pc = self.ic.read_mem_word(RESET_VECTOR_ADDR);
            self.cycle = STARTUP_CYCLES;
            return None;
        }
        self.fetch();
        if self.bus_fault.is_some() {
            return None;
        }
        let only_free = self.decode();
        if self.bus_fault.is_some() {
            return None;
        }
        let entry = self.execute(only_free);
        if self.bus_fault.is_none() && self.cycle < u64::MAX {
            self.cycle = self.cycle + 1;
        }
        entry
    }

    /// The fetch of a clock cycle: unless steps wait in the queue, reads the
    /// byte at the program counter into the operand buffer or the opcode
    /// slot and moves the program counter on. Stops the processor if no
    /// device answers at the program counter.
    pub fn fetch(&mut self)
        requires
            old(self)@.wf(),
        ensures
            final(self)@ == old(self)@.fetch(),
            final(self)@.wf(),
    {
        if self.inst_queue.len() > 0 {
            return ;
        }
        if !Interconnect::is_mapped(self.reg_pc) {
            self.bus_fault = Some(self.reg_pc);
            return ;
        }
        let byte = self.ic.read_mem(self.reg_pc);
        if self.curr_inst.is_some() && self.operands.len() < self.num_operands {
            self.operands.push(byte);
            self.reg_pc = self.reg_pc.wrapping_add(1);
        } else {
            self.curr_inst_byte = Some(byte);
            self.cycle_debug = self.cycle;
            self.reg_pc = self.reg_pc.wrapping_add(1);
        }
    }

    /// The decode of a clock cycle. A fresh opcode gives the instruction in
    /// flight. Once the operand bytes are there, the operand is resolved and
    /// the steps of the instruction are queued; the result says whether that
    /// happened in this cycle. Stops the processor if resolving the operand
    /// would read an unmapped address.
    pub fn decode(&mut self) -> (only_free: bool)
        requires
            old(self)@.wf(),
        ensures
            final(self)@ == old(self)@.decode(),
            only_free == old(self)@.decode_completes(),
            final(self)@.wf(),
    {
        let inst_byte = match self.curr_inst_byte {
            Some(inst_byte) => inst_byte,
            None => {
                return false;
            },
        };
        if self.operands.len() == 0 {
            let inst_type = get_inst_type(inst_byte);
            let addr_mode = get_addr_mode(inst_byte);
            let inst = Instruction { inst_type: inst_type, addr_mode: addr_mode };
            self.num_operands = get_num_of_operands(&inst.addr_mode);
            self.curr_inst = Some(inst);
            proof {
                lemma_decoded_length(inst_byte);
            }
            if self.num_operands > 0 {
                return false;
            }
        }
        if self.operands.len() < self.num_operands {
            return false;
        }
        let inst = match self.curr_inst {
            Some(inst) => inst,
            None => {
                return false;
            },
        };
        match self.pointer_fault(inst) {
            Some(address) => {
                self.bus_fault = Some(address);
                return false;
            },
            None => {},
        }
        self.curr_inst_byte = None;
        let waiting = self.inst_queue.len();
        self.resolve_operand(inst);
        queue_handler(&mut self.inst_queue, inst.inst_type);
        if self.num_operands == 0 && self.free_from(waiting) {
            // no instruction is shorter than two cycles
            self.inst_queue.push_back((MicroOp::Nop, 1));
        }
        true
    }

    /// Whether the queued steps from position `from` on cost nothing.
    fn free_from(&self, from: usize) -> (free: bool)
        requires
            from <= self@.inst_queue.len(),
        ensures
            free == free_from(self@.inst_queue, from as int),
    {
        let mut at: usize = from;
        while at < self.inst_queue.len()
            invariant
                from <= at <= self.inst_queue.len(),
                free_from(self@.inst_queue.take(at as int), from as int),
            decreases self.inst_queue.len() - at,
        {
            if self.inst_queue[at].1 != 0 {
                return false;
            }
            at = at + 1;
            assert forall|i: int| from <= i < at implies (#[trigger] self@.inst_queue.take(
                at as int,
            )[i]).1 == 0 by {
                if i < at - 1 {
                    assert(self@.inst_queue.take(at - 1)[i] == self@.inst_queue[i]);
                }
            }
        }
        assert(self@.inst_queue.take(at as int) =~= self@.inst_queue);
        true
    }

    /// The unmapped address that resolving an indirect operand would read,
    /// if there is one.
    fn pointer_fault(&self, inst: Instruction) -> (fault: Option<u16>)
        requires
            self@.curr_inst == Some(inst),
            self@.operands.len() >= self@.num_operands,
            self@.wf(),
        ensures
            fault == self@.pointer_fault(),
    {
        match inst.addr_mode {
            AddressingMode::Indirect => {
                let pointer = build_u16(self.operands[1], self.operands[0]);
                if !Interconnect::is_mapped(pointer) {
                    Some(pointer)
                } else if !Interconnect::is_mapped(pointer.wrapping_add(1)) {
                    Some(pointer.wrapping_add(1))
                } else {
                    None
                }
            },
            _ => None,
        }
    }

    /// Resolves the operand of an instruction, as far as it has one: a store
    /// stages its register and asks for a write, the instructions that work
    /// on registers, flags or the stack alone ask for nothing, the rest ask
    /// for a read.
    fn resolve_operand(&mut self, inst: Instruction)
        requires
            old(self)@.curr_inst == Some(inst),
            old(self)@.operands.len() >= old(self)@.num_operands,
            old(self)@.pointer_fault() is None,
            old(self)@.wf(),
        ensures
            final(self)@ == old(self)@.operand_resolved(),
    {
        match inst.inst_type {
            InstructionType::STA => {
                self.write = self.reg_a;
                addressing::queue_push_memory_op(self, MemoryOp::Write);
            },
            InstructionType::STX => {
                self.write = self.reg_x;
                addressing::queue_push_memory_op(self, MemoryOp::Write);
            },
            InstructionType::STY => {
                self.write = self.reg_y;
                addressing::queue_push_memory_op(self, MemoryOp::Write);
            },
            InstructionType::ADC
            | InstructionType::AND
            | InstructionType::ASL
            | InstructionType::BCC
            | InstructionType::BCS
            | InstructionType::BEQ
            | InstructionType::BIT
            | InstructionType::BMI
            | InstructionType::BNE
            | InstructionType::BPL
            | InstructionType::BVC
            | InstructionType::BVS
            | InstructionType::CMP
            | InstructionType::CPX
            | InstructionType::CPY
            | InstructionType::DEC
            | InstructionType::EOR
            | InstructionType::INC
            | InstructionType::JMP
            | InstructionType::JSR
            | InstructionType::LDA
            | InstructionType::LDX
            | InstructionType::LDY
            | InstructionType::LSR
            | InstructionType::ORA
            | InstructionType::ROL
            | InstructionType::ROR
            | InstructionType::SBC => {
                addressing::queue_push_memory_op(self, MemoryOp::Read);
            },
            _ => {},
        }
    }

    /// Whether a step puts the effective address on the bus.
    fn uses_effective_address(&self, op: MicroOp) -> (uses: bool)
        ensures
            uses == self@.uses_effective_address(op),
    {
        match op {
            MicroOp::ReadMem
            | MicroOp::WriteMem
            | MicroOp::Dec1
            | MicroOp::Dec2
            | MicroOp::Inc1
            | MicroOp::Inc2 => true,
            MicroOp::Asl1 | MicroOp::Lsr1 | MicroOp::Rol1 | MicroOp::Ror1 => match self.curr_inst {
                Some(inst) => match inst.addr_mode {
                    AddressingMode::Accumulator => false,
                    _ => true,
                },
                None => true,
            },
            _ => false,
        }
    }

    /// What the trace gets of the instruction in flight.
    fn snapshot(&self) -> (entry: TraceEntry)
        requires
            self@.num_operands <= 2,
        ensures
            entry == self@.trace_entry(),
    {
        TraceEntry {
            pc: self.reg_pc.wrapping_sub(1).wrapping_sub(self.num_operands as u16),
            a: self.reg_a,
            x: self.reg_x,
            y: self.reg_y,
            p: self.status.into_bits(),
            sp: self.reg_s,
            cycle: self.cycle_debug,
        }
    }

    /// The execute of a clock cycle: once an instruction is in flight and has
    /// its operand bytes, runs queued steps within the budget. With `only_free`
    /// only steps without cost run; else one step with a cost runs, and any
    /// number without. When the queue is empty, the instruction is over. The
    /// result is the trace entry of the instruction, the first time that it
    /// is ready. Stops the processor at a step that would put an unmapped
    /// address on the bus.
    pub fn execute(&mut self, only_free: bool) -> (entry: Option<TraceEntry>)
        requires
            old(self)@.wf(),
        ensures
            final(self)@ == old(self)@.execute(only_free),
            entry == old(self)@.execute_trace(),
            final(self)@.wf(),
    {
        if self.curr_inst.is_none() || self.operands.len() < self.num_operands {
            return None;
        }
        let entry = if !self.traced {
            Some(self.snapshot())
        } else {
            None
        };
        self.traced = true;
        let ghost begin = self@;
        let mut total_cost: u32 = 0;
        let max: u32 = if only_free {
            1
        } else {
            2
        };
        while self.inst_queue.len() > 0 && total_cost + self.inst_queue[0].1 < max
            invariant
                max == CpuView::budget(only_free),
                total_cost < max,
                self@.wf(),
                old(self)@.ready(),
                begin == (CpuView { traced: true, ..old(self)@ }),
                entry == old(self)@.execute_trace(),
                self@.drain(total_cost as nat, max as nat) == begin.drain(0, max as nat),
            decreases max - total_cost, queue_weight(self.inst_queue@),
        {
            let op = self.inst_queue[0].0;
            let cost = self.inst_queue[0].1;
            if self.uses_effective_address(op) && !Interconnect::is_mapped(self.addr) {
                self.bus_fault = Some(self.addr);
                return entry;
            }
            proof {
                lemma_step_shrinks_queue(self@);
                lemma_apply_wf(self@.popped(), op);
            }
            let step = self.inst_queue.pop_front();
            run_micro_op(self, op);
            total_cost = total_cost + cost;
        }
        if self.inst_queue.len() == 0 {
            self.traced = false;
            self.curr_inst = None;
            self.operands.clear();
        }
        entry
    }
}

/// Queues the steps that carry out an instruction once its operand is
/// resolved, each with its cost.
fn queue_handler(queue: &mut VecDeque<(MicroOp, u32)>, inst_type: InstructionType)
    ensures
        final(queue)@ == old(queue)@ + handler_ops(inst_type),
{
    match inst_type {
        InstructionType::Illegal => {
            // an undocumented opcode does nothing
        },
        InstructionType::ADC => {
            queue.push_back((MicroOp::Adc1, 0));
        },
        InstructionType::AND => {
            queue.push_back((MicroOp::And1, 0));
        },
        InstructionType::ASL => {
            queue.push_back((MicroOp::Asl1, 0));
        },
        InstructionType::BCC => {
            queue.push_back((MicroOp::Bcc1, 0));
        },
        InstructionType::BCS => {
            queue.push_back((MicroOp::Bcs1, 0));
        },
        InstructionType::BEQ => {
            queue.push_back((MicroOp::Beq1, 0));
        },
        InstructionType::BIT => {
            queue.push_back((MicroOp::Bit1, 0));
        },
        InstructionType::BMI => {
            queue.push_back((MicroOp::Bmi1, 0));
        },
        InstructionType::BNE => {
            queue.push_back((MicroOp::Bne1, 0));
        },
        InstructionType::BPL => {
            queue.push_back((MicroOp::Bpl1, 0));
        },
        InstructionType::BRK => {
            queue.push_back((MicroOp::Brk1, 1));
            queue.push_back((MicroOp::Brk2, 1));
            queue.push_back((MicroOp::Brk3, 1));
            queue.push_back((MicroOp::Brk4, 1));
        },
        InstructionType::BVC => {
            queue.push_back((MicroOp::Bvc1, 0));
        },
        InstructionType::BVS => {
            queue.push_back((MicroOp::Bvs1, 0));
        },
        InstructionType::CLC => {
            queue.push_back((MicroOp::Clc1, 0));
        },
        InstructionType::CLD => {
            queue.push_back((MicroOp::Cld1, 0));
        },
        InstructionType::CLI => {
            queue.push_back((MicroOp::Cli1, 0));
        },
        InstructionType::CLV => {
            queue.push_back((MicroOp::Clv1, 0));
        },
        InstructionType::CMP => {
            queue.push_back((MicroOp::Cmp1, 0));
        },
        InstructionType::CPX => {
            queue.push_back((MicroOp::Cpx1, 0));
        },
        InstructionType::CPY => {
            queue.push_back((MicroOp::Cpy1, 0));
        },
        InstructionType::DEC => {
            queue.push_back((MicroOp::Dec1, 1));
            queue.push_back((MicroOp::Dec2, 1));
        },
        InstructionType::DEX => {
            queue.push_back((MicroOp::Dex1, 0));
        },
        InstructionType::DEY => {
            queue.push_back((MicroOp::Dey1, 0));
        },
        InstructionType::EOR => {
            queue.push_back((MicroOp::Eor1, 0));
        },
        InstructionType::INC => {
            queue.push_back((MicroOp::Inc1, 1));
            queue.push_back((MicroOp::Inc2, 1));
        },
        InstructionType::INX => {
            queue.push_back((MicroOp::Inx1, 0));
        },
        InstructionType::INY => {
            queue.push_back((MicroOp::Iny1, 0));
        },
        InstructionType::JMP => {
            queue.push_back((MicroOp::Jmp1, 0));
        },
        InstructionType::JSR => {
            queue.push_back((MicroOp::Jsr1, 1));
            queue.push_back((MicroOp::Jsr2, 1));
        },
        InstructionType::LDA => {
            queue.push_back((MicroOp::Lda1, 0));
        },
        InstructionType::LDX => {
            queue.push_back((MicroOp::Ldx1, 0));
        },
        InstructionType::LDY => {
            queue.push_back((MicroOp::Ldy1, 0));
        },
        InstructionType::LSR => {
            queue.push_back((MicroOp::Lsr1, 0));
        },
        InstructionType::NOP => {
            // nothing but the idle cycle that decoding adds
        },
        InstructionType::ORA => {
            queue.push_back((MicroOp::Ora1, 0));
        },
        InstructionType::PHA => {
            queue.push_back((MicroOp::Pha1, 1));
        },
        InstructionType::PHP => {
            queue.push_back((MicroOp::Php1, 1));
        },
        InstructionType::PLA => {
            queue.push_back((MicroOp::Pla1, 1));
            queue.push_back((MicroOp::Nop, 1));
        },
        InstructionType::PLP => {
            queue.push_back((MicroOp::Plp1, 1));
            queue.push_back((MicroOp::Nop, 1));
        },
        InstructionType::ROL => {
            queue.push_back((MicroOp::Rol1, 0));
        },
        InstructionType::ROR => {
            queue.push_back((MicroOp::Ror1, 0));
        },
        InstructionType::RTI => {
            queue.push_back((MicroOp::Rti1, 1));
            queue.push_back((MicroOp::Rti2, 1));
            queue.push_back((MicroOp::Rti3, 1));
        },
        InstructionType::RTS => {
            queue.push_back((MicroOp::Rts1, 1));
            queue.push_back((MicroOp::Nop, 1));
            queue.push_back((MicroOp::Rts2, 1));
            queue.push_back((MicroOp::Nop, 1));
        },
        InstructionType::SBC => {
            queue.push_back((MicroOp::Sbc1, 0));
        },
        InstructionType::SEC => {
            queue.push_back((MicroOp::Sec1, 0));
        },
        InstructionType::SED => {
            queue.push_back((MicroOp::Sed1, 0));
        },
        InstructionType::SEI => {
            queue.push_back((MicroOp::Sei1, 0));
        },
        InstructionType::STA => {
            // the write that the resolver queues does it all
        },
        InstructionType::STX => {
            // the write that the resolver queues does it all
        },
        InstructionType::STY => {
            // the write that the resolver queues does it all
        },
        InstructionType::TAX => {
            queue.push_back((MicroOp::Tax1, 0));
        },
        InstructionType::TAY => {
            queue.push_back((MicroOp::Tay1, 0));
        },
        InstructionType::TSX => {
            queue.push_back((MicroOp::Tsx1, 0));
        },
        InstructionType::TXA => {
            queue.push_back((MicroOp::Txa1, 0));
        },
        InstructionType::TXS => {
            queue.push_back((MicroOp::Txs1, 0));
        },
        InstructionType::TYA => {
            queue.push_back((MicroOp::Tya1, 0));
        },
    }
    assert(queue@ =~= old(queue)@ + handler_ops(inst_type));
}

/// The clock cycles of one run.
pub const RUN_CYCLES: u32 = 2000;

impl Powerable for CPU {
    open spec fn powered(&self) -> bool {
        self@.wf()
    }

    /// Applies power: the devices are switched on, the registers cleared, and
    /// the start-up is due.
    fn power_on(&mut self)
        ensures
            final(self)@ == old(self)@.powered_on(),
            final(self)@.wf(),
    {
        self.ic.power_on();

        self.reg_a = 0;
        self.reg_x = 0;
        self.reg_y = 0;
        self.reg_pc = RESET_VECTOR_ADDR;
        self.reg_s = 0xFD;
        self.status.set_carry(false);
        self.status.set_zero(false);
        self.status.set_interrupt_disable(true);
        self.status.set_decimal(false);
        self.status.set_one(true);
        self.status.set_overflow(false);
        self.status.set_negative(false);

        self.curr_inst_byte = None;
        self.curr_inst = None;
        self.operands = Vec::new();
        self.num_operands = 0;
        self.inst_queue = VecDeque::new();
        self.traced = false;
        self.bus_fault = None;
        self.cycle = 0;
    }

    /// Pulls the reset line: accumulator and index registers stay, the
    /// program counter is seeded from the reset vector, the instruction in
    /// flight is dropped, and the start-up is due.
    fn reset(&mut self)
        ensures
            final(self)@ == old(self)@.reset(),
            old(self)@.wf() ==> final(self)@.wf(),
            old(self)@.ic.wf() ==> final(self)@.reg_pc == old(self)@.ic.reset().read_word(
                RESET_VECTOR_ADDR,
            ),
    {
        self.ic.reset();

        if self.ic.is_powered() {
            self.reg_pc = self.ic.read_mem_word(RESET_VECTOR_ADDR);
        }
        self.reg_s = self.reg_s.wrapping_sub(3);
        self.status.set_interrupt_disable(true);

        self.curr_inst_byte = None;
        self.curr_inst = None;
        self.operands = Vec::new();
        self.inst_queue = VecDeque::new();
        self.traced = false;
        self.bus_fault = None;
        self.cycle = 0;
    }
}

impl Default for CPU {
    fn default() -> (cpu: Self)
        ensures
            cpu@ == CpuView::unpowered(),
    {
        CPU {
            cycle: 0,
            cycle_debug: 0,
            curr_inst_byte: None,
            curr_inst: None,
            operands: Vec::new(),
            num_operands: 0,
            value: 0,
            addr: 0,
            write: 0,
            inst_queue: VecDeque::new(),
            traced: false,
            reg_a: 0,
            reg_x: 0,
            reg_y: 0,
            reg_pc: 0,
            reg_s: 0,
            status: Status::new(),
            ic: Interconnect::default(),
            bus_fault: None,
        }
    }
}

} // verus!
