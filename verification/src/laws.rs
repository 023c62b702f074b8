use crate::cpu::RESET_VECTOR_ADDR;
use crate::instructions::addressing::MemoryOp;
use crate::instructions::logic::MicroOp;
use crate::instructions::{
    documented_mode, documented_type, lemma_decoded_length, operand_count, AddressingMode,
    Instruction, InstructionType,
};
use crate::interconnect::{
    lemma_read_after_write, lemma_write_elsewhere, mapped, next_address, same_cell,
    InterconnectView,
};
use crate::state::{
    count_up, free_from, handler_ops, lemma_apply_queue, lemma_apply_wf,
    lemma_step_shrinks_queue, memory_op_of, queue_weight, signed, wrap16, wrap8, CpuView,
    TraceEntry, STACK_BASE,
};
use crate::status::{
    lemma_flags, lemma_push_pull_flags, lemma_with_flag, single_flag, Status, BREAK, CARRY,
    DECIMAL, INTERRUPT_DISABLE, NEGATIVE, ONE, OVERFLOW, PULLED_FLAGS, ZERO,
};
use crate::utils::{high_byte, low_byte, word_of};
use vstd::prelude::*;

verus! {

impl CpuView {
    /// The processor after the bytes of `values` were pushed, the first one
    /// first.
    pub open spec fn pushed_all(self, values: Seq<u8>) -> CpuView
        decreases values.len(),
    {
        if values.len() == 0 {
            self
        } else {
            self.pushed_all(values.drop_last()).push(values.last())
        }
    }

    /// The bytes that `count` pulls take from the stack, the first one first.
    pub open spec fn pulled_back(self, count: nat) -> Seq<u8>
        decreases count,
    {
        if count == 0 {
            Seq::empty()
        } else {
            seq![self.pulled()] + self.pull().pulled_back((count - 1) as nat)
        }
    }
}

/// A push moves the stack pointer down by one, from 0x00 round to 0xFF, and
/// needs no more than powered devices: the stack is always mapped. The pull
/// that follows it takes the pushed byte and puts the stack pointer back.
pub proof fn lemma_push_pull(state: CpuView, value: u8)
    requires
        state.ic.wf(),
    ensures
        mapped(state.stack_top()),
        state.push(value).ic.wf(),
        state.push(value).reg_s == wrap8(state.reg_s - 1),
        state.reg_s == 0x00 ==> state.push(value).reg_s == 0xFF,
        state.push(value).pulled() == value,
        state.push(value).pull().reg_s == state.reg_s,
{
    lemma_read_after_write(state.ic, state.stack_top(), value);
}

/// What `wrap8` leaves of a number near the range of a byte.
proof fn lemma_wrap8(value: int)
    requires
        -0x100 <= value < 0x200,
    ensures
        wrap8(value) == (if value < 0 {
            value + 0x100
        } else if value < 0x100 {
            value
        } else {
            value - 0x100
        }),
{
}

/// Stack pointers that lie fewer than 256 pushes apart differ, and a stack
/// pointer that moved down by `count` and up again by `k + 1` stands where it
/// stood after `count - 1 - k` pushes.
proof fn lemma_stack_pointers(start: u8, i: int, j: int)
    requires
        0 <= i <= j < 0x100,
    ensures
        i < j ==> wrap8(start - i) != wrap8(start - j),
        wrap8(wrap8(start - (j + 1)) + 1 + i) == wrap8(start - (j - i)),
        wrap8(wrap8(start - j) - 1) == wrap8(start - (j + 1)),
{
    lemma_wrap8(start - i);
    lemma_wrap8(start - j);
    lemma_wrap8(start - (j + 1));
    lemma_wrap8(start - (j - i));
    lemma_wrap8(wrap8(start - (j + 1)) + 1 + i);
    lemma_wrap8(wrap8(start - j) - 1);
}

/// A byte written to one cell of the stack is read back from it, and leaves
/// the other cells of the stack alone.
proof fn lemma_stack_cells(bus: InterconnectView, at: u8, value: u8, other: u8)
    requires
        bus.wf(),
    ensures
        bus.write((STACK_BASE + at) as u16, value).wf(),
        bus.write((STACK_BASE + at) as u16, value).read((STACK_BASE + other) as u16) == (if at
            == other {
            value
        } else {
            bus.read((STACK_BASE + other) as u16)
        }),
{
}

/// The byte that the pull after `k` others takes lies `k + 1` places above
/// the stack pointer, going round above 0xFF.
proof fn lemma_pulled_cells(state: CpuView, count: nat)
    requires
        count <= 0x100,
    ensures
        state.pulled_back(count).len() == count,
        forall|k: int|
            0 <= k < count ==> #[trigger] state.pulled_back(count)[k] == state.ic.read(
                (STACK_BASE + wrap8(state.reg_s + 1 + k)) as u16,
            ),
    decreases count,
{
    if count > 0 {
        let rest = state.pull().pulled_back((count - 1) as nat);
        lemma_pulled_cells(state.pull(), (count - 1) as nat);
        lemma_wrap8(state.reg_s + 1);
        assert forall|k: int| 0 <= k < count implies #[trigger] state.pulled_back(count)[k]
            == state.ic.read((STACK_BASE + wrap8(state.reg_s + 1 + k)) as u16) by {
            if k > 0 {
                assert(state.pulled_back(count)[k] == rest[k - 1]);
                lemma_wrap8(state.pull().reg_s + 1 + (k - 1));
                lemma_wrap8(state.reg_s + 1 + k);
            }
        }
    }
}

/// Pushes never run out of stack: after any number of pushes, up to the 256
/// that the stack holds, the stack pointer has moved down by that number,
/// going round below 0x00, and as many pulls take the bytes back, the last
/// one pushed first.
pub proof fn lemma_pushes_and_pulls(state: CpuView, values: Seq<u8>)
    requires
        state.ic.wf(),
        values.len() <= 0x100,
    ensures
        state.pushed_all(values).ic.wf(),
        state.pushed_all(values).reg_s == wrap8(state.reg_s - values.len()),
        state.pushed_all(values).pulled_back(values.len()) == values.reverse(),
{
    lemma_pushed_cells(state, values);
    let after = state.pushed_all(values);
    let count = values.len() as int;
    lemma_pulled_cells(after, values.len());
    assert forall|k: int| 0 <= k < count implies #[trigger] after.pulled_back(values.len())[k]
        == values.reverse()[k] by {
        let i = count - 1 - k;
        lemma_stack_pointers(state.reg_s, k, count - 1);
        assert(wrap8(after.reg_s + 1 + k) == wrap8(state.reg_s - i));
        assert(values.reverse()[k] == values[i]);
    }
    assert(after.pulled_back(values.len()) =~= values.reverse());
}

/// After the bytes of `values` were pushed, each lies where the stack
/// pointer pointed when it was pushed.
proof fn lemma_pushed_cells(state: CpuView, values: Seq<u8>)
    requires
        state.ic.wf(),
        values.len() <= 0x100,
    ensures
        state.pushed_all(values).ic.wf(),
        state.pushed_all(values).reg_s == wrap8(state.reg_s - values.len()),
        forall|i: int|
            0 <= i < values.len() ==> state.pushed_all(values).ic.read(
                (STACK_BASE + wrap8(state.reg_s - i)) as u16,
            ) == #[trigger] values[i],
    decreases values.len(),
{
    if values.len() > 0 {
        let before = state.pushed_all(values.drop_last());
        let last = values.len() - 1;
        lemma_pushed_cells(state, values.drop_last());
        lemma_stack_pointers(state.reg_s, last, last);
        assert(before.reg_s == wrap8(state.reg_s - last));
        assert(state.pushed_all(values) == before.push(values.last()));
        assert(state.pushed_all(values).ic == before.ic.write(
            (STACK_BASE + before.reg_s) as u16,
            values.last(),
        ));
        assert forall|i: int| 0 <= i < values.len() implies state.pushed_all(values).ic.read(
            (STACK_BASE + wrap8(state.reg_s - i)) as u16,
        ) == #[trigger] values[i] by {
            lemma_stack_cells(before.ic, before.reg_s, values.last(), wrap8(state.reg_s - i));
            if i < last {
                lemma_stack_pointers(state.reg_s, i, last);
                assert(values.drop_last()[i] == values[i]);
            }
        }
        lemma_stack_cells(before.ic, before.reg_s, values.last(), before.reg_s);
    }
}

/// PHA and then PLA: the accumulator holds what it held, the stack pointer
/// stands where it stood, also where it went round, and the zero and
/// negative flags tell of the accumulator.
pub proof fn lemma_pha_pla(state: CpuView)
    requires
        state.ic.wf(),
    ensures
        state.apply(MicroOp::Pha1).can_apply(MicroOp::Pla1),
        state.apply(MicroOp::Pha1).apply(MicroOp::Pla1).reg_a == state.reg_a,
        state.apply(MicroOp::Pha1).apply(MicroOp::Pla1).reg_s == state.reg_s,
        state.apply(MicroOp::Pha1).apply(MicroOp::Pla1).status == state.status.with_zn(
            state.reg_a,
        ),
        state.apply(MicroOp::Pha1).apply(MicroOp::Pla1).bus_fault == state.bus_fault,
{
    reveal(CpuView::apply);
    lemma_push_pull(state, state.reg_a);
}

/// PHP and then PLP: every flag but the break mark and the reserved bit is as
/// it was before the push, the reserved bit is set and the break mark clear,
/// and the stack pointer stands where it stood. The copy on the stack has
/// both the break mark and the reserved bit set.
pub proof fn lemma_php_plp(state: CpuView)
    requires
        state.ic.wf(),
    ensures
        state.apply(MicroOp::Php1).can_apply(MicroOp::Plp1),
        state.apply(MicroOp::Php1).ic.read(state.stack_top()) == state.status.0 | BREAK | ONE,
        state.apply(MicroOp::Php1).status == state.status,
        state.apply(MicroOp::Php1).apply(MicroOp::Plp1).status.0 & PULLED_FLAGS == state.status.0
            & PULLED_FLAGS,
        forall|mask: u8|
            single_flag(mask) && mask != BREAK && mask != ONE ==> #[trigger] state.apply(
                MicroOp::Php1,
            ).apply(MicroOp::Plp1).status.flag(mask) == state.status.flag(mask),
        state.apply(MicroOp::Php1).apply(MicroOp::Plp1).status.flag(ONE),
        !state.apply(MicroOp::Php1).apply(MicroOp::Plp1).status.flag(BREAK),
        state.apply(MicroOp::Php1).apply(MicroOp::Plp1).reg_s == state.reg_s,
{
    reveal(CpuView::apply);
    lemma_push_pull(state, state.status.pushed());
    lemma_push_pull_flags(state.status, state.status.pushed());
    assert(state.apply(MicroOp::Php1).apply(MicroOp::Plp1).status == Status::pulled(
        state.status.pushed(),
    ));
}

/// Whatever byte lies on the stack, the status register that PLP or the
/// first step of RTI pulls has the reserved bit set and the break mark clear.
pub proof fn lemma_pulled_status(state: CpuView)
    ensures
        state.apply(MicroOp::Plp1).status.flag(ONE),
        !state.apply(MicroOp::Plp1).status.flag(BREAK),
        state.apply(MicroOp::Rti1).status.flag(ONE),
        !state.apply(MicroOp::Rti1).status.flag(BREAK),
{
    reveal(CpuView::apply);
    lemma_push_pull_flags(state.status, state.pulled());
}

/// The return address that JSR stacks, split into its bytes, joined again and
/// stepped over, is the address of the next instruction.
proof fn lemma_return_address(next: u16)
    ensures
        wrap16(low_byte(wrap16(next - 1)) + high_byte(wrap16(next - 1)) * 0x100 + 1) == next,
{
}

/// What the steps of JSR and RTS do, each by itself.
proof fn lemma_call_steps(state: CpuView)
    ensures
        state.apply(MicroOp::Jsr1) == state.push(high_byte(wrap16(state.reg_pc - 1))),
        state.apply(MicroOp::Jsr2) == (CpuView {
            reg_pc: state.addr,
            ..state.push(low_byte(wrap16(state.reg_pc - 1)))
        }),
        state.apply(MicroOp::Rts1) == (CpuView { reg_pc: state.pulled() as u16, ..state.pull() }),
        state.apply(MicroOp::Rts2) == (CpuView {
            reg_pc: wrap16(state.reg_pc + state.pulled() * 0x100 + 1),
            ..state.pull()
        }),
{
    reveal(CpuView::apply);
}

/// Two bytes that are pushed come back in two pulls, the second one first,
/// and the stack pointer stands where it stood.
proof fn lemma_two_pushes(state: CpuView, first: u8, second: u8)
    requires
        state.ic.wf(),
    ensures
        state.push(first).ic.wf(),
        state.push(first).push(second).ic.wf(),
        state.push(first).push(second).pulled() == second,
        state.push(first).push(second).pull().pulled() == first,
        state.push(first).push(second).pull().pull().reg_s == state.reg_s,
        state.push(first).push(second).pull().reg_s == state.push(first).reg_s,
{
    let down = wrap8(state.reg_s - 1);
    lemma_stack_pointers(state.reg_s, 0, 1);
    lemma_stack_pointers(state.reg_s, 1, 1);
    lemma_stack_pointers(state.reg_s, 0, 0);
    lemma_stack_cells(state.ic, state.reg_s, first, state.reg_s);
    let one = state.push(first);
    lemma_stack_cells(one.ic, down, second, down);
    lemma_stack_cells(one.ic, down, second, state.reg_s);
}

/// The two steps of JSR and then the two steps of RTS: the program counter
/// is back at the instruction that follows the JSR, where it stood when the
/// JSR had its operand, and the stack pointer stands where it stood.
pub proof fn lemma_jsr_rts(state: CpuView)
    requires
        state.ic.wf(),
    ensures
        state.apply(MicroOp::Jsr1).can_apply(MicroOp::Jsr2),
        state.apply(MicroOp::Jsr1).apply(MicroOp::Jsr2).reg_pc == state.addr,
        state.apply(MicroOp::Jsr1).apply(MicroOp::Jsr2).can_apply(MicroOp::Rts1),
        state.apply(MicroOp::Jsr1).apply(MicroOp::Jsr2).apply(MicroOp::Rts1).can_apply(
            MicroOp::Rts2,
        ),
        state.apply(MicroOp::Jsr1).apply(MicroOp::Jsr2).apply(MicroOp::Rts1).apply(
            MicroOp::Rts2,
        ).reg_pc == state.reg_pc,
        state.apply(MicroOp::Jsr1).apply(MicroOp::Jsr2).apply(MicroOp::Rts1).apply(
            MicroOp::Rts2,
        ).reg_s == state.reg_s,
{
    let ret = wrap16(state.reg_pc - 1);
    let one = state.apply(MicroOp::Jsr1);
    let two = one.apply(MicroOp::Jsr2);
    let three = two.apply(MicroOp::Rts1);
    let four = three.apply(MicroOp::Rts2);
    lemma_call_steps(state);
    lemma_call_steps(one);
    lemma_call_steps(two);
    lemma_call_steps(three);
    lemma_two_pushes(state, high_byte(ret), low_byte(ret));
    lemma_return_address(state.reg_pc);
    // the first step stacks the high byte, the second the low byte below it
    assert(one.reg_pc == state.reg_pc);
    let stacked = state.push(high_byte(ret)).push(low_byte(ret));
    assert(two == (CpuView { reg_pc: state.addr, ..stacked }));
    // the pulls take them back, the low byte first
    assert(two.pulled() == stacked.pulled());
    assert(two.pull() == (CpuView { reg_pc: state.addr, ..stacked.pull() }));
    assert(three == (CpuView { reg_pc: low_byte(ret) as u16, ..stacked.pull() }));
    assert(three.pulled() == stacked.pull().pulled());
    assert(four.reg_pc == wrap16(low_byte(ret) + high_byte(ret) * 0x100 + 1));
}

/// The cycle that fetches an opcode with operand bytes: from an idle
/// processor, it leaves the opcode pending and the instruction in flight,
/// waiting for its operand bytes, and adds nothing to the trace.
pub proof fn lemma_opcode_cycle(state: CpuView)
    requires
        state.wf(),
        state.curr_inst is None,
        state.bus_fault is None,
        0 < state.cycle,
        mapped(state.reg_pc),
        operand_count(documented_mode(state.ic.read(state.reg_pc))) > 0,
    ensures
        state.tick() == (CpuView {
            cycle: count_up(state.cycle, 1),
            cycle_debug: state.cycle,
            curr_inst_byte: Some(state.ic.read(state.reg_pc)),
            curr_inst: Some(
                Instruction {
                    inst_type: documented_type(state.ic.read(state.reg_pc)),
                    addr_mode: documented_mode(state.ic.read(state.reg_pc)),
                },
            ),
            num_operands: operand_count(documented_mode(state.ic.read(state.reg_pc))) as usize,
            reg_pc: next_address(state.reg_pc),
            ..state
        }),
        state.tick_trace() is None,
{
    let byte = state.ic.read(state.reg_pc);
    let fetched = state.fetch();
    assert(fetched == (CpuView {
        curr_inst_byte: Some(byte),
        cycle_debug: state.cycle,
        reg_pc: next_address(state.reg_pc),
        ..state
    }));
    let decoded = fetched.decode();
    assert(decoded == fetched.identified());
    assert(!fetched.decode_completes());
    assert(decoded.execute(false) == decoded);
    assert(state.worked() == decoded);
}

/// The last cycle of LDA with an immediate operand: the operand byte is
/// fetched, decoding comes to its end, and the one step of the instruction,
/// which costs nothing, runs in the same cycle. The instruction goes into
/// the trace with the address of its opcode.
pub proof fn lemma_lda_immediate_last_cycle(state: CpuView)
    requires
        state.wf(),
        state.bus_fault is None,
        0 < state.cycle,
        state.curr_inst == Some(
            Instruction { inst_type: InstructionType::LDA, addr_mode: AddressingMode::Immediate },
        ),
        state.curr_inst_byte is Some,
        state.operands.len() == 0,
        state.inst_queue.len() == 0,
        mapped(state.reg_pc),
    ensures
        state.tick() == (CpuView {
            cycle: count_up(state.cycle, 1),
            curr_inst_byte: None,
            curr_inst: None,
            value: state.ic.read(state.reg_pc),
            traced: false,
            reg_pc: next_address(state.reg_pc),
            ..state.load_a(state.ic.read(state.reg_pc))
        }),
        state.tick().idle(),
        state.traced ==> state.tick_trace() is None,
        !state.traced ==> state.tick_trace() == Some(
            TraceEntry {
                pc: wrap16(state.reg_pc - 1),
                a: state.reg_a,
                x: state.reg_x,
                y: state.reg_y,
                p: state.status.0,
                sp: state.reg_s,
                cycle: state.cycle_debug,
            },
        ),
{
    let operand = state.ic.read(state.reg_pc);
    let fetched = state.fetch();
    assert(fetched == (CpuView {
        operands: state.operands.push(operand),
        reg_pc: next_address(state.reg_pc),
        ..state
    }));
    assert(fetched.operands =~= seq![operand]);
    assert(fetched.identified() == fetched);
    assert(fetched.pointer_fault() is None);
    assert(fetched.decode_completes());
    let queue = seq![(MicroOp::Lda1, 0u32)];
    let decoded = fetched.decode();
    assert(decoded == (CpuView {
        curr_inst_byte: None,
        value: operand,
        inst_queue: queue,
        ..fetched
    })) by {
        let start = CpuView { curr_inst_byte: None, ..fetched };
        assert(start.operand_resolved() == (CpuView { value: operand, ..start }));
        assert(start.inst_queue + handler_ops(InstructionType::LDA) =~= queue);
    }
    let running = CpuView { traced: true, ..decoded };
    let loaded = running.popped().apply(MicroOp::Lda1);
    assert(running.drain(0, 1) == loaded) by {
        reveal_with_fuel(CpuView::drain, 2);
        lemma_apply_queue(running.popped(), MicroOp::Lda1);
        assert(running.popped().inst_queue =~= Seq::empty());
    }
    assert(loaded == running.popped().load_a(operand)) by {
        reveal(CpuView::apply);
    }
    assert(loaded.inst_queue =~= Seq::empty());
    assert(decoded.execute(true) == (CpuView {
        traced: false,
        curr_inst: None,
        operands: Seq::empty(),
        ..loaded
    }));
    assert(state.worked() == decoded.execute(true));
    assert(state.tick().operands =~= state.operands);
    assert(wrap16(decoded.reg_pc - 1 - decoded.num_operands) == wrap16(state.reg_pc - 1));
}

/// LDA with an immediate operand takes two clock cycles: from an idle
/// processor that finds the opcode 0xA9 at the program counter, the first
/// cycle leaves the instruction in flight, and the second leaves the
/// processor idle again, with the operand byte in the accumulator, the zero
/// and negative flags set by it, and the program counter behind the operand.
/// The trace gets one entry, for the instruction.
pub proof fn lemma_lda_immediate_takes_two_cycles(state: CpuView)
    requires
        state.wf(),
        state.curr_inst is None,
        state.bus_fault is None,
        0 < state.cycle,
        mapped(state.reg_pc),
        mapped(next_address(state.reg_pc)),
        state.ic.read(state.reg_pc) == 0xA9,
    ensures
        state.ticks(1).curr_inst is Some,
        state.ticks(1).reg_a == state.reg_a,
        state.ticks(2).idle(),
        state.ticks(2) == (CpuView {
            cycle: count_up(state.cycle, 2),
            cycle_debug: state.cycle,
            curr_inst_byte: None,
            num_operands: 1,
            value: state.ic.read(next_address(state.reg_pc)),
            reg_pc: next_address(next_address(state.reg_pc)),
            ..state.load_a(state.ic.read(next_address(state.reg_pc)))
        }),
        state.trace(2) == seq![
            TraceEntry {
                pc: state.reg_pc,
                a: state.reg_a,
                x: state.reg_x,
                y: state.reg_y,
                p: state.status.0,
                sp: state.reg_s,
                cycle: state.cycle,
            },
        ],
{
    reveal_with_fuel(CpuView::ticks, 3);
    reveal_with_fuel(CpuView::trace, 3);
    lemma_opcode_cycle(state);
    let first = state.tick();
    assert(state.ticks(1) == first);
    lemma_lda_immediate_last_cycle(first);
    assert(state.ticks(2) == first.tick());
    assert(wrap16(first.reg_pc - 1) == state.reg_pc);
    assert(state.trace(1) =~= Seq::empty());
    assert(state.trace(2) =~= seq![first.tick_trace()->0]);
}

/// A cycle that fetches an operand byte which is not the last: the byte
/// joins the operand buffer, and nothing else happens.
pub proof fn lemma_operand_cycle(state: CpuView)
    requires
        state.wf(),
        state.bus_fault is None,
        0 < state.cycle,
        state.curr_inst is Some,
        state.curr_inst_byte is Some,
        state.inst_queue.len() == 0,
        state.operands.len() + 1 < state.num_operands,
        mapped(state.reg_pc),
    ensures
        state.tick() == (CpuView {
            cycle: count_up(state.cycle, 1),
            operands: state.operands.push(state.ic.read(state.reg_pc)),
            reg_pc: next_address(state.reg_pc),
            ..state
        }),
        state.tick_trace() is None,
{
    let fetched = state.fetch();
    assert(fetched == (CpuView {
        operands: state.operands.push(state.ic.read(state.reg_pc)),
        reg_pc: next_address(state.reg_pc),
        ..state
    }));
    assert(fetched.identified() == fetched);
    assert(fetched.decode() == fetched);
    assert(!fetched.decode_completes());
    assert(fetched.execute(false) == fetched);
    assert(state.worked() == fetched);
}

/// A cycle with steps waiting: nothing is fetched or decoded, the steps run
/// within the budget of two, and the cycle is counted unless the processor
/// stops in it.
pub proof fn lemma_queued_cycle(state: CpuView)
    requires
        state.wf(),
        state.bus_fault is None,
        0 < state.cycle,
        state.inst_queue.len() > 0,
        state.curr_inst_byte is None,
    ensures
        state.worked() == state.execute(false),
        state.execute(false).bus_fault is None ==> state.tick() == (CpuView {
            cycle: count_up(state.cycle, 1),
            ..state.execute(false)
        }),
        state.traced ==> state.tick_trace() is None,
{
    assert(state.fetch() == state);
    assert(state.decode() == state);
    assert(!state.decode_completes());
    assert(state.execute(false).cycle == state.cycle) by {
        lemma_execute_keeps_cycle(state, false);
    }
}

/// Steps leave the cycle count and the instruction in flight alone.
proof fn lemma_drain_keeps_cycle(state: CpuView, spent: nat, budget: nat)
    ensures
        state.drain(spent, budget).cycle == state.cycle,
        state.drain(spent, budget).curr_inst == state.curr_inst,
    decreases budget - spent, queue_weight(state.inst_queue),
{
    if state.inst_queue.len() > 0 {
        let op = state.inst_queue[0].0;
        let cost = state.inst_queue[0].1;
        if spent + cost < budget && !(state.uses_effective_address(op) && !mapped(state.addr)) {
            lemma_step_shrinks_queue(state);
            lemma_apply_keeps_cycle(state.popped(), op);
            lemma_drain_keeps_cycle(state.popped().apply(op), spent + cost as nat, budget);
        }
    }
}

/// A step leaves the cycle count and the instruction in flight alone.
proof fn lemma_apply_keeps_cycle(state: CpuView, op: MicroOp)
    ensures
        state.apply(op).cycle == state.cycle,
        state.apply(op).curr_inst == state.curr_inst,
{
    reveal(CpuView::apply);
}

/// Execute leaves the cycle count alone.
proof fn lemma_execute_keeps_cycle(state: CpuView, only_free: bool)
    ensures
        state.execute(only_free).cycle == state.cycle,
{
    lemma_drain_keeps_cycle(CpuView { traced: true, ..state }, 0, CpuView::budget(only_free));
}

/// What the steps of a load do, each by itself.
proof fn lemma_load_steps(state: CpuView)
    ensures
        state.apply(MicroOp::ReadMem) == state.read_operand(),
        state.apply(MicroOp::Lda1) == state.load_a(state.value),
        state.apply(MicroOp::Nop) == state,
{
    reveal(CpuView::apply);
}

/// The third cycle of LDA with an absolute operand: the second operand byte
/// is fetched, decoding comes to its end, and the read of the operand and
/// the load wait in the queue, because the read costs a bus cycle and this
/// one is spent. The instruction goes into the trace.
pub proof fn lemma_lda_absolute_third_cycle(state: CpuView)
    requires
        state.wf(),
        state.bus_fault is None,
        0 < state.cycle,
        state.curr_inst == Some(
            Instruction { inst_type: InstructionType::LDA, addr_mode: AddressingMode::Absolute },
        ),
        state.curr_inst_byte is Some,
        state.operands.len() == 1,
        state.inst_queue.len() == 0,
        mapped(state.reg_pc),
    ensures
        state.tick() == (CpuView {
            cycle: count_up(state.cycle, 1),
            curr_inst_byte: None,
            operands: state.operands.push(state.ic.read(state.reg_pc)),
            addr: word_of(state.ic.read(state.reg_pc), state.operands[0]),
            inst_queue: seq![(MicroOp::ReadMem, 1u32), (MicroOp::Lda1, 0u32)],
            traced: true,
            reg_pc: next_address(state.reg_pc),
            ..state
        }),
        state.traced ==> state.tick_trace() is None,
        !state.traced ==> state.tick_trace() == Some(
            TraceEntry {
                pc: wrap16(state.reg_pc - 2),
                a: state.reg_a,
                x: state.reg_x,
                y: state.reg_y,
                p: state.status.0,
                sp: state.reg_s,
                cycle: state.cycle_debug,
            },
        ),
{
    let high = state.ic.read(state.reg_pc);
    let fetched = state.fetch();
    assert(fetched == (CpuView {
        operands: state.operands.push(high),
        reg_pc: next_address(state.reg_pc),
        ..state
    }));
    assert(fetched.identified() == fetched);
    assert(fetched.pointer_fault() is None);
    assert(fetched.decode_completes());
    let queue = seq![(MicroOp::ReadMem, 1u32), (MicroOp::Lda1, 0u32)];
    let address = word_of(high, state.operands[0]);
    let decoded = fetched.decode();
    assert(decoded == (CpuView {
        curr_inst_byte: None,
        addr: address,
        inst_queue: queue,
        ..fetched
    })) by {
        let start = CpuView { curr_inst_byte: None, ..fetched };
        assert(start.effective_address(AddressingMode::Absolute) == address);
        assert(start.operand_resolved() == (CpuView {
            addr: address,
            inst_queue: start.inst_queue.push((MicroOp::ReadMem, 1u32)),
            ..start
        }));
        assert(start.inst_queue.push((MicroOp::ReadMem, 1u32)) + handler_ops(
            InstructionType::LDA,
        ) =~= queue);
    }
    let running = CpuView { traced: true, ..decoded };
    assert(running.drain(0, 1) == running) by {
        reveal_with_fuel(CpuView::drain, 1);
    }
    assert(decoded.execute(true) == running);
    assert(state.worked() == running);
    assert(wrap16(decoded.reg_pc - 1 - decoded.num_operands) == wrap16(state.reg_pc - 2));
}

/// The last cycle of a load of the accumulator from memory: the read takes
/// the bus cycle, the load rides on it, and the instruction is over.
pub proof fn lemma_lda_read_cycle(state: CpuView)
    requires
        state.wf(),
        state.bus_fault is None,
        0 < state.cycle,
        state.curr_inst_byte is None,
        state.inst_queue == seq![(MicroOp::ReadMem, 1u32), (MicroOp::Lda1, 0u32)],
        state.operands.len() == state.num_operands,
        mapped(state.addr),
    ensures
        state.tick() == (CpuView {
            cycle: count_up(state.cycle, 1),
            curr_inst: None,
            operands: Seq::empty(),
            value: state.ic.read(state.addr),
            inst_queue: Seq::empty(),
            traced: false,
            ..state.load_a(state.ic.read(state.addr))
        }),
        state.tick().idle(),
        state.traced ==> state.tick_trace() is None,
{
    lemma_queued_cycle(state);
    let operand = state.ic.read(state.addr);
    let running = CpuView { traced: true, ..state };
    let read = running.popped().apply(MicroOp::ReadMem);
    let loaded = read.popped().apply(MicroOp::Lda1);
    lemma_load_steps(running.popped());
    lemma_load_steps(read.popped());
    assert(running.popped().inst_queue =~= seq![(MicroOp::Lda1, 0u32)]);
    assert(read.popped().inst_queue =~= Seq::empty());
    assert(running.drain(0, 2) == loaded) by {
        reveal_with_fuel(CpuView::drain, 3);
    }
    assert(loaded == (CpuView {
        value: operand,
        inst_queue: Seq::empty(),
        ..running.load_a(operand)
    }));
    assert(state.execute(false) == (CpuView {
        traced: false,
        curr_inst: None,
        operands: Seq::empty(),
        ..loaded
    }));
}

/// LDA with an absolute operand takes four clock cycles: three fetch the
/// opcode and the two bytes of the address, the fourth reads the operand and
/// loads it. Only then is the processor idle again, with the byte at the
/// address in the accumulator and the program counter behind the
/// instruction. The trace gets one entry, for the instruction.
pub proof fn lemma_lda_absolute_takes_four_cycles(state: CpuView)
    requires
        state.wf(),
        state.curr_inst is None,
        state.bus_fault is None,
        0 < state.cycle,
        mapped(state.reg_pc),
        mapped(next_address(state.reg_pc)),
        mapped(next_address(next_address(state.reg_pc))),
        state.ic.read(state.reg_pc) == 0xAD,
        mapped(
            word_of(
                state.ic.read(next_address(next_address(state.reg_pc))),
                state.ic.read(next_address(state.reg_pc)),
            ),
        ),
    ensures
        state.ticks(1).curr_inst is Some,
        state.ticks(2).curr_inst is Some,
        state.ticks(3).curr_inst is Some,
        state.ticks(4).idle(),
        state.ticks(4) == ({
            let address = word_of(
                state.ic.read(next_address(next_address(state.reg_pc))),
                state.ic.read(next_address(state.reg_pc)),
            );
            CpuView {
                cycle: count_up(state.cycle, 4),
                cycle_debug: state.cycle,
                curr_inst_byte: None,
                num_operands: 2,
                value: state.ic.read(address),
                addr: address,
                reg_pc: next_address(next_address(next_address(state.reg_pc))),
                ..state.load_a(state.ic.read(address))
            }
        }),
        state.trace(4) == seq![
            TraceEntry {
                pc: state.reg_pc,
                a: state.reg_a,
                x: state.reg_x,
                y: state.reg_y,
                p: state.status.0,
                sp: state.reg_s,
                cycle: state.cycle,
            },
        ],
{
    reveal_with_fuel(CpuView::ticks, 5);
    reveal_with_fuel(CpuView::trace, 5);
    lemma_opcode_cycle(state);
    let first = state.tick();
    assert(state.ticks(1) == first);
    lemma_operand_cycle(first);
    let second = first.tick();
    assert(state.ticks(2) == second);
    assert(second.operands =~= seq![state.ic.read(next_address(state.reg_pc))]);
    lemma_lda_absolute_third_cycle(second);
    let third = second.tick();
    assert(state.ticks(3) == third);
    lemma_lda_read_cycle(third);
    assert(state.ticks(4) == third.tick());
    assert(wrap16(second.reg_pc - 2) == state.reg_pc);
    assert(state.trace(1) =~= Seq::empty());
    assert(state.trace(2) =~= Seq::empty());
    assert(state.trace(3) =~= seq![second.tick_trace()->0]);
    assert(state.trace(4) =~= state.trace(3));
}

/// Whether a mnemonic is one of the eight branches.
pub open spec fn is_branch_type(inst_type: InstructionType) -> bool {
    inst_type == InstructionType::BCC || inst_type == InstructionType::BCS || inst_type
        == InstructionType::BEQ || inst_type == InstructionType::BNE || inst_type
        == InstructionType::BMI || inst_type == InstructionType::BPL || inst_type
        == InstructionType::BVC || inst_type == InstructionType::BVS
}

/// Whether a branch is taken with the flags as they are.
pub open spec fn branch_taken(inst_type: InstructionType, status: Status) -> bool {
    match inst_type {
        InstructionType::BCC => !status.flag(CARRY),
        InstructionType::BCS => status.flag(CARRY),
        InstructionType::BEQ => status.flag(ZERO),
        InstructionType::BNE => !status.flag(ZERO),
        InstructionType::BMI => status.flag(NEGATIVE),
        InstructionType::BPL => !status.flag(NEGATIVE),
        InstructionType::BVC => !status.flag(OVERFLOW),
        InstructionType::BVS => status.flag(OVERFLOW),
        _ => false,
    }
}

/// A branch has one step, which costs nothing and asks its flag.
proof fn lemma_branch_step(state: CpuView, inst_type: InstructionType)
    requires
        is_branch_type(inst_type),
    ensures
        handler_ops(inst_type).len() == 1,
        handler_ops(inst_type)[0].1 == 0,
        !state.uses_effective_address(handler_ops(inst_type)[0].0),
        state.apply(handler_ops(inst_type)[0].0) == state.branch(
            branch_taken(inst_type, state.status),
        ),
        memory_op_of(inst_type) == Some(MemoryOp::Read),
{
    reveal(CpuView::apply);
}

/// The second cycle of a branch: the offset is fetched, decoding comes to its
/// end, and the step of the branch, which costs nothing, runs in the same
/// cycle. A branch that is not taken is over with it. A branch that is taken
/// has moved the program counter to its target, and leaves one idle cycle in
/// the queue, or two if the target lies in another page than the instruction
/// after the branch. The instruction goes into the trace.
pub proof fn lemma_branch_second_cycle(state: CpuView, inst_type: InstructionType)
    requires
        state.wf(),
        state.bus_fault is None,
        0 < state.cycle,
        is_branch_type(inst_type),
        state.curr_inst == Some(
            Instruction { inst_type: inst_type, addr_mode: AddressingMode::Relative },
        ),
        state.curr_inst_byte is Some,
        state.operands.len() == 0,
        state.inst_queue.len() == 0,
        mapped(state.reg_pc),
    ensures
        state.tick() == ({
            let offset = state.ic.read(state.reg_pc);
            let next = next_address(state.reg_pc);
            let target = wrap16(next + signed(offset));
            if !branch_taken(inst_type, state.status) {
                CpuView {
                    cycle: count_up(state.cycle, 1),
                    curr_inst_byte: None,
                    curr_inst: None,
                    addr: target,
                    traced: false,
                    reg_pc: next,
                    ..state
                }
            } else {
                CpuView {
                    cycle: count_up(state.cycle, 1),
                    curr_inst_byte: None,
                    operands: seq![offset],
                    addr: target,
                    inst_queue: if next / 0x100 != target / 0x100 {
                        seq![(MicroOp::Nop, 1u32), (MicroOp::Nop, 1u32)]
                    } else {
                        seq![(MicroOp::Nop, 1u32)]
                    },
                    traced: true,
                    reg_pc: target,
                    ..state
                }
            }
        }),
        state.traced ==> state.tick_trace() is None,
        !state.traced ==> state.tick_trace() == Some(
            TraceEntry {
                pc: wrap16(state.reg_pc - 1),
                a: state.reg_a,
                x: state.reg_x,
                y: state.reg_y,
                p: state.status.0,
                sp: state.reg_s,
                cycle: state.cycle_debug,
            },
        ),
{
    let offset = state.ic.read(state.reg_pc);
    let next = next_address(state.reg_pc);
    let target = wrap16(next + signed(offset));
    let taken = branch_taken(inst_type, state.status);
    let fetched = state.fetch();
    assert(fetched == (CpuView { operands: state.operands.push(offset), reg_pc: next, ..state }));
    assert(fetched.operands =~= seq![offset]);
    assert(fetched.identified() == fetched);
    assert(fetched.pointer_fault() is None);
    assert(fetched.decode_completes());
    let step = handler_ops(inst_type)[0].0;
    let queue = seq![(step, 0u32)];
    let decoded = fetched.decode();
    lemma_branch_step(state, inst_type);
    assert(decoded == (CpuView {
        curr_inst_byte: None,
        addr: target,
        inst_queue: queue,
        ..fetched
    })) by {
        let start = CpuView { curr_inst_byte: None, ..fetched };
        assert(start.effective_address(AddressingMode::Relative) == target);
        assert(start.operand_resolved() == (CpuView { addr: target, ..start }));
        assert(start.inst_queue + handler_ops(inst_type) =~= queue);
    }
    let running = CpuView { traced: true, ..decoded };
    let ready = running.popped();
    assert(ready.inst_queue =~= Seq::empty());
    lemma_branch_step(ready, inst_type);
    let branched = ready.apply(step);
    assert(branched == ready.branch(taken));
    assert(running.drain(0, 1) == branched) by {
        reveal_with_fuel(CpuView::drain, 2);
    }
    if taken {
        if next / 0x100 != target / 0x100 {
            assert(branched.inst_queue =~= seq![(MicroOp::Nop, 1u32), (MicroOp::Nop, 1u32)]);
        } else {
            assert(branched.inst_queue =~= seq![(MicroOp::Nop, 1u32)]);
        }
        assert(decoded.execute(true) == branched);
    } else {
        assert(decoded.execute(true) == (CpuView {
            traced: false,
            curr_inst: None,
            operands: Seq::empty(),
            ..branched
        }));
        assert(state.tick().operands =~= state.operands);
    }
    assert(state.worked() == decoded.execute(true));
    assert(wrap16(decoded.reg_pc - 1 - decoded.num_operands) == wrap16(state.reg_pc - 1));
}

/// A cycle that finds idle cycles in the queue spends one of them. If it was
/// the last, the instruction is over.
pub proof fn lemma_idle_cycle(state: CpuView)
    requires
        state.wf(),
        state.bus_fault is None,
        0 < state.cycle,
        state.curr_inst_byte is None,
        state.operands.len() == state.num_operands,
        state.inst_queue == seq![(MicroOp::Nop, 1u32)] || state.inst_queue == seq![
            (MicroOp::Nop, 1u32),
            (MicroOp::Nop, 1u32),
        ],
    ensures
        state.inst_queue.len() == 1 ==> state.tick().idle() && state.tick() == (CpuView {
            cycle: count_up(state.cycle, 1),
            curr_inst: None,
            operands: Seq::empty(),
            inst_queue: Seq::empty(),
            traced: false,
            ..state
        }),
        state.inst_queue.len() == 2 ==> state.tick() == (CpuView {
            cycle: count_up(state.cycle, 1),
            inst_queue: seq![(MicroOp::Nop, 1u32)],
            traced: true,
            ..state
        }),
        state.traced ==> state.tick_trace() is None,
{
    lemma_queued_cycle(state);
    let running = CpuView { traced: true, ..state };
    lemma_load_steps(running.popped());
    if state.inst_queue.len() == 1 {
        assert(running.popped().inst_queue =~= Seq::empty());
        assert(running.drain(0, 2) == running.popped()) by {
            reveal_with_fuel(CpuView::drain, 2);
        }
    } else {
        assert(running.popped().inst_queue =~= seq![(MicroOp::Nop, 1u32)]);
        assert(running.drain(0, 2) == running.popped()) by {
            reveal_with_fuel(CpuView::drain, 2);
        }
    }
}

/// A branch takes two clock cycles if it is not taken, three if it is taken
/// within the page of the instruction that follows it, and four if it is
/// taken into another page. Only then is the processor idle again, with the
/// program counter at the instruction after the branch or at the target, and
/// with registers, flags and memory as they were.
pub proof fn lemma_branch_cycles(state: CpuView)
    requires
        state.wf(),
        state.curr_inst is None,
        state.bus_fault is None,
        0 < state.cycle,
        mapped(state.reg_pc),
        mapped(next_address(state.reg_pc)),
        is_branch_type(documented_type(state.ic.read(state.reg_pc))),
    ensures
        ({
            let inst_type = documented_type(state.ic.read(state.reg_pc));
            let offset = state.ic.read(next_address(state.reg_pc));
            let next = next_address(next_address(state.reg_pc));
            let target = wrap16(next + signed(offset));
            let taken = branch_taken(inst_type, state.status);
            let crosses = next / 0x100 != target / 0x100;
            let cycles: nat = if !taken {
                2
            } else if !crosses {
                3
            } else {
                4
            };
            &&& forall|count: nat|
                0 < count < cycles ==> (#[trigger] state.ticks(count)).curr_inst is Some
            &&& state.ticks(cycles).idle()
            &&& state.ticks(cycles) == (CpuView {
                cycle: count_up(state.cycle, cycles),
                cycle_debug: state.cycle,
                curr_inst_byte: None,
                num_operands: 1,
                addr: target,
                reg_pc: if taken {
                    target
                } else {
                    next
                },
                ..state
            })
        }),
{
    reveal_with_fuel(CpuView::ticks, 5);
    let inst_type = documented_type(state.ic.read(state.reg_pc));
    let offset = state.ic.read(next_address(state.reg_pc));
    let next = next_address(next_address(state.reg_pc));
    let target = wrap16(next + signed(offset));
    let taken = branch_taken(inst_type, state.status);
    let crosses = next / 0x100 != target / 0x100;
    assert(documented_mode(state.ic.read(state.reg_pc)) == AddressingMode::Relative);
    lemma_opcode_cycle(state);
    let first = state.tick();
    assert(state.ticks(1) == first);
    lemma_branch_second_cycle(first, inst_type);
    let second = first.tick();
    assert(state.ticks(2) == second);
    if taken {
        assert(second.operands.len() == 1);
        lemma_idle_cycle(second);
        let third = second.tick();
        assert(state.ticks(3) == third);
        assert(third.operands.len() == if crosses { 1nat } else { 0nat });
        if crosses {
            lemma_idle_cycle(third);
            assert(state.ticks(4) == third.tick());
            assert(state.ticks(4).operands =~= state.operands);
            assert forall|count: nat| 0 < count < 4 implies (#[trigger] state.ticks(
                count,
            )).curr_inst is Some by {
                assert(count == 1 || count == 2 || count == 3);
            }
        } else {
            assert(third.operands =~= state.operands);
            assert forall|count: nat| 0 < count < 3 implies (#[trigger] state.ticks(
                count,
            )).curr_inst is Some by {
                assert(count == 1 || count == 2);
            }
        }
    } else {
        assert forall|count: nat| 0 < count < 2 implies (#[trigger] state.ticks(
                count,
            )).curr_inst is Some by {
            assert(count == 1);
        }
    }
}

/// No flag that is set or cleared touches the reserved bit.
proof fn lemma_reserved_bit_kept()
    ensures
        forall|status: Status, mask: u8, value: bool|
            single_flag(mask) && mask != ONE && status.flag(ONE) ==> (#[trigger] status.with_flag(
                mask,
                value,
            )).flag(ONE),
        forall|bits: u8| (#[trigger] Status::pulled(bits)).flag(ONE),
{
    assert forall|status: Status, mask: u8, value: bool|
        single_flag(mask) && mask != ONE && status.flag(ONE) implies (#[trigger] status.with_flag(
        mask,
        value,
    )).flag(ONE) by {
        lemma_with_flag(status, mask, value, ONE);
    }
    assert forall|bits: u8| (#[trigger] Status::pulled(bits)).flag(ONE) by {
        lemma_push_pull_flags(Status(bits), bits);
    }
}

/// No step clears the reserved bit.
proof fn lemma_apply_keeps_reserved_bit(state: CpuView, op: MicroOp)
    requires
        state.status.flag(ONE),
    ensures
        state.apply(op).status.flag(ONE),
{
    reveal(CpuView::apply);
    lemma_reserved_bit_kept();
    match op {
        MicroOp::ReadMem => {
            assert(state.apply(MicroOp::ReadMem).status.flag(ONE));
        },
        MicroOp::WriteMem => {
            assert(state.apply(MicroOp::WriteMem).status.flag(ONE));
        },
        MicroOp::Adc1 => {
            assert(state.apply(MicroOp::Adc1).status.flag(ONE));
        },
        MicroOp::And1 => {
            assert(state.apply(MicroOp::And1).status.flag(ONE));
        },
        MicroOp::Asl1 => {
            assert(state.apply(MicroOp::Asl1).status.flag(ONE));
        },
        MicroOp::Bcc1 => {
            assert(state.apply(MicroOp::Bcc1).status.flag(ONE));
        },
        MicroOp::Bcs1 => {
            assert(state.apply(MicroOp::Bcs1).status.flag(ONE));
        },
        MicroOp::Beq1 => {
            assert(state.apply(MicroOp::Beq1).status.flag(ONE));
        },
        MicroOp::Bit1 => {
            assert(state.apply(MicroOp::Bit1).status.flag(ONE));
        },
        MicroOp::Bmi1 => {
            assert(state.apply(MicroOp::Bmi1).status.flag(ONE));
        },
        MicroOp::Bne1 => {
            assert(state.apply(MicroOp::Bne1).status.flag(ONE));
        },
        MicroOp::Bpl1 => {
            assert(state.apply(MicroOp::Bpl1).status.flag(ONE));
        },
        MicroOp::Brk1 => {
            assert(state.apply(MicroOp::Brk1).status.flag(ONE));
        },
        MicroOp::Brk2 => {
            assert(state.apply(MicroOp::Brk2).status.flag(ONE));
        },
        MicroOp::Brk3 => {
            assert(state.apply(MicroOp::Brk3).status.flag(ONE));
        },
        MicroOp::Brk4 => {
            assert(state.apply(MicroOp::Brk4).status.flag(ONE));
        },
        MicroOp::Bvc1 => {
            assert(state.apply(MicroOp::Bvc1).status.flag(ONE));
        },
        MicroOp::Bvs1 => {
            assert(state.apply(MicroOp::Bvs1).status.flag(ONE));
        },
        MicroOp::Clc1 => {
            assert(state.apply(MicroOp::Clc1).status.flag(ONE));
        },
        MicroOp::Cld1 => {
            assert(state.apply(MicroOp::Cld1).status.flag(ONE));
        },
        MicroOp::Cli1 => {
            assert(state.apply(MicroOp::Cli1).status.flag(ONE));
        },
        MicroOp::Clv1 => {
            assert(state.apply(MicroOp::Clv1).status.flag(ONE));
        },
        MicroOp::Cmp1 => {
            assert(state.apply(MicroOp::Cmp1).status.flag(ONE));
        },
        MicroOp::Cpx1 => {
            assert(state.apply(MicroOp::Cpx1).status.flag(ONE));
        },
        MicroOp::Cpy1 => {
            assert(state.apply(MicroOp::Cpy1).status.flag(ONE));
        },
        MicroOp::Dec1 => {
            assert(state.apply(MicroOp::Dec1).status.flag(ONE));
        },
        MicroOp::Dec2 => {
            assert(state.apply(MicroOp::Dec2).status.flag(ONE));
        },
        MicroOp::Dex1 => {
            assert(state.apply(MicroOp::Dex1).status.flag(ONE));
        },
        MicroOp::Dey1 => {
            assert(state.apply(MicroOp::Dey1).status.flag(ONE));
        },
        MicroOp::Eor1 => {
            assert(state.apply(MicroOp::Eor1).status.flag(ONE));
        },
        MicroOp::Inc1 => {
            assert(state.apply(MicroOp::Inc1).status.flag(ONE));
        },
        MicroOp::Inc2 => {
            assert(state.apply(MicroOp::Inc2).status.flag(ONE));
        },
        MicroOp::Inx1 => {
            assert(state.apply(MicroOp::Inx1).status.flag(ONE));
        },
        MicroOp::Iny1 => {
            assert(state.apply(MicroOp::Iny1).status.flag(ONE));
        },
        MicroOp::Jmp1 => {
            assert(state.apply(MicroOp::Jmp1).status.flag(ONE));
        },
        MicroOp::Jsr1 => {
            assert(state.apply(MicroOp::Jsr1).status.flag(ONE));
        },
        MicroOp::Jsr2 => {
            assert(state.apply(MicroOp::Jsr2).status.flag(ONE));
        },
        MicroOp::Lda1 => {
            assert(state.apply(MicroOp::Lda1).status.flag(ONE));
        },
        MicroOp::Ldx1 => {
            assert(state.apply(MicroOp::Ldx1).status.flag(ONE));
        },
        MicroOp::Ldy1 => {
            assert(state.apply(MicroOp::Ldy1).status.flag(ONE));
        },
        MicroOp::Lsr1 => {
            assert(state.apply(MicroOp::Lsr1).status.flag(ONE));
        },
        MicroOp::Nop => {
            assert(state.apply(MicroOp::Nop).status.flag(ONE));
        },
        MicroOp::Ora1 => {
            assert(state.apply(MicroOp::Ora1).status.flag(ONE));
        },
        MicroOp::Pha1 => {
            assert(state.apply(MicroOp::Pha1).status.flag(ONE));
        },
        MicroOp::Php1 => {
            assert(state.apply(MicroOp::Php1).status.flag(ONE));
        },
        MicroOp::Pla1 => {
            assert(state.apply(MicroOp::Pla1).status.flag(ONE));
        },
        MicroOp::Plp1 => {
            assert(state.apply(MicroOp::Plp1).status.flag(ONE));
        },
        MicroOp::Rol1 => {
            assert(state.apply(MicroOp::Rol1).status.flag(ONE));
        },
        MicroOp::Ror1 => {
            assert(state.apply(MicroOp::Ror1).status.flag(ONE));
        },
        MicroOp::Rti1 => {
            assert(state.apply(MicroOp::Rti1).status.flag(ONE));
        },
        MicroOp::Rti2 => {
            assert(state.apply(MicroOp::Rti2).status.flag(ONE));
        },
        MicroOp::Rti3 => {
            assert(state.apply(MicroOp::Rti3).status.flag(ONE));
        },
        MicroOp::Rts1 => {
            assert(state.apply(MicroOp::Rts1).status.flag(ONE));
        },
        MicroOp::Rts2 => {
            assert(state.apply(MicroOp::Rts2).status.flag(ONE));
        },
        MicroOp::Sbc1 => {
            assert(state.apply(MicroOp::Sbc1).status.flag(ONE));
        },
        MicroOp::Sec1 => {
            assert(state.apply(MicroOp::Sec1).status.flag(ONE));
        },
        MicroOp::Sed1 => {
            assert(state.apply(MicroOp::Sed1).status.flag(ONE));
        },
        MicroOp::Sei1 => {
            assert(state.apply(MicroOp::Sei1).status.flag(ONE));
        },
        MicroOp::Tax1 => {
            assert(state.apply(MicroOp::Tax1).status.flag(ONE));
        },
        MicroOp::Tay1 => {
            assert(state.apply(MicroOp::Tay1).status.flag(ONE));
        },
        MicroOp::Tsx1 => {
            assert(state.apply(MicroOp::Tsx1).status.flag(ONE));
        },
        MicroOp::Txa1 => {
            assert(state.apply(MicroOp::Txa1).status.flag(ONE));
        },
        MicroOp::Txs1 => {
            assert(state.apply(MicroOp::Txs1).status.flag(ONE));
        },
        MicroOp::Tya1 => {
            assert(state.apply(MicroOp::Tya1).status.flag(ONE));
        },
    }
}

/// Running queued steps does not clear the reserved bit.
proof fn lemma_drain_keeps_reserved_bit(state: CpuView, spent: nat, budget: nat)
    requires
        state.status.flag(ONE),
    ensures
        state.drain(spent, budget).status.flag(ONE),
    decreases budget - spent, queue_weight(state.inst_queue),
{
    if state.inst_queue.len() > 0 {
        let op = state.inst_queue[0].0;
        let cost = state.inst_queue[0].1;
        if spent + cost < budget && !(state.uses_effective_address(op) && !mapped(state.addr)) {
            lemma_step_shrinks_queue(state);
            lemma_apply_keeps_reserved_bit(state.popped(), op);
            lemma_drain_keeps_reserved_bit(state.popped().apply(op), spent + cost as nat, budget);
        }
    }
}

/// The reserved bit reads as one for good: once it is set, as it is after
/// power-on, no clock cycle clears it, and every entry of the trace shows it
/// set.
pub proof fn lemma_reserved_bit_stays(state: CpuView, count: nat)
    requires
        state.status.flag(ONE),
    ensures
        state.ticks(count).status.flag(ONE),
        forall|i: int|
            0 <= i < state.trace(count).len() ==> Status(
                (#[trigger] state.trace(count)[i]).p,
            ).flag(ONE),
    decreases count,
{
    if count > 0 {
        let before = state.ticks((count - 1) as nat);
        let sooner = state.trace((count - 1) as nat);
        lemma_reserved_bit_stays(state, (count - 1) as nat);
        lemma_tick_keeps_reserved_bit(before);
        assert forall|i: int| 0 <= i < state.trace(count).len() implies Status(
            (#[trigger] state.trace(count)[i]).p,
        ).flag(ONE) by {
            if i < sooner.len() {
                assert(state.trace(count)[i] == sooner[i]);
            }
        }
    }
}

/// One clock cycle does not clear the reserved bit, and shows it set in what
/// it adds to the trace.
proof fn lemma_tick_keeps_reserved_bit(state: CpuView)
    requires
        state.status.flag(ONE),
    ensures
        state.tick().status.flag(ONE),
        state.tick_trace() matches Some(entry) ==> Status(entry.p).flag(ONE),
{
    let fetched = state.fetch();
    let decoded = fetched.decode();
    assert(decoded.status == state.status) by {
        lemma_decode_keeps_status(fetched);
    }
    let only_free = fetched.decode_completes();
    lemma_drain_keeps_reserved_bit(
        CpuView { traced: true, ..decoded },
        0,
        CpuView::budget(only_free),
    );
}

/// Decoding leaves the status register alone.
proof fn lemma_decode_keeps_status(state: CpuView)
    ensures
        state.decode().status == state.status,
{
}

/// After power-on the reserved bit and the interrupt-disable flag are set,
/// the carry, zero, decimal, overflow and negative flags are clear, and the
/// processor is idle and ready for its start-up.
pub proof fn lemma_power_on(state: CpuView)
    ensures
        state.powered_on().status.flag(ONE),
        state.powered_on().status.flag(INTERRUPT_DISABLE),
        !state.powered_on().status.flag(CARRY),
        !state.powered_on().status.flag(ZERO),
        !state.powered_on().status.flag(DECIMAL),
        !state.powered_on().status.flag(OVERFLOW),
        !state.powered_on().status.flag(NEGATIVE),
        state.powered_on().status.flag(BREAK) == state.status.flag(BREAK),
        state.powered_on().wf(),
        state.powered_on().idle(),
        state.powered_on().cycle == 0,
{
    lemma_flags();
}

/// A cycle that may run free steps only leaves a step with a cost, and the
/// steps behind it, in the queue.
proof fn lemma_costly_step_waits(state: CpuView, at: int)
    requires
        0 <= at < state.inst_queue.len(),
        state.inst_queue[at].1 >= 1,
    ensures
        state.drain(0, 1).inst_queue.len() > 0,
    decreases at,
{
    let op = state.inst_queue[0].0;
    let cost = state.inst_queue[0].1;
    if cost == 0 && !(state.uses_effective_address(op) && !mapped(state.addr)) {
        let next = state.popped().apply(op);
        lemma_apply_queue(state.popped(), op);
        assert(state.popped().inst_queue[at - 1] == state.inst_queue[at]);
        lemma_costly_step_waits(next, at - 1);
    }
}

/// No instruction is shorter than two clock cycles: the cycle that fetches
/// an opcode never leaves the processor idle. The instruction either waits
/// for operand bytes, or has a step with a cost in the queue, its own or the
/// idle cycle that decoding gives to an instruction without any.
pub proof fn lemma_two_cycles_at_least(state: CpuView)
    requires
        state.wf(),
        state.curr_inst is None,
        state.bus_fault is None,
        0 < state.cycle,
        mapped(state.reg_pc),
    ensures
        state.tick().curr_inst is Some,
        !state.tick().idle(),
{
    let byte = state.ic.read(state.reg_pc);
    let fetched = state.fetch();
    assert(fetched == (CpuView {
        curr_inst_byte: Some(byte),
        cycle_debug: state.cycle,
        reg_pc: next_address(state.reg_pc),
        ..state
    }));
    let identified = fetched.identified();
    lemma_decoded_length(byte);
    if operand_count(documented_mode(byte)) == 0 {
        assert(identified.pointer_fault() is None);
        assert(fetched.decode_completes());
        let decoded = fetched.decode();
        assert(decoded == identified.completed());
        let start = CpuView { curr_inst_byte: None, ..identified };
        let queued = start.queued();
        let running = CpuView { traced: true, ..decoded };
        // some step of the instruction has a cost
        if free_from(queued.inst_queue, identified.inst_queue.len() as int) {
            let last = queued.inst_queue.len() as int;
            assert(decoded.inst_queue[last].1 >= 1);
            lemma_costly_step_waits(running, last);
        } else {
            let at = choose|at: int|
                identified.inst_queue.len() <= at < queued.inst_queue.len() && (
                #[trigger] queued.inst_queue[at]).1 != 0;
            assert(decoded.inst_queue[at].1 >= 1);
            lemma_costly_step_waits(running, at);
        }
        lemma_drain_keeps_cycle(running, 0, 1);
        assert(decoded.execute(true) == running.drain(0, 1));
        assert(state.worked() == decoded.execute(true));
    } else {
        assert(fetched.decode() == identified);
        assert(identified.execute(false) == identified);
        assert(state.worked() == identified);
    }
}

/// Running queued steps keeps the processor well formed.
proof fn lemma_drain_wf(state: CpuView, spent: nat, budget: nat)
    requires
        state.wf(),
    ensures
        state.drain(spent, budget).wf(),
    decreases budget - spent, queue_weight(state.inst_queue),
{
    if state.inst_queue.len() > 0 {
        let op = state.inst_queue[0].0;
        let cost = state.inst_queue[0].1;
        if spent + cost < budget && !(state.uses_effective_address(op) && !mapped(state.addr)) {
            lemma_step_shrinks_queue(state);
            assert(state.popped().wf());
            lemma_apply_wf(state.popped(), op);
            lemma_drain_wf(state.popped().apply(op), spent + cost as nat, budget);
        }
    }
}

/// Decoding keeps the processor well formed.
proof fn lemma_decode_wf(state: CpuView)
    requires
        state.wf(),
    ensures
        state.decode().wf(),
{
    if state.curr_inst_byte is Some {
        let byte = state.curr_inst_byte->0;
        lemma_decoded_length(byte);
        let identified = state.identified();
        assert(identified.wf());
        if identified.operands.len() >= identified.num_operands && identified.pointer_fault()
            is None {
            let start = CpuView { curr_inst_byte: None, ..identified };
            let inst = identified.curr_inst->0;
            let resolved = start.operand_resolved();
            assert(resolved.wf());
            let queued = start.queued();
            assert forall|i: int| 0 <= i < queued.inst_queue.len() implies (
            #[trigger] queued.inst_queue[i]).1 <= 1 by {
                if i >= resolved.inst_queue.len() {
                    let k = i - resolved.inst_queue.len();
                    assert(queued.inst_queue[i] == handler_ops(inst.inst_type)[k]);
                }
            }
            assert(queued.wf());
        }
    }
}

/// The processor stays well formed: every clock cycle keeps the devices
/// powered, the operand buffer within the operand count of the instruction
/// in flight, and the cost of every queued step at 0 or 1.
pub proof fn lemma_tick_wf(state: CpuView)
    requires
        state.wf(),
    ensures
        state.tick().wf(),
{
    let fetched = state.fetch();
    assert(fetched.wf());
    lemma_decode_wf(fetched);
    let decoded = fetched.decode();
    let only_free = fetched.decode_completes();
    if decoded.ready() {
        lemma_drain_wf(CpuView { traced: true, ..decoded }, 0, CpuView::budget(only_free));
    }
}

/// The same of any number of clock cycles.
pub proof fn lemma_ticks_wf(state: CpuView, count: nat)
    requires
        state.wf(),
    ensures
        state.ticks(count).wf(),
    decreases count,
{
    if count > 0 {
        lemma_ticks_wf(state, (count - 1) as nat);
        lemma_tick_wf(state.ticks((count - 1) as nat));
    }
}

/// A reset of a powered processor seeds the program counter from the reset
/// vector: it takes the little-endian word that lies there, which the reset
/// itself leaves alone. Accumulator and index registers stay, the stack
/// pointer moves down by three, going round below 0x00, the
/// interrupt-disable flag is set, and nothing is in flight.
pub proof fn lemma_reset(state: CpuView)
    requires
        state.ic.wf(),
    ensures
        state.reset().reg_pc == state.ic.read_word(RESET_VECTOR_ADDR),
        state.reset().reg_pc == word_of(
            state.ic.read(0xFFFD),
            state.ic.read(0xFFFC),
        ),
        state.reset().reg_a == state.reg_a,
        state.reset().reg_x == state.reg_x,
        state.reset().reg_y == state.reg_y,
        state.reset().reg_s == wrap8(state.reg_s - 3),
        state.reset().status.flag(INTERRUPT_DISABLE),
        state.reset().idle(),
        state.reset().cycle == 0,
        state.reset().bus_fault is None,
        state.num_operands <= 2 ==> state.reset().wf(),
{
    lemma_flags();
}

/// What the steps of a store and of an addition do, each by itself.
proof fn lemma_store_and_add_steps(state: CpuView)
    ensures
        state.apply(MicroOp::WriteMem) == state.write_staged(),
        state.apply(MicroOp::Adc1) == state.adc(),
{
    reveal(CpuView::apply);
}

/// Clock cycles add up: the processor after `first + then` cycles is the
/// processor after `first` cycles, run for `then` more.
pub proof fn lemma_ticks_add(state: CpuView, first: nat, then: nat)
    ensures
        state.ticks(first + then) == state.ticks(first).ticks(then),
    decreases then,
{
    if then > 0 {
        lemma_ticks_add(state, first, (then - 1) as nat);
        assert(state.ticks(first + then) == state.ticks((first + then - 1) as nat).tick());
    }
}

/// The last cycle of ADC with an immediate operand: the operand byte is
/// fetched, decoding comes to its end, and the addition, which costs
/// nothing, runs in the same cycle.
pub proof fn lemma_adc_immediate_last_cycle(state: CpuView)
    requires
        state.wf(),
        state.bus_fault is None,
        0 < state.cycle,
        state.curr_inst == Some(
            Instruction { inst_type: InstructionType::ADC, addr_mode: AddressingMode::Immediate },
        ),
        state.curr_inst_byte is Some,
        state.operands.len() == 0,
        state.inst_queue.len() == 0,
        mapped(state.reg_pc),
    ensures
        state.tick() == (CpuView {
            cycle: count_up(state.cycle, 1),
            curr_inst_byte: None,
            curr_inst: None,
            traced: false,
            reg_pc: next_address(state.reg_pc),
            ..(CpuView { value: state.ic.read(state.reg_pc), ..state }).adc()
        }),
        state.tick().idle(),
{
    let operand = state.ic.read(state.reg_pc);
    let fetched = state.fetch();
    assert(fetched == (CpuView {
        operands: state.operands.push(operand),
        reg_pc: next_address(state.reg_pc),
        ..state
    }));
    assert(fetched.operands =~= seq![operand]);
    assert(fetched.identified() == fetched);
    assert(fetched.pointer_fault() is None);
    assert(fetched.decode_completes());
    let queue = seq![(MicroOp::Adc1, 0u32)];
    let decoded = fetched.decode();
    assert(decoded == (CpuView {
        curr_inst_byte: None,
        value: operand,
        inst_queue: queue,
        ..fetched
    })) by {
        let start = CpuView { curr_inst_byte: None, ..fetched };
        assert(start.operand_resolved() == (CpuView { value: operand, ..start }));
        assert(start.inst_queue + handler_ops(InstructionType::ADC) =~= queue);
    }
    let running = CpuView { traced: true, ..decoded };
    let added = running.popped().apply(MicroOp::Adc1);
    lemma_store_and_add_steps(running.popped());
    assert(running.popped().inst_queue =~= Seq::empty());
    assert(running.drain(0, 1) == added) by {
        reveal_with_fuel(CpuView::drain, 2);
    }
    assert(added.inst_queue =~= Seq::empty());
    assert(decoded.execute(true) == (CpuView {
        traced: false,
        curr_inst: None,
        operands: Seq::empty(),
        ..added
    }));
    assert(state.worked() == decoded.execute(true));
    assert(state.tick().operands =~= state.operands);
}

/// ADC with an immediate operand takes two clock cycles, and leaves the
/// processor idle with the sum in the accumulator and the program counter
/// behind the operand.
pub proof fn lemma_adc_immediate_takes_two_cycles(state: CpuView)
    requires
        state.wf(),
        state.curr_inst is None,
        state.bus_fault is None,
        0 < state.cycle,
        mapped(state.reg_pc),
        mapped(next_address(state.reg_pc)),
        state.ic.read(state.reg_pc) == 0x69,
    ensures
        state.ticks(1).curr_inst is Some,
        state.ticks(2).idle(),
        state.ticks(2) == (CpuView {
            cycle: count_up(state.cycle, 2),
            cycle_debug: state.cycle,
            curr_inst_byte: None,
            num_operands: 1,
            reg_pc: next_address(next_address(state.reg_pc)),
            ..(CpuView { value: state.ic.read(next_address(state.reg_pc)), ..state }).adc()
        }),
{
    reveal_with_fuel(CpuView::ticks, 3);
    lemma_opcode_cycle(state);
    let first = state.tick();
    assert(state.ticks(1) == first);
    lemma_adc_immediate_last_cycle(first);
    assert(state.ticks(2) == first.tick());
}

/// The second cycle of an instruction with an operand in the zero page that
/// needs a bus cycle of its own, a load of the accumulator or a store of it:
/// the operand byte is fetched and is the effective address, decoding comes
/// to its end, and the steps wait in the queue.
pub proof fn lemma_zero_page_second_cycle(state: CpuView, inst_type: InstructionType)
    requires
        state.wf(),
        state.bus_fault is None,
        0 < state.cycle,
        inst_type == InstructionType::LDA || inst_type == InstructionType::STA,
        state.curr_inst == Some(
            Instruction { inst_type: inst_type, addr_mode: AddressingMode::ZeroPage },
        ),
        state.curr_inst_byte is Some,
        state.operands.len() == 0,
        state.inst_queue.len() == 0,
        mapped(state.reg_pc),
    ensures
        state.tick() == (CpuView {
            cycle: count_up(state.cycle, 1),
            curr_inst_byte: None,
            operands: seq![state.ic.read(state.reg_pc)],
            addr: state.ic.read(state.reg_pc) as u16,
            write: if inst_type == InstructionType::STA {
                state.reg_a
            } else {
                state.write
            },
            inst_queue: if inst_type == InstructionType::STA {
                seq![(MicroOp::WriteMem, 1u32)]
            } else {
                seq![(MicroOp::ReadMem, 1u32), (MicroOp::Lda1, 0u32)]
            },
            traced: true,
            reg_pc: next_address(state.reg_pc),
            ..state
        }),
{
    let operand = state.ic.read(state.reg_pc);
    let fetched = state.fetch();
    assert(fetched == (CpuView {
        operands: state.operands.push(operand),
        reg_pc: next_address(state.reg_pc),
        ..state
    }));
    assert(fetched.operands =~= seq![operand]);
    assert(fetched.identified() == fetched);
    assert(fetched.pointer_fault() is None);
    assert(fetched.decode_completes());
    let decoded = fetched.decode();
    let start = CpuView { curr_inst_byte: None, ..fetched };
    assert(start.effective_address(AddressingMode::ZeroPage) == operand as u16);
    if inst_type == InstructionType::STA {
        let queue = seq![(MicroOp::WriteMem, 1u32)];
        assert(decoded == (CpuView {
            curr_inst_byte: None,
            addr: operand as u16,
            write: state.reg_a,
            inst_queue: queue,
            ..fetched
        })) by {
            assert(start.operand_resolved() == (CpuView {
                addr: operand as u16,
                write: state.reg_a,
                inst_queue: start.inst_queue.push((MicroOp::WriteMem, 1u32)),
                ..start
            }));
            assert(start.inst_queue.push((MicroOp::WriteMem, 1u32)) + handler_ops(
                InstructionType::STA,
            ) =~= queue);
        }
    } else {
        let queue = seq![(MicroOp::ReadMem, 1u32), (MicroOp::Lda1, 0u32)];
        assert(decoded == (CpuView {
            curr_inst_byte: None,
            addr: operand as u16,
            inst_queue: queue,
            ..fetched
        })) by {
            assert(start.operand_resolved() == (CpuView {
                addr: operand as u16,
                inst_queue: start.inst_queue.push((MicroOp::ReadMem, 1u32)),
                ..start
            }));
            assert(start.inst_queue.push((MicroOp::ReadMem, 1u32)) + handler_ops(
                InstructionType::LDA,
            ) =~= queue);
        }
    }
    let running = CpuView { traced: true, ..decoded };
    assert(running.drain(0, 1) == running) by {
        reveal_with_fuel(CpuView::drain, 1);
    }
    assert(decoded.execute(true) == running);
    assert(state.worked() == running);
}

/// The last cycle of a store: the write takes the bus cycle, and the
/// instruction is over.
pub proof fn lemma_store_cycle(state: CpuView)
    requires
        state.wf(),
        state.bus_fault is None,
        0 < state.cycle,
        state.curr_inst_byte is None,
        state.inst_queue == seq![(MicroOp::WriteMem, 1u32)],
        state.operands.len() == state.num_operands,
        mapped(state.addr),
    ensures
        state.tick() == (CpuView {
            cycle: count_up(state.cycle, 1),
            curr_inst: None,
            operands: Seq::empty(),
            inst_queue: Seq::empty(),
            traced: false,
            ic: state.ic.write(state.addr, state.write),
            ..state
        }),
        state.tick().idle(),
{
    lemma_queued_cycle(state);
    let running = CpuView { traced: true, ..state };
    let written = running.popped().apply(MicroOp::WriteMem);
    lemma_store_and_add_steps(running.popped());
    assert(running.popped().inst_queue =~= Seq::empty());
    assert(running.drain(0, 2) == written) by {
        reveal_with_fuel(CpuView::drain, 2);
    }
    assert(state.execute(false) == (CpuView {
        traced: false,
        curr_inst: None,
        operands: Seq::empty(),
        ..written
    }));
    lemma_read_after_write(state.ic, state.addr, state.write);
}

/// STA with an operand in the zero page takes three clock cycles: two fetch
/// opcode and address, the third writes the accumulator there.
pub proof fn lemma_sta_zero_page_takes_three_cycles(state: CpuView)
    requires
        state.wf(),
        state.curr_inst is None,
        state.bus_fault is None,
        0 < state.cycle,
        mapped(state.reg_pc),
        mapped(next_address(state.reg_pc)),
        state.ic.read(state.reg_pc) == 0x85,
    ensures
        state.ticks(1).curr_inst is Some,
        state.ticks(2).curr_inst is Some,
        state.ticks(3).idle(),
        state.ticks(3) == ({
            let address = state.ic.read(next_address(state.reg_pc)) as u16;
            CpuView {
                cycle: count_up(state.cycle, 3),
                cycle_debug: state.cycle,
                curr_inst_byte: None,
                num_operands: 1,
                addr: address,
                write: state.reg_a,
                reg_pc: next_address(next_address(state.reg_pc)),
                ic: state.ic.write(address, state.reg_a),
                ..state
            }
        }),
{
    reveal_with_fuel(CpuView::ticks, 4);
    lemma_opcode_cycle(state);
    let first = state.tick();
    assert(state.ticks(1) == first);
    lemma_zero_page_second_cycle(first, InstructionType::STA);
    let second = first.tick();
    assert(state.ticks(2) == second);
    lemma_store_cycle(second);
    assert(state.ticks(3) == second.tick());
}

/// LDA with an operand in the zero page takes three clock cycles: two fetch
/// opcode and address, the third reads the operand and loads it.
pub proof fn lemma_lda_zero_page_takes_three_cycles(state: CpuView)
    requires
        state.wf(),
        state.curr_inst is None,
        state.bus_fault is None,
        0 < state.cycle,
        mapped(state.reg_pc),
        mapped(next_address(state.reg_pc)),
        state.ic.read(state.reg_pc) == 0xA5,
    ensures
        state.ticks(1).curr_inst is Some,
        state.ticks(2).curr_inst is Some,
        state.ticks(3).idle(),
        state.ticks(3) == ({
            let address = state.ic.read(next_address(state.reg_pc)) as u16;
            CpuView {
                cycle: count_up(state.cycle, 3),
                cycle_debug: state.cycle,
                curr_inst_byte: None,
                num_operands: 1,
                value: state.ic.read(address),
                addr: address,
                reg_pc: next_address(next_address(state.reg_pc)),
                ..state.load_a(state.ic.read(address))
            }
        }),
{
    reveal_with_fuel(CpuView::ticks, 4);
    lemma_opcode_cycle(state);
    let first = state.tick();
    assert(state.ticks(1) == first);
    lemma_zero_page_second_cycle(first, InstructionType::LDA);
    let second = first.tick();
    assert(state.ticks(2) == second);
    lemma_lda_read_cycle(second);
    assert(state.ticks(3) == second.tick());
}

/// Whether the bytes of `program` lie on the bus from `start` on, each at a
/// mapped address.
pub open spec fn program_at(bus: InterconnectView, start: u16, program: Seq<u8>) -> bool {
    &&& start + program.len() <= 0x1_0000
    &&& forall|i: int|
        0 <= i < program.len() ==> mapped((start + i) as u16) && bus.read((start + i) as u16)
            == #[trigger] program[i]
}

/// Whether a write at `address` leaves the `len` bytes from `start` on
/// alone.
pub open spec fn clear_of(start: u16, len: nat, address: u16) -> bool {
    forall|i: int| 0 <= i < len ==> !same_cell(address, #[trigger] ((start + i) as u16))
}

/// The program `LDA #$05; STA $10; LDA $10; ADC #$03`.
pub open spec fn short_program() -> Seq<u8> {
    seq![0xA9u8, 0x05u8, 0x85u8, 0x10u8, 0xA5u8, 0x10u8, 0x69u8, 0x03u8]
}

/// What an instruction needs to start: a well-formed, running processor
/// without an instruction in flight, after its start-up.
pub open spec fn can_start(state: CpuView) -> bool {
    &&& state.wf()
    &&& state.curr_inst is None
    &&& state.bus_fault is None
    &&& 0 < state.cycle
}

/// What a load or store of the accumulator, of `cycles` cycles and `length`
/// bytes, leaves behind: a processor that can start the next instruction,
/// behind this one, with index registers, stack pointer and carry flag as
/// they were.
pub open spec fn carried_on(state: CpuView, end: CpuView, cycles: nat, length: int) -> bool {
    &&& can_start(end)
    &&& end.idle()
    &&& end.cycle == count_up(state.cycle, cycles)
    &&& end.reg_pc == state.reg_pc + length
    &&& end.reg_x == state.reg_x
    &&& end.reg_y == state.reg_y
    &&& end.reg_s == state.reg_s
    &&& end.status.flag(CARRY) == state.status.flag(CARRY)
}

/// `LDA #n`, in short.
proof fn lemma_runs_lda_immediate(state: CpuView, operand: u8)
    requires
        can_start(state),
        state.reg_pc <= 0xFFFD,
        mapped(state.reg_pc),
        mapped((state.reg_pc + 1) as u16),
        state.ic.read(state.reg_pc) == 0xA9,
        state.ic.read((state.reg_pc + 1) as u16) == operand,
    ensures
        carried_on(state, state.ticks(2), 2, 2),
        state.ticks(2).reg_a == operand,
        state.ticks(2).ic == state.ic,
{
    lemma_lda_immediate_takes_two_cycles(state);
    lemma_ticks_wf(state, 2);
    lemma_flags();
}

/// `STA a`, with `a` in the zero page, in short.
proof fn lemma_runs_sta_zero_page(state: CpuView, address: u8)
    requires
        can_start(state),
        state.reg_pc <= 0xFFFD,
        mapped(state.reg_pc),
        mapped((state.reg_pc + 1) as u16),
        state.ic.read(state.reg_pc) == 0x85,
        state.ic.read((state.reg_pc + 1) as u16) == address,
    ensures
        carried_on(state, state.ticks(3), 3, 2),
        state.ticks(3).status == state.status,
        state.ticks(3).reg_a == state.reg_a,
        state.ticks(3).ic == state.ic.write(address as u16, state.reg_a),
{
    lemma_sta_zero_page_takes_three_cycles(state);
    lemma_ticks_wf(state, 3);
}

/// `LDA a`, with `a` in the zero page, in short.
proof fn lemma_runs_lda_zero_page(state: CpuView, address: u8)
    requires
        can_start(state),
        state.reg_pc <= 0xFFFD,
        mapped(state.reg_pc),
        mapped((state.reg_pc + 1) as u16),
        state.ic.read(state.reg_pc) == 0xA5,
        state.ic.read((state.reg_pc + 1) as u16) == address,
    ensures
        carried_on(state, state.ticks(3), 3, 2),
        state.ticks(3).reg_a == state.ic.read(address as u16),
        state.ticks(3).ic == state.ic,
{
    lemma_lda_zero_page_takes_three_cycles(state);
    lemma_ticks_wf(state, 3);
    lemma_flags();
}

/// `ADC #n` with the carry flag clear and a sum that stays a small positive
/// number, in short.
proof fn lemma_runs_adc_immediate(state: CpuView, operand: u8)
    requires
        can_start(state),
        state.reg_pc <= 0xFFFE,
        mapped(state.reg_pc),
        mapped(next_address(state.reg_pc)),
        state.ic.read(state.reg_pc) == 0x69,
        state.ic.read(next_address(state.reg_pc)) == operand,
        !state.status.flag(CARRY),
        0 < state.reg_a + operand < 0x80,
    ensures
        state.ticks(2).idle(),
        state.ticks(2).bus_fault is None,
        state.ticks(2).cycle == count_up(state.cycle, 2),
        state.ticks(2).reg_pc == next_address(next_address(state.reg_pc)),
        state.ticks(2).reg_x == state.reg_x,
        state.ticks(2).reg_y == state.reg_y,
        state.ticks(2).reg_s == state.reg_s,
        state.ticks(2).reg_a == state.reg_a + operand,
        !state.ticks(2).status.flag(CARRY),
        !state.ticks(2).status.flag(ZERO),
        !state.ticks(2).status.flag(NEGATIVE),
        !state.ticks(2).status.flag(OVERFLOW),
        state.ticks(2).ic == state.ic,
{
    lemma_adc_immediate_takes_two_cycles(state);
    lemma_flags();
}

/// A program run through: from a processor that has no instruction in flight
/// and the carry flag clear, and finds `LDA #$05; STA $10; LDA $10; ADC #$03`
/// at the program counter, ten clock cycles (two, three, three and two)
/// leave the processor idle with 0x08 in the accumulator, the zero, negative
/// and carry flags clear, 0x05 at address 0x0010, and the program counter
/// behind the program. The program may lie anywhere but in the cell that it
/// writes.
pub proof fn lemma_short_program_runs(state: CpuView)
    requires
        can_start(state),
        !state.status.flag(CARRY),
        program_at(state.ic, state.reg_pc, short_program()),
        clear_of(state.reg_pc, 8, 0x0010),
    ensures
        state.ticks(10).idle(),
        state.ticks(10).bus_fault is None,
        state.ticks(10).reg_a == 0x08,
        !state.ticks(10).status.flag(ZERO),
        !state.ticks(10).status.flag(NEGATIVE),
        !state.ticks(10).status.flag(CARRY),
        state.ticks(10).reg_pc == next_address((state.reg_pc + 7) as u16),
        state.ticks(10).ic.read(0x0010) == 0x05,
        state.ticks(10).ic == state.ic.write(0x0010, 0x05),
        state.ticks(10).cycle == count_up(state.cycle, 10),
        state.ticks(10).reg_x == state.reg_x,
        state.ticks(10).reg_y == state.reg_y,
        state.ticks(10).reg_s == state.reg_s,
{
    let start = state.reg_pc;
    let program = short_program();
    assert(program[0] == 0xA9 && program[1] == 0x05 && program[2] == 0x85 && program[3] == 0x10);
    assert(program[4] == 0xA5 && program[5] == 0x10 && program[6] == 0x69 && program[7] == 0x03);
    // LDA #$05
    lemma_runs_lda_immediate(state, 0x05);
    let loaded = state.ticks(2);
    // STA $10
    lemma_runs_sta_zero_page(loaded, 0x10);
    lemma_ticks_add(state, 2, 3);
    let stored = state.ticks(5);
    assert(stored.ic == state.ic.write(0x0010, 0x05));
    lemma_read_after_write(state.ic, 0x0010, 0x05);
    assert forall|i: int| 4 <= i < 8 implies stored.ic.read((start + i) as u16) == program[i] by {
        assert(!same_cell(0x0010, (start + i) as u16));
        lemma_write_elsewhere(state.ic, 0x0010, 0x05, (start + i) as u16);
    }
    // LDA $10
    assert(stored.ic.read((start + 4) as u16) == program[4]);
    assert(stored.ic.read((start + 5) as u16) == program[5]);
    lemma_runs_lda_zero_page(stored, 0x10);
    lemma_ticks_add(state, 5, 3);
    let reloaded = state.ticks(8);
    // ADC #$03
    assert(reloaded.ic.read((start + 6) as u16) == program[6]);
    assert(reloaded.ic.read((start + 7) as u16) == program[7]);
    lemma_runs_adc_immediate(reloaded, 0x03);
    lemma_ticks_add(state, 8, 2);
}

} // verus!
