//! The processor of an 8-bit home console, one clock cycle at a time.
//!
//! [`cpu::CPU`] owns the bus ([`interconnect::Interconnect`]) and runs in
//! clock cycles ([`cpu::CPU::do_cycle`]): each cycle fetches at most one byte,
//! decodes once the operand bytes of an opcode are there, and runs the
//! queued steps of the instruction in flight within the budget of the cycle.
//! What a cycle does is stated over [`state::CpuView`], the mathematical
//! picture of the processor; [`laws`] holds what follows from it: how long
//! instructions take, and that the stack gives back what it was given.

pub mod apu;
pub mod cartridge;
pub mod cpu;
pub mod ines;
pub mod instructions;
pub mod interconnect;
pub mod laws;
pub mod nes;
pub mod ppu;
pub mod ram;
pub mod rom;
pub mod state;
pub mod status;
pub mod utils;
