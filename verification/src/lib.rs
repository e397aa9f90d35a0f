//! A cycle-accurate interpreter for the register load, register store and
//! subroutine-call instructions of the 6502 microprocessor: `LDA`, `LDX`,
//! `LDY`, `STA`, `STX`, `STY` in all their addressing modes, and `JSR`.
//!
//! The crate has two components. [`Memory`] is the flat 64 KiB address
//! space. [`CPU`] is the register file together with the engine that
//! fetches, decodes and executes instructions against a memory while it
//! counts the cycles that the hardware would take.
//!
//! What an instruction does and costs is laid down once, as mathematics,
//! in [`model`]: [`model::step`] is one instruction, [`model::run`] is a
//! run under a cycle budget. [`CPU::execute_instruction`] and
//! [`CPU::execute`] are proved to compute exactly these, and [`lemmas`]
//! proves what follows from them for every state: the flag rules, the
//! cycle table, the budget rules.
//!
//! # Decisions
//!
//! * An opcode outside the instruction table stops the engine with
//!   [`EngineFault::UnknownOpcode`], which names the opcode and the address
//!   it was fetched from. Nothing panics.
//! * Arithmetic on the program counter and inside page zero wraps, as it
//!   does in hardware. Adding an index register to a 16-bit address does
//!   not: an operand whose indexed address would lie beyond 0xFFFF is
//!   malformed, and stops the engine with
//!   [`EngineFault::AddressOverflow`].
//! * `JSR` keeps no stack. It writes its return address, which is the
//!   address of its own last byte, as a little-endian word at the target
//!   address itself, and continues at the target. The stack pointer is
//!   carried in the register file but no instruction reads or writes it.
//! * A two-byte pointer read from page zero takes its high byte from the
//!   next address, also when the low byte is the last byte of the page.

use vstd::prelude::*;

pub mod cpu;
pub mod engine;
pub mod fault;
pub mod instructions;
pub mod lemmas;
pub mod memory;
pub mod model;
pub mod status;

pub use cpu::{RegisterType, CPU};
pub use fault::EngineFault;
pub use memory::Memory;
pub use status::ProcessorStatus;

verus! {

/// An 8-bit machine byte.
pub type Byte = u8;

/// A 16-bit machine word; every address is one.
pub type Word = u16;

} // verus!
