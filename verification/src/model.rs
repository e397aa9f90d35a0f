//! The mathematical model of the engine: what one instruction does to the
//! registers and to memory, what it costs in cycles, and what a run under
//! a cycle budget amounts to.
//!
//! Memory is a sequence of 65536 bytes. In the addressing functions the
//! program counter of the given register file points at the first operand
//! byte, that is, just past the opcode.

use vstd::prelude::*;

use crate::cpu::{RegisterType, CPU};
use crate::fault::EngineFault;
use crate::instructions::{instruction_for, AddressingMode, Instruction};
use crate::{Byte, Word};

verus! {

/// The word whose low and high bytes are given.
pub open spec fn word_from_bytes(low: Byte, high: Byte) -> Word {
    (low as int + 256 * (high as int)) as Word
}

/// The low byte of a word.
pub open spec fn low_byte(word: Word) -> Byte {
    (word % 256) as Byte
}

/// The high byte of a word.
pub open spec fn high_byte(word: Word) -> Byte {
    (word / 256) as Byte
}

/// The little-endian word held at `address` and the byte after it.
pub open spec fn word_at(memory: Seq<Byte>, address: int) -> Word {
    word_from_bytes(memory[address], memory[address + 1])
}

/// Memory after a word is stored, low byte first, at `address` and the
/// byte after it.
pub open spec fn store_word(memory: Seq<Byte>, address: int, word: Word) -> Seq<Byte> {
    memory.update(address, low_byte(word)).update(address + 1, high_byte(word))
}

/// The first operand byte.
pub open spec fn operand_byte(cpu: CPU, memory: Seq<Byte>) -> Byte {
    memory[cpu.program_counter as int]
}

/// The two operand bytes read as a little-endian word. The program counter
/// wraps from 0xFFFF to 0 between them.
pub open spec fn operand_word(cpu: CPU, memory: Seq<Byte>) -> Word {
    word_from_bytes(
        memory[cpu.program_counter as int],
        memory[cpu.program_counter.wrapping_add(1) as int],
    )
}

/// Number of operand bytes that follow the opcode. Fetching each costs one
/// cycle and advances the program counter by one.
pub open spec fn operand_length(mode: AddressingMode) -> Word {
    match mode {
        AddressingMode::Absolute | AddressingMode::AbsoluteX | AddressingMode::AbsoluteY => 2,
        _ => 1,
    }
}

/// The register file after `count` more bytes of the instruction stream
/// are fetched. The program counter wraps from 0xFFFF to 0.
pub open spec fn advanced(cpu: CPU, count: Word) -> CPU {
    cpu.with_program_counter(cpu.program_counter.wrapping_add(count))
}

/// The address named by the operand before any 16-bit index is added: the
/// operand word of the absolute modes, the pointer read from page zero of
/// the indirect modes.
pub open spec fn base_address(mode: AddressingMode, cpu: CPU, memory: Seq<Byte>) -> Word {
    match mode {
        AddressingMode::Absolute | AddressingMode::AbsoluteX | AddressingMode::AbsoluteY => {
            operand_word(cpu, memory)
        },
        AddressingMode::IndirectX => word_at(
            memory,
            operand_byte(cpu, memory).wrapping_add(cpu.register_x) as int,
        ),
        AddressingMode::IndirectY => word_at(memory, operand_byte(cpu, memory) as int),
        _ => operand_byte(cpu, memory) as Word,
    }
}

/// The effective address of the operand.
///
/// Index arithmetic inside page zero wraps at eight bits. Adding an index
/// to a 16-bit base does not wrap: the result is a mathematical integer,
/// and a value above 0xFFFF marks a malformed operand.
pub open spec fn effective_address(mode: AddressingMode, cpu: CPU, memory: Seq<Byte>) -> int {
    match mode {
        AddressingMode::ZeroPage => operand_byte(cpu, memory) as int,
        AddressingMode::ZeroPageX => operand_byte(cpu, memory).wrapping_add(cpu.register_x) as int,
        AddressingMode::ZeroPageY => operand_byte(cpu, memory).wrapping_add(cpu.register_y) as int,
        AddressingMode::Absolute => base_address(mode, cpu, memory) as int,
        AddressingMode::AbsoluteX => base_address(mode, cpu, memory) + cpu.register_x,
        AddressingMode::AbsoluteY => base_address(mode, cpu, memory) + cpu.register_y,
        AddressingMode::IndirectX => base_address(mode, cpu, memory) as int,
        AddressingMode::IndirectY => base_address(mode, cpu, memory) + cpu.register_y,
    }
}

/// Whether indexing moved the address to another page: the base and the
/// indexed address differ somewhere in their high bytes.
pub open spec fn page_crossed(base: Word, indexed: Word) -> bool {
    (base ^ indexed) & 0xFF00 != 0
}

/// Cycles spent reading a two-byte pointer out of page zero.
pub open spec fn pointer_cycles(mode: AddressingMode) -> int {
    match mode {
        AddressingMode::IndirectX | AddressingMode::IndirectY => 2,
        _ => 0,
    }
}

/// Cycles spent adding the index register.
///
/// An addition inside page zero always costs one cycle. An addition to a
/// 16-bit base costs a load one cycle only when it crosses a page, while a
/// store always pays for the worst case.
pub open spec fn index_cycles(
    mode: AddressingMode,
    store: bool,
    cpu: CPU,
    memory: Seq<Byte>,
) -> int {
    match mode {
        AddressingMode::ZeroPageX | AddressingMode::ZeroPageY | AddressingMode::IndirectX => 1,
        AddressingMode::AbsoluteX | AddressingMode::AbsoluteY | AddressingMode::IndirectY => {
            if store || page_crossed(
                base_address(mode, cpu, memory),
                effective_address(mode, cpu, memory) as Word,
            ) {
                1
            } else {
                0
            }
        },
        _ => 0,
    }
}

/// Cycles that resolving the operand address costs: one per operand byte,
/// plus the pointer read, plus the index addition.
pub open spec fn addressing_cycles(
    mode: AddressingMode,
    store: bool,
    cpu: CPU,
    memory: Seq<Byte>,
) -> int {
    operand_length(mode) + pointer_cycles(mode) + index_cycles(mode, store, cpu, memory)
}

/// Cycles that a malformed operand has cost by the time it is detected:
/// the operand bytes and the pointer read, but no index addition.
pub open spec fn overflow_cycles(mode: AddressingMode) -> int {
    operand_length(mode) + pointer_cycles(mode)
}

/// The register file after `value` is loaded into a register: the register
/// holds it, and the zero and negative flags describe it.
pub open spec fn loaded(cpu: CPU, register: RegisterType, value: Byte) -> CPU {
    CPU {
        processor_status: cpu.processor_status.after_load(value),
        ..cpu.with_register(register, value)
    }
}

/// The result of executing one instruction.
///
/// When `fault` is set, `cpu` and `cycles` describe how far the
/// instruction got: the program counter has passed every byte that was
/// fetched, nothing else has changed.
pub struct Step {
    pub cpu: CPU,
    pub memory: Seq<Byte>,
    pub cycles: int,
    pub fault: Option<EngineFault>,
}

/// The step that ends in a malformed-operand fault after `cycles` cycles.
pub open spec fn overflow_fault(
    cpu: CPU,
    memory: Seq<Byte>,
    cycles: int,
    origin: Word,
) -> Step {
    Step {
        cpu,
        memory,
        cycles,
        fault: Some(
            EngineFault::AddressOverflow { opcode: memory[origin as int], address: origin },
        ),
    }
}

/// Executes the instruction at the program counter.
///
/// Fetching the opcode costs one cycle, and so does each access to the
/// operand in memory. A load copies the operand into a register and sets
/// the zero and negative flags; a store copies a register to the operand
/// address. A jump to subroutine writes the address of its own last byte
/// as a word at the target address, and continues there: two cycles for
/// the write, one for the jump. The stack pointer is never used, and no
/// flag other than zero and negative is ever written.
pub open spec fn step(cpu: CPU, memory: Seq<Byte>) -> Step {
    let origin = cpu.program_counter;
    let opcode = memory[origin as int];
    let fetched = advanced(cpu, 1);
    match instruction_for(opcode) {
        None => Step {
            cpu: fetched,
            memory,
            cycles: 1,
            fault: Some(EngineFault::UnknownOpcode { opcode, address: origin }),
        },
        Some(Instruction::LoadImmediate(register)) => Step {
            cpu: loaded(advanced(fetched, 1), register, operand_byte(fetched, memory)),
            memory,
            cycles: 1int + 1,
            fault: None,
        },
        Some(Instruction::Load(register, mode)) => {
            let address = effective_address(mode, fetched, memory);
            let next = advanced(fetched, operand_length(mode));
            if address > 0xFFFF {
                overflow_fault(next, memory, 1 + overflow_cycles(mode), origin)
            } else {
                Step {
                    cpu: loaded(next, register, memory[address]),
                    memory,
                    cycles: 1 + addressing_cycles(mode, false, fetched, memory) + 1,
                    fault: None,
                }
            }
        },
        Some(Instruction::Store(register, mode)) => {
            let address = effective_address(mode, fetched, memory);
            let next = advanced(fetched, operand_length(mode));
            if address > 0xFFFF {
                overflow_fault(next, memory, 1 + overflow_cycles(mode), origin)
            } else {
                Step {
                    cpu: next,
                    memory: memory.update(address, cpu.register(register)),
                    cycles: 1 + addressing_cycles(mode, true, fetched, memory) + 1,
                    fault: None,
                }
            }
        },
        Some(Instruction::JumpToSubroutine) => {
            let target = operand_word(fetched, memory);
            let next = advanced(fetched, 2);
            if target + 1 > 0xFFFF {
                overflow_fault(next, memory, 1int + 2, origin)
            } else {
                Step {
                    cpu: next.with_program_counter(target),
                    memory: store_word(
                        memory,
                        target as int,
                        next.program_counter.wrapping_sub(1),
                    ),
                    cycles: 1int + 2 + 2 + 1,
                    fault: None,
                }
            }
        },
    }
}

/// The most that one instruction can cost.
pub const MAX_INSTRUCTION_CYCLES: i32 = 6;

/// The result of running under a cycle budget.
///
/// `remaining` is what is left of the budget; it is negative when the last
/// instruction overran it.
pub struct Run {
    pub cpu: CPU,
    pub memory: Seq<Byte>,
    pub remaining: int,
    pub fault: Option<EngineFault>,
}

/// Runs instructions one after the other while the budget is positive.
///
/// An instruction that has started is always completed, so the budget may
/// be overrun by the last instruction. A fault ends the run at once.
pub open spec fn run(cpu: CPU, memory: Seq<Byte>, budget: int) -> Run
    decreases
        (if budget > 0 {
            budget
        } else {
            0
        }),
{
    if budget <= 0 {
        Run { cpu, memory, remaining: budget, fault: None }
    } else {
        let first = step(cpu, memory);
        if first.fault is Some {
            Run {
                cpu: first.cpu,
                memory: first.memory,
                remaining: budget - first.cycles,
                fault: first.fault,
            }
        } else {
            run(first.cpu, first.memory, budget - first.cycles)
        }
    }
}

} // verus!
