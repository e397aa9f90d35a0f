//! Theorems about the model: the flag rules, the cycle table, the budget
//! rules and the wrapping rules, each proved for every state.

use vstd::prelude::*;

use crate::cpu::{RegisterType, CPU};
use crate::fault::EngineFault;
use crate::instructions::{instruction_for, AddressingMode, Instruction, INSTRUCTION_JSR};
use crate::memory::MAX_MEM;
use crate::model::{
    advanced, base_address, effective_address, high_byte, low_byte, operand_byte, operand_word,
    page_crossed, run, step, store_word, word_from_bytes, MAX_INSTRUCTION_CYCLES,
};
use crate::status::lemma_after_load;
use crate::{Byte, Word};

verus! {

/// The instruction that a step executes, if the opcode at the program
/// counter stands for one.
pub open spec fn current_instruction(cpu: CPU, memory: Seq<Byte>) -> Option<Instruction> {
    instruction_for(memory[cpu.program_counter as int])
}

/// Whether the instruction at the program counter is a load, in any
/// addressing mode, into `register`.
pub open spec fn loads_into(cpu: CPU, memory: Seq<Byte>, register: RegisterType) -> bool {
    match current_instruction(cpu, memory) {
        Some(Instruction::LoadImmediate(target)) => target == register,
        Some(Instruction::Load(target, _)) => target == register,
        _ => false,
    }
}

/// Whether the instruction at the program counter is a load.
pub open spec fn is_load(cpu: CPU, memory: Seq<Byte>) -> bool {
    match current_instruction(cpu, memory) {
        Some(Instruction::LoadImmediate(_)) | Some(Instruction::Load(_, _)) => true,
        _ => false,
    }
}

/// Whether the indexed operand of the instruction at the program counter
/// lies on another page than its base address.
pub open spec fn crosses_page(cpu: CPU, memory: Seq<Byte>) -> bool {
    match current_instruction(cpu, memory) {
        Some(Instruction::Load(_, mode)) | Some(Instruction::Store(_, mode)) => page_crossed(
            base_address(mode, advanced(cpu, 1), memory),
            effective_address(mode, advanced(cpu, 1), memory) as Word,
        ),
        _ => false,
    }
}

/// The cycle table: what each instruction costs in total, given whether
/// its indexed operand crosses a page.
pub open spec fn cycle_table(instruction: Instruction, crossed: bool) -> int {
    match instruction {
        Instruction::LoadImmediate(_) => 2,
        Instruction::Load(_, mode) => match mode {
            AddressingMode::ZeroPage => 3,
            AddressingMode::ZeroPageX | AddressingMode::ZeroPageY => 4,
            AddressingMode::Absolute => 4,
            AddressingMode::AbsoluteX | AddressingMode::AbsoluteY => if crossed {
                5
            } else {
                4
            },
            AddressingMode::IndirectX => 6,
            AddressingMode::IndirectY => if crossed {
                6
            } else {
                5
            },
        },
        Instruction::Store(_, mode) => match mode {
            AddressingMode::ZeroPage => 3,
            AddressingMode::ZeroPageX | AddressingMode::ZeroPageY => 4,
            AddressingMode::Absolute => 4,
            AddressingMode::AbsoluteX | AddressingMode::AbsoluteY => 5,
            AddressingMode::IndirectX => 6,
            AddressingMode::IndirectY => 6,
        },
        Instruction::JumpToSubroutine => 6,
    }
}

/// Every load that completes, in every addressing mode, leaves the zero
/// flag set exactly when the loaded value is 0x00 and the negative flag
/// set exactly when it is 0x80 or above: zero alone for 0x00, negative
/// alone for 0x80 to 0xFF, neither for 0x01 to 0x7F.
pub proof fn lemma_load_sets_zero_and_negative(
    cpu: CPU,
    memory: Seq<Byte>,
    register: RegisterType,
)
    requires
        loads_into(cpu, memory, register),
        step(cpu, memory).fault is None,
    ensures
        ({
            let after = step(cpu, memory).cpu;
            let value = after.register(register);
            &&& after.processor_status.zero() == (value == 0x00)
            &&& after.processor_status.negative() == (value >= 0x80)
            &&& value == 0x00 ==> after.processor_status.zero()
                && !after.processor_status.negative()
            &&& 0x80 <= value <= 0xFF ==> !after.processor_status.zero()
                && after.processor_status.negative()
            &&& 0x01 <= value <= 0x7F ==> !after.processor_status.zero()
                && !after.processor_status.negative()
        }),
{
    lemma_after_load(cpu.processor_status, step(cpu, memory).cpu.register(register));
}

/// A load that completes changes its target register, the zero and
/// negative flags and the program counter, and nothing else: the other
/// two data registers keep their values.
pub proof fn lemma_load_changes_one_register(
    cpu: CPU,
    memory: Seq<Byte>,
    register: RegisterType,
    other: RegisterType,
)
    requires
        loads_into(cpu, memory, register),
        step(cpu, memory).fault is None,
        other != register,
    ensures
        step(cpu, memory).cpu.register(other) == cpu.register(other),
{
}

/// No instruction, whether it completes or faults, changes the carry,
/// interrupt-disable, decimal, break or overflow flag, or the stack
/// pointer.
pub proof fn lemma_step_preserves_other_flags(cpu: CPU, memory: Seq<Byte>)
    ensures
        ({
            let after = step(cpu, memory).cpu;
            &&& after.stack_pointer == cpu.stack_pointer
            &&& after.processor_status.carry() == cpu.processor_status.carry()
            &&& after.processor_status.interrupt() == cpu.processor_status.interrupt()
            &&& after.processor_status.decimal() == cpu.processor_status.decimal()
            &&& after.processor_status.break_flag() == cpu.processor_status.break_flag()
            &&& after.processor_status.overflow() == cpu.processor_status.overflow()
        }),
{
    let fetched = advanced(cpu, 1);
    match current_instruction(cpu, memory) {
        Some(Instruction::LoadImmediate(_)) => {
            lemma_after_load(cpu.processor_status, operand_byte(fetched, memory));
        },
        Some(Instruction::Load(_, mode)) => {
            lemma_after_load(
                cpu.processor_status,
                memory[effective_address(mode, fetched, memory)],
            );
        },
        _ => {},
    }
}

/// Stores, jumps to a subroutine and faulting instructions touch no flag
/// and no data register: all they change in the register file is the
/// program counter.
pub proof fn lemma_only_loads_change_registers(cpu: CPU, memory: Seq<Byte>)
    requires
        !is_load(cpu, memory) || step(cpu, memory).fault is Some,
    ensures
        step(cpu, memory).cpu == cpu.with_program_counter(
            step(cpu, memory).cpu.program_counter,
        ),
{
}

/// Memory changes only under a store or a jump to a subroutine that
/// completes: loads and faulting instructions leave every byte alone.
pub proof fn lemma_only_stores_and_jumps_write(cpu: CPU, memory: Seq<Byte>)
    requires
        is_load(cpu, memory) || step(cpu, memory).fault is Some,
    ensures
        step(cpu, memory).memory == memory,
{
}

/// A fault names the opcode of the instruction that faulted and the
/// address that opcode was fetched from. It is an unknown-opcode fault
/// exactly when the opcode is not in the instruction table.
pub proof fn lemma_fault_names_the_instruction(cpu: CPU, memory: Seq<Byte>)
    ensures
        match step(cpu, memory).fault {
            Some(EngineFault::UnknownOpcode { opcode, address }) => {
                &&& opcode == memory[cpu.program_counter as int]
                &&& address == cpu.program_counter
                &&& current_instruction(cpu, memory) is None
            },
            Some(EngineFault::AddressOverflow { opcode, address }) => {
                &&& opcode == memory[cpu.program_counter as int]
                &&& address == cpu.program_counter
                &&& current_instruction(cpu, memory) is Some
            },
            None => current_instruction(cpu, memory) is Some,
        },
{
}

/// No two opcodes stand for the same instruction.
pub proof fn lemma_opcodes_are_distinct(first: Byte, second: Byte)
    requires
        instruction_for(first) is Some,
        instruction_for(first) == instruction_for(second),
    ensures
        first == second,
{
}

/// The cycle count of every instruction that completes is the one in the
/// cycle table.
pub proof fn lemma_cycle_counts(cpu: CPU, memory: Seq<Byte>)
    requires
        step(cpu, memory).fault is None,
    ensures
        current_instruction(cpu, memory) matches Some(instruction) && step(cpu, memory).cycles
            == cycle_table(instruction, crosses_page(cpu, memory)),
{
}

/// Every instruction, faulting or not, costs at least one cycle and at
/// most six.
pub proof fn lemma_step_cycles_bounded(cpu: CPU, memory: Seq<Byte>)
    ensures
        1 <= step(cpu, memory).cycles <= MAX_INSTRUCTION_CYCLES,
{
}

/// A budget of zero or less executes nothing: registers and memory are
/// untouched and no cycle is consumed.
pub proof fn lemma_run_without_budget(cpu: CPU, memory: Seq<Byte>, budget: int)
    requires
        budget <= 0,
    ensures
        run(cpu, memory, budget).cpu == cpu,
        run(cpu, memory, budget).memory == memory,
        run(cpu, memory, budget).remaining == budget,
        run(cpu, memory, budget).fault is None,
{
}

/// A run that ends without a fault has used up a positive budget and
/// overrun it by less than one instruction: the cycles consumed are never
/// fewer than requested, and fewer than six more.
pub proof fn lemma_run_meets_budget(cpu: CPU, memory: Seq<Byte>, budget: int)
    requires
        budget > 0,
        run(cpu, memory, budget).fault is None,
    ensures
        -MAX_INSTRUCTION_CYCLES < run(cpu, memory, budget).remaining <= 0,
        budget <= budget - run(cpu, memory, budget).remaining < budget + MAX_INSTRUCTION_CYCLES,
    decreases budget,
{
    let first = step(cpu, memory);
    lemma_step_cycles_bounded(cpu, memory);
    if budget - first.cycles > 0 {
        lemma_run_meets_budget(first.cpu, first.memory, budget - first.cycles);
    } else {
        lemma_run_without_budget(first.cpu, first.memory, budget - first.cycles);
    }
}

/// A positive budget that the first instruction uses up runs exactly that
/// one instruction and reports its true cost, however small the budget.
pub proof fn lemma_run_completes_instruction(cpu: CPU, memory: Seq<Byte>, budget: int)
    requires
        0 < budget <= step(cpu, memory).cycles,
    ensures
        run(cpu, memory, budget).cpu == step(cpu, memory).cpu,
        run(cpu, memory, budget).memory == step(cpu, memory).memory,
        run(cpu, memory, budget).fault == step(cpu, memory).fault,
        budget - run(cpu, memory, budget).remaining == step(cpu, memory).cycles,
{
    let first = step(cpu, memory);
    lemma_run_without_budget(first.cpu, first.memory, budget - first.cycles);
}

/// A run is its first instruction followed by a run of what the budget
/// still holds.
pub proof fn lemma_run_unfolds(cpu: CPU, memory: Seq<Byte>, budget: int)
    requires
        budget > 0,
        step(cpu, memory).fault is None,
    ensures
        run(cpu, memory, budget) == run(
            step(cpu, memory).cpu,
            step(cpu, memory).memory,
            budget - step(cpu, memory).cycles,
        ),
{
}

/// A whole run, however long and however it ends, leaves the stack pointer
/// and the carry, interrupt-disable, decimal, break and overflow flags as
/// it found them.
pub proof fn lemma_run_preserves_other_flags(cpu: CPU, memory: Seq<Byte>, budget: int)
    ensures
        ({
            let after = run(cpu, memory, budget).cpu;
            &&& after.stack_pointer == cpu.stack_pointer
            &&& after.processor_status.carry() == cpu.processor_status.carry()
            &&& after.processor_status.interrupt() == cpu.processor_status.interrupt()
            &&& after.processor_status.decimal() == cpu.processor_status.decimal()
            &&& after.processor_status.break_flag() == cpu.processor_status.break_flag()
            &&& after.processor_status.overflow() == cpu.processor_status.overflow()
        }),
    decreases
            (if budget > 0 {
                budget
            } else {
                0
            }),
{
    if budget > 0 {
        let first = step(cpu, memory);
        lemma_step_preserves_other_flags(cpu, memory);
        lemma_step_cycles_bounded(cpu, memory);
        if first.fault is None {
            lemma_run_preserves_other_flags(first.cpu, first.memory, budget - first.cycles);
        }
    }
}

/// Memory stays 65536 bytes long through every instruction.
pub proof fn lemma_step_keeps_memory_size(cpu: CPU, memory: Seq<Byte>)
    requires
        memory.len() == MAX_MEM,
    ensures
        step(cpu, memory).memory.len() == MAX_MEM,
{
}

/// Indexing inside page zero wraps at the 8-bit boundary: the effective
/// address is the sum of operand and index modulo 256, and so never
/// leaves page zero.
pub proof fn lemma_zero_page_index_wraps(cpu: CPU, memory: Seq<Byte>)
    ensures
        effective_address(AddressingMode::ZeroPageX, cpu, memory) == (operand_byte(cpu, memory)
            + cpu.register_x) % 0x100,
        effective_address(AddressingMode::ZeroPageY, cpu, memory) == (operand_byte(cpu, memory)
            + cpu.register_y) % 0x100,
        0 <= effective_address(AddressingMode::ZeroPageX, cpu, memory) <= 0xFF,
        0 <= effective_address(AddressingMode::ZeroPageY, cpu, memory) <= 0xFF,
{
}

/// The program counter wraps at the 16-bit boundary as bytes are fetched.
pub proof fn lemma_program_counter_wraps(cpu: CPU, count: Word)
    ensures
        advanced(cpu, count).program_counter == (cpu.program_counter + count) % 0x10000,
{
}

/// A page is crossed exactly when the high bytes of the base and of the
/// indexed address differ.
pub proof fn lemma_page_crossed_compares_high_bytes(base: Word, indexed: Word)
    ensures
        page_crossed(base, indexed) == (high_byte(base) != high_byte(indexed)),
{
    assert(((base ^ indexed) & 0xFF00 != 0) == (base / 256 != indexed / 256)) by (bit_vector);
}

/// Splitting a word into its bytes and joining them again gives the word
/// back, and the other way round.
pub proof fn lemma_word_bytes_round_trip(word: Word, low: Byte, high: Byte)
    ensures
        word_from_bytes(low_byte(word), high_byte(word)) == word,
        low_byte(word_from_bytes(low, high)) == low,
        high_byte(word_from_bytes(low, high)) == high,
{
}

/// A jump to a subroutine that completes takes six cycles and continues
/// at its two-byte operand. It leaves the flags, the stack pointer and
/// the data registers exactly as they were, and writes the address of its
/// own last byte, low byte first, at the target.
pub proof fn lemma_jump_to_subroutine(cpu: CPU, memory: Seq<Byte>)
    requires
        memory[cpu.program_counter as int] == INSTRUCTION_JSR,
        step(cpu, memory).fault is None,
    ensures
        ({
            let target = operand_word(advanced(cpu, 1), memory);
            &&& step(cpu, memory).cycles == 6
            &&& step(cpu, memory).cpu == cpu.with_program_counter(target)
            &&& step(cpu, memory).memory == store_word(
                memory,
                target as int,
                advanced(cpu, 2).program_counter,
            )
        }),
{
}

} // verus!
