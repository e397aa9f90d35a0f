//! The execution engine: fetch, decode, resolve the operand, apply the
//! effect, and count every cycle on the way.

use vstd::prelude::*;

use crate::cpu::{RegisterType, CPU};
use crate::fault::EngineFault;
use crate::instructions::{decode, AddressingMode, Instruction};
use crate::memory::Memory;
use crate::model::{
    addressing_cycles, advanced, effective_address, high_byte, loaded, low_byte, operand_byte,
    operand_length, operand_word, overflow_cycles, page_crossed, run, step, store_word, word_at,
    word_from_bytes, MAX_INSTRUCTION_CYCLES,
};
use crate::{Byte, Word};

verus! {

proof fn lemma_word_from_bytes(low: Byte, high: Byte)
    ensures
        (low as Word) | ((high as Word) << 8) == word_from_bytes(low, high),
{
    assert((low as u16) | ((high as u16) << 8) == (low as u16) + 256 * (high as u16))
        by (bit_vector);
}

proof fn lemma_bytes_of_word(word: Word)
    ensures
        word & 0xFF == low_byte(word),
        word >> 8 == high_byte(word),
{
    assert(word & 0xFF == word % 256) by (bit_vector);
    assert(word >> 8 == word / 256) by (bit_vector);
}

/// What every address resolver guarantees: the program counter has passed
/// the operand bytes, and either the effective address came out at the
/// cost the model gives, or the operand is malformed and only the fetches
/// were paid for.
spec fn resolved(
    mode: AddressingMode,
    store: bool,
    before: CPU,
    memory: Seq<Byte>,
    after: CPU,
    spent: int,
    address: Option<Word>,
) -> bool {
    &&& after == advanced(before, operand_length(mode))
    &&& match address {
        Some(address) => {
            &&& address == effective_address(mode, before, memory)
            &&& spent == addressing_cycles(mode, store, before, memory)
        },
        None => {
            &&& effective_address(mode, before, memory) > 0xFFFF
            &&& spent == overflow_cycles(mode)
        },
    }
}

impl CPU {
    /// Reads the byte at `address`; one cycle.
    fn read_byte(&self, cycles: &mut i32, address: Word, memory: &Memory) -> (data: Byte)
        requires
            *old(cycles) - 1 >= i32::MIN,
        ensures
            data == memory@[address as int],
            *final(cycles) == *old(cycles) - 1,
    {
        let data: Byte = memory.read(address);
        *cycles -= 1;
        data
    }

    /// Writes `data` at `address`; one cycle.
    fn write_byte(&self, cycles: &mut i32, address: Word, data: Byte, memory: &mut Memory)
        requires
            *old(cycles) - 1 >= i32::MIN,
        ensures
            final(memory)@ == old(memory)@.update(address as int, data),
            *final(cycles) == *old(cycles) - 1,
    {
        memory.write(address, data);
        *cycles -= 1;
    }

    /// Reads the little-endian word at `address` and the byte after it; two
    /// cycles.
    fn read_word(&self, cycles: &mut i32, address: Word, memory: &Memory) -> (word: Word)
        requires
            address < 0xFFFF,
            *old(cycles) - 2 >= i32::MIN,
        ensures
            word == word_at(memory@, address as int),
            *final(cycles) == *old(cycles) - 2,
    {
        let low: Byte = self.read_byte(cycles, address, memory);
        let high: Byte = self.read_byte(cycles, address + 1, memory);
        proof {
            lemma_word_from_bytes(low, high);
        }
        low as Word | ((high as Word) << 8)
    }

    /// Writes `word`, low byte first, at `address` and the byte after it;
    /// two cycles.
    ///
    /// The second byte must still lie inside the address space: word
    /// writes do not wrap around its end.
    pub fn write_word(&self, cycles: &mut i32, word: Word, address: Word, memory: &mut Memory)
        requires
            address < 0xFFFF,
            *old(cycles) - 2 >= i32::MIN,
        ensures
            final(memory)@ == store_word(old(memory)@, address as int, word),
            *final(cycles) == *old(cycles) - 2,
    {
        proof {
            lemma_bytes_of_word(word);
        }
        memory.write(address, (word & 0xFF) as Byte);
        memory.write(address + 1, (word >> 8) as Byte);
        *cycles -= 2;
    }

    /// Fetches the byte at the program counter and steps past it; one
    /// cycle.
    fn fetch_byte(&mut self, cycles: &mut i32, memory: &Memory) -> (data: Byte)
        requires
            *old(cycles) - 1 >= i32::MIN,
        ensures
            data == operand_byte(*old(self), memory@),
            *final(self) == advanced(*old(self), 1),
            *final(cycles) == *old(cycles) - 1,
    {
        let data: Byte = memory.read(self.program_counter);
        self.program_counter = self.program_counter.wrapping_add(1);
        *cycles -= 1;
        data
    }

    /// Fetches the little-endian word at the program counter and steps
    /// past it; two cycles.
    fn fetch_word(&mut self, cycles: &mut i32, memory: &Memory) -> (data: Word)
        requires
            *old(cycles) - 2 >= i32::MIN,
        ensures
            data == operand_word(*old(self), memory@),
            *final(self) == advanced(*old(self), 2),
            *final(cycles) == *old(cycles) - 2,
    {
        let low: Byte = memory.read(self.program_counter);
        self.program_counter = self.program_counter.wrapping_add(1);
        let high: Byte = memory.read(self.program_counter);
        self.program_counter = self.program_counter.wrapping_add(1);
        *cycles -= 2;
        proof {
            lemma_word_from_bytes(low, high);
        }
        low as Word | ((high as Word) << 8)
    }

    /// Loads the byte at `address` into the selected register and updates
    /// the zero and negative flags; one cycle.
    fn load_register(
        &mut self,
        cycles: &mut i32,
        address: Word,
        register_type: &RegisterType,
        memory: &Memory,
    )
        requires
            *old(cycles) - 1 >= i32::MIN,
        ensures
            *final(self) == loaded(*old(self), *register_type, memory@[address as int]),
            *final(cycles) == *old(cycles) - 1,
    {
        let data: Byte = self.read_byte(cycles, address, memory);
        *self.get_register(register_type) = data;
        self.load_register_set_status(register_type);
    }

    /// Makes the zero and negative flags describe the selected register.
    fn load_register_set_status(&mut self, register_type: &RegisterType)
        ensures
            *final(self) == loaded(
                *old(self),
                *register_type,
                old(self).register(*register_type),
            ),
    {
        let register: Byte = *self.get_register(register_type);
        assert((register & 0b10000000 > 0) == (register >= 0x80)) by (bit_vector);
        self.processor_status.set_zero(register == 0x00);
        self.processor_status.set_negative(register & 0b10000000 > 0);
    }

    /// Adds an index register to a 16-bit base address.
    ///
    /// A load pays one cycle when the sum lies on another page than the
    /// base; a store pays that cycle in any case. The sum does not wrap:
    /// one beyond the address space is refused before any cycle is spent.
    fn index_address(&self, cycles: &mut i32, base: Word, index: Byte, store: bool) -> (address:
        Option<Word>)
        requires
            *old(cycles) - 1 >= i32::MIN,
        ensures
            match address {
                Some(address) => {
                    &&& address == base + index
                    &&& *old(cycles) - *final(cycles) == (if store || page_crossed(base, address) {
                        1int
                    } else {
                        0int
                    })
                },
                None => base + index > 0xFFFF && *final(cycles) == *old(cycles),
            },
    {
        match base.checked_add(index as Word) {
            Some(address) => {
                if store || (base ^ address) & 0xFF00 != 0 {
                    *cycles -= 1;
                }
                Some(address)
            },
            None => None,
        }
    }

    /// Zero page: the operand byte is the address.
    fn get_zero_page_addr(&mut self, cycles: &mut i32, memory: &Memory) -> (address: Word)
        requires
            *old(cycles) - 1 >= i32::MIN,
        ensures
            resolved(
                AddressingMode::ZeroPage,
                false,
                *old(self),
                memory@,
                *final(self),
                *old(cycles) - *final(cycles),
                Some(address),
            ),
    {
        self.fetch_byte(cycles, memory) as Word
    }

    /// Zero page,X: the operand byte plus X, wrapping inside page zero.
    fn get_zero_page_addr_x(&mut self, cycles: &mut i32, memory: &Memory) -> (address: Word)
        requires
            *old(cycles) - 2 >= i32::MIN,
        ensures
            resolved(
                AddressingMode::ZeroPageX,
                false,
                *old(self),
                memory@,
                *final(self),
                *old(cycles) - *final(cycles),
                Some(address),
            ),
    {
        let mut zero_page_address: Byte = self.fetch_byte(cycles, memory);
        zero_page_address = zero_page_address.wrapping_add(self.register_x);
        *cycles -= 1;
        zero_page_address as Word
    }

    /// Zero page,Y: the operand byte plus Y, wrapping inside page zero.
    fn get_zero_page_addr_y(&mut self, cycles: &mut i32, memory: &Memory) -> (address: Word)
        requires
            *old(cycles) - 2 >= i32::MIN,
        ensures
            resolved(
                AddressingMode::ZeroPageY,
                false,
                *old(self),
                memory@,
                *final(self),
                *old(cycles) - *final(cycles),
                Some(address),
            ),
    {
        let mut zero_page_address: Byte = self.fetch_byte(cycles, memory);
        zero_page_address = zero_page_address.wrapping_add(self.register_y);
        *cycles -= 1;
        zero_page_address as Word
    }

    /// (Indirect,X): the operand byte plus X, wrapping inside page zero,
    /// locates the pointer that holds the address.
    fn get_indr_addr_x(&mut self, cycles: &mut i32, memory: &Memory) -> (address: Word)
        requires
            *old(cycles) - 4 >= i32::MIN,
        ensures
            resolved(
                AddressingMode::IndirectX,
                false,
                *old(self),
                memory@,
                *final(self),
                *old(cycles) - *final(cycles),
                Some(address),
            ),
    {
        let mut address: Byte = self.fetch_byte(cycles, memory);
        address = address.wrapping_add(self.register_x);
        *cycles -= 1;
        self.read_word(cycles, address as Word, memory)
    }

    /// (Indirect),Y for a load: the operand byte locates a pointer, to
    /// which Y is added; crossing a page costs one more cycle.
    fn get_indr_addr_y(&mut self, cycles: &mut i32, memory: &Memory) -> (address: Option<Word>)
        requires
            *old(cycles) - 4 >= i32::MIN,
        ensures
            resolved(
                AddressingMode::IndirectY,
                false,
                *old(self),
                memory@,
                *final(self),
                *old(cycles) - *final(cycles),
                address,
            ),
    {
        let zero_page_addr: Byte = self.fetch_byte(cycles, memory);
        let effective_address: Word = self.read_word(cycles, zero_page_addr as Word, memory);
        self.index_address(cycles, effective_address, self.register_y, false)
    }

    /// (Indirect),Y for a store: as for a load, but the index addition
    /// always costs its cycle.
    fn get_indr_addr_y_6(&mut self, cycles: &mut i32, memory: &Memory) -> (address: Option<Word>)
        requires
            *old(cycles) - 4 >= i32::MIN,
        ensures
            resolved(
                AddressingMode::IndirectY,
                true,
                *old(self),
                memory@,
                *final(self),
                *old(cycles) - *final(cycles),
                address,
            ),
    {
        let zero_page_addr: Byte = self.fetch_byte(cycles, memory);
        let effective_address: Word = self.read_word(cycles, zero_page_addr as Word, memory);
        self.index_address(cycles, effective_address, self.register_y, true)
    }

    /// Absolute: the two operand bytes are the address.
    fn get_absolute_addr(&mut self, cycles: &mut i32, memory: &Memory) -> (address: Word)
        requires
            *old(cycles) - 2 >= i32::MIN,
        ensures
            resolved(
                AddressingMode::Absolute,
                false,
                *old(self),
                memory@,
                *final(self),
                *old(cycles) - *final(cycles),
                Some(address),
            ),
    {
        self.fetch_word(cycles, memory)
    }

    /// Absolute,X for a load: crossing a page costs one more cycle.
    fn get_absolute_addr_x(&mut self, cycles: &mut i32, memory: &Memory) -> (address: Option<
        Word,
    >)
        requires
            *old(cycles) - 3 >= i32::MIN,
        ensures
            resolved(
                AddressingMode::AbsoluteX,
                false,
                *old(self),
                memory@,
                *final(self),
                *old(cycles) - *final(cycles),
                address,
            ),
    {
        let absolute_addr: Word = self.fetch_word(cycles, memory);
        self.index_address(cycles, absolute_addr, self.register_x, false)
    }

    /// Absolute,Y for a load: crossing a page costs one more cycle.
    fn get_absolute_addr_y(&mut self, cycles: &mut i32, memory: &Memory) -> (address: Option<
        Word,
    >)
        requires
            *old(cycles) - 3 >= i32::MIN,
        ensures
            resolved(
                AddressingMode::AbsoluteY,
                false,
                *old(self),
                memory@,
                *final(self),
                *old(cycles) - *final(cycles),
                address,
            ),
    {
        let absolute_addr: Word = self.fetch_word(cycles, memory);
        self.index_address(cycles, absolute_addr, self.register_y, false)
    }

    /// Absolute,X for a store: the index addition always costs its cycle.
    fn get_absolute_addr_x_5(&mut self, cycles: &mut i32, memory: &Memory) -> (address: Option<
        Word,
    >)
        requires
            *old(cycles) - 3 >= i32::MIN,
        ensures
            resolved(
                AddressingMode::AbsoluteX,
                true,
                *old(self),
                memory@,
                *final(self),
                *old(cycles) - *final(cycles),
                address,
            ),
    {
        let absolute_addr: Word = self.fetch_word(cycles, memory);
        self.index_address(cycles, absolute_addr, self.register_x, true)
    }

    /// Absolute,Y for a store: the index addition always costs its cycle.
    fn get_absolute_addr_y_5(&mut self, cycles: &mut i32, memory: &Memory) -> (address: Option<
        Word,
    >)
        requires
            *old(cycles) - 3 >= i32::MIN,
        ensures
            resolved(
                AddressingMode::AbsoluteY,
                true,
                *old(self),
                memory@,
                *final(self),
                *old(cycles) - *final(cycles),
                address,
            ),
    {
        let absolute_addr: Word = self.fetch_word(cycles, memory);
        self.index_address(cycles, absolute_addr, self.register_y, true)
    }

    /// Resolves the operand address of a load (`store` false) or of a store
    /// (`store` true) in the given addressing mode.
    fn resolve(
        &mut self,
        mode: AddressingMode,
        store: bool,
        cycles: &mut i32,
        memory: &Memory,
    ) -> (address: Option<Word>)
        requires
            *old(cycles) - 4 >= i32::MIN,
        ensures
            resolved(
                mode,
                store,
                *old(self),
                memory@,
                *final(self),
                *old(cycles) - *final(cycles),
                address,
            ),
    {
        match mode {
            AddressingMode::ZeroPage => Some(self.get_zero_page_addr(cycles, memory)),
            AddressingMode::ZeroPageX => Some(self.get_zero_page_addr_x(cycles, memory)),
            AddressingMode::ZeroPageY => Some(self.get_zero_page_addr_y(cycles, memory)),
            AddressingMode::Absolute => Some(self.get_absolute_addr(cycles, memory)),
            AddressingMode::AbsoluteX => if store {
                self.get_absolute_addr_x_5(cycles, memory)
            } else {
                self.get_absolute_addr_x(cycles, memory)
            },
            AddressingMode::AbsoluteY => if store {
                self.get_absolute_addr_y_5(cycles, memory)
            } else {
                self.get_absolute_addr_y(cycles, memory)
            },
            AddressingMode::IndirectX => Some(self.get_indr_addr_x(cycles, memory)),
            AddressingMode::IndirectY => if store {
                self.get_indr_addr_y_6(cycles, memory)
            } else {
                self.get_indr_addr_y(cycles, memory)
            },
        }
    }

    /// Executes the one instruction at the program counter and charges its
    /// cycles to `cycles`.
    ///
    /// Fails with the fault that stopped the instruction, if any. A faulting
    /// instruction changes neither the data registers, nor the flags, nor
    /// memory; the program counter has passed the bytes it fetched.
    pub fn execute_instruction(&mut self, cycles: &mut i32, memory: &mut Memory) -> (result:
        Result<(), EngineFault>)
        requires
            *old(cycles) - MAX_INSTRUCTION_CYCLES >= i32::MIN,
        ensures
            *final(self) == step(*old(self), old(memory)@).cpu,
            final(memory)@ == step(*old(self), old(memory)@).memory,
            *old(cycles) - *final(cycles) == step(*old(self), old(memory)@).cycles,
            result == match step(*old(self), old(memory)@).fault {
                Some(fault) => Err::<(), EngineFault>(fault),
                None => Ok(()),
            },
    {
        let origin: Word = self.program_counter;
        let opcode: Byte = self.fetch_byte(cycles, memory);
        match decode(opcode) {
            None => Err(EngineFault::UnknownOpcode { opcode, address: origin }),
            Some(Instruction::LoadImmediate(register)) => {
                let value: Byte = self.fetch_byte(cycles, memory);
                *self.get_register(&register) = value;
                self.load_register_set_status(&register);
                Ok(())
            },
            Some(Instruction::Load(register, mode)) => {
                match self.resolve(mode, false, cycles, memory) {
                    Some(address) => {
                        self.load_register(cycles, address, &register, memory);
                        Ok(())
                    },
                    None => Err(EngineFault::AddressOverflow { opcode, address: origin }),
                }
            },
            Some(Instruction::Store(register, mode)) => {
                match self.resolve(mode, true, cycles, memory) {
                    Some(address) => {
                        let value: Byte = *self.get_register(&register);
                        self.write_byte(cycles, address, value, memory);
                        Ok(())
                    },
                    None => Err(EngineFault::AddressOverflow { opcode, address: origin }),
                }
            },
            Some(Instruction::JumpToSubroutine) => {
                let subroutine_addr: Word = self.fetch_word(cycles, memory);
                if subroutine_addr == 0xFFFF {
                    Err(EngineFault::AddressOverflow { opcode, address: origin })
                } else {
                    self.write_word(
                        cycles,
                        self.program_counter.wrapping_sub(1),
                        subroutine_addr,
                        memory,
                    );
                    self.program_counter = subroutine_addr;
                    *cycles -= 1;
                    Ok(())
                }
            },
        }
    }

    /// Runs instructions until the cycle budget is used up, and returns the
    /// number of cycles actually consumed.
    ///
    /// No instruction is started once the budget is zero or less, but one
    /// that has started is always completed: the result is never less than
    /// a positive budget, and exceeds it by less than one instruction. A
    /// budget of zero or less executes nothing and returns zero.
    ///
    /// A fault stops the run at once and is returned in place of the count;
    /// the registers and memory are left as the faulting instruction left
    /// them.
    pub fn execute(&mut self, cycles: i32, memory: &mut Memory) -> (result: Result<
        i32,
        EngineFault,
    >)
        requires
            cycles <= i32::MAX - (MAX_INSTRUCTION_CYCLES - 1),
        ensures
            *final(self) == run(*old(self), old(memory)@, cycles as int).cpu,
            final(memory)@ == run(*old(self), old(memory)@, cycles as int).memory,
            result == match run(*old(self), old(memory)@, cycles as int).fault {
                Some(fault) => Err::<i32, EngineFault>(fault),
                None => Ok(
                    (cycles - run(*old(self), old(memory)@, cycles as int).remaining) as i32,
                ),
            },
            cycles <= 0 ==> result == Ok::<i32, EngineFault>(0) && *final(self) == *old(self)
                && final(memory)@ == old(memory)@,
            cycles > 0 ==> (result matches Ok(used) ==> cycles <= used < cycles
                + MAX_INSTRUCTION_CYCLES),
    {
        let cycles_requested: i32 = cycles;
        let mut remaining: i32 = cycles;
        let ghost initial_cpu = *self;
        let ghost initial_memory = memory@;
        while remaining > 0
            invariant
                initial_cpu == *old(self),
                initial_memory == old(memory)@,
                cycles_requested == cycles,
                remaining <= cycles_requested,
                remaining == cycles_requested || -MAX_INSTRUCTION_CYCLES < remaining,
                cycles_requested <= i32::MAX - (MAX_INSTRUCTION_CYCLES - 1),
                cycles_requested > 0 ==> remaining < cycles_requested || (*self == initial_cpu
                    && memory@ == initial_memory),
                run(initial_cpu, initial_memory, cycles_requested as int) == run(
                    *self,
                    memory@,
                    remaining as int,
                ),
            decreases
                    (if remaining > 0 {
                        remaining
                    } else {
                        0
                    }),
        {
            if let Err(fault) = self.execute_instruction(&mut remaining, memory) {
                return Err(fault);
            }
        }
        Ok(cycles_requested - remaining)
    }
}

} // verus!
