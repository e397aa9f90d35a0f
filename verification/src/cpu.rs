//! The register file of the processor.

use vstd::prelude::*;

use crate::status::ProcessorStatus;
use crate::{Byte, Word};

verus! {

/// Address that the program counter holds after a reset.
pub const RESET_VECTOR: Word = 0xFFFC;

/// Selects one of the three 8-bit data registers.
///
/// A selector owns no storage: it only names the field of the register
/// file that a load or a store acts on.
#[derive(Clone, Copy, Debug, PartialEq, Eq, Structural)]
pub enum RegisterType {
    Accumulator,
    RegisterX,
    RegisterY,
}

/// The register file: program counter, stack pointer, the three data
/// registers and the processor status.
///
/// The data registers are plain unsigned bytes; the only signed reading
/// of one is the negative flag, which mirrors its top bit.
#[derive(Clone, Copy, Debug, PartialEq, Eq, Structural)]
pub struct CPU {
    pub processor_status: ProcessorStatus,
    pub program_counter: Word,
    pub stack_pointer: Byte,
    pub accumulator: Byte,
    pub register_x: Byte,
    pub register_y: Byte,
}

impl CPU {
    /// The value held by the selected register.
    pub open spec fn register(self, register_type: RegisterType) -> Byte {
        match register_type {
            RegisterType::Accumulator => self.accumulator,
            RegisterType::RegisterX => self.register_x,
            RegisterType::RegisterY => self.register_y,
        }
    }

    /// This register file with the selected register replaced by `value`.
    pub open spec fn with_register(self, register_type: RegisterType, value: Byte) -> CPU {
        match register_type {
            RegisterType::Accumulator => CPU { accumulator: value, ..self },
            RegisterType::RegisterX => CPU { register_x: value, ..self },
            RegisterType::RegisterY => CPU { register_y: value, ..self },
        }
    }

    /// This register file with the program counter replaced.
    pub open spec fn with_program_counter(self, program_counter: Word) -> CPU {
        CPU { program_counter, ..self }
    }

    /// The state after a reset: the program counter at the reset vector,
    /// everything else zero.
    pub open spec fn spec_reset() -> CPU {
        CPU {
            processor_status: ProcessorStatus(0),
            program_counter: RESET_VECTOR,
            stack_pointer: 0,
            accumulator: 0,
            register_x: 0,
            register_y: 0,
        }
    }

    /// A register file in its reset state.
    pub fn reset() -> (cpu: Self)
        ensures
            cpu == Self::spec_reset(),
    {
        Self {
            program_counter: RESET_VECTOR,
            stack_pointer: 0x00,
            accumulator: 0x00,
            register_x: 0x00,
            register_y: 0x00,
            processor_status: ProcessorStatus(0x00),
        }
    }

    /// Borrows the selected register for reading or writing.
    ///
    /// Whatever the caller leaves in the slot becomes the register's value;
    /// no other field changes.
    pub fn get_register(&mut self, register_type: &RegisterType) -> (slot: &mut Byte)
        ensures
            *slot == old(self).register(*register_type),
            *final(self) == old(self).with_register(*register_type, *final(slot)),
    {
        match register_type {
            RegisterType::Accumulator => &mut self.accumulator,
            RegisterType::RegisterX => &mut self.register_x,
            RegisterType::RegisterY => &mut self.register_y,
        }
    }
}

} // verus!
