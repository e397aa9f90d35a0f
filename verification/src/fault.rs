//! The conditions that stop the engine.

use vstd::prelude::*;

use crate::{Byte, Word};

verus! {

/// Why the engine refused to go on.
///
/// Both variants carry the opcode of the faulting instruction and the
/// address that opcode was fetched from.
#[derive(Clone, Copy, Debug, PartialEq, Eq, Structural)]
pub enum EngineFault {
    /// The byte fetched as an opcode is not in the instruction table.
    UnknownOpcode { opcode: Byte, address: Word },
    /// The operand is malformed: adding the index register to an absolute
    /// or pointer address, or writing the second byte of a word, would
    /// leave the 16-bit address space. Such arithmetic never wraps.
    AddressOverflow { opcode: Byte, address: Word },
}

} // verus!
