//! The flat 64 KiB address space.

use vstd::prelude::*;

use crate::{Byte, Word};

verus! {

/// Number of bytes in the address space: one for every 16-bit address.
pub const MAX_MEM: usize = 0x10000;

/// A fixed-size, byte-addressable memory covering every 16-bit address.
///
/// Because the array is exactly as long as the address type is wide, no
/// access can fall outside of it.
pub struct Memory {
    pub data: [Byte; MAX_MEM],
}

impl View for Memory {
    type V = Seq<Byte>;

    open spec fn view(&self) -> Seq<Byte> {
        self.data@
    }
}

impl Memory {
    /// A memory in which every byte is zero.
    pub fn reset() -> (memory: Self)
        ensures
            memory@.len() == MAX_MEM,
            forall|address: int| 0 <= address < MAX_MEM ==> memory@[address] == 0,
    {
        Self { data: [0x00; MAX_MEM] }
    }

    /// The byte stored at `address`.
    pub fn read(&self, address: Word) -> (value: Byte)
        ensures
            value == self@[address as int],
    {
        self.data[address as usize]
    }

    /// Stores `value` at `address`, leaving every other byte as it was.
    pub fn write(&mut self, address: Word, value: Byte)
        ensures
            final(self)@ == old(self)@.update(address as int, value),
    {
        self.data[address as usize] = value;
    }
}

} // verus!
