//! The processor-status flags, packed into one byte.

use vstd::prelude::*;

use crate::Byte;

verus! {

/// Bit position of the carry flag.
pub const CARRY_BIT: usize = 1;

/// Bit position of the zero flag.
pub const ZERO_BIT: usize = 2;

/// Bit position of the interrupt-disable flag.
pub const INTERRUPT_BIT: usize = 3;

/// Bit position of the decimal-mode flag.
pub const DECIMAL_BIT: usize = 4;

/// Bit position of the break flag.
pub const BREAK_BIT: usize = 5;

/// Bit position of the overflow flag.
pub const OVERFLOW_BIT: usize = 6;

/// Bit position of the negative flag.
pub const NEGATIVE_BIT: usize = 7;

/// Whether bit `index` of `bits` is one.
pub open spec fn bit_is_set(bits: Byte, index: usize) -> bool {
    (bits >> index) & 1 == 1
}

/// `bits` with bit `index` forced to `value` and every other bit kept.
pub open spec fn with_bit(bits: Byte, index: usize, value: bool) -> Byte {
    if value {
        bits | (1u8 << index)
    } else {
        bits & !(1u8 << index)
    }
}

/// Reads one bit of a byte with `bitfield::Bit::bit`.
///
/// Trusted: for a bit position inside the byte, the outside function
/// isolates that bit by shifting and reports whether it is one. Positions
/// of 8 and above make its shift amounts underflow, so they are excluded.
#[verifier::external_body]
fn read_bit(bits: Byte, index: usize) -> (set: bool)
    requires
        index < 8,
    ensures
        set == bit_is_set(bits, index),
{
    bitfield::Bit::bit(&bits, index)
}

/// Overwrites one bit of a byte with `bitfield::BitMut::set_bit`.
///
/// Trusted: for a bit position inside the byte, the outside function
/// clears that bit through a one-bit mask and then ors in `value` at the
/// same position, touching no other bit. Positions of 8 and above make
/// its shift amounts underflow, so they are excluded.
#[verifier::external_body]
fn write_bit(bits: Byte, index: usize, value: bool) -> (updated: Byte)
    requires
        index < 8,
    ensures
        updated == with_bit(bits, index, value),
{
    let mut updated: Byte = bits;
    bitfield::BitMut::set_bit(&mut updated, index, value);
    updated
}

/// Seven boolean flags packed into one byte: carry, zero,
/// interrupt-disable, decimal, break, overflow and negative, at bit
/// positions one to seven. Bit zero is unused.
///
/// The instructions of this engine write only the zero and negative
/// flags; the others keep whatever value the caller gave them.
#[derive(Clone, Copy, Debug, PartialEq, Eq, Structural)]
pub struct ProcessorStatus(pub Byte);

impl ProcessorStatus {
    pub open spec fn spec_carry(&self) -> bool {
        bit_is_set(self.0, CARRY_BIT)
    }

    pub open spec fn spec_zero(&self) -> bool {
        bit_is_set(self.0, ZERO_BIT)
    }

    pub open spec fn spec_interrupt(&self) -> bool {
        bit_is_set(self.0, INTERRUPT_BIT)
    }

    pub open spec fn spec_decimal(&self) -> bool {
        bit_is_set(self.0, DECIMAL_BIT)
    }

    pub open spec fn spec_break_flag(&self) -> bool {
        bit_is_set(self.0, BREAK_BIT)
    }

    pub open spec fn spec_overflow(&self) -> bool {
        bit_is_set(self.0, OVERFLOW_BIT)
    }

    pub open spec fn spec_negative(&self) -> bool {
        bit_is_set(self.0, NEGATIVE_BIT)
    }

    /// The status that results from a register receiving `value`: the zero
    /// flag says whether `value` is zero, the negative flag whether its top
    /// bit is set, and every other bit is kept.
    pub open spec fn after_load(self, value: Byte) -> ProcessorStatus {
        ProcessorStatus(
            with_bit(with_bit(self.0, ZERO_BIT, value == 0), NEGATIVE_BIT, value >= 0x80),
        )
    }

    /// The carry flag.
    #[verifier::when_used_as_spec(spec_carry)]
    pub fn carry(&self) -> (set: bool)
        ensures
            set == self.spec_carry(),
    {
        read_bit(self.0, CARRY_BIT)
    }

    /// The zero flag.
    #[verifier::when_used_as_spec(spec_zero)]
    pub fn zero(&self) -> (set: bool)
        ensures
            set == self.spec_zero(),
    {
        read_bit(self.0, ZERO_BIT)
    }

    /// The interrupt-disable flag.
    #[verifier::when_used_as_spec(spec_interrupt)]
    pub fn interrupt(&self) -> (set: bool)
        ensures
            set == self.spec_interrupt(),
    {
        read_bit(self.0, INTERRUPT_BIT)
    }

    /// The decimal-mode flag.
    #[verifier::when_used_as_spec(spec_decimal)]
    pub fn decimal(&self) -> (set: bool)
        ensures
            set == self.spec_decimal(),
    {
        read_bit(self.0, DECIMAL_BIT)
    }

    /// The break flag.
    #[verifier::when_used_as_spec(spec_break_flag)]
    pub fn break_flag(&self) -> (set: bool)
        ensures
            set == self.spec_break_flag(),
    {
        read_bit(self.0, BREAK_BIT)
    }

    /// The overflow flag.
    #[verifier::when_used_as_spec(spec_overflow)]
    pub fn overflow(&self) -> (set: bool)
        ensures
            set == self.spec_overflow(),
    {
        read_bit(self.0, OVERFLOW_BIT)
    }

    /// The negative flag.
    #[verifier::when_used_as_spec(spec_negative)]
    pub fn negative(&self) -> (set: bool)
        ensures
            set == self.spec_negative(),
    {
        read_bit(self.0, NEGATIVE_BIT)
    }

    /// Sets the zero flag to `value` and keeps every other bit.
    pub fn set_zero(&mut self, value: bool)
        ensures
            final(self).0 == with_bit(old(self).0, ZERO_BIT, value),
    {
        self.0 = write_bit(self.0, ZERO_BIT, value);
    }

    /// Sets the negative flag to `value` and keeps every other bit.
    pub fn set_negative(&mut self, value: bool)
        ensures
            final(self).0 == with_bit(old(self).0, NEGATIVE_BIT, value),
    {
        self.0 = write_bit(self.0, NEGATIVE_BIT, value);
    }
}

/// Writing one bit reads back as written and leaves the other seven bits
/// of the byte as they were.
pub proof fn lemma_with_bit_frame(bits: Byte, index: usize, value: bool, other: usize)
    requires
        index < 8,
        other < 8,
    ensures
        bit_is_set(with_bit(bits, index, value), index) == value,
        other != index ==> bit_is_set(with_bit(bits, index, value), other) == bit_is_set(
            bits,
            other,
        ),
{
    assert(((bits | (1u8 << index)) >> index) & 1 == 1) by (bit_vector)
        requires
            index < 8,
    ;
    assert(((bits & !(1u8 << index)) >> index) & 1 == 0) by (bit_vector)
        requires
            index < 8,
    ;
    assert(other != index ==> ((bits | (1u8 << index)) >> other) & 1 == (bits >> other) & 1)
        by (bit_vector)
        requires
            index < 8,
            other < 8,
    ;
    assert(other != index ==> ((bits & !(1u8 << index)) >> other) & 1 == (bits >> other) & 1)
        by (bit_vector)
        requires
            index < 8,
            other < 8,
    ;
}

/// After a load the zero flag says whether the value is zero, the negative
/// flag whether it is 0x80 or above, and the other five flags are as
/// before.
pub proof fn lemma_after_load(status: ProcessorStatus, value: Byte)
    ensures
        status.after_load(value).zero() == (value == 0),
        status.after_load(value).negative() == (value >= 0x80),
        status.after_load(value).carry() == status.carry(),
        status.after_load(value).interrupt() == status.interrupt(),
        status.after_load(value).decimal() == status.decimal(),
        status.after_load(value).break_flag() == status.break_flag(),
        status.after_load(value).overflow() == status.overflow(),
{
    let zeroed = with_bit(status.0, ZERO_BIT, value == 0);
    lemma_with_bit_frame(status.0, ZERO_BIT, value == 0, ZERO_BIT);
    lemma_with_bit_frame(zeroed, NEGATIVE_BIT, value >= 0x80, ZERO_BIT);
    lemma_with_bit_frame(status.0, ZERO_BIT, value == 0, CARRY_BIT);
    lemma_with_bit_frame(zeroed, NEGATIVE_BIT, value >= 0x80, CARRY_BIT);
    lemma_with_bit_frame(status.0, ZERO_BIT, value == 0, INTERRUPT_BIT);
    lemma_with_bit_frame(zeroed, NEGATIVE_BIT, value >= 0x80, INTERRUPT_BIT);
    lemma_with_bit_frame(status.0, ZERO_BIT, value == 0, DECIMAL_BIT);
    lemma_with_bit_frame(zeroed, NEGATIVE_BIT, value >= 0x80, DECIMAL_BIT);
    lemma_with_bit_frame(status.0, ZERO_BIT, value == 0, BREAK_BIT);
    lemma_with_bit_frame(zeroed, NEGATIVE_BIT, value >= 0x80, BREAK_BIT);
    lemma_with_bit_frame(status.0, ZERO_BIT, value == 0, OVERFLOW_BIT);
    lemma_with_bit_frame(zeroed, NEGATIVE_BIT, value >= 0x80, OVERFLOW_BIT);
}

} // verus!
