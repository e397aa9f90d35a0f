use rust6502::status::{
    BREAK_BIT, CARRY_BIT, DECIMAL_BIT, INTERRUPT_BIT, NEGATIVE_BIT, OVERFLOW_BIT, ZERO_BIT,
};
use rust6502::ProcessorStatus;

fn flags(status: &ProcessorStatus) -> [bool; 7] {
    [
        status.carry(),
        status.zero(),
        status.interrupt(),
        status.decimal(),
        status.break_flag(),
        status.overflow(),
        status.negative(),
    ]
}

#[test]
fn flags_sit_at_bit_positions_one_to_seven() {
    assert_eq!(
        [
            CARRY_BIT,
            ZERO_BIT,
            INTERRUPT_BIT,
            DECIMAL_BIT,
            BREAK_BIT,
            OVERFLOW_BIT,
            NEGATIVE_BIT
        ],
        [1, 2, 3, 4, 5, 6, 7]
    );
    for position in 1..=7usize {
        let status = ProcessorStatus(1u8 << position);
        let mut expected = [false; 7];
        expected[position - 1] = true;
        assert_eq!(flags(&status), expected);
    }
}

#[test]
fn bit_zero_is_no_flag() {
    let status = ProcessorStatus(0b0000_0001);
    assert_eq!(flags(&status), [false; 7]);
}

#[test]
fn all_flags_read_set_when_every_bit_is_set() {
    let status = ProcessorStatus(0xFF);
    assert_eq!(flags(&status), [true; 7]);
}

#[test]
fn set_zero_sets_only_the_zero_bit() {
    let mut status = ProcessorStatus(0x00);
    status.set_zero(true);
    assert_eq!(status.0, 0b0000_0100);
    assert!(status.zero());
    assert_eq!(
        flags(&status),
        [false, true, false, false, false, false, false]
    );
}

#[test]
fn set_zero_clears_only_the_zero_bit() {
    let mut status = ProcessorStatus(0xFF);
    status.set_zero(false);
    assert_eq!(status.0, 0b1111_1011);
    assert!(!status.zero());
    assert_eq!(flags(&status), [true, false, true, true, true, true, true]);
}

#[test]
fn set_negative_sets_only_the_negative_bit() {
    let mut status = ProcessorStatus(0x00);
    status.set_negative(true);
    assert_eq!(status.0, 0b1000_0000);
    assert!(status.negative());
    assert_eq!(
        flags(&status),
        [false, false, false, false, false, false, true]
    );
}

#[test]
fn set_negative_clears_only_the_negative_bit() {
    let mut status = ProcessorStatus(0xFF);
    status.set_negative(false);
    assert_eq!(status.0, 0b0111_1111);
    assert!(!status.negative());
    assert_eq!(flags(&status), [true, true, true, true, true, true, false]);
}

#[test]
fn setting_a_flag_twice_is_the_same_as_once() {
    for bits in 0..=0xFFu8 {
        for value in [false, true] {
            let mut once = ProcessorStatus(bits);
            once.set_zero(value);
            once.set_negative(value);
            let mut twice = once;
            twice.set_zero(value);
            twice.set_negative(value);
            assert_eq!(once, twice);
            assert_eq!(once.zero(), value);
            assert_eq!(once.negative(), value);
            assert_eq!(once.0 & 0b0111_1011, bits & 0b0111_1011);
        }
    }
}

#[test]
fn every_getter_reads_its_own_bit_of_every_byte() {
    for bits in 0..=0xFFu8 {
        let status = ProcessorStatus(bits);
        let expected = [
            (bits >> 1) & 1 == 1,
            (bits >> 2) & 1 == 1,
            (bits >> 3) & 1 == 1,
            (bits >> 4) & 1 == 1,
            (bits >> 5) & 1 == 1,
            (bits >> 6) & 1 == 1,
            (bits >> 7) & 1 == 1,
        ];
        assert_eq!(flags(&status), expected);
    }
}

#[test]
fn every_setter_forces_its_own_bit_of_every_byte() {
    for bits in 0..=0xFFu8 {
        let mut status = ProcessorStatus(bits);
        status.set_zero(true);
        assert_eq!(status.0, bits | 0b0000_0100);
        let mut status = ProcessorStatus(bits);
        status.set_zero(false);
        assert_eq!(status.0, bits & 0b1111_1011);
        let mut status = ProcessorStatus(bits);
        status.set_negative(true);
        assert_eq!(status.0, bits | 0b1000_0000);
        let mut status = ProcessorStatus(bits);
        status.set_negative(false);
        assert_eq!(status.0, bits & 0b0111_1111);
    }
}
