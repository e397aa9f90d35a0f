use rust6502::memory::MAX_MEM;
use rust6502::Memory;

#[test]
fn memory_spans_the_whole_address_space() {
    let memory = Memory::reset();
    assert_eq!(MAX_MEM, 65536);
    assert_eq!(memory.data.len(), 65536);
}

#[test]
fn memory_reset_is_zero_filled() {
    let memory = Memory::reset();
    for address in 0..=0xFFFFu16 {
        assert_eq!(memory.read(address), 0x00);
    }
}

#[test]
fn memory_write_then_read_round_trips() {
    let mut memory = Memory::reset();
    memory.write(0x0000, 0x11);
    memory.write(0x1234, 0x22);
    memory.write(0xFFFF, 0x33);
    assert_eq!(memory.read(0x0000), 0x11);
    assert_eq!(memory.read(0x1234), 0x22);
    assert_eq!(memory.read(0xFFFF), 0x33);
    assert_eq!(memory.data[0x1234], 0x22);
}

#[test]
fn memory_write_leaves_other_bytes_alone() {
    let mut memory = Memory::reset();
    memory.write(0x8000, 0xAB);
    for address in 0..=0xFFFFu16 {
        let expected = if address == 0x8000 { 0xAB } else { 0x00 };
        assert_eq!(memory.read(address), expected);
    }
}

#[test]
fn memory_write_overwrites_the_previous_value() {
    let mut memory = Memory::reset();
    memory.write(0x0042, 0x01);
    memory.write(0x0042, 0x02);
    assert_eq!(memory.read(0x0042), 0x02);
}
