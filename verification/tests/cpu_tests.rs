use rust6502::cpu::RESET_VECTOR;
use rust6502::{Memory, ProcessorStatus, RegisterType, CPU};

#[test]
fn reset_starts_at_the_reset_vector_with_everything_else_zero() {
    let cpu = CPU::reset();
    assert_eq!(RESET_VECTOR, 0xFFFC);
    assert_eq!(cpu.program_counter, 0xFFFC);
    assert_eq!(cpu.stack_pointer, 0x00);
    assert_eq!(cpu.accumulator, 0x00);
    assert_eq!(cpu.register_x, 0x00);
    assert_eq!(cpu.register_y, 0x00);
    assert_eq!(cpu.processor_status, ProcessorStatus(0x00));
    assert!(!cpu.processor_status.carry());
    assert!(!cpu.processor_status.zero());
    assert!(!cpu.processor_status.interrupt());
    assert!(!cpu.processor_status.decimal());
    assert!(!cpu.processor_status.break_flag());
    assert!(!cpu.processor_status.overflow());
    assert!(!cpu.processor_status.negative());
}

#[test]
fn get_register_selects_the_named_field() {
    let mut cpu = CPU::reset();
    cpu.accumulator = 0x11;
    cpu.register_x = 0x22;
    cpu.register_y = 0x33;
    assert_eq!(*cpu.get_register(&RegisterType::Accumulator), 0x11);
    assert_eq!(*cpu.get_register(&RegisterType::RegisterX), 0x22);
    assert_eq!(*cpu.get_register(&RegisterType::RegisterY), 0x33);
}

#[test]
fn get_register_writes_through_to_the_named_field_only() {
    let mut cpu = CPU::reset();
    *cpu.get_register(&RegisterType::RegisterX) = 0x7E;
    assert_eq!(cpu.register_x, 0x7E);
    assert_eq!(cpu.accumulator, 0x00);
    assert_eq!(cpu.register_y, 0x00);
    *cpu.get_register(&RegisterType::Accumulator) = 0x01;
    *cpu.get_register(&RegisterType::RegisterY) = 0x02;
    assert_eq!(cpu.accumulator, 0x01);
    assert_eq!(cpu.register_x, 0x7E);
    assert_eq!(cpu.register_y, 0x02);
    assert_eq!(cpu.program_counter, 0xFFFC);
    assert_eq!(cpu.stack_pointer, 0x00);
    assert_eq!(cpu.processor_status, ProcessorStatus(0x00));
}

#[test]
fn write_word_stores_the_low_byte_first() {
    let cpu = CPU::reset();
    let mut memory = Memory::reset();
    let mut cycles = 10;
    cpu.write_word(&mut cycles, 0xBEEF, 0x1234, &mut memory);
    assert_eq!(memory.data[0x1234], 0xEF);
    assert_eq!(memory.data[0x1235], 0xBE);
    assert_eq!(cycles, 8);
}

#[test]
fn write_word_reaches_the_last_two_bytes_of_memory() {
    let cpu = CPU::reset();
    let mut memory = Memory::reset();
    let mut cycles = 0;
    cpu.write_word(&mut cycles, 0x0102, 0xFFFE, &mut memory);
    assert_eq!(memory.data[0xFFFE], 0x02);
    assert_eq!(memory.data[0xFFFF], 0x01);
    assert_eq!(cycles, -2);
}

#[test]
fn write_word_touches_nothing_else() {
    let cpu = CPU::reset();
    let copy = cpu;
    let mut memory = Memory::reset();
    let mut cycles = 2;
    cpu.write_word(&mut cycles, 0xFFFF, 0x0000, &mut memory);
    assert_eq!(cpu, copy);
    for address in 2..=0xFFFFu16 {
        assert_eq!(memory.read(address), 0x00);
    }
    assert_eq!(memory.read(0), 0xFF);
    assert_eq!(memory.read(1), 0xFF);
}
