use rust6502::instructions::INSTRUCTION_JSR;
use rust6502::{Memory, CPU};

fn setup() -> (CPU, Memory) {
    let cpu: CPU = CPU::reset();
    let memory: Memory = Memory::reset();
    (cpu, memory)
}

#[test]
fn jsr_does_not_affect_processor_status() {
    let (mut cpu, mut memory): (CPU, Memory) = setup();
    let cpu_copy = cpu.clone();
    cpu.program_counter = 0xFF00;
    memory.data[0xFF00] = INSTRUCTION_JSR;
    memory.data[0xFF01] = 0x00;
    memory.data[0xFF02] = 0x80;
    let cycles_used = cpu.execute(6, &mut memory);
    assert_eq!(cycles_used, Ok(6));
    assert_eq!(cpu.processor_status, cpu_copy.processor_status);
    assert_eq!(cpu.stack_pointer, cpu_copy.stack_pointer);
    assert_eq!(cpu.program_counter, 0x8000);
}
