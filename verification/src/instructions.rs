//! The supported opcodes and the table that decodes them.
//!
//! Decoding is an exact-match lookup: a byte either is one of the opcodes
//! listed here or it is not an instruction at all.

use vstd::prelude::*;

use crate::cpu::RegisterType;
use crate::Byte;

verus! {

// STA
pub const INSTRUCTION_STA_ZERO: Byte = 0x85;

pub const INSTRUCTION_STA_ZERO_X: Byte = 0x95;

pub const INSTRUCTION_STA_ABS: Byte = 0x8D;

pub const INSTRUCTION_STA_ABS_X: Byte = 0x9D;

pub const INSTRUCTION_STA_ABS_Y: Byte = 0x99;

pub const INSTRUCTION_STA_INDR_X: Byte = 0x81;

pub const INSTRUCTION_STA_INDR_Y: Byte = 0x91;

// STX
pub const INSTRUCTION_STX_ZERO: Byte = 0x86;

pub const INSTRUCTION_STX_ZERO_Y: Byte = 0x96;

pub const INSTRUCTION_STX_ABS: Byte = 0x8E;

// STY
pub const INSTRUCTION_STY_ZERO: Byte = 0x84;

pub const INSTRUCTION_STY_ZERO_X: Byte = 0x94;

pub const INSTRUCTION_STY_ABS: Byte = 0x8C;

// LDA
pub const INSTRUCTION_LDA_IMM: Byte = 0xA9;

pub const INSTRUCTION_LDA_ZERO: Byte = 0xA5;

pub const INSTRUCTION_LDA_ZERO_X: Byte = 0xB5;

pub const INSTRUCTION_LDA_ABS: Byte = 0xAD;

pub const INSTRUCTION_LDA_ABS_X: Byte = 0xBD;

pub const INSTRUCTION_LDA_ABS_Y: Byte = 0xB9;

pub const INSTRUCTION_LDA_INDR_X: Byte = 0xA1;

pub const INSTRUCTION_LDA_INDR_Y: Byte = 0xB1;

// LDX
pub const INSTRUCTION_LDX_IMM: Byte = 0xA2;

pub const INSTRUCTION_LDX_ZERO: Byte = 0xA6;

pub const INSTRUCTION_LDX_ZERO_Y: Byte = 0xB6;

pub const INSTRUCTION_LDX_ABS: Byte = 0xAE;

pub const INSTRUCTION_LDX_ABS_Y: Byte = 0xBE;

// LDY
pub const INSTRUCTION_LDY_IMM: Byte = 0xA0;

pub const INSTRUCTION_LDY_ZERO: Byte = 0xA4;

pub const INSTRUCTION_LDY_ZERO_X: Byte = 0xB4;

pub const INSTRUCTION_LDY_ABS: Byte = 0xAC;

pub const INSTRUCTION_LDY_ABS_X: Byte = 0xBC;

pub const INSTRUCTION_JSR: Byte = 0x20;

/// Assigned to the return-from-subroutine instruction, which this engine
/// does not execute: fetching it is an unknown-opcode fault.
pub const INSTRUCTION_RTS: Byte = 0x60;

/// How an instruction finds the address of its operand.
#[derive(Clone, Copy, Debug, PartialEq, Eq, Structural)]
pub enum AddressingMode {
    /// The operand byte is an address in page zero.
    ZeroPage,
    /// The operand byte plus X, wrapping inside page zero.
    ZeroPageX,
    /// The operand byte plus Y, wrapping inside page zero.
    ZeroPageY,
    /// The two operand bytes are the address, low byte first.
    Absolute,
    /// The two-byte operand plus X.
    AbsoluteX,
    /// The two-byte operand plus Y.
    AbsoluteY,
    /// The operand byte plus X, wrapping inside page zero, locates a
    /// two-byte pointer to the address.
    IndirectX,
    /// The operand byte locates a two-byte pointer in page zero; the
    /// address is that pointer plus Y.
    IndirectY,
}

/// A decoded opcode: an effect paired with the way to find its operand.
#[derive(Clone, Copy, Debug, PartialEq, Eq, Structural)]
pub enum Instruction {
    /// Copy the operand byte itself into a register and update the zero
    /// and negative flags.
    LoadImmediate(RegisterType),
    /// Copy the byte at the operand address into a register and update the
    /// zero and negative flags.
    Load(RegisterType, AddressingMode),
    /// Copy a register to the operand address.
    Store(RegisterType, AddressingMode),
    /// Record the return address and continue at the two-byte operand.
    JumpToSubroutine,
}

/// The instruction table: which instruction, if any, an opcode byte
/// stands for.
pub open spec fn instruction_for(opcode: Byte) -> Option<Instruction> {
    let a = RegisterType::Accumulator;
    let x = RegisterType::RegisterX;
    let y = RegisterType::RegisterY;
    if opcode == INSTRUCTION_LDA_IMM {
        Some(Instruction::LoadImmediate(a))
    } else if opcode == INSTRUCTION_LDA_ZERO {
        Some(Instruction::Load(a, AddressingMode::ZeroPage))
    } else if opcode == INSTRUCTION_LDA_ZERO_X {
        Some(Instruction::Load(a, AddressingMode::ZeroPageX))
    } else if opcode == INSTRUCTION_LDA_ABS {
        Some(Instruction::Load(a, AddressingMode::Absolute))
    } else if opcode == INSTRUCTION_LDA_ABS_X {
        Some(Instruction::Load(a, AddressingMode::AbsoluteX))
    } else if opcode == INSTRUCTION_LDA_ABS_Y {
        Some(Instruction::Load(a, AddressingMode::AbsoluteY))
    } else if opcode == INSTRUCTION_LDA_INDR_X {
        Some(Instruction::Load(a, AddressingMode::IndirectX))
    } else if opcode == INSTRUCTION_LDA_INDR_Y {
        Some(Instruction::Load(a, AddressingMode::IndirectY))
    } else if opcode == INSTRUCTION_LDX_IMM {
        Some(Instruction::LoadImmediate(x))
    } else if opcode == INSTRUCTION_LDX_ZERO {
        Some(Instruction::Load(x, AddressingMode::ZeroPage))
    } else if opcode == INSTRUCTION_LDX_ZERO_Y {
        Some(Instruction::Load(x, AddressingMode::ZeroPageY))
    } else if opcode == INSTRUCTION_LDX_ABS {
        Some(Instruction::Load(x, AddressingMode::Absolute))
    } else if opcode == INSTRUCTION_LDX_ABS_Y {
        Some(Instruction::Load(x, AddressingMode::AbsoluteY))
    } else if opcode == INSTRUCTION_LDY_IMM {
        Some(Instruction::LoadImmediate(y))
    } else if opcode == INSTRUCTION_LDY_ZERO {
        Some(Instruction::Load(y, AddressingMode::ZeroPage))
    } else if opcode == INSTRUCTION_LDY_ZERO_X {
        Some(Instruction::Load(y, AddressingMode::ZeroPageX))
    } else if opcode == INSTRUCTION_LDY_ABS {
        Some(Instruction::Load(y, AddressingMode::Absolute))
    } else if opcode == INSTRUCTION_LDY_ABS_X {
        Some(Instruction::Load(y, AddressingMode::AbsoluteX))
    } else if opcode == INSTRUCTION_STA_ZERO {
        Some(Instruction::Store(a, AddressingMode::ZeroPage))
    } else if opcode == INSTRUCTION_STA_ZERO_X {
        Some(Instruction::Store(a, AddressingMode::ZeroPageX))
    } else if opcode == INSTRUCTION_STA_ABS {
        Some(Instruction::Store(a, AddressingMode::Absolute))
    } else if opcode == INSTRUCTION_STA_ABS_X {
        Some(Instruction::Store(a, AddressingMode::AbsoluteX))
    } else if opcode == INSTRUCTION_STA_ABS_Y {
        Some(Instruction::Store(a, AddressingMode::AbsoluteY))
    } else if opcode == INSTRUCTION_STA_INDR_X {
        Some(Instruction::Store(a, AddressingMode::IndirectX))
    } else if opcode == INSTRUCTION_STA_INDR_Y {
        Some(Instruction::Store(a, AddressingMode::IndirectY))
    } else if opcode == INSTRUCTION_STX_ZERO {
        Some(Instruction::Store(x, AddressingMode::ZeroPage))
    } else if opcode == INSTRUCTION_STX_ZERO_Y {
        Some(Instruction::Store(x, AddressingMode::ZeroPageY))
    } else if opcode == INSTRUCTION_STX_ABS {
        Some(Instruction::Store(x, AddressingMode::Absolute))
    } else if opcode == INSTRUCTION_STY_ZERO {
        Some(Instruction::Store(y, AddressingMode::ZeroPage))
    } else if opcode == INSTRUCTION_STY_ZERO_X {
        Some(Instruction::Store(y, AddressingMode::ZeroPageX))
    } else if opcode == INSTRUCTION_STY_ABS {
        Some(Instruction::Store(y, AddressingMode::Absolute))
    } else if opcode == INSTRUCTION_JSR {
        Some(Instruction::JumpToSubroutine)
    } else {
        None
    }
}

/// Looks an opcode byte up in the instruction table.
pub fn decode(opcode: Byte) -> (instruction: Option<Instruction>)
    ensures
        instruction == instruction_for(opcode),
{
    let a = RegisterType::Accumulator;
    let x = RegisterType::RegisterX;
    let y = RegisterType::RegisterY;
    match opcode {
        INSTRUCTION_LDA_IMM => Some(Instruction::LoadImmediate(a)),
        INSTRUCTION_LDA_ZERO => Some(Instruction::Load(a, AddressingMode::ZeroPage)),
        INSTRUCTION_LDA_ZERO_X => Some(Instruction::Load(a, AddressingMode::ZeroPageX)),
        INSTRUCTION_LDA_ABS => Some(Instruction::Load(a, AddressingMode::Absolute)),
        INSTRUCTION_LDA_ABS_X => Some(Instruction::Load(a, AddressingMode::AbsoluteX)),
        INSTRUCTION_LDA_ABS_Y => Some(Instruction::Load(a, AddressingMode::AbsoluteY)),
        INSTRUCTION_LDA_INDR_X => Some(Instruction::Load(a, AddressingMode::IndirectX)),
        INSTRUCTION_LDA_INDR_Y => Some(Instruction::Load(a, AddressingMode::IndirectY)),
        INSTRUCTION_LDX_IMM => Some(Instruction::LoadImmediate(x)),
        INSTRUCTION_LDX_ZERO => Some(Instruction::Load(x, AddressingMode::ZeroPage)),
        INSTRUCTION_LDX_ZERO_Y => Some(Instruction::Load(x, AddressingMode::ZeroPageY)),
        INSTRUCTION_LDX_ABS => Some(Instruction::Load(x, AddressingMode::Absolute)),
        INSTRUCTION_LDX_ABS_Y => Some(Instruction::Load(x, AddressingMode::AbsoluteY)),
        INSTRUCTION_LDY_IMM => Some(Instruction::LoadImmediate(y)),
        INSTRUCTION_LDY_ZERO => Some(Instruction::Load(y, AddressingMode::ZeroPage)),
        INSTRUCTION_LDY_ZERO_X => Some(Instruction::Load(y, AddressingMode::ZeroPageX)),
        INSTRUCTION_LDY_ABS => Some(Instruction::Load(y, AddressingMode::Absolute)),
        INSTRUCTION_LDY_ABS_X => Some(Instruction::Load(y, AddressingMode::AbsoluteX)),
        INSTRUCTION_STA_ZERO => Some(Instruction::Store(a, AddressingMode::ZeroPage)),
        INSTRUCTION_STA_ZERO_X => Some(Instruction::Store(a, AddressingMode::ZeroPageX)),
        INSTRUCTION_STA_ABS => Some(Instruction::Store(a, AddressingMode::Absolute)),
        INSTRUCTION_STA_ABS_X => Some(Instruction::Store(a, AddressingMode::AbsoluteX)),
        INSTRUCTION_STA_ABS_Y => Some(Instruction::Store(a, AddressingMode::AbsoluteY)),
        INSTRUCTION_STA_INDR_X => Some(Instruction::Store(a, AddressingMode::IndirectX)),
        INSTRUCTION_STA_INDR_Y => Some(Instruction::Store(a, AddressingMode::IndirectY)),
        INSTRUCTION_STX_ZERO => Some(Instruction::Store(x, AddressingMode::ZeroPage)),
        INSTRUCTION_STX_ZERO_Y => Some(Instruction::Store(x, AddressingMode::ZeroPageY)),
        INSTRUCTION_STX_ABS => Some(Instruction::Store(x, AddressingMode::Absolute)),
        INSTRUCTION_STY_ZERO => Some(Instruction::Store(y, AddressingMode::ZeroPage)),
        INSTRUCTION_STY_ZERO_X => Some(Instruction::Store(y, AddressingMode::ZeroPageX)),
        INSTRUCTION_STY_ABS => Some(Instruction::Store(y, AddressingMode::Absolute)),
        INSTRUCTION_JSR => Some(Instruction::JumpToSubroutine),
        _ => None,
    }
}

} // verus!
