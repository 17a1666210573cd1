//! The instruction table: for each opcode byte the CPU knows, its mnemonic, its
//! length in bytes, its nominal cycle count and its addressing mode.
use vstd::prelude::*;

use crate::cpu::AddressingMode;

verus! {

/// The instructions this interpreter executes.
#[derive(Debug, Clone, Copy, PartialEq, Eq, Structural)]
pub enum Mnemonic {
    ADC,
    AND,
    ASL,
    BCC,
    BCS,
    BEQ,
    BIT,
    BMI,
    BNE,
    BPL,
    BRK,
    BVC,
    BVS,
    CLC,
    CLD,
    CLI,
    CLV,
    CMP,
    CPX,
    CPY,
    DEC,
    DEX,
    DEY,
    EOR,
    INC,
    INX,
    INY,
    JMP,
    LDA,
    STA,
    TAX,
}

/// One row of the instruction table.
#[derive(Debug, Clone, Copy, PartialEq, Eq, Structural)]
pub struct OpCode {
    /// The instruction byte, the key of the row.
    pub opcode: u8,
    pub mnemonic: Mnemonic,
    /// Length of the whole instruction, the opcode byte included.
    pub bytes: u8,
    /// Nominal cycle count; carried as data only.
    pub cycles: u8,
    pub addressing_mode: AddressingMode,
}

/// The row with these fields.
pub open spec fn descriptor(
    opcode: u8,
    mnemonic: Mnemonic,
    bytes: u8,
    cycles: u8,
    addressing_mode: AddressingMode,
) -> OpCode {
    OpCode { opcode, mnemonic, bytes, cycles, addressing_mode }
}

impl OpCode {
    pub fn new(
        opcode: u8,
        mnemonic: Mnemonic,
        bytes: u8,
        cycles: u8,
        addressing_mode: AddressingMode,
    ) -> (r: OpCode)
        ensures
            r == descriptor(opcode, mnemonic, bytes, cycles, addressing_mode),
    {
        OpCode { opcode, mnemonic, bytes, cycles, addressing_mode }
    }

    /// Whether the row's mode is one its mnemonic can execute with, and its length
    /// is the opcode byte plus the operand bytes of that mode.
    pub open spec fn well_formed(self) -> bool {
        &&& self.addressing_mode.suits(self.mnemonic)
        &&& self.bytes == 1 + self.addressing_mode.operand_len()
    }
}

/// The table: the row keyed by `code`, if the CPU knows that byte.
pub open spec fn decode(code: u8) -> Option<OpCode> {
    match code {
        0x00 => Some(descriptor(0x00, Mnemonic::BRK, 1, 7, AddressingMode::Implied)),
        0x06 => Some(descriptor(0x06, Mnemonic::ASL, 2, 5, AddressingMode::ZeroPage)),
        0x0A => Some(descriptor(0x0A, Mnemonic::ASL, 1, 2, AddressingMode::Accumulator)),
        0x0E => Some(descriptor(0x0E, Mnemonic::ASL, 3, 6, AddressingMode::Absolute)),
        0x10 => Some(descriptor(0x10, Mnemonic::BPL, 2, 2, AddressingMode::Relative)),
        0x16 => Some(descriptor(0x16, Mnemonic::ASL, 2, 5, AddressingMode::ZeroPageX)),
        0x18 => Some(descriptor(0x18, Mnemonic::CLC, 1, 2, AddressingMode::Implied)),
        0x1E => Some(descriptor(0x1E, Mnemonic::ASL, 3, 7, AddressingMode::AbsoluteX)),
        0x21 => Some(descriptor(0x21, Mnemonic::AND, 2, 6, AddressingMode::IndirectX)),
        0x24 => Some(descriptor(0x24, Mnemonic::BIT, 2, 3, AddressingMode::ZeroPage)),
        0x25 => Some(descriptor(0x25, Mnemonic::AND, 2, 3, AddressingMode::ZeroPage)),
        0x29 => Some(descriptor(0x29, Mnemonic::AND, 2, 2, AddressingMode::Immediate)),
        0x2C => Some(descriptor(0x2C, Mnemonic::BIT, 3, 4, AddressingMode::Absolute)),
        0x2D => Some(descriptor(0x2D, Mnemonic::AND, 3, 4, AddressingMode::Absolute)),
        0x30 => Some(descriptor(0x30, Mnemonic::BMI, 2, 2, AddressingMode::Relative)),
        0x31 => Some(descriptor(0x31, Mnemonic::AND, 2, 5, AddressingMode::IndirectY)),
        0x35 => Some(descriptor(0x35, Mnemonic::AND, 2, 4, AddressingMode::ZeroPageX)),
        0x39 => Some(descriptor(0x39, Mnemonic::AND, 3, 4, AddressingMode::AbsoluteY)),
        0x3D => Some(descriptor(0x3D, Mnemonic::AND, 3, 4, AddressingMode::AbsoluteX)),
        0x41 => Some(descriptor(0x41, Mnemonic::EOR, 2, 6, AddressingMode::IndirectX)),
        0x45 => Some(descriptor(0x45, Mnemonic::EOR, 2, 3, AddressingMode::ZeroPage)),
        0x49 => Some(descriptor(0x49, Mnemonic::EOR, 2, 2, AddressingMode::Immediate)),
        0x4C => Some(descriptor(0x4C, Mnemonic::JMP, 3, 3, AddressingMode::Absolute)),
        0x4D => Some(descriptor(0x4D, Mnemonic::EOR, 3, 4, AddressingMode::Absolute)),
        0x50 => Some(descriptor(0x50, Mnemonic::BVC, 2, 2, AddressingMode::Relative)),
        0x51 => Some(descriptor(0x51, Mnemonic::EOR, 2, 5, AddressingMode::IndirectY)),
        0x55 => Some(descriptor(0x55, Mnemonic::EOR, 2, 4, AddressingMode::ZeroPageX)),
        0x58 => Some(descriptor(0x58, Mnemonic::CLI, 1, 2, AddressingMode::Implied)),
        0x59 => Some(descriptor(0x59, Mnemonic::EOR, 3, 4, AddressingMode::AbsoluteY)),
        0x5D => Some(descriptor(0x5D, Mnemonic::EOR, 3, 4, AddressingMode::AbsoluteX)),
        0x61 => Some(descriptor(0x61, Mnemonic::ADC, 2, 6, AddressingMode::IndirectX)),
        0x65 => Some(descriptor(0x65, Mnemonic::ADC, 2, 3, AddressingMode::ZeroPage)),
        0x69 => Some(descriptor(0x69, Mnemonic::ADC, 2, 2, AddressingMode::Immediate)),
        0x6C => Some(descriptor(0x6C, Mnemonic::JMP, 3, 5, AddressingMode::Indirect)),
        0x6D => Some(descriptor(0x6D, Mnemonic::ADC, 3, 4, AddressingMode::Absolute)),
        0x70 => Some(descriptor(0x70, Mnemonic::BVS, 2, 2, AddressingMode::Relative)),
        0x71 => Some(descriptor(0x71, Mnemonic::ADC, 2, 5, AddressingMode::IndirectY)),
        0x75 => Some(descriptor(0x75, Mnemonic::ADC, 2, 4, AddressingMode::ZeroPageX)),
        0x79 => Some(descriptor(0x79, Mnemonic::ADC, 3, 4, AddressingMode::AbsoluteY)),
        0x7D => Some(descriptor(0x7D, Mnemonic::ADC, 3, 4, AddressingMode::AbsoluteX)),
        0x81 => Some(descriptor(0x81, Mnemonic::STA, 2, 6, AddressingMode::IndirectX)),
        0x85 => Some(descriptor(0x85, Mnemonic::STA, 2, 3, AddressingMode::ZeroPage)),
        0x88 => Some(descriptor(0x88, Mnemonic::DEY, 1, 2, AddressingMode::Implied)),
        0x8D => Some(descriptor(0x8D, Mnemonic::STA, 3, 4, AddressingMode::Absolute)),
        0x90 => Some(descriptor(0x90, Mnemonic::BCC, 2, 2, AddressingMode::Relative)),
        0x91 => Some(descriptor(0x91, Mnemonic::STA, 2, 6, AddressingMode::IndirectY)),
        0x95 => Some(descriptor(0x95, Mnemonic::STA, 2, 4, AddressingMode::ZeroPageX)),
        0x99 => Some(descriptor(0x99, Mnemonic::STA, 3, 5, AddressingMode::AbsoluteY)),
        0x9D => Some(descriptor(0x9D, Mnemonic::STA, 3, 5, AddressingMode::AbsoluteX)),
        0xA1 => Some(descriptor(0xA1, Mnemonic::LDA, 2, 6, AddressingMode::IndirectX)),
        0xA5 => Some(descriptor(0xA5, Mnemonic::LDA, 2, 3, AddressingMode::ZeroPage)),
        0xA9 => Some(descriptor(0xA9, Mnemonic::LDA, 2, 2, AddressingMode::Immediate)),
        0xAA => Some(descriptor(0xAA, Mnemonic::TAX, 1, 2, AddressingMode::Implied)),
        0xAD => Some(descriptor(0xAD, Mnemonic::LDA, 3, 4, AddressingMode::Absolute)),
        0xB0 => Some(descriptor(0xB0, Mnemonic::BCS, 2, 2, AddressingMode::Relative)),
        0xB1 => Some(descriptor(0xB1, Mnemonic::LDA, 2, 5, AddressingMode::IndirectY)),
        0xB5 => Some(descriptor(0xB5, Mnemonic::LDA, 2, 4, AddressingMode::ZeroPageX)),
        0xB8 => Some(descriptor(0xB8, Mnemonic::CLV, 1, 2, AddressingMode::Implied)),
        0xB9 => Some(descriptor(0xB9, Mnemonic::LDA, 3, 4, AddressingMode::AbsoluteY)),
        0xBD => Some(descriptor(0xBD, Mnemonic::LDA, 3, 4, AddressingMode::AbsoluteX)),
        0xC0 => Some(descriptor(0xC0, Mnemonic::CPY, 2, 2, AddressingMode::Immediate)),
        0xC1 => Some(descriptor(0xC1, Mnemonic::CMP, 2, 6, AddressingMode::IndirectX)),
        0xC4 => Some(descriptor(0xC4, Mnemonic::CPY, 2, 3, AddressingMode::ZeroPage)),
        0xC5 => Some(descriptor(0xC5, Mnemonic::CMP, 2, 3, AddressingMode::ZeroPage)),
        0xC6 => Some(descriptor(0xC6, Mnemonic::DEC, 2, 5, AddressingMode::ZeroPage)),
        0xC8 => Some(descriptor(0xC8, Mnemonic::INY, 1, 2, AddressingMode::Implied)),
        0xC9 => Some(descriptor(0xC9, Mnemonic::CMP, 2, 2, AddressingMode::Immediate)),
        0xCA => Some(descriptor(0xCA, Mnemonic::DEX, 1, 2, AddressingMode::Implied)),
        0xCC => Some(descriptor(0xCC, Mnemonic::CPY, 3, 4, AddressingMode::Absolute)),
        0xCD => Some(descriptor(0xCD, Mnemonic::CMP, 3, 4, AddressingMode::Absolute)),
        0xCE => Some(descriptor(0xCE, Mnemonic::DEC, 3, 6, AddressingMode::Absolute)),
        0xD0 => Some(descriptor(0xD0, Mnemonic::BNE, 2, 2, AddressingMode::Relative)),
        0xD1 => Some(descriptor(0xD1, Mnemonic::CMP, 2, 5, AddressingMode::IndirectY)),
        0xD5 => Some(descriptor(0xD5, Mnemonic::CMP, 2, 4, AddressingMode::ZeroPageX)),
        0xD6 => Some(descriptor(0xD6, Mnemonic::DEC, 2, 6, AddressingMode::ZeroPageX)),
        0xD8 => Some(descriptor(0xD8, Mnemonic::CLD, 1, 2, AddressingMode::Implied)),
        0xD9 => Some(descriptor(0xD9, Mnemonic::CMP, 3, 4, AddressingMode::AbsoluteY)),
        0xDD => Some(descriptor(0xDD, Mnemonic::CMP, 3, 4, AddressingMode::AbsoluteX)),
        0xDE => Some(descriptor(0xDE, Mnemonic::DEC, 3, 7, AddressingMode::AbsoluteX)),
        0xE0 => Some(descriptor(0xE0, Mnemonic::CPX, 2, 2, AddressingMode::Immediate)),
        0xE4 => Some(descriptor(0xE4, Mnemonic::CPX, 2, 3, AddressingMode::ZeroPage)),
        0xE6 => Some(descriptor(0xE6, Mnemonic::INC, 2, 5, AddressingMode::ZeroPage)),
        0xE8 => Some(descriptor(0xE8, Mnemonic::INX, 1, 2, AddressingMode::Implied)),
        0xEC => Some(descriptor(0xEC, Mnemonic::CPX, 3, 4, AddressingMode::Absolute)),
        0xEE => Some(descriptor(0xEE, Mnemonic::INC, 3, 6, AddressingMode::Absolute)),
        0xF0 => Some(descriptor(0xF0, Mnemonic::BEQ, 2, 2, AddressingMode::Relative)),
        0xF6 => Some(descriptor(0xF6, Mnemonic::INC, 2, 6, AddressingMode::ZeroPageX)),
        0xFE => Some(descriptor(0xFE, Mnemonic::INC, 3, 7, AddressingMode::AbsoluteX)),
        _ => None,
    }
}

/// Every row of the table is keyed by the byte it is found under and is well formed.
pub proof fn lemma_decode_well_formed(code: u8)
    ensures
        decode(code) matches Some(op) ==> op.opcode == code && op.well_formed(),
{
}

/// Looks `code` up in the table. Every row found is keyed by `code`, so no byte has
/// two rows, and every row is well formed.
pub fn lookup(code: u8) -> (r: Option<OpCode>)
    ensures
        r == decode(code),
        r matches Some(op) ==> op.opcode == code && op.well_formed(),
{
    match code {
        0x00 => Some(OpCode::new(0x00, Mnemonic::BRK, 1, 7, AddressingMode::Implied)),
        0x06 => Some(OpCode::new(0x06, Mnemonic::ASL, 2, 5, AddressingMode::ZeroPage)),
        0x0A => Some(OpCode::new(0x0A, Mnemonic::ASL, 1, 2, AddressingMode::Accumulator)),
        0x0E => Some(OpCode::new(0x0E, Mnemonic::ASL, 3, 6, AddressingMode::Absolute)),
        0x10 => Some(OpCode::new(0x10, Mnemonic::BPL, 2, 2, AddressingMode::Relative)),
        0x16 => Some(OpCode::new(0x16, Mnemonic::ASL, 2, 5, AddressingMode::ZeroPageX)),
        0x18 => Some(OpCode::new(0x18, Mnemonic::CLC, 1, 2, AddressingMode::Implied)),
        0x1E => Some(OpCode::new(0x1E, Mnemonic::ASL, 3, 7, AddressingMode::AbsoluteX)),
        0x21 => Some(OpCode::new(0x21, Mnemonic::AND, 2, 6, AddressingMode::IndirectX)),
        0x24 => Some(OpCode::new(0x24, Mnemonic::BIT, 2, 3, AddressingMode::ZeroPage)),
        0x25 => Some(OpCode::new(0x25, Mnemonic::AND, 2, 3, AddressingMode::ZeroPage)),
        0x29 => Some(OpCode::new(0x29, Mnemonic::AND, 2, 2, AddressingMode::Immediate)),
        0x2C => Some(OpCode::new(0x2C, Mnemonic::BIT, 3, 4, AddressingMode::Absolute)),
        0x2D => Some(OpCode::new(0x2D, Mnemonic::AND, 3, 4, AddressingMode::Absolute)),
        0x30 => Some(OpCode::new(0x30, Mnemonic::BMI, 2, 2, AddressingMode::Relative)),
        0x31 => Some(OpCode::new(0x31, Mnemonic::AND, 2, 5, AddressingMode::IndirectY)),
        0x35 => Some(OpCode::new(0x35, Mnemonic::AND, 2, 4, AddressingMode::ZeroPageX)),
        0x39 => Some(OpCode::new(0x39, Mnemonic::AND, 3, 4, AddressingMode::AbsoluteY)),
        0x3D => Some(OpCode::new(0x3D, Mnemonic::AND, 3, 4, AddressingMode::AbsoluteX)),
        0x41 => Some(OpCode::new(0x41, Mnemonic::EOR, 2, 6, AddressingMode::IndirectX)),
        0x45 => Some(OpCode::new(0x45, Mnemonic::EOR, 2, 3, AddressingMode::ZeroPage)),
        0x49 => Some(OpCode::new(0x49, Mnemonic::EOR, 2, 2, AddressingMode::Immediate)),
        0x4C => Some(OpCode::new(0x4C, Mnemonic::JMP, 3, 3, AddressingMode::Absolute)),
        0x4D => Some(OpCode::new(0x4D, Mnemonic::EOR, 3, 4, AddressingMode::Absolute)),
        0x50 => Some(OpCode::new(0x50, Mnemonic::BVC, 2, 2, AddressingMode::Relative)),
        0x51 => Some(OpCode::new(0x51, Mnemonic::EOR, 2, 5, AddressingMode::IndirectY)),
        0x55 => Some(OpCode::new(0x55, Mnemonic::EOR, 2, 4, AddressingMode::ZeroPageX)),
        0x58 => Some(OpCode::new(0x58, Mnemonic::CLI, 1, 2, AddressingMode::Implied)),
        0x59 => Some(OpCode::new(0x59, Mnemonic::EOR, 3, 4, AddressingMode::AbsoluteY)),
        0x5D => Some(OpCode::new(0x5D, Mnemonic::EOR, 3, 4, AddressingMode::AbsoluteX)),
        0x61 => Some(OpCode::new(0x61, Mnemonic::ADC, 2, 6, AddressingMode::IndirectX)),
        0x65 => Some(OpCode::new(0x65, Mnemonic::ADC, 2, 3, AddressingMode::ZeroPage)),
        0x69 => Some(OpCode::new(0x69, Mnemonic::ADC, 2, 2, AddressingMode::Immediate)),
        0x6C => Some(OpCode::new(0x6C, Mnemonic::JMP, 3, 5, AddressingMode::Indirect)),
        0x6D => Some(OpCode::new(0x6D, Mnemonic::ADC, 3, 4, AddressingMode::Absolute)),
        0x70 => Some(OpCode::new(0x70, Mnemonic::BVS, 2, 2, AddressingMode::Relative)),
        0x71 => Some(OpCode::new(0x71, Mnemonic::ADC, 2, 5, AddressingMode::IndirectY)),
        0x75 => Some(OpCode::new(0x75, Mnemonic::ADC, 2, 4, AddressingMode::ZeroPageX)),
        0x79 => Some(OpCode::new(0x79, Mnemonic::ADC, 3, 4, AddressingMode::AbsoluteY)),
        0x7D => Some(OpCode::new(0x7D, Mnemonic::ADC, 3, 4, AddressingMode::AbsoluteX)),
        0x81 => Some(OpCode::new(0x81, Mnemonic::STA, 2, 6, AddressingMode::IndirectX)),
        0x85 => Some(OpCode::new(0x85, Mnemonic::STA, 2, 3, AddressingMode::ZeroPage)),
        0x88 => Some(OpCode::new(0x88, Mnemonic::DEY, 1, 2, AddressingMode::Implied)),
        0x8D => Some(OpCode::new(0x8D, Mnemonic::STA, 3, 4, AddressingMode::Absolute)),
        0x90 => Some(OpCode::new(0x90, Mnemonic::BCC, 2, 2, AddressingMode::Relative)),
        0x91 => Some(OpCode::new(0x91, Mnemonic::STA, 2, 6, AddressingMode::IndirectY)),
        0x95 => Some(OpCode::new(0x95, Mnemonic::STA, 2, 4, AddressingMode::ZeroPageX)),
        0x99 => Some(OpCode::new(0x99, Mnemonic::STA, 3, 5, AddressingMode::AbsoluteY)),
        0x9D => Some(OpCode::new(0x9D, Mnemonic::STA, 3, 5, AddressingMode::AbsoluteX)),
        0xA1 => Some(OpCode::new(0xA1, Mnemonic::LDA, 2, 6, AddressingMode::IndirectX)),
        0xA5 => Some(OpCode::new(0xA5, Mnemonic::LDA, 2, 3, AddressingMode::ZeroPage)),
        0xA9 => Some(OpCode::new(0xA9, Mnemonic::LDA, 2, 2, AddressingMode::Immediate)),
        0xAA => Some(OpCode::new(0xAA, Mnemonic::TAX, 1, 2, AddressingMode::Implied)),
        0xAD => Some(OpCode::new(0xAD, Mnemonic::LDA, 3, 4, AddressingMode::Absolute)),
        0xB0 => Some(OpCode::new(0xB0, Mnemonic::BCS, 2, 2, AddressingMode::Relative)),
        0xB1 => Some(OpCode::new(0xB1, Mnemonic::LDA, 2, 5, AddressingMode::IndirectY)),
        0xB5 => Some(OpCode::new(0xB5, Mnemonic::LDA, 2, 4, AddressingMode::ZeroPageX)),
        0xB8 => Some(OpCode::new(0xB8, Mnemonic::CLV, 1, 2, AddressingMode::Implied)),
        0xB9 => Some(OpCode::new(0xB9, Mnemonic::LDA, 3, 4, AddressingMode::AbsoluteY)),
        0xBD => Some(OpCode::new(0xBD, Mnemonic::LDA, 3, 4, AddressingMode::AbsoluteX)),
        0xC0 => Some(OpCode::new(0xC0, Mnemonic::CPY, 2, 2, AddressingMode::Immediate)),
        0xC1 => Some(OpCode::new(0xC1, Mnemonic::CMP, 2, 6, AddressingMode::IndirectX)),
        0xC4 => Some(OpCode::new(0xC4, Mnemonic::CPY, 2, 3, AddressingMode::ZeroPage)),
        0xC5 => Some(OpCode::new(0xC5, Mnemonic::CMP, 2, 3, AddressingMode::ZeroPage)),
        0xC6 => Some(OpCode::new(0xC6, Mnemonic::DEC, 2, 5, AddressingMode::ZeroPage)),
        0xC8 => Some(OpCode::new(0xC8, Mnemonic::INY, 1, 2, AddressingMode::Implied)),
        0xC9 => Some(OpCode::new(0xC9, Mnemonic::CMP, 2, 2, AddressingMode::Immediate)),
        0xCA => Some(OpCode::new(0xCA, Mnemonic::DEX, 1, 2, AddressingMode::Implied)),
        0xCC => Some(OpCode::new(0xCC, Mnemonic::CPY, 3, 4, AddressingMode::Absolute)),
        0xCD => Some(OpCode::new(0xCD, Mnemonic::CMP, 3, 4, AddressingMode::Absolute)),
        0xCE => Some(OpCode::new(0xCE, Mnemonic::DEC, 3, 6, AddressingMode::Absolute)),
        0xD0 => Some(OpCode::new(0xD0, Mnemonic::BNE, 2, 2, AddressingMode::Relative)),
        0xD1 => Some(OpCode::new(0xD1, Mnemonic::CMP, 2, 5, AddressingMode::IndirectY)),
        0xD5 => Some(OpCode::new(0xD5, Mnemonic::CMP, 2, 4, AddressingMode::ZeroPageX)),
        0xD6 => Some(OpCode::new(0xD6, Mnemonic::DEC, 2, 6, AddressingMode::ZeroPageX)),
        0xD8 => Some(OpCode::new(0xD8, Mnemonic::CLD, 1, 2, AddressingMode::Implied)),
        0xD9 => Some(OpCode::new(0xD9, Mnemonic::CMP, 3, 4, AddressingMode::AbsoluteY)),
        0xDD => Some(OpCode::new(0xDD, Mnemonic::CMP, 3, 4, AddressingMode::AbsoluteX)),
        0xDE => Some(OpCode::new(0xDE, Mnemonic::DEC, 3, 7, AddressingMode::AbsoluteX)),
        0xE0 => Some(OpCode::new(0xE0, Mnemonic::CPX, 2, 2, AddressingMode::Immediate)),
        0xE4 => Some(OpCode::new(0xE4, Mnemonic::CPX, 2, 3, AddressingMode::ZeroPage)),
        0xE6 => Some(OpCode::new(0xE6, Mnemonic::INC, 2, 5, AddressingMode::ZeroPage)),
        0xE8 => Some(OpCode::new(0xE8, Mnemonic::INX, 1, 2, AddressingMode::Implied)),
        0xEC => Some(OpCode::new(0xEC, Mnemonic::CPX, 3, 4, AddressingMode::Absolute)),
        0xEE => Some(OpCode::new(0xEE, Mnemonic::INC, 3, 6, AddressingMode::Absolute)),
        0xF0 => Some(OpCode::new(0xF0, Mnemonic::BEQ, 2, 2, AddressingMode::Relative)),
        0xF6 => Some(OpCode::new(0xF6, Mnemonic::INC, 2, 6, AddressingMode::ZeroPageX)),
        0xFE => Some(OpCode::new(0xFE, Mnemonic::INC, 3, 7, AddressingMode::AbsoluteX)),
        _ => None,
    }
}

} // verus!
