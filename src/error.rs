//! The failures a run of the interpreter reports.
use vstd::prelude::*;
use vstd::string::*;

use crate::cpu::AddressingMode;

verus! {

/// Why a run of the interpreter stopped without reaching `BRK`.
#[derive(Debug, PartialEq, Eq)]
pub enum CPUError {
    /// The fetched byte has no entry in the opcode table.
    UnknownOpcode(u8),
    /// The opcode is in the table but no handler is wired for its mnemonic. Every
    /// mnemonic of the table has a handler, so `run` does not report this.
    UnimplementedInstruction(String),
    /// An operand was resolved in a mode that has none. No row of the table has such
    /// a mode, so `run` does not report this.
    InvalidAddressingMode(AddressingMode),
    /// `run` executed `u64::MAX` instructions without reaching `BRK` or a fault.
    StepLimitReached,
}

/// The name of `mode`, as written in the source.
pub open spec fn mode_name(mode: AddressingMode) -> Seq<char> {
    match mode {
            AddressingMode::Immediate => "Immediate"@,
            AddressingMode::ZeroPage => "ZeroPage"@,
            AddressingMode::ZeroPageX => "ZeroPageX"@,
            AddressingMode::ZeroPageY => "ZeroPageY"@,
            AddressingMode::Absolute => "Absolute"@,
            AddressingMode::AbsoluteX => "AbsoluteX"@,
            AddressingMode::AbsoluteY => "AbsoluteY"@,
            AddressingMode::Indirect => "Indirect"@,
            AddressingMode::IndirectX => "IndirectX"@,
            AddressingMode::IndirectY => "IndirectY"@,
            AddressingMode::Implied => "Implied"@,
            AddressingMode::Accumulator => "Accumulator"@,
            AddressingMode::Relative => "Relative"@,
            AddressingMode::NoneAddressing => "NoneAddressing"@,
    }
}

/// The hexadecimal digit, upper case, of `n` below 16.
pub open spec fn hex_digit(n: u8) -> Seq<char> {
    "0123456789ABCDEF"@.subrange(n as int, n as int + 1)
}

/// The text that describes `e`.
pub open spec fn message_of(e: CPUError) -> Seq<char> {
    match e {
        CPUError::UnknownOpcode(code) => "unknown opcode: 0x"@ + hex_digit(code / 16) + hex_digit(
            code % 16,
        ),
        CPUError::UnimplementedInstruction(name) => "CPU instruction "@ + name@
            + " not implemented"@,
        CPUError::InvalidAddressingMode(mode) => "addressing mode "@ + mode_name(mode)
            + " is not supported"@,
        CPUError::StepLimitReached => "step limit reached"@,
    }
}

impl AddressingMode {
    /// The name of this mode, as written in the source.
    pub fn name(&self) -> (r: &'static str)
        ensures
            r@ == mode_name(*self),
    {
        match self {
            AddressingMode::Immediate => "Immediate",
            AddressingMode::ZeroPage => "ZeroPage",
            AddressingMode::ZeroPageX => "ZeroPageX",
            AddressingMode::ZeroPageY => "ZeroPageY",
            AddressingMode::Absolute => "Absolute",
            AddressingMode::AbsoluteX => "AbsoluteX",
            AddressingMode::AbsoluteY => "AbsoluteY",
            AddressingMode::Indirect => "Indirect",
            AddressingMode::IndirectX => "IndirectX",
            AddressingMode::IndirectY => "IndirectY",
            AddressingMode::Implied => "Implied",
            AddressingMode::Accumulator => "Accumulator",
            AddressingMode::Relative => "Relative",
            AddressingMode::NoneAddressing => "NoneAddressing",
        }
    }
}

/// The hexadecimal digit of `n`.
fn hex_digit_str(n: u8) -> (r: &'static str)
    requires
        n < 16,
    ensures
        r@ == hex_digit(n),
{
    let digits = "0123456789ABCDEF";
    proof {
        reveal_strlit("0123456789ABCDEF");
    }
    digits.substring_char(n as usize, n as usize + 1)
}

impl CPUError {
    /// The text that describes this error.
    pub fn message(&self) -> (r: String)
        ensures
            r@ == message_of(*self),
    {
        match self {
            CPUError::UnknownOpcode(code) => {
                let mut text = String::from_str("unknown opcode: 0x");
                text.append(hex_digit_str(*code / 16));
                text.append(hex_digit_str(*code % 16));
                text
            },
            CPUError::UnimplementedInstruction(name) => {
                let mut text = String::from_str("CPU instruction ");
                text.append(name.as_str());
                text.append(" not implemented");
                text
            },
            CPUError::InvalidAddressingMode(mode) => {
                let mut text = String::from_str("addressing mode ");
                text.append(mode.name());
                text.append(" is not supported");
                text
            },
            CPUError::StepLimitReached => String::from_str("step limit reached"),
        }
    }
}

} // verus!
