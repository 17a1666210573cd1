//! Laws of the machine model, proved over the spec functions that the interpreter's
//! contracts use.
use vstd::prelude::*;

use crate::cpu::{AddressingMode, StepOutcome};
use crate::error::CPUError;
use crate::model::{
    address_of, branch_taken, displaced, execute, next, with_zn, word, CpuState, NEGATIVE, ZERO,
};
use crate::opcode::{decode, lemma_decode_well_formed, Mnemonic};

verus! {

/// Taking the zero and negative flags from a result byte `v` sets the zero flag
/// exactly when `v` is 0, sets the negative flag exactly when bit 7 of `v` is 1, and
/// leaves every other status bit as it was. Bit 7 is set exactly in the bytes from
/// 0x80 up.
pub proof fn lemma_zero_negative_flags(status: u8, v: u8)
    ensures
        with_zn(status, v) & ZERO != 0 <==> v == 0,
        with_zn(status, v) & NEGATIVE != 0 <==> v & 0x80 != 0,
        v & 0x80 != 0 <==> v >= 0x80,
        with_zn(status, v) & !(ZERO | NEGATIVE) == status & !(ZERO | NEGATIVE),
{
    assert(with_zn(status, v) & ZERO != 0 <==> v == 0) by (bit_vector);
    assert(with_zn(status, v) & NEGATIVE != 0 <==> v & 0x80 != 0) by (bit_vector);
    assert(v & 0x80 != 0 <==> v >= 0x80) by (bit_vector);
    assert(with_zn(status, v) & !(ZERO | NEGATIVE) == status & !(ZERO | NEGATIVE)) by (bit_vector);
}

/// Incrementing wraps: INX and INY take 0xFF to 0, and so does INC on a byte in
/// memory, each with the zero flag set.
pub proof fn lemma_increment_wraps(s: CpuState, mode: AddressingMode)
    requires
        s.wf(),
        mode.suits(Mnemonic::INC),
    ensures
        s.x == 0xFF ==> execute(s, Mnemonic::INX, AddressingMode::Implied).x == 0
            && execute(s, Mnemonic::INX, AddressingMode::Implied).flag(ZERO),
        s.y == 0xFF ==> execute(s, Mnemonic::INY, AddressingMode::Implied).y == 0
            && execute(s, Mnemonic::INY, AddressingMode::Implied).flag(ZERO),
        ({
            let addr = address_of(s, mode);
            s.read(addr) == 0xFF ==> execute(s, Mnemonic::INC, mode).read(addr) == 0
                && execute(s, Mnemonic::INC, mode).flag(ZERO)
        }),
{
    lemma_zero_negative_flags(s.status, 0);
}

/// Decrementing wraps: DEX and DEY take 0 to 0xFF, and so does DEC on a byte in
/// memory, each with the negative flag set.
pub proof fn lemma_decrement_wraps(s: CpuState, mode: AddressingMode)
    requires
        s.wf(),
        mode.suits(Mnemonic::DEC),
    ensures
        s.x == 0 ==> execute(s, Mnemonic::DEX, AddressingMode::Implied).x == 0xFF
            && execute(s, Mnemonic::DEX, AddressingMode::Implied).flag(NEGATIVE),
        s.y == 0 ==> execute(s, Mnemonic::DEY, AddressingMode::Implied).y == 0xFF
            && execute(s, Mnemonic::DEY, AddressingMode::Implied).flag(NEGATIVE),
        ({
            let addr = address_of(s, mode);
            s.read(addr) == 0 ==> execute(s, Mnemonic::DEC, mode).read(addr) == 0xFF
                && execute(s, Mnemonic::DEC, mode).flag(NEGATIVE)
        }),
{
    lemma_zero_negative_flags(s.status, 0xFF);
}

/// A branch's displacement counts from the address after its operand byte: from
/// `pc`, a branch that is taken lands at `pc + 2` moved by the displacement read as a
/// signed byte, one that is not lands at `pc + 2`. Nothing else changes.
pub proof fn lemma_branch_target(s: CpuState)
    requires
        s.wf(),
        decode(s.read(s.pc)) matches Some(op) && op.addressing_mode is Relative,
    ensures
        ({
            let m = decode(s.read(s.pc))->Some_0.mnemonic;
            let after = s.pc.wrapping_add(2);
            let pc = if branch_taken(m, s.status) {
                displaced(after, s.read(s.pc.wrapping_add(1)))
            } else {
                after
            };
            next(s) == (CpuState { pc, ..s }, Ok::<StepOutcome, CPUError>(StepOutcome::Running))
        }),
{
    lemma_decode_well_formed(s.read(s.pc));
}

/// The low and high bytes of `v` make `v` again.
proof fn lemma_word_split(v: u16)
    ensures
        word((v % 256) as u8, (v / 256) as u8) == v,
{
}

/// Storing `value` at `target` and the address `target` at zero-page location `zp`,
/// then executing LDA (indirect,X) whose operand plus X selects `zp`, loads `value`
/// into A.
pub proof fn lemma_indirect_x_round_trip(s: CpuState, zp: u8, target: u16, value: u8)
    requires
        s.wf(),
        target != zp as u16,
        target != zp.wrapping_add(1) as u16,
    ensures
        ({
            let t = s.write(zp as u16, (target % 256) as u8).write(
                zp.wrapping_add(1) as u16,
                (target / 256) as u8,
            ).write(target, value);
            t.read(t.pc) == 0xA1 && t.read(t.pc.wrapping_add(1)).wrapping_add(t.x) == zp
                ==> next(t).0.a == value
        }),
{
    lemma_word_split(target);
}

/// Storing `value` at `base + Y` and the address `base` at zero-page location `zp`,
/// then executing LDA (indirect),Y whose operand is `zp`, loads `value` into A.
pub proof fn lemma_indirect_y_round_trip(s: CpuState, zp: u8, base: u16, value: u8)
    requires
        s.wf(),
        base.wrapping_add(s.y as u16) != zp as u16,
        base.wrapping_add(s.y as u16) != zp.wrapping_add(1) as u16,
    ensures
        ({
            let target = base.wrapping_add(s.y as u16);
            let t = s.write(zp as u16, (base % 256) as u8).write(
                zp.wrapping_add(1) as u16,
                (base / 256) as u8,
            ).write(target, value);
            t.read(t.pc) == 0xB1 && t.read(t.pc.wrapping_add(1)) == zp ==> next(t).0.a == value
        }),
{
    lemma_word_split(base);
}

} // verus!
