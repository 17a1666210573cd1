//! The machine as mathematics: a plain state value and the spec functions that say
//! what each instruction, one fetch-decode-execute step and a whole run do to it.
use vstd::prelude::*;

use crate::cpu::{AddressingMode, StepOutcome};
use crate::error::CPUError;
use crate::opcode::{decode, Mnemonic};

verus! {

/// Number of addressable bytes.
pub const MEMORY_SIZE: usize = 0x10000;

/// Status bit set when an addition carried out of bit 7, or a comparison found
/// the register not below the operand.
pub const CARRY: u8 = 0b0000_0001;

/// Status bit set when the last result byte was zero.
pub const ZERO: u8 = 0b0000_0010;

/// Interrupt-disable status bit; only ever cleared here.
pub const INTERRUPT_DISABLE: u8 = 0b0000_0100;

/// Decimal-mode status bit; only ever cleared here.
pub const DECIMAL: u8 = 0b0000_1000;

/// Status bit set when a signed addition left the range of `i8`.
pub const OVERFLOW: u8 = 0b0100_0000;

/// Status bit that copies bit 7 of the last result byte.
pub const NEGATIVE: u8 = 0b1000_0000;

/// Where `load` puts a program, and where execution of it starts.
pub const PROGRAM_START: u16 = 0x8000;

/// Address of the little-endian word that `reset` loads into the program counter.
pub const RESET_VECTOR: u16 = 0xFFFC;

/// Everything the interpreter holds: the registers, the status byte, the program
/// counter and the whole memory.
pub struct CpuState {
    pub a: u8,
    pub x: u8,
    pub y: u8,
    pub status: u8,
    pub pc: u16,
    pub mem: Seq<u8>,
}

impl CpuState {
    /// Memory covers exactly the 16-bit address space.
    pub open spec fn wf(self) -> bool {
        self.mem.len() == MEMORY_SIZE
    }

    /// The byte at `addr`.
    pub open spec fn read(self, addr: u16) -> u8 {
        self.mem[addr as int]
    }

    /// The little-endian word whose low byte is at `addr`; the high byte comes from
    /// the next address, wrapping from 0xFFFF to 0.
    pub open spec fn read_u16(self, addr: u16) -> u16 {
        word(self.read(addr), self.read(addr.wrapping_add(1)))
    }

    /// This state with `v` stored at `addr`.
    pub open spec fn write(self, addr: u16, v: u8) -> CpuState {
        CpuState { mem: self.mem.update(addr as int, v), ..self }
    }

    /// Whether status bit `f` is set.
    pub open spec fn flag(self, f: u8) -> bool {
        self.status & f != 0
    }
}

/// The 16-bit value with low byte `lo` and high byte `hi`.
pub open spec fn word(lo: u8, hi: u8) -> u16 {
    (lo as int + 256 * hi as int) as u16
}

/// Bit 7 of `v`, the sign of `v` read as a two's-complement byte.
pub open spec fn is_negative(v: u8) -> bool {
    v >= 0x80
}

/// `status` with bit `f` set when `on` holds and cleared otherwise.
pub open spec fn set_flag(status: u8, f: u8, on: bool) -> u8 {
    if on {
        status | f
    } else {
        status & !f
    }
}

/// `status` after the zero and negative flags were taken from the result byte `v`.
pub open spec fn with_zn(status: u8, v: u8) -> u8 {
    set_flag(set_flag(status, ZERO, v == 0), NEGATIVE, is_negative(v))
}

/// A freshly made interpreter: every register, the status and the program counter
/// zero, and memory filled with zeros.
pub open spec fn power_on() -> CpuState {
    CpuState { a: 0, x: 0, y: 0, status: 0, pc: 0, mem: Seq::new(MEMORY_SIZE as nat, |i: int| 0u8) }
}

/// `pc` moved by the displacement `d`, a two's-complement byte, wrapping at 0x10000.
pub open spec fn displaced(pc: u16, d: u8) -> u16 {
    let offset: int = if is_negative(d) { d as int - 256 } else { d as int };
    ((pc as int + offset) % 0x10000) as u16
}

/// Where the high byte of an indirect jump's target is read from: the address after
/// `ptr`, but within the page of `ptr`, as the real chip does it.
pub open spec fn indirect_high(ptr: u16) -> u16 {
    if ptr % 256 == 255 {
        (ptr - 255) as u16
    } else {
        (ptr + 1) as u16
    }
}

/// The effective address of an operand in `mode`, with the program counter of `s`
/// at the first operand byte; zero for modes without one.
pub open spec fn address_of(s: CpuState, mode: AddressingMode) -> u16 {
    match mode {
        AddressingMode::Immediate => s.pc,
        AddressingMode::ZeroPage => s.read(s.pc) as u16,
        AddressingMode::ZeroPageX => s.read(s.pc).wrapping_add(s.x) as u16,
        AddressingMode::ZeroPageY => s.read(s.pc).wrapping_add(s.y) as u16,
        AddressingMode::Absolute => s.read_u16(s.pc),
        AddressingMode::AbsoluteX => s.read_u16(s.pc).wrapping_add(s.x as u16),
        AddressingMode::AbsoluteY => s.read_u16(s.pc).wrapping_add(s.y as u16),
        AddressingMode::Indirect => {
            let ptr = s.read_u16(s.pc);
            word(s.read(ptr), s.read(indirect_high(ptr)))
        },
        AddressingMode::IndirectX => {
            let ptr = s.read(s.pc).wrapping_add(s.x);
            word(s.read(ptr as u16), s.read(ptr.wrapping_add(1) as u16))
        },
        AddressingMode::IndirectY => {
            let ptr = s.read(s.pc);
            word(s.read(ptr as u16), s.read(ptr.wrapping_add(1) as u16)).wrapping_add(s.y as u16)
        },
        _ => 0,
    }
}

/// The operand's address in `mode`, or `None` where the operand is not in memory.
pub open spec fn operand_address(s: CpuState, mode: AddressingMode) -> Option<u16> {
    if mode.has_address() {
        Some(address_of(s, mode))
    } else {
        None
    }
}

/// `s` with `v` in register A and the zero and negative flags taken from it.
pub open spec fn load_a(s: CpuState, v: u8) -> CpuState {
    CpuState { a: v, status: with_zn(s.status, v), ..s }
}

/// `s` with `v` in register X and the zero and negative flags taken from it.
pub open spec fn load_x(s: CpuState, v: u8) -> CpuState {
    CpuState { x: v, status: with_zn(s.status, v), ..s }
}

/// `s` with `v` in register Y and the zero and negative flags taken from it.
pub open spec fn load_y(s: CpuState, v: u8) -> CpuState {
    CpuState { y: v, status: with_zn(s.status, v), ..s }
}

/// `s` with `v` stored at `addr` and the zero and negative flags taken from it.
pub open spec fn store_zn(s: CpuState, addr: u16, v: u8) -> CpuState {
    CpuState { status: with_zn(s.status, v), ..s.write(addr, v) }
}

/// `v` shifted left by one, bit 7 dropped.
pub open spec fn shifted_left(v: u8) -> u8 {
    ((2 * v as int) % 256) as u8
}

/// ADC: A + M + carry as a 9-bit sum; carry out of bit 7, signed overflow when A and
/// M share a sign that the result does not.
pub open spec fn add_with_carry(s: CpuState, m: u8) -> CpuState {
    let sum = s.a as int + m as int + if s.flag(CARRY) { 1int } else { 0int };
    let r = (sum % 256) as u8;
    let overflow = is_negative(s.a) == is_negative(m) && is_negative(s.a) != is_negative(r);
    let status = set_flag(set_flag(s.status, CARRY, sum > 255), OVERFLOW, overflow);
    CpuState { a: r, status: with_zn(status, r), ..s }
}

/// CMP, CPX, CPY: carry when `reg` is not below `m`, zero and negative from `reg - m`.
pub open spec fn compare(s: CpuState, reg: u8, m: u8) -> CpuState {
    CpuState { status: with_zn(set_flag(s.status, CARRY, reg >= m), reg.wrapping_sub(m)), ..s }
}

/// BIT: zero when A and M share no set bit; overflow and negative copy bits 6 and 7 of M.
pub open spec fn bit_test(s: CpuState, m: u8) -> CpuState {
    let st = set_flag(s.status, ZERO, s.a & m == 0);
    let st = set_flag(st, OVERFLOW, m & OVERFLOW != 0);
    CpuState { status: set_flag(st, NEGATIVE, is_negative(m)), ..s }
}

/// ASL: carry takes bit 7 of the operand, which is shifted left.
pub open spec fn shift_left(s: CpuState, mode: AddressingMode) -> CpuState {
    if mode is Accumulator {
        let v = s.a;
        load_a(CpuState { status: set_flag(s.status, CARRY, is_negative(v)), ..s }, shifted_left(v))
    } else {
        let addr = address_of(s, mode);
        let v = s.read(addr);
        store_zn(CpuState { status: set_flag(s.status, CARRY, is_negative(v)), ..s }, addr, shifted_left(v))
    }
}

/// `s` with status bit `f` cleared.
pub open spec fn clear(s: CpuState, f: u8) -> CpuState {
    CpuState { status: set_flag(s.status, f, false), ..s }
}

/// Whether branch instruction `m` is taken under `status`.
pub open spec fn branch_taken(m: Mnemonic, status: u8) -> bool {
    match m {
        Mnemonic::BCC => status & CARRY == 0,
        Mnemonic::BCS => status & CARRY != 0,
        Mnemonic::BEQ => status & ZERO != 0,
        Mnemonic::BNE => status & ZERO == 0,
        Mnemonic::BMI => status & NEGATIVE != 0,
        Mnemonic::BPL => status & NEGATIVE == 0,
        Mnemonic::BVC => status & OVERFLOW == 0,
        Mnemonic::BVS => status & OVERFLOW != 0,
        _ => false,
    }
}

/// A branch: the displacement byte is consumed, then the program counter moves by it
/// when `taken`.
pub open spec fn branch(s: CpuState, taken: bool) -> CpuState {
    let next = s.pc.wrapping_add(1);
    CpuState { pc: if taken { displaced(next, s.read(s.pc)) } else { next }, ..s }
}

/// Whether `m` sets the program counter itself, so the step does not move it past
/// the operand bytes afterwards.
pub open spec fn moves_pc_itself(m: Mnemonic) -> bool {
    m is JMP || m is BCC || m is BCS || m is BEQ || m is BMI || m is BNE || m is BPL || m is BVC
        || m is BVS
}

/// What instruction `m` in `mode` does to `s`, whose program counter is at the
/// first byte after the opcode.
pub open spec fn execute(s: CpuState, m: Mnemonic, mode: AddressingMode) -> CpuState {
    let addr = address_of(s, mode);
    let v = s.read(addr);
    match m {
        Mnemonic::LDA => load_a(s, v),
        Mnemonic::STA => s.write(addr, s.a),
        Mnemonic::TAX => load_x(s, s.a),
        Mnemonic::INX => load_x(s, s.x.wrapping_add(1)),
        Mnemonic::INY => load_y(s, s.y.wrapping_add(1)),
        Mnemonic::DEX => load_x(s, s.x.wrapping_sub(1)),
        Mnemonic::DEY => load_y(s, s.y.wrapping_sub(1)),
        Mnemonic::INC => store_zn(s, addr, v.wrapping_add(1)),
        Mnemonic::DEC => store_zn(s, addr, v.wrapping_sub(1)),
        Mnemonic::ADC => add_with_carry(s, v),
        Mnemonic::AND => load_a(s, s.a & v),
        Mnemonic::EOR => load_a(s, s.a ^ v),
        Mnemonic::ASL => shift_left(s, mode),
        Mnemonic::BIT => bit_test(s, v),
        Mnemonic::CMP => compare(s, s.a, v),
        Mnemonic::CPX => compare(s, s.x, v),
        Mnemonic::CPY => compare(s, s.y, v),
        Mnemonic::CLC => clear(s, CARRY),
        Mnemonic::CLD => clear(s, DECIMAL),
        Mnemonic::CLI => clear(s, INTERRUPT_DISABLE),
        Mnemonic::CLV => clear(s, OVERFLOW),
        Mnemonic::JMP => CpuState { pc: addr, ..s },
        Mnemonic::BRK => s,
        _ => branch(s, branch_taken(m, s.status)),
    }
}

/// One fetch-decode-execute step from `s`: the state after it and how it ended.
/// The opcode byte is consumed first; an unknown byte faults, `BRK` halts, any other
/// instruction runs and, unless it set the program counter itself, the counter moves
/// past its operand bytes.
pub open spec fn next(s: CpuState) -> (CpuState, Result<StepOutcome, CPUError>) {
    let code = s.read(s.pc);
    let fetched = CpuState { pc: s.pc.wrapping_add(1), ..s };
    match decode(code) {
        None => (fetched, Err(CPUError::UnknownOpcode(code))),
        Some(op) => if op.mnemonic is BRK {
            (fetched, Ok(StepOutcome::Halted))
        } else {
            let t = execute(fetched, op.mnemonic, op.addressing_mode);
            if moves_pc_itself(op.mnemonic) {
                (t, Ok(StepOutcome::Running))
            } else {
                (CpuState { pc: t.pc.wrapping_add((op.bytes - 1) as u16), ..t }, Ok(StepOutcome::Running))
            }
        },
    }
}

/// At most `fuel` steps from `s`, stopping at the first that halts or faults: the
/// state then and how the last step ended (`Running` when none was taken).
pub open spec fn run_for(s: CpuState, fuel: nat) -> (CpuState, Result<StepOutcome, CPUError>)
    decreases fuel,
{
    if fuel == 0 {
        (s, Ok(StepOutcome::Running))
    } else {
        let (t, r) = next(s);
        if r == Ok::<StepOutcome, CPUError>(StepOutcome::Running) {
            run_for(t, (fuel - 1) as nat)
        } else {
            (t, r)
        }
    }
}

/// How a run from `s` that returned `r` left the machine in `t`: `Ok` when some number
/// of steps reached `BRK`, an error other than the step limit when some number of
/// steps reached that fault, and the step limit when `u64::MAX` steps all went on.
pub open spec fn run_ends(s: CpuState, t: CpuState, r: Result<(), CPUError>) -> bool {
    match r {
        Ok(()) => exists|n: nat| #[trigger] run_for(s, n) == (t, Ok::<StepOutcome, CPUError>(StepOutcome::Halted)),
        Err(CPUError::StepLimitReached) => run_for(s, u64::MAX as nat) == (t, Ok::<StepOutcome, CPUError>(StepOutcome::Running)),
        Err(e) => exists|n: nat| #[trigger] run_for(s, n) == (t, Err::<StepOutcome, CPUError>(e)),
    }
}

/// After `n` steps that all went on, step `n + 1` is one `next` from where they left off.
pub proof fn lemma_run_for_extend(s: CpuState, n: nat)
    requires
        run_for(s, n).1 == Ok::<StepOutcome, CPUError>(StepOutcome::Running),
    ensures
        run_for(s, n + 1) == next(run_for(s, n).0),
    decreases n,
{
    if n == 0 {
        assert(run_for(next(s).0, 0) == (next(s).0, Ok::<StepOutcome, CPUError>(StepOutcome::Running)));
    } else {
        lemma_run_for_extend(next(s).0, (n - 1) as nat);
    }
}

/// `s` after `program` was copied to `PROGRAM_START` and the program counter set there.
pub open spec fn loaded(s: CpuState, program: Seq<u8>) -> CpuState {
    let start = PROGRAM_START as int;
    CpuState {
        pc: PROGRAM_START,
        mem: s.mem.subrange(0, start) + program + s.mem.subrange(start + program.len(), MEMORY_SIZE as int),
        ..s
    }
}

/// `s` after a reset: A, X and the status zero, the program counter from the reset vector.
pub open spec fn after_reset(s: CpuState) -> CpuState {
    CpuState { a: 0, x: 0, status: 0, pc: s.read_u16(RESET_VECTOR), ..s }
}

} // verus!
