use vstd::prelude::*;

use crate::error::CPUError;
use crate::model::{
    address_of, after_reset, branch, compare, execute, lemma_run_for_extend, loaded,
    moves_pc_itself, next, operand_address, power_on, run_ends, run_for, set_flag, with_zn, word,
    CpuState, CARRY, DECIMAL, INTERRUPT_DISABLE, MEMORY_SIZE, NEGATIVE, OVERFLOW, PROGRAM_START,
    RESET_VECTOR, ZERO,
};
use crate::opcode::{lookup, Mnemonic};

verus! {

/// How an instruction finds its operand.
#[derive(Debug, Clone, Copy, PartialEq, Eq, Structural)]
pub enum AddressingMode {
    /// The operand is the byte after the opcode.
    Immediate,
    /// The operand byte is a zero-page address.
    ZeroPage,
    /// Zero-page address plus X, wrapping within the zero page.
    ZeroPageX,
    /// Zero-page address plus Y, wrapping within the zero page.
    ZeroPageY,
    /// The two operand bytes are a little-endian address.
    Absolute,
    /// Absolute address plus X, wrapping at 0x10000.
    AbsoluteX,
    /// Absolute address plus Y, wrapping at 0x10000.
    AbsoluteY,
    /// The two operand bytes address a little-endian pointer to the target (JMP).
    Indirect,
    /// Operand byte plus X is a zero-page location holding the target address.
    IndirectX,
    /// Operand byte is a zero-page location holding a base address; Y is added to it.
    IndirectY,
    /// No operand.
    Implied,
    /// The operand is register A.
    Accumulator,
    /// The operand byte is a signed branch displacement.
    Relative,
    /// Marks a table row without a usable mode; no row of the table has it.
    NoneAddressing,
}

impl AddressingMode {
    /// Whether the operand of this mode is a location in memory.
    pub open spec fn has_address(self) -> bool {
        !(self is Implied || self is Accumulator || self is Relative || self is NoneAddressing)
    }

    /// Number of operand bytes that follow the opcode.
    pub open spec fn operand_len(self) -> u8 {
        match self {
            AddressingMode::Implied | AddressingMode::Accumulator | AddressingMode::NoneAddressing => 0,
            AddressingMode::Absolute | AddressingMode::AbsoluteX | AddressingMode::AbsoluteY
            | AddressingMode::Indirect => 2,
            _ => 1,
        }
    }

    /// Whether an instruction `m` can be executed with this mode.
    pub open spec fn suits(self, m: Mnemonic) -> bool {
        match m {
            Mnemonic::ASL => self is Accumulator || self.has_address(),
            Mnemonic::JMP => self is Absolute || self is Indirect,
            Mnemonic::BCC | Mnemonic::BCS | Mnemonic::BEQ | Mnemonic::BMI | Mnemonic::BNE
            | Mnemonic::BPL | Mnemonic::BVC | Mnemonic::BVS => self is Relative,
            Mnemonic::BRK | Mnemonic::CLC | Mnemonic::CLD | Mnemonic::CLI | Mnemonic::CLV
            | Mnemonic::DEX | Mnemonic::DEY | Mnemonic::INX | Mnemonic::INY
            | Mnemonic::TAX => self is Implied,
            _ => self.has_address(),
        }
    }
}

/// How an executed instruction left the machine.
#[derive(Debug, Clone, Copy, PartialEq, Eq, Structural)]
pub enum StepOutcome {
    /// Execution goes on with the next instruction.
    Running,
    /// `BRK` was executed: the program ended normally.
    Halted,
}

/// The interpreter: three 8-bit registers, the status byte, the program counter and
/// 64 KiB of flat memory.
pub struct CPU {
    pub register_a: u8,
    pub register_x: u8,
    pub register_y: u8,
    pub status: u8,
    pub program_counter: u16,
    memory: [u8; MEMORY_SIZE],
}

impl View for CPU {
    type V = CpuState;

    /// The registers, status and program counter as they are in the public fields,
    /// and the bytes of memory.
    closed spec fn view(&self) -> CpuState {
        CpuState {
            a: self.register_a,
            x: self.register_x,
            y: self.register_y,
            status: self.status,
            pc: self.program_counter,
            mem: self.memory@,
        }
    }
}

impl CPU {
    /// Memory always covers the whole 16-bit address space.
    pub proof fn lemma_view_wf(&self)
        ensures
            self@.wf(),
    {
    }

    /// An interpreter with every register, the status and the program counter at
    /// zero, and memory zero-filled.
    pub fn new() -> (r: CPU)
        ensures
            r@ == power_on(),
    {
        let r = CPU {
            register_a: 0,
            register_x: 0,
            register_y: 0,
            status: 0,
            program_counter: 0,
            memory: [0u8; MEMORY_SIZE],
        };
        assert(r@.mem =~= power_on().mem);
        r
    }

    /// The byte at `addr`.
    pub fn mem_read(&self, addr: u16) -> (r: u8)
        ensures
            r == self@.read(addr),
    {
        self.memory[addr as usize]
    }

    /// Stores `data` at `addr`.
    pub fn mem_write(&mut self, addr: u16, data: u8)
        ensures
            final(self)@ == old(self)@.write(addr, data),
    {
        self.memory[addr as usize] = data;
        assert(self@.mem =~= old(self)@.write(addr, data).mem);
    }

    /// Zeroes A, X and the status, and loads the program counter from the reset vector.
    pub fn reset(&mut self)
        ensures
            final(self)@ == after_reset(old(self)@),
    {
        self.register_a = 0;
        self.register_x = 0;
        self.status = 0;
        self.program_counter = self.mem_read_u16(RESET_VECTOR);
    }

    /// Copies `program` into memory from `PROGRAM_START` on and points the program
    /// counter there. The program must fit below the end of memory.
    pub fn load(&mut self, program: Vec<u8>)
        requires
            program.len() <= MEMORY_SIZE - PROGRAM_START as usize,
        ensures
            final(self)@ == loaded(old(self)@, program@),
    {
        let ghost s0 = self@;
        let start = PROGRAM_START as usize;
        let mut i: usize = 0;
        while i < program.len()
            invariant
                i <= program.len() <= MEMORY_SIZE - start,
                start == PROGRAM_START,
                self@ == (CpuState { mem: self@.mem, ..s0 }),
                self@.mem.len() == MEMORY_SIZE,
                forall|j: int|
                    0 <= j < MEMORY_SIZE ==> #[trigger] self@.mem[j] == if start <= j < start + i {
                        program@[j - start]
                    } else {
                        s0.mem[j]
                    },
            decreases program.len() - i,
        {
            self.memory[start + i] = program[i];
            i = i + 1;
        }
        self.program_counter = PROGRAM_START;
        assert(self@.mem =~= loaded(s0, program@).mem);
    }

    /// Executes one instruction: fetches the opcode byte, looks it up and runs it.
    /// An unknown byte is reported as `UnknownOpcode`; `BRK` reports `Halted`.
    pub fn step(&mut self) -> (r: Result<StepOutcome, CPUError>)
        ensures
            (final(self)@, r) == next(old(self)@),
    {
        let code = self.mem_read(self.program_counter);
        self.program_counter = self.program_counter.wrapping_add(1);
        let op = match lookup(code) {
            Some(op) => op,
            None => return Err(CPUError::UnknownOpcode(code)),
        };
        let mode = op.addressing_mode;
        match op.mnemonic {
            Mnemonic::BRK => return Ok(StepOutcome::Halted),
            Mnemonic::LDA => self.lda(&mode),
            Mnemonic::STA => self.sta(&mode),
            Mnemonic::ADC => self.adc(&mode),
            Mnemonic::AND => self.and(&mode),
            Mnemonic::ASL => self.asl(&mode),
            Mnemonic::BCC => self.bcc(),
            Mnemonic::BCS => self.bcs(),
            Mnemonic::BEQ => self.beq(),
            Mnemonic::BIT => self.bit(&mode),
            Mnemonic::BMI => self.bmi(),
            Mnemonic::BNE => self.bne(),
            Mnemonic::BPL => self.bpl(),
            Mnemonic::BVC => self.bvc(),
            Mnemonic::BVS => self.bvs(),
            Mnemonic::CLC => self.set_status_flag(CARRY, false),
            Mnemonic::CLD => self.set_status_flag(DECIMAL, false),
            Mnemonic::CLI => self.set_status_flag(INTERRUPT_DISABLE, false),
            Mnemonic::CLV => self.set_status_flag(OVERFLOW, false),
            Mnemonic::CMP => self.cmp(&mode),
            Mnemonic::CPX => self.cpx(&mode),
            Mnemonic::CPY => self.cpy(&mode),
            Mnemonic::DEC => self.dec(&mode),
            Mnemonic::DEX => self.dex(),
            Mnemonic::DEY => self.dey(),
            Mnemonic::EOR => self.eor(&mode),
            Mnemonic::INC => self.inc(&mode),
            Mnemonic::INX => self.inx(),
            Mnemonic::INY => self.iny(),
            Mnemonic::JMP => self.jmp(&mode),
            Mnemonic::TAX => self.tax(),
        }
        if !sets_program_counter(op.mnemonic) {
            self.program_counter = self.program_counter.wrapping_add((op.bytes - 1) as u16);
        }
        Ok(StepOutcome::Running)
    }

    /// Executes instructions until `BRK` (`Ok`) or an unknown opcode (its error). A
    /// program that does neither is stopped after `u64::MAX` instructions with
    /// `StepLimitReached`.
    pub fn run(&mut self) -> (r: Result<(), CPUError>)
        ensures
            run_ends(old(self)@, final(self)@, r),
    {
        let ghost start = self@;
        let mut steps: u64 = 0;
        while steps < u64::MAX
            invariant
                start == old(self)@,
                run_for(start, steps as nat) == (self@, Ok::<StepOutcome, CPUError>(StepOutcome::Running)),
            decreases u64::MAX - steps,
        {
            proof {
                lemma_run_for_extend(start, steps as nat);
            }
            match self.step() {
                Ok(StepOutcome::Running) => {},
                Ok(StepOutcome::Halted) => {
                    assert(run_for(start, (steps + 1) as nat) == (self@, Ok::<StepOutcome, CPUError>(StepOutcome::Halted)));
                    return Ok(());
                },
                Err(e) => {
                    assert(run_for(start, (steps + 1) as nat) == (self@, Err::<StepOutcome, CPUError>(e)));
                    return Err(e);
                },
            }
            steps = steps + 1;
        }
        Err(CPUError::StepLimitReached)
    }

    /// `load` followed by `run`, with its result.
    pub fn load_and_run(&mut self, program: Vec<u8>) -> (r: Result<(), CPUError>)
        requires
            program.len() <= MEMORY_SIZE - PROGRAM_START as usize,
        ensures
            run_ends(loaded(old(self)@, program@), final(self)@, r),
    {
        self.load(program);
        self.run()
    }

    /// The little-endian word whose low byte is at `pos`.
    fn mem_read_u16(&self, pos: u16) -> (r: u16)
        ensures
            r == self@.read_u16(pos),
    {
        let lo = self.mem_read(pos);
        let hi = self.mem_read(pos.wrapping_add(1));
        join(lo, hi)
    }

    /// Resolves the operand of `mode`, the program counter being at the first operand
    /// byte: its address, or `None` for the modes whose operand is not in memory.
    fn get_operand_address(&self, mode: &AddressingMode) -> (r: Option<u16>)
        ensures
            r == operand_address(self@, *mode),
    {
        let pc = self.program_counter;
        match mode {
            AddressingMode::Immediate => Some(pc),
            AddressingMode::ZeroPage => Some(self.mem_read(pc) as u16),
            AddressingMode::ZeroPageX => Some(self.mem_read(pc).wrapping_add(self.register_x) as u16),
            AddressingMode::ZeroPageY => Some(self.mem_read(pc).wrapping_add(self.register_y) as u16),
            AddressingMode::Absolute => Some(self.mem_read_u16(pc)),
            AddressingMode::AbsoluteX => {
                Some(self.mem_read_u16(pc).wrapping_add(self.register_x as u16))
            },
            AddressingMode::AbsoluteY => {
                Some(self.mem_read_u16(pc).wrapping_add(self.register_y as u16))
            },
            AddressingMode::Indirect => {
                let ptr = self.mem_read_u16(pc);
                // the high byte comes from the same page, as on the real chip
                let hi_addr = if ptr % 256 == 255 { ptr - 255 } else { ptr + 1 };
                Some(join(self.mem_read(ptr), self.mem_read(hi_addr)))
            },
            AddressingMode::IndirectX => {
                let ptr = self.mem_read(pc).wrapping_add(self.register_x);
                let lo = self.mem_read(ptr as u16);
                let hi = self.mem_read(ptr.wrapping_add(1) as u16);
                Some(join(lo, hi))
            },
            AddressingMode::IndirectY => {
                let ptr = self.mem_read(pc);
                let lo = self.mem_read(ptr as u16);
                let hi = self.mem_read(ptr.wrapping_add(1) as u16);
                Some(join(lo, hi).wrapping_add(self.register_y as u16))
            },
            AddressingMode::Accumulator
            | AddressingMode::Relative
            | AddressingMode::Implied
            | AddressingMode::NoneAddressing => None,
        }
    }

    /// Sets status bit `f` when `on` holds and clears it otherwise.
    fn set_status_flag(&mut self, f: u8, on: bool)
        ensures
            final(self)@ == (CpuState { status: set_flag(old(self)@.status, f, on), ..old(self)@ }),
    {
        if on {
            self.status = self.status | f;
        } else {
            self.status = self.status & !f;
        }
    }

    /// Takes the zero and negative flags from `result`.
    fn update_zero_and_negative_flags(&mut self, result: u8)
        ensures
            final(self)@ == (CpuState { status: with_zn(old(self)@.status, result), ..old(self)@ }),
    {
        self.set_status_flag(ZERO, result == 0);
        self.set_status_flag(NEGATIVE, result >= 0x80);
    }

    fn lda(&mut self, mode: &AddressingMode)
        requires
            mode.suits(Mnemonic::LDA),
        ensures
            final(self)@ == execute(old(self)@, Mnemonic::LDA, *mode),
    {
        let addr = self.get_operand_address(mode).unwrap();
        let value = self.mem_read(addr);
        self.register_a = value;
        self.update_zero_and_negative_flags(value);
    }

    fn sta(&mut self, mode: &AddressingMode)
        requires
            mode.suits(Mnemonic::STA),
        ensures
            final(self)@ == execute(old(self)@, Mnemonic::STA, *mode),
    {
        let addr = self.get_operand_address(mode).unwrap();
        self.mem_write(addr, self.register_a);
    }

    fn tax(&mut self)
        ensures
            final(self)@ == execute(old(self)@, Mnemonic::TAX, AddressingMode::Implied),
    {
        self.register_x = self.register_a;
        self.update_zero_and_negative_flags(self.register_x);
    }

    fn inx(&mut self)
        ensures
            final(self)@ == execute(old(self)@, Mnemonic::INX, AddressingMode::Implied),
    {
        self.register_x = self.register_x.wrapping_add(1);
        self.update_zero_and_negative_flags(self.register_x);
    }

    fn iny(&mut self)
        ensures
            final(self)@ == execute(old(self)@, Mnemonic::INY, AddressingMode::Implied),
    {
        self.register_y = self.register_y.wrapping_add(1);
        self.update_zero_and_negative_flags(self.register_y);
    }

    fn dex(&mut self)
        ensures
            final(self)@ == execute(old(self)@, Mnemonic::DEX, AddressingMode::Implied),
    {
        self.register_x = self.register_x.wrapping_sub(1);
        self.update_zero_and_negative_flags(self.register_x);
    }

    fn dey(&mut self)
        ensures
            final(self)@ == execute(old(self)@, Mnemonic::DEY, AddressingMode::Implied),
    {
        self.register_y = self.register_y.wrapping_sub(1);
        self.update_zero_and_negative_flags(self.register_y);
    }

    fn inc(&mut self, mode: &AddressingMode)
        requires
            mode.suits(Mnemonic::INC),
        ensures
            final(self)@ == execute(old(self)@, Mnemonic::INC, *mode),
    {
        let addr = self.get_operand_address(mode).unwrap();
        let value = self.mem_read(addr).wrapping_add(1);
        self.mem_write(addr, value);
        self.update_zero_and_negative_flags(value);
    }

    fn dec(&mut self, mode: &AddressingMode)
        requires
            mode.suits(Mnemonic::DEC),
        ensures
            final(self)@ == execute(old(self)@, Mnemonic::DEC, *mode),
    {
        let addr = self.get_operand_address(mode).unwrap();
        let result = self.mem_read(addr).wrapping_sub(1);
        self.mem_write(addr, result);
        self.update_zero_and_negative_flags(result);
    }

    fn adc(&mut self, mode: &AddressingMode)
        requires
            mode.suits(Mnemonic::ADC),
        ensures
            final(self)@ == execute(old(self)@, Mnemonic::ADC, *mode),
    {
        let addr = self.get_operand_address(mode).unwrap();
        let value = self.mem_read(addr);
        let a = self.register_a;
        let carry_in: u16 = if self.status & CARRY != 0 { 1 } else { 0 };
        let sum: u16 = a as u16 + value as u16 + carry_in;
        let result = (sum % 256) as u8;
        let overflow = (a >= 0x80) == (value >= 0x80) && (a >= 0x80) != (result >= 0x80);
        self.set_status_flag(CARRY, sum > 0xFF);
        self.set_status_flag(OVERFLOW, overflow);
        self.register_a = result;
        self.update_zero_and_negative_flags(result);
    }

    fn and(&mut self, mode: &AddressingMode)
        requires
            mode.suits(Mnemonic::AND),
        ensures
            final(self)@ == execute(old(self)@, Mnemonic::AND, *mode),
    {
        let addr = self.get_operand_address(mode).unwrap();
        let value = self.mem_read(addr);
        self.register_a = self.register_a & value;
        self.update_zero_and_negative_flags(self.register_a);
    }

    fn eor(&mut self, mode: &AddressingMode)
        requires
            mode.suits(Mnemonic::EOR),
        ensures
            final(self)@ == execute(old(self)@, Mnemonic::EOR, *mode),
    {
        let addr = self.get_operand_address(mode).unwrap();
        let value = self.mem_read(addr);
        self.register_a = self.register_a ^ value;
        self.update_zero_and_negative_flags(self.register_a);
    }

    fn asl(&mut self, mode: &AddressingMode)
        requires
            mode.suits(Mnemonic::ASL),
        ensures
            final(self)@ == execute(old(self)@, Mnemonic::ASL, *mode),
    {
        if let Some(addr) = self.get_operand_address(mode) {
            let value = self.mem_read(addr);
            let shifted = (value as u16 * 2 % 256) as u8;
            self.set_status_flag(CARRY, value >= 0x80);
            self.mem_write(addr, shifted);
            self.update_zero_and_negative_flags(shifted);
        } else {
            let value = self.register_a;
            let shifted = (value as u16 * 2 % 256) as u8;
            self.set_status_flag(CARRY, value >= 0x80);
            self.register_a = shifted;
            self.update_zero_and_negative_flags(shifted);
        }
    }

    fn bit(&mut self, mode: &AddressingMode)
        requires
            mode.suits(Mnemonic::BIT),
        ensures
            final(self)@ == execute(old(self)@, Mnemonic::BIT, *mode),
    {
        let addr = self.get_operand_address(mode).unwrap();
        let value = self.mem_read(addr);
        let result = self.register_a & value;
        self.set_status_flag(ZERO, result == 0);
        self.set_status_flag(OVERFLOW, value & OVERFLOW != 0);
        self.set_status_flag(NEGATIVE, value >= 0x80);
    }

    /// Compares `register` with the operand: carry when it is not below it, zero and
    /// negative from the wrapped difference.
    fn compare_register(&mut self, register: u8, mode: &AddressingMode)
        requires
            mode.has_address(),
        ensures
            final(self)@ == compare(
                old(self)@,
                register,
                old(self)@.read(address_of(old(self)@, *mode)),
            ),
    {
        let addr = self.get_operand_address(mode).unwrap();
        let value = self.mem_read(addr);
        self.set_status_flag(CARRY, register >= value);
        self.update_zero_and_negative_flags(register.wrapping_sub(value));
    }

    fn cmp(&mut self, mode: &AddressingMode)
        requires
            mode.suits(Mnemonic::CMP),
        ensures
            final(self)@ == execute(old(self)@, Mnemonic::CMP, *mode),
    {
        self.compare_register(self.register_a, mode);
    }

    fn cpx(&mut self, mode: &AddressingMode)
        requires
            mode.suits(Mnemonic::CPX),
        ensures
            final(self)@ == execute(old(self)@, Mnemonic::CPX, *mode),
    {
        self.compare_register(self.register_x, mode);
    }

    fn cpy(&mut self, mode: &AddressingMode)
        requires
            mode.suits(Mnemonic::CPY),
        ensures
            final(self)@ == execute(old(self)@, Mnemonic::CPY, *mode),
    {
        self.compare_register(self.register_y, mode);
    }

    fn jmp(&mut self, mode: &AddressingMode)
        requires
            mode.suits(Mnemonic::JMP),
        ensures
            final(self)@ == execute(old(self)@, Mnemonic::JMP, *mode),
    {
        self.program_counter = self.get_operand_address(mode).unwrap();
    }

    /// Consumes the displacement byte, then, when `taken`, moves the program counter
    /// by it.
    fn branch_if(&mut self, taken: bool)
        ensures
            final(self)@ == branch(old(self)@, taken),
    {
        let displacement = self.mem_read(self.program_counter);
        let next = self.program_counter.wrapping_add(1);
        self.program_counter = if !taken {
            next
        } else if displacement >= 0x80 {
            next.wrapping_sub(256 - displacement as u16)
        } else {
            next.wrapping_add(displacement as u16)
        };
    }

    fn bcc(&mut self)
        ensures
            final(self)@ == execute(old(self)@, Mnemonic::BCC, AddressingMode::Relative),
    {
        self.branch_if(self.status & CARRY == 0);
    }

    fn bcs(&mut self)
        ensures
            final(self)@ == execute(old(self)@, Mnemonic::BCS, AddressingMode::Relative),
    {
        self.branch_if(self.status & CARRY != 0);
    }

    fn beq(&mut self)
        ensures
            final(self)@ == execute(old(self)@, Mnemonic::BEQ, AddressingMode::Relative),
    {
        self.branch_if(self.status & ZERO != 0);
    }

    fn bne(&mut self)
        ensures
            final(self)@ == execute(old(self)@, Mnemonic::BNE, AddressingMode::Relative),
    {
        self.branch_if(self.status & ZERO == 0);
    }

    fn bmi(&mut self)
        ensures
            final(self)@ == execute(old(self)@, Mnemonic::BMI, AddressingMode::Relative),
    {
        self.branch_if(self.status & NEGATIVE != 0);
    }

    fn bpl(&mut self)
        ensures
            final(self)@ == execute(old(self)@, Mnemonic::BPL, AddressingMode::Relative),
    {
        self.branch_if(self.status & NEGATIVE == 0);
    }

    fn bvc(&mut self)
        ensures
            final(self)@ == execute(old(self)@, Mnemonic::BVC, AddressingMode::Relative),
    {
        self.branch_if(self.status & OVERFLOW == 0);
    }

    fn bvs(&mut self)
        ensures
            final(self)@ == execute(old(self)@, Mnemonic::BVS, AddressingMode::Relative),
    {
        self.branch_if(self.status & OVERFLOW != 0);
    }
}

/// Whether `m` sets the program counter itself.
fn sets_program_counter(m: Mnemonic) -> (r: bool)
    ensures
        r == moves_pc_itself(m),
{
    matches!(
        m,
        Mnemonic::JMP | Mnemonic::BCC | Mnemonic::BCS | Mnemonic::BEQ | Mnemonic::BMI
            | Mnemonic::BNE | Mnemonic::BPL | Mnemonic::BVC | Mnemonic::BVS
    )
}

/// The word with low byte `lo` and high byte `hi`.
fn join(lo: u8, hi: u8) -> (r: u16)
    ensures
        r == word(lo, hi),
{
    hi as u16 * 256 + lo as u16
}

} // verus!
