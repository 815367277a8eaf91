//! The instruction set: the official opcodes of the 6502, each with its
//! instruction, length, base cycle count and addressing mode.

use vstd::prelude::*;
use crate::hw::cpu::AddressingMode;

verus! {

#[derive(Debug, Clone, Copy, PartialEq, Eq, Structural)]
pub enum Instruction {
    // ----- Transfer instructions -----
    /// LDA: load a value into the accumulator.
    LDA,
    /// LDX: load a value into register X.
    LDX,
    /// LDY: load a value into register Y.
    LDY,
    /// STA: store the accumulator.
    STA,
    /// STX: store register X.
    STX,
    /// STY: store register Y.
    STY,
    /// TAX: transfer the accumulator to X.
    TAX,
    /// TAY: transfer the accumulator to Y.
    TAY,
    /// TSX: transfer the stack pointer to X.
    TSX,
    /// TXA: transfer X to the accumulator.
    TXA,
    /// TXS: transfer X to the stack pointer.
    TXS,
    /// TYA: transfer Y to the accumulator.
    TYA,
    // ----- Stack instructions -----
    /// PHA: push the accumulator.
    PHA,
    /// PHP: push the status register, with the break flag set.
    PHP,
    /// PLA: pull the accumulator.
    PLA,
    /// PLP: pull the status register.
    PLP,
    // ----- Decrements and increments -----
    /// DEC: decrement memory.
    DEC,
    /// DEX: decrement X.
    DEX,
    /// DEY: decrement Y.
    DEY,
    /// INC: increment memory.
    INC,
    /// INX: increment X.
    INX,
    /// INY: increment Y.
    INY,
    // ----- Arithmetic -----
    /// ADC: add memory and carry to the accumulator.
    ADC,
    /// SBC: subtract memory and borrow from the accumulator.
    SBC,
    // ----- Logical operations -----
    /// AND: and with the accumulator.
    AND,
    /// EOR: exclusive or with the accumulator.
    EOR,
    /// ORA: or with the accumulator.
    ORA,
    /// BIT: test bits of memory against the accumulator.
    BIT,
    // ----- Shifts and rotations -----
    /// ASL: shift memory left.
    ASL,
    /// ASL: shift the accumulator left.
    ASLA,
    /// LSR: shift memory right.
    LSR,
    /// LSR: shift the accumulator right.
    LSRA,
    /// ROL: rotate memory left through carry.
    ROL,
    /// ROL: rotate the accumulator left through carry.
    ROLA,
    /// ROR: rotate memory right through carry.
    ROR,
    /// ROR: rotate the accumulator right through carry.
    RORA,
    // ----- Flags -----
    /// CLC: clear carry.
    CLC,
    /// CLD: clear decimal.
    CLD,
    /// CLI: clear interrupt disable.
    CLI,
    /// CLV: clear overflow.
    CLV,
    /// SEC: set carry.
    SEC,
    /// SED: set decimal.
    SED,
    /// SEI: set interrupt disable.
    SEI,
    // ----- Comparisons -----
    /// CMP: compare memory with the accumulator.
    CMP,
    /// CPX: compare memory with X.
    CPX,
    /// CPY: compare memory with Y.
    CPY,
    // ----- Branches -----
    /// BCC: branch on carry clear.
    BCC,
    /// BCS: branch on carry set.
    BCS,
    /// BEQ: branch on zero set.
    BEQ,
    /// BMI: branch on negative set.
    BMI,
    /// BNE: branch on zero clear.
    BNE,
    /// BPL: branch on negative clear.
    BPL,
    /// BVC: branch on overflow clear.
    BVC,
    /// BVS: branch on overflow set.
    BVS,
    // ----- Jumps and interrupts -----
    /// JMP: jump.
    JMP,
    /// JSR: jump to a subroutine.
    JSR,
    /// RTS: return from a subroutine.
    RTS,
    /// BRK: software interrupt.
    BRK,
    /// RTI: return from an interrupt.
    RTI,
    // ----- Other -----
    /// NOP: do nothing.
    NOP,
}

/// One row of the opcode table.
#[derive(Debug, Clone, Copy, PartialEq, Eq, Structural)]
pub struct OpCode {
    pub instruction: Instruction,
    /// Length of the instruction in bytes, opcode included.
    pub bytes: u16,
    /// Cycles that the instruction takes before any penalty.
    pub cycles: u8,
    pub addressing_mode: AddressingMode,
}

impl OpCode {
    pub fn new(instruction: Instruction, bytes: u16, cycles: u8, addressing_mode: AddressingMode) -> (op: Self)
        ensures
            op == (OpCode { instruction, bytes, cycles, addressing_mode }),
    {
        OpCode { instruction, bytes, cycles, addressing_mode }
    }
}

impl Instruction {
    /// The instruction sets the program counter itself: a branch, a jump,
    /// a call, a return or a software interrupt.
    pub open spec fn spec_sets_pc(self) -> bool {
        self.spec_is_branch() || self == Instruction::JMP || self == Instruction::JSR || self
            == Instruction::RTS || self == Instruction::RTI || self == Instruction::BRK
    }

    #[verifier::when_used_as_spec(spec_sets_pc)]
    pub fn sets_pc(self) -> (r: bool)
        ensures
            r == self.spec_sets_pc(),
    {
        match self {
            Instruction::JMP
            | Instruction::JSR
            | Instruction::RTS
            | Instruction::RTI
            | Instruction::BRK => true,
            _ => self.is_branch(),
        }
    }

    /// The instruction reads its operand and writes nowhere: a load, an
    /// addition or subtraction, a logical operation on the accumulator or
    /// a comparison. These take one cycle more when indexing leads into
    /// another page.
    pub open spec fn spec_reads_operand(self) -> bool {
        self == Instruction::LDA || self == Instruction::LDX || self == Instruction::LDY || self
            == Instruction::ADC || self == Instruction::SBC || self == Instruction::AND || self
            == Instruction::EOR || self == Instruction::ORA || self == Instruction::CMP || self
            == Instruction::CPX || self == Instruction::CPY
    }

    #[verifier::when_used_as_spec(spec_reads_operand)]
    pub fn reads_operand(self) -> (r: bool)
        ensures
            r == self.spec_reads_operand(),
    {
        match self {
            Instruction::LDA
            | Instruction::LDX
            | Instruction::LDY
            | Instruction::ADC
            | Instruction::SBC
            | Instruction::AND
            | Instruction::EOR
            | Instruction::ORA
            | Instruction::CMP
            | Instruction::CPX
            | Instruction::CPY => true,
            _ => false,
        }
    }

    /// The instruction writes to its operand in memory: a store, an
    /// increment or decrement of memory, or a shift or rotation of memory.
    pub open spec fn spec_writes_operand(self) -> bool {
        self == Instruction::STA || self == Instruction::STX || self == Instruction::STY || self
            == Instruction::DEC || self == Instruction::INC || self == Instruction::ASL || self
            == Instruction::LSR || self == Instruction::ROL || self == Instruction::ROR
    }

    #[verifier::when_used_as_spec(spec_writes_operand)]
    pub fn writes_operand(self) -> (r: bool)
        ensures
            r == self.spec_writes_operand(),
    {
        match self {
            Instruction::STA
            | Instruction::STX
            | Instruction::STY
            | Instruction::DEC
            | Instruction::INC
            | Instruction::ASL
            | Instruction::LSR
            | Instruction::ROL
            | Instruction::ROR => true,
            _ => false,
        }
    }

    /// The instruction is one of the eight conditional branches.
    pub open spec fn spec_is_branch(self) -> bool {
        self == Instruction::BCC || self == Instruction::BCS || self == Instruction::BEQ || self
            == Instruction::BNE || self == Instruction::BMI || self == Instruction::BPL || self
            == Instruction::BVC || self == Instruction::BVS
    }

    #[verifier::when_used_as_spec(spec_is_branch)]
    pub fn is_branch(self) -> (r: bool)
        ensures
            r == self.spec_is_branch(),
    {
        match self {
            Instruction::BCC
            | Instruction::BCS
            | Instruction::BEQ
            | Instruction::BNE
            | Instruction::BMI
            | Instruction::BPL
            | Instruction::BVC
            | Instruction::BVS => true,
            _ => false,
        }
    }

    /// The three letters of the instruction's name, in ASCII. The
    /// accumulator forms of the shifts share the name of the memory forms.
    pub open spec fn spec_mnemonic(self) -> Seq<u8> {
        match self {
            Instruction::LDA => seq![76u8, 68u8, 65u8],
            Instruction::LDX => seq![76u8, 68u8, 88u8],
            Instruction::LDY => seq![76u8, 68u8, 89u8],
            Instruction::STA => seq![83u8, 84u8, 65u8],
            Instruction::STX => seq![83u8, 84u8, 88u8],
            Instruction::STY => seq![83u8, 84u8, 89u8],
            Instruction::TAX => seq![84u8, 65u8, 88u8],
            Instruction::TAY => seq![84u8, 65u8, 89u8],
            Instruction::TSX => seq![84u8, 83u8, 88u8],
            Instruction::TXA => seq![84u8, 88u8, 65u8],
            Instruction::TXS => seq![84u8, 88u8, 83u8],
            Instruction::TYA => seq![84u8, 89u8, 65u8],
            Instruction::PHA => seq![80u8, 72u8, 65u8],
            Instruction::PHP => seq![80u8, 72u8, 80u8],
            Instruction::PLA => seq![80u8, 76u8, 65u8],
            Instruction::PLP => seq![80u8, 76u8, 80u8],
            Instruction::DEC => seq![68u8, 69u8, 67u8],
            Instruction::DEX => seq![68u8, 69u8, 88u8],
            Instruction::DEY => seq![68u8, 69u8, 89u8],
            Instruction::INC => seq![73u8, 78u8, 67u8],
            Instruction::INX => seq![73u8, 78u8, 88u8],
            Instruction::INY => seq![73u8, 78u8, 89u8],
            Instruction::ADC => seq![65u8, 68u8, 67u8],
            Instruction::SBC => seq![83u8, 66u8, 67u8],
            Instruction::AND => seq![65u8, 78u8, 68u8],
            Instruction::EOR => seq![69u8, 79u8, 82u8],
            Instruction::ORA => seq![79u8, 82u8, 65u8],
            Instruction::BIT => seq![66u8, 73u8, 84u8],
            Instruction::ASL => seq![65u8, 83u8, 76u8],
            Instruction::ASLA => seq![65u8, 83u8, 76u8],
            Instruction::LSR => seq![76u8, 83u8, 82u8],
            Instruction::LSRA => seq![76u8, 83u8, 82u8],
            Instruction::ROL => seq![82u8, 79u8, 76u8],
            Instruction::ROLA => seq![82u8, 79u8, 76u8],
            Instruction::ROR => seq![82u8, 79u8, 82u8],
            Instruction::RORA => seq![82u8, 79u8, 82u8],
            Instruction::CLC => seq![67u8, 76u8, 67u8],
            Instruction::CLD => seq![67u8, 76u8, 68u8],
            Instruction::CLI => seq![67u8, 76u8, 73u8],
            Instruction::CLV => seq![67u8, 76u8, 86u8],
            Instruction::SEC => seq![83u8, 69u8, 67u8],
            Instruction::SED => seq![83u8, 69u8, 68u8],
            Instruction::SEI => seq![83u8, 69u8, 73u8],
            Instruction::CMP => seq![67u8, 77u8, 80u8],
            Instruction::CPX => seq![67u8, 80u8, 88u8],
            Instruction::CPY => seq![67u8, 80u8, 89u8],
            Instruction::BCC => seq![66u8, 67u8, 67u8],
            Instruction::BCS => seq![66u8, 67u8, 83u8],
            Instruction::BEQ => seq![66u8, 69u8, 81u8],
            Instruction::BMI => seq![66u8, 77u8, 73u8],
            Instruction::BNE => seq![66u8, 78u8, 69u8],
            Instruction::BPL => seq![66u8, 80u8, 76u8],
            Instruction::BVC => seq![66u8, 86u8, 67u8],
            Instruction::BVS => seq![66u8, 86u8, 83u8],
            Instruction::JMP => seq![74u8, 77u8, 80u8],
            Instruction::JSR => seq![74u8, 83u8, 82u8],
            Instruction::RTS => seq![82u8, 84u8, 83u8],
            Instruction::BRK => seq![66u8, 82u8, 75u8],
            Instruction::RTI => seq![82u8, 84u8, 73u8],
            Instruction::NOP => seq![78u8, 79u8, 80u8],
        }
    }

    pub fn mnemonic(self) -> (name: [u8; 3])
        ensures
            name@ == self.spec_mnemonic(),
    {
        let name: [u8; 3] = match self {
            Instruction::LDA => [76, 68, 65],
            Instruction::LDX => [76, 68, 88],
            Instruction::LDY => [76, 68, 89],
            Instruction::STA => [83, 84, 65],
            Instruction::STX => [83, 84, 88],
            Instruction::STY => [83, 84, 89],
            Instruction::TAX => [84, 65, 88],
            Instruction::TAY => [84, 65, 89],
            Instruction::TSX => [84, 83, 88],
            Instruction::TXA => [84, 88, 65],
            Instruction::TXS => [84, 88, 83],
            Instruction::TYA => [84, 89, 65],
            Instruction::PHA => [80, 72, 65],
            Instruction::PHP => [80, 72, 80],
            Instruction::PLA => [80, 76, 65],
            Instruction::PLP => [80, 76, 80],
            Instruction::DEC => [68, 69, 67],
            Instruction::DEX => [68, 69, 88],
            Instruction::DEY => [68, 69, 89],
            Instruction::INC => [73, 78, 67],
            Instruction::INX => [73, 78, 88],
            Instruction::INY => [73, 78, 89],
            Instruction::ADC => [65, 68, 67],
            Instruction::SBC => [83, 66, 67],
            Instruction::AND => [65, 78, 68],
            Instruction::EOR => [69, 79, 82],
            Instruction::ORA => [79, 82, 65],
            Instruction::BIT => [66, 73, 84],
            Instruction::ASL => [65, 83, 76],
            Instruction::ASLA => [65, 83, 76],
            Instruction::LSR => [76, 83, 82],
            Instruction::LSRA => [76, 83, 82],
            Instruction::ROL => [82, 79, 76],
            Instruction::ROLA => [82, 79, 76],
            Instruction::ROR => [82, 79, 82],
            Instruction::RORA => [82, 79, 82],
            Instruction::CLC => [67, 76, 67],
            Instruction::CLD => [67, 76, 68],
            Instruction::CLI => [67, 76, 73],
            Instruction::CLV => [67, 76, 86],
            Instruction::SEC => [83, 69, 67],
            Instruction::SED => [83, 69, 68],
            Instruction::SEI => [83, 69, 73],
            Instruction::CMP => [67, 77, 80],
            Instruction::CPX => [67, 80, 88],
            Instruction::CPY => [67, 80, 89],
            Instruction::BCC => [66, 67, 67],
            Instruction::BCS => [66, 67, 83],
            Instruction::BEQ => [66, 69, 81],
            Instruction::BMI => [66, 77, 73],
            Instruction::BNE => [66, 78, 69],
            Instruction::BPL => [66, 80, 76],
            Instruction::BVC => [66, 86, 67],
            Instruction::BVS => [66, 86, 83],
            Instruction::JMP => [74, 77, 80],
            Instruction::JSR => [74, 83, 82],
            Instruction::RTS => [82, 84, 83],
            Instruction::BRK => [66, 82, 75],
            Instruction::RTI => [82, 84, 73],
            Instruction::NOP => [78, 79, 80],
        };
        assert(name@ =~= self.spec_mnemonic());
        name
    }
}

/// The row of the opcode table for `code`, if `code` is an official
/// opcode.
#[verifier::opaque]
pub open spec fn spec_lookup(code: u8) -> Option<OpCode> {
    match code {
        0x00 => Some(OpCode { instruction: Instruction::BRK, bytes: 1, cycles: 7, addressing_mode: AddressingMode::Implicit }),
        0x01 => Some(OpCode { instruction: Instruction::ORA, bytes: 2, cycles: 6, addressing_mode: AddressingMode::IndirectX }),
        0x05 => Some(OpCode { instruction: Instruction::ORA, bytes: 2, cycles: 3, addressing_mode: AddressingMode::ZeroPage }),
        0x06 => Some(OpCode { instruction: Instruction::ASL, bytes: 2, cycles: 5, addressing_mode: AddressingMode::ZeroPage }),
        0x08 => Some(OpCode { instruction: Instruction::PHP, bytes: 1, cycles: 3, addressing_mode: AddressingMode::Implicit }),
        0x09 => Some(OpCode { instruction: Instruction::ORA, bytes: 2, cycles: 2, addressing_mode: AddressingMode::Immediate }),
        0x0A => Some(OpCode { instruction: Instruction::ASLA, bytes: 1, cycles: 2, addressing_mode: AddressingMode::Accumulator }),
        0x0D => Some(OpCode { instruction: Instruction::ORA, bytes: 3, cycles: 4, addressing_mode: AddressingMode::Absolute }),
        0x0E => Some(OpCode { instruction: Instruction::ASL, bytes: 3, cycles: 6, addressing_mode: AddressingMode::Absolute }),
        0x10 => Some(OpCode { instruction: Instruction::BPL, bytes: 2, cycles: 2, addressing_mode: AddressingMode::Relative }),
        0x11 => Some(OpCode { instruction: Instruction::ORA, bytes: 2, cycles: 5, addressing_mode: AddressingMode::IndirectY }),
        0x15 => Some(OpCode { instruction: Instruction::ORA, bytes: 2, cycles: 4, addressing_mode: AddressingMode::ZeroPageX }),
        0x16 => Some(OpCode { instruction: Instruction::ASL, bytes: 2, cycles: 6, addressing_mode: AddressingMode::ZeroPageX }),
        0x18 => Some(OpCode { instruction: Instruction::CLC, bytes: 1, cycles: 2, addressing_mode: AddressingMode::Implicit }),
        0x19 => Some(OpCode { instruction: Instruction::ORA, bytes: 3, cycles: 4, addressing_mode: AddressingMode::AbsoluteY }),
        0x1D => Some(OpCode { instruction: Instruction::ORA, bytes: 3, cycles: 4, addressing_mode: AddressingMode::AbsoluteX }),
        0x1E => Some(OpCode { instruction: Instruction::ASL, bytes: 3, cycles: 7, addressing_mode: AddressingMode::AbsoluteX }),
        0x20 => Some(OpCode { instruction: Instruction::JSR, bytes: 3, cycles: 6, addressing_mode: AddressingMode::Absolute }),
        0x21 => Some(OpCode { instruction: Instruction::AND, bytes: 2, cycles: 6, addressing_mode: AddressingMode::IndirectX }),
        0x24 => Some(OpCode { instruction: Instruction::BIT, bytes: 2, cycles: 3, addressing_mode: AddressingMode::ZeroPage }),
        0x25 => Some(OpCode { instruction: Instruction::AND, bytes: 2, cycles: 3, addressing_mode: AddressingMode::ZeroPage }),
        0x26 => Some(OpCode { instruction: Instruction::ROL, bytes: 2, cycles: 5, addressing_mode: AddressingMode::ZeroPage }),
        0x28 => Some(OpCode { instruction: Instruction::PLP, bytes: 1, cycles: 4, addressing_mode: AddressingMode::Implicit }),
        0x29 => Some(OpCode { instruction: Instruction::AND, bytes: 2, cycles: 2, addressing_mode: AddressingMode::Immediate }),
        0x2A => Some(OpCode { instruction: Instruction::ROLA, bytes: 1, cycles: 2, addressing_mode: AddressingMode::Accumulator }),
        0x2C => Some(OpCode { instruction: Instruction::BIT, bytes: 3, cycles: 4, addressing_mode: AddressingMode::Absolute }),
        0x2D => Some(OpCode { instruction: Instruction::AND, bytes: 3, cycles: 4, addressing_mode: AddressingMode::Absolute }),
        0x2E => Some(OpCode { instruction: Instruction::ROL, bytes: 3, cycles: 6, addressing_mode: AddressingMode::Absolute }),
        0x30 => Some(OpCode { instruction: Instruction::BMI, bytes: 2, cycles: 2, addressing_mode: AddressingMode::Relative }),
        0x31 => Some(OpCode { instruction: Instruction::AND, bytes: 2, cycles: 5, addressing_mode: AddressingMode::IndirectY }),
        0x35 => Some(OpCode { instruction: Instruction::AND, bytes: 2, cycles: 4, addressing_mode: AddressingMode::ZeroPageX }),
        0x36 => Some(OpCode { instruction: Instruction::ROL, bytes: 2, cycles: 6, addressing_mode: AddressingMode::ZeroPageX }),
        0x38 => Some(OpCode { instruction: Instruction::SEC, bytes: 1, cycles: 2, addressing_mode: AddressingMode::Implicit }),
        0x39 => Some(OpCode { instruction: Instruction::AND, bytes: 3, cycles: 4, addressing_mode: AddressingMode::AbsoluteY }),
        0x3D => Some(OpCode { instruction: Instruction::AND, bytes: 3, cycles: 4, addressing_mode: AddressingMode::AbsoluteX }),
        0x3E => Some(OpCode { instruction: Instruction::ROL, bytes: 3, cycles: 7, addressing_mode: AddressingMode::AbsoluteX }),
        0x40 => Some(OpCode { instruction: Instruction::RTI, bytes: 1, cycles: 6, addressing_mode: AddressingMode::Implicit }),
        0x41 => Some(OpCode { instruction: Instruction::EOR, bytes: 2, cycles: 6, addressing_mode: AddressingMode::IndirectX }),
        0x45 => Some(OpCode { instruction: Instruction::EOR, bytes: 2, cycles: 3, addressing_mode: AddressingMode::ZeroPage }),
        0x46 => Some(OpCode { instruction: Instruction::LSR, bytes: 2, cycles: 5, addressing_mode: AddressingMode::ZeroPage }),
        0x48 => Some(OpCode { instruction: Instruction::PHA, bytes: 1, cycles: 3, addressing_mode: AddressingMode::Implicit }),
        0x49 => Some(OpCode { instruction: Instruction::EOR, bytes: 2, cycles: 2, addressing_mode: AddressingMode::Immediate }),
        0x4A => Some(OpCode { instruction: Instruction::LSRA, bytes: 1, cycles: 2, addressing_mode: AddressingMode::Accumulator }),
        0x4C => Some(OpCode { instruction: Instruction::JMP, bytes: 3, cycles: 3, addressing_mode: AddressingMode::Absolute }),
        0x4D => Some(OpCode { instruction: Instruction::EOR, bytes: 3, cycles: 4, addressing_mode: AddressingMode::Absolute }),
        0x4E => Some(OpCode { instruction: Instruction::LSR, bytes: 3, cycles: 6, addressing_mode: AddressingMode::Absolute }),
        0x50 => Some(OpCode { instruction: Instruction::BVC, bytes: 2, cycles: 2, addressing_mode: AddressingMode::Relative }),
        0x51 => Some(OpCode { instruction: Instruction::EOR, bytes: 2, cycles: 5, addressing_mode: AddressingMode::IndirectY }),
        0x55 => Some(OpCode { instruction: Instruction::EOR, bytes: 2, cycles: 4, addressing_mode: AddressingMode::ZeroPageX }),
        0x56 => Some(OpCode { instruction: Instruction::LSR, bytes: 2, cycles: 6, addressing_mode: AddressingMode::ZeroPageX }),
        0x58 => Some(OpCode { instruction: Instruction::CLI, bytes: 1, cycles: 2, addressing_mode: AddressingMode::Implicit }),
        0x59 => Some(OpCode { instruction: Instruction::EOR, bytes: 3, cycles: 4, addressing_mode: AddressingMode::AbsoluteY }),
        0x5D => Some(OpCode { instruction: Instruction::EOR, bytes: 3, cycles: 4, addressing_mode: AddressingMode::AbsoluteX }),
        0x5E => Some(OpCode { instruction: Instruction::LSR, bytes: 3, cycles: 7, addressing_mode: AddressingMode::AbsoluteX }),
        0x60 => Some(OpCode { instruction: Instruction::RTS, bytes: 1, cycles: 6, addressing_mode: AddressingMode::Implicit }),
        0x61 => Some(OpCode { instruction: Instruction::ADC, bytes: 2, cycles: 6, addressing_mode: AddressingMode::IndirectX }),
        0x65 => Some(OpCode { instruction: Instruction::ADC, bytes: 2, cycles: 3, addressing_mode: AddressingMode::ZeroPage }),
        0x66 => Some(OpCode { instruction: Instruction::ROR, bytes: 2, cycles: 5, addressing_mode: AddressingMode::ZeroPage }),
        0x68 => Some(OpCode { instruction: Instruction::PLA, bytes: 1, cycles: 4, addressing_mode: AddressingMode::Implicit }),
        0x69 => Some(OpCode { instruction: Instruction::ADC, bytes: 2, cycles: 2, addressing_mode: AddressingMode::Immediate }),
        0x6A => Some(OpCode { instruction: Instruction::RORA, bytes: 1, cycles: 2, addressing_mode: AddressingMode::Accumulator }),
        0x6C => Some(OpCode { instruction: Instruction::JMP, bytes: 3, cycles: 5, addressing_mode: AddressingMode::Indirect }),
        0x6D => Some(OpCode { instruction: Instruction::ADC, bytes: 3, cycles: 4, addressing_mode: AddressingMode::Absolute }),
        0x6E => Some(OpCode { instruction: Instruction::ROR, bytes: 3, cycles: 6, addressing_mode: AddressingMode::Absolute }),
        0x70 => Some(OpCode { instruction: Instruction::BVS, bytes: 2, cycles: 2, addressing_mode: AddressingMode::Relative }),
        0x71 => Some(OpCode { instruction: Instruction::ADC, bytes: 2, cycles: 5, addressing_mode: AddressingMode::IndirectY }),
        0x75 => Some(OpCode { instruction: Instruction::ADC, bytes: 2, cycles: 4, addressing_mode: AddressingMode::ZeroPageX }),
        0x76 => Some(OpCode { instruction: Instruction::ROR, bytes: 2, cycles: 6, addressing_mode: AddressingMode::ZeroPageX }),
        0x78 => Some(OpCode { instruction: Instruction::SEI, bytes: 1, cycles: 2, addressing_mode: AddressingMode::Implicit }),
        0x79 => Some(OpCode { instruction: Instruction::ADC, bytes: 3, cycles: 4, addressing_mode: AddressingMode::AbsoluteY }),
        0x7D => Some(OpCode { instruction: Instruction::ADC, bytes: 3, cycles: 4, addressing_mode: AddressingMode::AbsoluteX }),
        0x7E => Some(OpCode { instruction: Instruction::ROR, bytes: 3, cycles: 7, addressing_mode: AddressingMode::AbsoluteX }),
        0x81 => Some(OpCode { instruction: Instruction::STA, bytes: 2, cycles: 6, addressing_mode: AddressingMode::IndirectX }),
        0x84 => Some(OpCode { instruction: Instruction::STY, bytes: 2, cycles: 3, addressing_mode: AddressingMode::ZeroPage }),
        0x85 => Some(OpCode { instruction: Instruction::STA, bytes: 2, cycles: 3, addressing_mode: AddressingMode::ZeroPage }),
        0x86 => Some(OpCode { instruction: Instruction::STX, bytes: 2, cycles: 3, addressing_mode: AddressingMode::ZeroPage }),
        0x88 => Some(OpCode { instruction: Instruction::DEY, bytes: 1, cycles: 2, addressing_mode: AddressingMode::Implicit }),
        0x8A => Some(OpCode { instruction: Instruction::TXA, bytes: 1, cycles: 2, addressing_mode: AddressingMode::Implicit }),
        0x8C => Some(OpCode { instruction: Instruction::STY, bytes: 3, cycles: 4, addressing_mode: AddressingMode::Absolute }),
        0x8D => Some(OpCode { instruction: Instruction::STA, bytes: 3, cycles: 4, addressing_mode: AddressingMode::Absolute }),
        0x8E => Some(OpCode { instruction: Instruction::STX, bytes: 3, cycles: 4, addressing_mode: AddressingMode::Absolute }),
        0x90 => Some(OpCode { instruction: Instruction::BCC, bytes: 2, cycles: 2, addressing_mode: AddressingMode::Relative }),
        0x91 => Some(OpCode { instruction: Instruction::STA, bytes: 2, cycles: 6, addressing_mode: AddressingMode::IndirectY }),
        0x94 => Some(OpCode { instruction: Instruction::STY, bytes: 2, cycles: 4, addressing_mode: AddressingMode::ZeroPageX }),
        0x95 => Some(OpCode { instruction: Instruction::STA, bytes: 2, cycles: 4, addressing_mode: AddressingMode::ZeroPageX }),
        0x96 => Some(OpCode { instruction: Instruction::STX, bytes: 2, cycles: 4, addressing_mode: AddressingMode::ZeroPageY }),
        0x98 => Some(OpCode { instruction: Instruction::TYA, bytes: 1, cycles: 2, addressing_mode: AddressingMode::Implicit }),
        0x99 => Some(OpCode { instruction: Instruction::STA, bytes: 3, cycles: 5, addressing_mode: AddressingMode::AbsoluteY }),
        0x9A => Some(OpCode { instruction: Instruction::TXS, bytes: 1, cycles: 2, addressing_mode: AddressingMode::Implicit }),
        0x9D => Some(OpCode { instruction: Instruction::STA, bytes: 3, cycles: 5, addressing_mode: AddressingMode::AbsoluteX }),
        0xA0 => Some(OpCode { instruction: Instruction::LDY, bytes: 2, cycles: 2, addressing_mode: AddressingMode::Immediate }),
        0xA1 => Some(OpCode { instruction: Instruction::LDA, bytes: 2, cycles: 6, addressing_mode: AddressingMode::IndirectX }),
        0xA2 => Some(OpCode { instruction: Instruction::LDX, bytes: 2, cycles: 2, addressing_mode: AddressingMode::Immediate }),
        0xA4 => Some(OpCode { instruction: Instruction::LDY, bytes: 2, cycles: 3, addressing_mode: AddressingMode::ZeroPage }),
        0xA5 => Some(OpCode { instruction: Instruction::LDA, bytes: 2, cycles: 3, addressing_mode: AddressingMode::ZeroPage }),
        0xA6 => Some(OpCode { instruction: Instruction::LDX, bytes: 2, cycles: 3, addressing_mode: AddressingMode::ZeroPage }),
        0xA8 => Some(OpCode { instruction: Instruction::TAY, bytes: 1, cycles: 2, addressing_mode: AddressingMode::Implicit }),
        0xA9 => Some(OpCode { instruction: Instruction::LDA, bytes: 2, cycles: 2, addressing_mode: AddressingMode::Immediate }),
        0xAA => Some(OpCode { instruction: Instruction::TAX, bytes: 1, cycles: 2, addressing_mode: AddressingMode::Implicit }),
        0xAC => Some(OpCode { instruction: Instruction::LDY, bytes: 3, cycles: 4, addressing_mode: AddressingMode::Absolute }),
        0xAD => Some(OpCode { instruction: Instruction::LDA, bytes: 3, cycles: 4, addressing_mode: AddressingMode::Absolute }),
        0xAE => Some(OpCode { instruction: Instruction::LDX, bytes: 3, cycles: 4, addressing_mode: AddressingMode::Absolute }),
        0xB0 => Some(OpCode { instruction: Instruction::BCS, bytes: 2, cycles: 2, addressing_mode: AddressingMode::Relative }),
        0xB1 => Some(OpCode { instruction: Instruction::LDA, bytes: 2, cycles: 5, addressing_mode: AddressingMode::IndirectY }),
        0xB4 => Some(OpCode { instruction: Instruction::LDY, bytes: 2, cycles: 4, addressing_mode: AddressingMode::ZeroPageX }),
        0xB5 => Some(OpCode { instruction: Instruction::LDA, bytes: 2, cycles: 4, addressing_mode: AddressingMode::ZeroPageX }),
        0xB6 => Some(OpCode { instruction: Instruction::LDX, bytes: 2, cycles: 4, addressing_mode: AddressingMode::ZeroPageY }),
        0xB8 => Some(OpCode { instruction: Instruction::CLV, bytes: 1, cycles: 2, addressing_mode: AddressingMode::Implicit }),
        0xB9 => Some(OpCode { instruction: Instruction::LDA, bytes: 3, cycles: 4, addressing_mode: AddressingMode::AbsoluteY }),
        0xBA => Some(OpCode { instruction: Instruction::TSX, bytes: 1, cycles: 2, addressing_mode: AddressingMode::Implicit }),
        0xBC => Some(OpCode { instruction: Instruction::LDY, bytes: 3, cycles: 4, addressing_mode: AddressingMode::AbsoluteX }),
        0xBD => Some(OpCode { instruction: Instruction::LDA, bytes: 3, cycles: 4, addressing_mode: AddressingMode::AbsoluteX }),
        0xBE => Some(OpCode { instruction: Instruction::LDX, bytes: 3, cycles: 4, addressing_mode: AddressingMode::AbsoluteY }),
        0xC0 => Some(OpCode { instruction: Instruction::CPY, bytes: 2, cycles: 2, addressing_mode: AddressingMode::Immediate }),
        0xC1 => Some(OpCode { instruction: Instruction::CMP, bytes: 2, cycles: 6, addressing_mode: AddressingMode::IndirectX }),
        0xC4 => Some(OpCode { instruction: Instruction::CPY, bytes: 2, cycles: 3, addressing_mode: AddressingMode::ZeroPage }),
        0xC5 => Some(OpCode { instruction: Instruction::CMP, bytes: 2, cycles: 3, addressing_mode: AddressingMode::ZeroPage }),
        0xC6 => Some(OpCode { instruction: Instruction::DEC, bytes: 2, cycles: 5, addressing_mode: AddressingMode::ZeroPage }),
        0xC8 => Some(OpCode { instruction: Instruction::INY, bytes: 1, cycles: 2, addressing_mode: AddressingMode::Implicit }),
        0xC9 => Some(OpCode { instruction: Instruction::CMP, bytes: 2, cycles: 2, addressing_mode: AddressingMode::Immediate }),
        0xCA => Some(OpCode { instruction: Instruction::DEX, bytes: 1, cycles: 2, addressing_mode: AddressingMode::Implicit }),
        0xCC => Some(OpCode { instruction: Instruction::CPY, bytes: 3, cycles: 4, addressing_mode: AddressingMode::Absolute }),
        0xCD => Some(OpCode { instruction: Instruction::CMP, bytes: 3, cycles: 4, addressing_mode: AddressingMode::Absolute }),
        0xCE => Some(OpCode { instruction: Instruction::DEC, bytes: 3, cycles: 6, addressing_mode: AddressingMode::Absolute }),
        0xD0 => Some(OpCode { instruction: Instruction::BNE, bytes: 2, cycles: 2, addressing_mode: AddressingMode::Relative }),
        0xD1 => Some(OpCode { instruction: Instruction::CMP, bytes: 2, cycles: 5, addressing_mode: AddressingMode::IndirectY }),
        0xD5 => Some(OpCode { instruction: Instruction::CMP, bytes: 2, cycles: 4, addressing_mode: AddressingMode::ZeroPageX }),
        0xD6 => Some(OpCode { instruction: Instruction::DEC, bytes: 2, cycles: 6, addressing_mode: AddressingMode::ZeroPageX }),
        0xD8 => Some(OpCode { instruction: Instruction::CLD, bytes: 1, cycles: 2, addressing_mode: AddressingMode::Implicit }),
        0xD9 => Some(OpCode { instruction: Instruction::CMP, bytes: 3, cycles: 4, addressing_mode: AddressingMode::AbsoluteY }),
        0xDD => Some(OpCode { instruction: Instruction::CMP, bytes: 3, cycles: 4, addressing_mode: AddressingMode::AbsoluteX }),
        0xDE => Some(OpCode { instruction: Instruction::DEC, bytes: 3, cycles: 7, addressing_mode: AddressingMode::AbsoluteX }),
        0xE0 => Some(OpCode { instruction: Instruction::CPX, bytes: 2, cycles: 2, addressing_mode: AddressingMode::Immediate }),
        0xE1 => Some(OpCode { instruction: Instruction::SBC, bytes: 2, cycles: 6, addressing_mode: AddressingMode::IndirectX }),
        0xE4 => Some(OpCode { instruction: Instruction::CPX, bytes: 2, cycles: 3, addressing_mode: AddressingMode::ZeroPage }),
        0xE5 => Some(OpCode { instruction: Instruction::SBC, bytes: 2, cycles: 3, addressing_mode: AddressingMode::ZeroPage }),
        0xE6 => Some(OpCode { instruction: Instruction::INC, bytes: 2, cycles: 5, addressing_mode: AddressingMode::ZeroPage }),
        0xE8 => Some(OpCode { instruction: Instruction::INX, bytes: 1, cycles: 2, addressing_mode: AddressingMode::Implicit }),
        0xE9 => Some(OpCode { instruction: Instruction::SBC, bytes: 2, cycles: 2, addressing_mode: AddressingMode::Immediate }),
        0xEA => Some(OpCode { instruction: Instruction::NOP, bytes: 1, cycles: 2, addressing_mode: AddressingMode::Implicit }),
        0xEC => Some(OpCode { instruction: Instruction::CPX, bytes: 3, cycles: 4, addressing_mode: AddressingMode::Absolute }),
        0xED => Some(OpCode { instruction: Instruction::SBC, bytes: 3, cycles: 4, addressing_mode: AddressingMode::Absolute }),
        0xEE => Some(OpCode { instruction: Instruction::INC, bytes: 3, cycles: 6, addressing_mode: AddressingMode::Absolute }),
        0xF0 => Some(OpCode { instruction: Instruction::BEQ, bytes: 2, cycles: 2, addressing_mode: AddressingMode::Relative }),
        0xF1 => Some(OpCode { instruction: Instruction::SBC, bytes: 2, cycles: 5, addressing_mode: AddressingMode::IndirectY }),
        0xF5 => Some(OpCode { instruction: Instruction::SBC, bytes: 2, cycles: 4, addressing_mode: AddressingMode::ZeroPageX }),
        0xF6 => Some(OpCode { instruction: Instruction::INC, bytes: 2, cycles: 6, addressing_mode: AddressingMode::ZeroPageX }),
        0xF8 => Some(OpCode { instruction: Instruction::SED, bytes: 1, cycles: 2, addressing_mode: AddressingMode::Implicit }),
        0xF9 => Some(OpCode { instruction: Instruction::SBC, bytes: 3, cycles: 4, addressing_mode: AddressingMode::AbsoluteY }),
        0xFD => Some(OpCode { instruction: Instruction::SBC, bytes: 3, cycles: 4, addressing_mode: AddressingMode::AbsoluteX }),
        0xFE => Some(OpCode { instruction: Instruction::INC, bytes: 3, cycles: 7, addressing_mode: AddressingMode::AbsoluteX }),
        _ => None,
    }
}

/// Looks an opcode up in the table.
#[verifier::when_used_as_spec(spec_lookup)]
pub fn lookup(code: u8) -> (op: Option<OpCode>)
    ensures
        op == spec_lookup(code),
{
    reveal(spec_lookup);
    match code {
        0x00 => Some(OpCode { instruction: Instruction::BRK, bytes: 1, cycles: 7, addressing_mode: AddressingMode::Implicit }),
        0x01 => Some(OpCode { instruction: Instruction::ORA, bytes: 2, cycles: 6, addressing_mode: AddressingMode::IndirectX }),
        0x05 => Some(OpCode { instruction: Instruction::ORA, bytes: 2, cycles: 3, addressing_mode: AddressingMode::ZeroPage }),
        0x06 => Some(OpCode { instruction: Instruction::ASL, bytes: 2, cycles: 5, addressing_mode: AddressingMode::ZeroPage }),
        0x08 => Some(OpCode { instruction: Instruction::PHP, bytes: 1, cycles: 3, addressing_mode: AddressingMode::Implicit }),
        0x09 => Some(OpCode { instruction: Instruction::ORA, bytes: 2, cycles: 2, addressing_mode: AddressingMode::Immediate }),
        0x0A => Some(OpCode { instruction: Instruction::ASLA, bytes: 1, cycles: 2, addressing_mode: AddressingMode::Accumulator }),
        0x0D => Some(OpCode { instruction: Instruction::ORA, bytes: 3, cycles: 4, addressing_mode: AddressingMode::Absolute }),
        0x0E => Some(OpCode { instruction: Instruction::ASL, bytes: 3, cycles: 6, addressing_mode: AddressingMode::Absolute }),
        0x10 => Some(OpCode { instruction: Instruction::BPL, bytes: 2, cycles: 2, addressing_mode: AddressingMode::Relative }),
        0x11 => Some(OpCode { instruction: Instruction::ORA, bytes: 2, cycles: 5, addressing_mode: AddressingMode::IndirectY }),
        0x15 => Some(OpCode { instruction: Instruction::ORA, bytes: 2, cycles: 4, addressing_mode: AddressingMode::ZeroPageX }),
        0x16 => Some(OpCode { instruction: Instruction::ASL, bytes: 2, cycles: 6, addressing_mode: AddressingMode::ZeroPageX }),
        0x18 => Some(OpCode { instruction: Instruction::CLC, bytes: 1, cycles: 2, addressing_mode: AddressingMode::Implicit }),
        0x19 => Some(OpCode { instruction: Instruction::ORA, bytes: 3, cycles: 4, addressing_mode: AddressingMode::AbsoluteY }),
        0x1D => Some(OpCode { instruction: Instruction::ORA, bytes: 3, cycles: 4, addressing_mode: AddressingMode::AbsoluteX }),
        0x1E => Some(OpCode { instruction: Instruction::ASL, bytes: 3, cycles: 7, addressing_mode: AddressingMode::AbsoluteX }),
        0x20 => Some(OpCode { instruction: Instruction::JSR, bytes: 3, cycles: 6, addressing_mode: AddressingMode::Absolute }),
        0x21 => Some(OpCode { instruction: Instruction::AND, bytes: 2, cycles: 6, addressing_mode: AddressingMode::IndirectX }),
        0x24 => Some(OpCode { instruction: Instruction::BIT, bytes: 2, cycles: 3, addressing_mode: AddressingMode::ZeroPage }),
        0x25 => Some(OpCode { instruction: Instruction::AND, bytes: 2, cycles: 3, addressing_mode: AddressingMode::ZeroPage }),
        0x26 => Some(OpCode { instruction: Instruction::ROL, bytes: 2, cycles: 5, addressing_mode: AddressingMode::ZeroPage }),
        0x28 => Some(OpCode { instruction: Instruction::PLP, bytes: 1, cycles: 4, addressing_mode: AddressingMode::Implicit }),
        0x29 => Some(OpCode { instruction: Instruction::AND, bytes: 2, cycles: 2, addressing_mode: AddressingMode::Immediate }),
        0x2A => Some(OpCode { instruction: Instruction::ROLA, bytes: 1, cycles: 2, addressing_mode: AddressingMode::Accumulator }),
        0x2C => Some(OpCode { instruction: Instruction::BIT, bytes: 3, cycles: 4, addressing_mode: AddressingMode::Absolute }),
        0x2D => Some(OpCode { instruction: Instruction::AND, bytes: 3, cycles: 4, addressing_mode: AddressingMode::Absolute }),
        0x2E => Some(OpCode { instruction: Instruction::ROL, bytes: 3, cycles: 6, addressing_mode: AddressingMode::Absolute }),
        0x30 => Some(OpCode { instruction: Instruction::BMI, bytes: 2, cycles: 2, addressing_mode: AddressingMode::Relative }),
        0x31 => Some(OpCode { instruction: Instruction::AND, bytes: 2, cycles: 5, addressing_mode: AddressingMode::IndirectY }),
        0x35 => Some(OpCode { instruction: Instruction::AND, bytes: 2, cycles: 4, addressing_mode: AddressingMode::ZeroPageX }),
        0x36 => Some(OpCode { instruction: Instruction::ROL, bytes: 2, cycles: 6, addressing_mode: AddressingMode::ZeroPageX }),
        0x38 => Some(OpCode { instruction: Instruction::SEC, bytes: 1, cycles: 2, addressing_mode: AddressingMode::Implicit }),
        0x39 => Some(OpCode { instruction: Instruction::AND, bytes: 3, cycles: 4, addressing_mode: AddressingMode::AbsoluteY }),
        0x3D => Some(OpCode { instruction: Instruction::AND, bytes: 3, cycles: 4, addressing_mode: AddressingMode::AbsoluteX }),
        0x3E => Some(OpCode { instruction: Instruction::ROL, bytes: 3, cycles: 7, addressing_mode: AddressingMode::AbsoluteX }),
        0x40 => Some(OpCode { instruction: Instruction::RTI, bytes: 1, cycles: 6, addressing_mode: AddressingMode::Implicit }),
        0x41 => Some(OpCode { instruction: Instruction::EOR, bytes: 2, cycles: 6, addressing_mode: AddressingMode::IndirectX }),
        0x45 => Some(OpCode { instruction: Instruction::EOR, bytes: 2, cycles: 3, addressing_mode: AddressingMode::ZeroPage }),
        0x46 => Some(OpCode { instruction: Instruction::LSR, bytes: 2, cycles: 5, addressing_mode: AddressingMode::ZeroPage }),
        0x48 => Some(OpCode { instruction: Instruction::PHA, bytes: 1, cycles: 3, addressing_mode: AddressingMode::Implicit }),
        0x49 => Some(OpCode { instruction: Instruction::EOR, bytes: 2, cycles: 2, addressing_mode: AddressingMode::Immediate }),
        0x4A => Some(OpCode { instruction: Instruction::LSRA, bytes: 1, cycles: 2, addressing_mode: AddressingMode::Accumulator }),
        0x4C => Some(OpCode { instruction: Instruction::JMP, bytes: 3, cycles: 3, addressing_mode: AddressingMode::Absolute }),
        0x4D => Some(OpCode { instruction: Instruction::EOR, bytes: 3, cycles: 4, addressing_mode: AddressingMode::Absolute }),
        0x4E => Some(OpCode { instruction: Instruction::LSR, bytes: 3, cycles: 6, addressing_mode: AddressingMode::Absolute }),
        0x50 => Some(OpCode { instruction: Instruction::BVC, bytes: 2, cycles: 2, addressing_mode: AddressingMode::Relative }),
        0x51 => Some(OpCode { instruction: Instruction::EOR, bytes: 2, cycles: 5, addressing_mode: AddressingMode::IndirectY }),
        0x55 => Some(OpCode { instruction: Instruction::EOR, bytes: 2, cycles: 4, addressing_mode: AddressingMode::ZeroPageX }),
        0x56 => Some(OpCode { instruction: Instruction::LSR, bytes: 2, cycles: 6, addressing_mode: AddressingMode::ZeroPageX }),
        0x58 => Some(OpCode { instruction: Instruction::CLI, bytes: 1, cycles: 2, addressing_mode: AddressingMode::Implicit }),
        0x59 => Some(OpCode { instruction: Instruction::EOR, bytes: 3, cycles: 4, addressing_mode: AddressingMode::AbsoluteY }),
        0x5D => Some(OpCode { instruction: Instruction::EOR, bytes: 3, cycles: 4, addressing_mode: AddressingMode::AbsoluteX }),
        0x5E => Some(OpCode { instruction: Instruction::LSR, bytes: 3, cycles: 7, addressing_mode: AddressingMode::AbsoluteX }),
        0x60 => Some(OpCode { instruction: Instruction::RTS, bytes: 1, cycles: 6, addressing_mode: AddressingMode::Implicit }),
        0x61 => Some(OpCode { instruction: Instruction::ADC, bytes: 2, cycles: 6, addressing_mode: AddressingMode::IndirectX }),
        0x65 => Some(OpCode { instruction: Instruction::ADC, bytes: 2, cycles: 3, addressing_mode: AddressingMode::ZeroPage }),
        0x66 => Some(OpCode { instruction: Instruction::ROR, bytes: 2, cycles: 5, addressing_mode: AddressingMode::ZeroPage }),
        0x68 => Some(OpCode { instruction: Instruction::PLA, bytes: 1, cycles: 4, addressing_mode: AddressingMode::Implicit }),
        0x69 => Some(OpCode { instruction: Instruction::ADC, bytes: 2, cycles: 2, addressing_mode: AddressingMode::Immediate }),
        0x6A => Some(OpCode { instruction: Instruction::RORA, bytes: 1, cycles: 2, addressing_mode: AddressingMode::Accumulator }),
        0x6C => Some(OpCode { instruction: Instruction::JMP, bytes: 3, cycles: 5, addressing_mode: AddressingMode::Indirect }),
        0x6D => Some(OpCode { instruction: Instruction::ADC, bytes: 3, cycles: 4, addressing_mode: AddressingMode::Absolute }),
        0x6E => Some(OpCode { instruction: Instruction::ROR, bytes: 3, cycles: 6, addressing_mode: AddressingMode::Absolute }),
        0x70 => Some(OpCode { instruction: Instruction::BVS, bytes: 2, cycles: 2, addressing_mode: AddressingMode::Relative }),
        0x71 => Some(OpCode { instruction: Instruction::ADC, bytes: 2, cycles: 5, addressing_mode: AddressingMode::IndirectY }),
        0x75 => Some(OpCode { instruction: Instruction::ADC, bytes: 2, cycles: 4, addressing_mode: AddressingMode::ZeroPageX }),
        0x76 => Some(OpCode { instruction: Instruction::ROR, bytes: 2, cycles: 6, addressing_mode: AddressingMode::ZeroPageX }),
        0x78 => Some(OpCode { instruction: Instruction::SEI, bytes: 1, cycles: 2, addressing_mode: AddressingMode::Implicit }),
        0x79 => Some(OpCode { instruction: Instruction::ADC, bytes: 3, cycles: 4, addressing_mode: AddressingMode::AbsoluteY }),
        0x7D => Some(OpCode { instruction: Instruction::ADC, bytes: 3, cycles: 4, addressing_mode: AddressingMode::AbsoluteX }),
        0x7E => Some(OpCode { instruction: Instruction::ROR, bytes: 3, cycles: 7, addressing_mode: AddressingMode::AbsoluteX }),
        0x81 => Some(OpCode { instruction: Instruction::STA, bytes: 2, cycles: 6, addressing_mode: AddressingMode::IndirectX }),
        0x84 => Some(OpCode { instruction: Instruction::STY, bytes: 2, cycles: 3, addressing_mode: AddressingMode::ZeroPage }),
        0x85 => Some(OpCode { instruction: Instruction::STA, bytes: 2, cycles: 3, addressing_mode: AddressingMode::ZeroPage }),
        0x86 => Some(OpCode { instruction: Instruction::STX, bytes: 2, cycles: 3, addressing_mode: AddressingMode::ZeroPage }),
        0x88 => Some(OpCode { instruction: Instruction::DEY, bytes: 1, cycles: 2, addressing_mode: AddressingMode::Implicit }),
        0x8A => Some(OpCode { instruction: Instruction::TXA, bytes: 1, cycles: 2, addressing_mode: AddressingMode::Implicit }),
        0x8C => Some(OpCode { instruction: Instruction::STY, bytes: 3, cycles: 4, addressing_mode: AddressingMode::Absolute }),
        0x8D => Some(OpCode { instruction: Instruction::STA, bytes: 3, cycles: 4, addressing_mode: AddressingMode::Absolute }),
        0x8E => Some(OpCode { instruction: Instruction::STX, bytes: 3, cycles: 4, addressing_mode: AddressingMode::Absolute }),
        0x90 => Some(OpCode { instruction: Instruction::BCC, bytes: 2, cycles: 2, addressing_mode: AddressingMode::Relative }),
        0x91 => Some(OpCode { instruction: Instruction::STA, bytes: 2, cycles: 6, addressing_mode: AddressingMode::IndirectY }),
        0x94 => Some(OpCode { instruction: Instruction::STY, bytes: 2, cycles: 4, addressing_mode: AddressingMode::ZeroPageX }),
        0x95 => Some(OpCode { instruction: Instruction::STA, bytes: 2, cycles: 4, addressing_mode: AddressingMode::ZeroPageX }),
        0x96 => Some(OpCode { instruction: Instruction::STX, bytes: 2, cycles: 4, addressing_mode: AddressingMode::ZeroPageY }),
        0x98 => Some(OpCode { instruction: Instruction::TYA, bytes: 1, cycles: 2, addressing_mode: AddressingMode::Implicit }),
        0x99 => Some(OpCode { instruction: Instruction::STA, bytes: 3, cycles: 5, addressing_mode: AddressingMode::AbsoluteY }),
        0x9A => Some(OpCode { instruction: Instruction::TXS, bytes: 1, cycles: 2, addressing_mode: AddressingMode::Implicit }),
        0x9D => Some(OpCode { instruction: Instruction::STA, bytes: 3, cycles: 5, addressing_mode: AddressingMode::AbsoluteX }),
        0xA0 => Some(OpCode { instruction: Instruction::LDY, bytes: 2, cycles: 2, addressing_mode: AddressingMode::Immediate }),
        0xA1 => Some(OpCode { instruction: Instruction::LDA, bytes: 2, cycles: 6, addressing_mode: AddressingMode::IndirectX }),
        0xA2 => Some(OpCode { instruction: Instruction::LDX, bytes: 2, cycles: 2, addressing_mode: AddressingMode::Immediate }),
        0xA4 => Some(OpCode { instruction: Instruction::LDY, bytes: 2, cycles: 3, addressing_mode: AddressingMode::ZeroPage }),
        0xA5 => Some(OpCode { instruction: Instruction::LDA, bytes: 2, cycles: 3, addressing_mode: AddressingMode::ZeroPage }),
        0xA6 => Some(OpCode { instruction: Instruction::LDX, bytes: 2, cycles: 3, addressing_mode: AddressingMode::ZeroPage }),
        0xA8 => Some(OpCode { instruction: Instruction::TAY, bytes: 1, cycles: 2, addressing_mode: AddressingMode::Implicit }),
        0xA9 => Some(OpCode { instruction: Instruction::LDA, bytes: 2, cycles: 2, addressing_mode: AddressingMode::Immediate }),
        0xAA => Some(OpCode { instruction: Instruction::TAX, bytes: 1, cycles: 2, addressing_mode: AddressingMode::Implicit }),
        0xAC => Some(OpCode { instruction: Instruction::LDY, bytes: 3, cycles: 4, addressing_mode: AddressingMode::Absolute }),
        0xAD => Some(OpCode { instruction: Instruction::LDA, bytes: 3, cycles: 4, addressing_mode: AddressingMode::Absolute }),
        0xAE => Some(OpCode { instruction: Instruction::LDX, bytes: 3, cycles: 4, addressing_mode: AddressingMode::Absolute }),
        0xB0 => Some(OpCode { instruction: Instruction::BCS, bytes: 2, cycles: 2, addressing_mode: AddressingMode::Relative }),
        0xB1 => Some(OpCode { instruction: Instruction::LDA, bytes: 2, cycles: 5, addressing_mode: AddressingMode::IndirectY }),
        0xB4 => Some(OpCode { instruction: Instruction::LDY, bytes: 2, cycles: 4, addressing_mode: AddressingMode::ZeroPageX }),
        0xB5 => Some(OpCode { instruction: Instruction::LDA, bytes: 2, cycles: 4, addressing_mode: AddressingMode::ZeroPageX }),
        0xB6 => Some(OpCode { instruction: Instruction::LDX, bytes: 2, cycles: 4, addressing_mode: AddressingMode::ZeroPageY }),
        0xB8 => Some(OpCode { instruction: Instruction::CLV, bytes: 1, cycles: 2, addressing_mode: AddressingMode::Implicit }),
        0xB9 => Some(OpCode { instruction: Instruction::LDA, bytes: 3, cycles: 4, addressing_mode: AddressingMode::AbsoluteY }),
        0xBA => Some(OpCode { instruction: Instruction::TSX, bytes: 1, cycles: 2, addressing_mode: AddressingMode::Implicit }),
        0xBC => Some(OpCode { instruction: Instruction::LDY, bytes: 3, cycles: 4, addressing_mode: AddressingMode::AbsoluteX }),
        0xBD => Some(OpCode { instruction: Instruction::LDA, bytes: 3, cycles: 4, addressing_mode: AddressingMode::AbsoluteX }),
        0xBE => Some(OpCode { instruction: Instruction::LDX, bytes: 3, cycles: 4, addressing_mode: AddressingMode::AbsoluteY }),
        0xC0 => Some(OpCode { instruction: Instruction::CPY, bytes: 2, cycles: 2, addressing_mode: AddressingMode::Immediate }),
        0xC1 => Some(OpCode { instruction: Instruction::CMP, bytes: 2, cycles: 6, addressing_mode: AddressingMode::IndirectX }),
        0xC4 => Some(OpCode { instruction: Instruction::CPY, bytes: 2, cycles: 3, addressing_mode: AddressingMode::ZeroPage }),
        0xC5 => Some(OpCode { instruction: Instruction::CMP, bytes: 2, cycles: 3, addressing_mode: AddressingMode::ZeroPage }),
        0xC6 => Some(OpCode { instruction: Instruction::DEC, bytes: 2, cycles: 5, addressing_mode: AddressingMode::ZeroPage }),
        0xC8 => Some(OpCode { instruction: Instruction::INY, bytes: 1, cycles: 2, addressing_mode: AddressingMode::Implicit }),
        0xC9 => Some(OpCode { instruction: Instruction::CMP, bytes: 2, cycles: 2, addressing_mode: AddressingMode::Immediate }),
        0xCA => Some(OpCode { instruction: Instruction::DEX, bytes: 1, cycles: 2, addressing_mode: AddressingMode::Implicit }),
        0xCC => Some(OpCode { instruction: Instruction::CPY, bytes: 3, cycles: 4, addressing_mode: AddressingMode::Absolute }),
        0xCD => Some(OpCode { instruction: Instruction::CMP, bytes: 3, cycles: 4, addressing_mode: AddressingMode::Absolute }),
        0xCE => Some(OpCode { instruction: Instruction::DEC, bytes: 3, cycles: 6, addressing_mode: AddressingMode::Absolute }),
        0xD0 => Some(OpCode { instruction: Instruction::BNE, bytes: 2, cycles: 2, addressing_mode: AddressingMode::Relative }),
        0xD1 => Some(OpCode { instruction: Instruction::CMP, bytes: 2, cycles: 5, addressing_mode: AddressingMode::IndirectY }),
        0xD5 => Some(OpCode { instruction: Instruction::CMP, bytes: 2, cycles: 4, addressing_mode: AddressingMode::ZeroPageX }),
        0xD6 => Some(OpCode { instruction: Instruction::DEC, bytes: 2, cycles: 6, addressing_mode: AddressingMode::ZeroPageX }),
        0xD8 => Some(OpCode { instruction: Instruction::CLD, bytes: 1, cycles: 2, addressing_mode: AddressingMode::Implicit }),
        0xD9 => Some(OpCode { instruction: Instruction::CMP, bytes: 3, cycles: 4, addressing_mode: AddressingMode::AbsoluteY }),
        0xDD => Some(OpCode { instruction: Instruction::CMP, bytes: 3, cycles: 4, addressing_mode: AddressingMode::AbsoluteX }),
        0xDE => Some(OpCode { instruction: Instruction::DEC, bytes: 3, cycles: 7, addressing_mode: AddressingMode::AbsoluteX }),
        0xE0 => Some(OpCode { instruction: Instruction::CPX, bytes: 2, cycles: 2, addressing_mode: AddressingMode::Immediate }),
        0xE1 => Some(OpCode { instruction: Instruction::SBC, bytes: 2, cycles: 6, addressing_mode: AddressingMode::IndirectX }),
        0xE4 => Some(OpCode { instruction: Instruction::CPX, bytes: 2, cycles: 3, addressing_mode: AddressingMode::ZeroPage }),
        0xE5 => Some(OpCode { instruction: Instruction::SBC, bytes: 2, cycles: 3, addressing_mode: AddressingMode::ZeroPage }),
        0xE6 => Some(OpCode { instruction: Instruction::INC, bytes: 2, cycles: 5, addressing_mode: AddressingMode::ZeroPage }),
        0xE8 => Some(OpCode { instruction: Instruction::INX, bytes: 1, cycles: 2, addressing_mode: AddressingMode::Implicit }),
        0xE9 => Some(OpCode { instruction: Instruction::SBC, bytes: 2, cycles: 2, addressing_mode: AddressingMode::Immediate }),
        0xEA => Some(OpCode { instruction: Instruction::NOP, bytes: 1, cycles: 2, addressing_mode: AddressingMode::Implicit }),
        0xEC => Some(OpCode { instruction: Instruction::CPX, bytes: 3, cycles: 4, addressing_mode: AddressingMode::Absolute }),
        0xED => Some(OpCode { instruction: Instruction::SBC, bytes: 3, cycles: 4, addressing_mode: AddressingMode::Absolute }),
        0xEE => Some(OpCode { instruction: Instruction::INC, bytes: 3, cycles: 6, addressing_mode: AddressingMode::Absolute }),
        0xF0 => Some(OpCode { instruction: Instruction::BEQ, bytes: 2, cycles: 2, addressing_mode: AddressingMode::Relative }),
        0xF1 => Some(OpCode { instruction: Instruction::SBC, bytes: 2, cycles: 5, addressing_mode: AddressingMode::IndirectY }),
        0xF5 => Some(OpCode { instruction: Instruction::SBC, bytes: 2, cycles: 4, addressing_mode: AddressingMode::ZeroPageX }),
        0xF6 => Some(OpCode { instruction: Instruction::INC, bytes: 2, cycles: 6, addressing_mode: AddressingMode::ZeroPageX }),
        0xF8 => Some(OpCode { instruction: Instruction::SED, bytes: 1, cycles: 2, addressing_mode: AddressingMode::Implicit }),
        0xF9 => Some(OpCode { instruction: Instruction::SBC, bytes: 3, cycles: 4, addressing_mode: AddressingMode::AbsoluteY }),
        0xFD => Some(OpCode { instruction: Instruction::SBC, bytes: 3, cycles: 4, addressing_mode: AddressingMode::AbsoluteX }),
        0xFE => Some(OpCode { instruction: Instruction::INC, bytes: 3, cycles: 7, addressing_mode: AddressingMode::AbsoluteX }),
        _ => None,
    }
}

/// Bytes that an addressing mode takes after the opcode.
pub open spec fn operand_len(mode: AddressingMode) -> int {
    match mode {
        AddressingMode::Implicit | AddressingMode::Accumulator => 0,
        AddressingMode::Absolute
        | AddressingMode::AbsoluteX
        | AddressingMode::AbsoluteY
        | AddressingMode::Indirect => 2,
        _ => 1,
    }
}

/// Every row of the table gives its instruction the length that its
/// addressing mode asks for, and between 2 and 7 cycles; every branch is
/// relative.
pub proof fn lemma_table_rows(code: u8)
    ensures
        match spec_lookup(code) {
            Some(op) => {
                &&& op.bytes == 1 + operand_len(op.addressing_mode)
                &&& 2 <= op.cycles <= 7
                &&& op.instruction.is_branch() ==> op.addressing_mode == AddressingMode::Relative
            },
            None => true,
        },
{
    reveal(spec_lookup);
    if code < 0x20 {
    } else if code < 0x40 {
    } else if code < 0x60 {
    } else if code < 0x80 {
    } else if code < 0xA0 {
    } else if code < 0xC0 {
    } else if code < 0xE0 {
    } else {
    }
}

} // verus!
