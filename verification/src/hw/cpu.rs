//! The processor: a 6502 that reaches everything else through the bus.

pub mod execute;
pub mod instructions;
pub mod opcodes;
pub mod tracer;

use vstd::prelude::*;
use crate::hw::bits::{has_flag, set_flag, test_flag, with_flag};
use crate::hw::bus::{Bus, BusError};
use crate::hw::bytes::zeros;
use crate::hw::cartridge::{Cartridge, ScreenMirroring};

verus! {

/// The page that holds the stack.
pub const STACK_PAGE: u16 = 0x0100;

/// The stack pointer after a reset.
pub const STACK_START: u8 = 0xFD;

/// The status register after a reset: interrupts disabled, bit 5 set.
pub const STATUS_START: u8 = 0b0010_0100;

/// Where the address of the interrupt handler of the picture unit lies.
pub const NMI_VECTOR: u16 = 0xFFFA;

/// Where the address at which a reset starts the program lies.
pub const RESET_VECTOR: u16 = 0xFFFC;

/// Where the address of the handler of the software interrupt lies.
pub const BRK_VECTOR: u16 = 0xFFFE;

/// Where `load` puts a program.
pub const PROGRAM_START: u16 = 0x8000;

/// Cycles that entering the interrupt handler takes.
pub const NMI_CYCLES: u8 = 7;

/// The opcode of the software interrupt, at which `run` stops.
pub const BRK_OPCODE: u8 = 0x00;

/// The status register.
///
/// ```text
/// 7 6 5 4 3 2 1 0
/// N V - B D I Z C
/// ```
#[derive(Clone, Copy, Debug, PartialEq, Eq, Structural)]
pub struct CpuFlags {
    pub bits: u8,
}

impl CpuFlags {
    pub const CARRY: u8 = 0b0000_0001;
    pub const ZERO: u8 = 0b0000_0010;
    pub const INTERRUPT: u8 = 0b0000_0100;
    pub const DECIMAL: u8 = 0b0000_1000;
    pub const BREAK: u8 = 0b0001_0000;
    pub const BIT5: u8 = 0b0010_0000;
    pub const OVERFLOW: u8 = 0b0100_0000;
    pub const NEGATIVE: u8 = 0b1000_0000;

    /// No flag set.
    pub fn empty() -> (r: CpuFlags)
        ensures
            r.bits == 0,
    {
        CpuFlags { bits: 0 }
    }

    /// The register that holds `bits`; every bit is a flag, so this never
    /// fails.
    pub fn from_bits(bits: u8) -> (r: Option<CpuFlags>)
        ensures
            r == Some(CpuFlags { bits }),
    {
        Some(CpuFlags { bits })
    }

    pub open spec fn spec_bits(self) -> u8 {
        self.bits
    }

    #[verifier::when_used_as_spec(spec_bits)]
    pub fn bits(self) -> (r: u8)
        ensures
            r == self.bits,
    {
        self.bits
    }

    pub open spec fn spec_contains(self, mask: u8) -> bool {
        has_flag(self.bits, mask)
    }

    /// Every flag of `mask` is set.
    #[verifier::when_used_as_spec(spec_contains)]
    pub fn contains(self, mask: u8) -> (r: bool)
        ensures
            r == has_flag(self.bits, mask),
    {
        test_flag(self.bits, mask)
    }

    /// The flags that are set here and in `mask`.
    pub fn bitand(self, mask: u8) -> (r: CpuFlags)
        ensures
            r.bits == self.bits & mask,
    {
        CpuFlags { bits: self.bits & mask }
    }

    /// The register with the flags of `mask` set (`on`) or cleared.
    pub open spec fn with(self, mask: u8, on: bool) -> CpuFlags {
        CpuFlags { bits: with_flag(self.bits, mask, on) }
    }

    /// The register with Zero and Negative taken from the byte `value`:
    /// Zero is set if and only if it is 0, Negative if and only if its
    /// bit 7 is set.
    pub open spec fn with_zn(self, value: u8) -> CpuFlags {
        self.with(Self::ZERO, value == 0).with(Self::NEGATIVE, value >= 0x80)
    }

    /// The register as it is pushed by an instruction: Break and bit 5
    /// set.
    pub open spec fn pushed_by_instruction(self) -> u8 {
        self.with(Self::BREAK, true).with(Self::BIT5, true).bits
    }

    /// The register as it is pushed when an interrupt is taken: Break
    /// clear, bit 5 set.
    pub open spec fn pushed_by_interrupt(self) -> u8 {
        self.with(Self::BREAK, false).with(Self::BIT5, true).bits
    }

    /// The register that pulling the byte `value` gives: Break is cleared
    /// and bit 5 set, whatever the byte holds.
    pub open spec fn pulled(value: u8) -> CpuFlags {
        (CpuFlags { bits: value }).with(Self::BREAK, false).with(Self::BIT5, true)
    }

    pub fn insert(&mut self, mask: u8)
        ensures
            *final(self) == old(self).with(mask, true),
    {
        self.bits = set_flag(self.bits, mask, true);
    }

    pub fn remove(&mut self, mask: u8)
        ensures
            *final(self) == old(self).with(mask, false),
    {
        self.bits = set_flag(self.bits, mask, false);
    }

    pub fn set(&mut self, mask: u8, on: bool)
        ensures
            *final(self) == old(self).with(mask, on),
    {
        self.bits = set_flag(self.bits, mask, on);
    }
}

#[derive(Debug, Clone, Copy, PartialEq, Eq, Structural)]
pub enum AddressingMode {
    Immediate,
    ZeroPage,
    ZeroPageX,
    ZeroPageY,
    Absolute,
    AbsoluteX,
    AbsoluteY,
    IndirectX,
    IndirectY,
    Indirect,
    Relative,
    Accumulator,
    Implicit,
}

/// Where an instruction's operand lies.
#[derive(Debug, Clone, Copy, PartialEq, Eq, Structural)]
pub struct Operand {
    pub addr: u16,
    /// Adding the index, or the branch offset, led into another page.
    pub page_crossed: bool,
}

/// Why the processor stopped.
#[derive(Debug, Clone, Copy, PartialEq, Eq, Structural)]
pub enum CpuError {
    /// The byte at the program counter is no official opcode.
    IllegalOpcode { opcode: u8, pc: u16 },
    /// An instruction wrote to the program ROM.
    WriteToRom { addr: u16 },
}

/// What one step did besides changing the machine.
#[derive(Debug, Clone, Copy, PartialEq, Eq, Structural)]
pub struct StepOutcome {
    /// Processor cycles that the step took.
    pub cycles: u8,
    /// A frame of the picture unit ended during the step.
    pub frame_complete: bool,
}

pub struct CPU {
    pub register_a: u8,
    pub register_x: u8,
    pub register_y: u8,
    pub status: CpuFlags,
    pub stack_pointer: u8,
    pub program_counter: u16,
    pub bus: Bus,
}

/// `a + b` in 16 bits, wrapping.
pub open spec fn add16(a: u16, b: int) -> u16 {
    ((a + b) % 0x1_0000) as u16
}

/// `a + b` in 8 bits, wrapping.
pub open spec fn add8(a: u8, b: int) -> u8 {
    ((a + b) % 0x100) as u8
}

/// The 16-bit word with low byte `lo` and high byte `hi`.
pub open spec fn word(lo: u8, hi: u8) -> u16 {
    (lo + 256 * hi) as u16
}

/// The address `index` bytes past `base`, and whether it lies in another
/// page.
pub open spec fn indexed(base: u16, index: u8) -> Operand {
    Operand { addr: add16(base, index as int), page_crossed: base / 256 != add16(base, index as int) / 256 }
}

/// The branch offset that a byte stands for: -128 to 127.
pub open spec fn signed(offset: u8) -> int {
    if offset < 128 {
        offset as int
    } else {
        offset - 256
    }
}

/// The address after `ptr` within the page of `ptr`: the last byte of a
/// page is followed by its first.
pub open spec fn next_in_page(ptr: u16) -> u16 {
    if ptr % 256 == 255 {
        (ptr - 255) as u16
    } else {
        (ptr + 1) as u16
    }
}

/// The 32 KiB of program ROM that `load` makes of a program: the program
/// from the first byte on, zeros after it, and 0x8000 as the reset vector.
pub open spec fn program_image(program: Seq<u8>) -> Seq<u8> {
    Seq::new(
        0x8000,
        |i: int|
            if i == 0x7FFC {
                0x00u8
            } else if i == 0x7FFD {
                0x80u8
            } else if i < program.len() {
                program[i]
            } else {
                0u8
            },
    )
}

pub(crate) fn wrap8(a: u8, b: u8) -> (r: u8)
    ensures
        r == add8(a, b as int),
{
    a.wrapping_add(b)
}

pub(crate) fn wrap16(a: u16, b: u16) -> (r: u16)
    ensures
        r == add16(a, b as int),
{
    a.wrapping_add(b)
}

pub(crate) fn unwrap8(a: u8, b: u8) -> (r: u8)
    ensures
        r == add8(a, -b),
{
    a.wrapping_sub(b)
}

pub(crate) fn make_word(lo: u8, hi: u8) -> (r: u16)
    ensures
        r == word(lo, hi),
{
    hi as u16 * 256 + lo as u16
}

pub(crate) fn branch_target(next: u16, offset: u8) -> (r: u16)
    ensures
        r == add16(next, signed(offset)),
{
    if offset < 128 {
        next.wrapping_add(offset as u16)
    } else {
        next.wrapping_sub(256 - offset as u16)
    }
}

impl CPU {
    pub open spec fn wf(&self) -> bool {
        self.bus.wf()
    }

    /// Says whether the machine is in a state that its own operations
    /// leave it in.
    pub fn is_wf(&self) -> (ok: bool)
        ensures
            ok == self.wf(),
    {
        self.bus.is_wf()
    }

    // ---------------------------------------------------------------
    // Memory
    // ---------------------------------------------------------------

    /// What a read of `addr` returns.
    pub open spec fn read(&self, addr: u16) -> u8 {
        self.bus.read_value(addr)
    }

    /// The processor after a read of `addr`.
    pub open spec fn after_mem_read(&self, addr: u16) -> CPU {
        CPU { bus: self.bus.after_read(addr), ..*self }
    }

    /// The processor after a write of `data` to `addr`.
    pub open spec fn after_mem_write(&self, addr: u16, data: u8) -> CPU {
        CPU { bus: self.bus.after_write(addr, data), ..*self }
    }

    /// The word that reading `addr` and then the address after it gives,
    /// low byte first.
    pub open spec fn read_u16(&self, addr: u16) -> u16 {
        word(self.read(addr), self.after_mem_read(addr).read(add16(addr, 1)))
    }

    /// The processor after the two reads of `read_u16`.
    pub open spec fn after_read_u16(&self, addr: u16) -> CPU {
        self.after_mem_read(addr).after_mem_read(add16(addr, 1))
    }

    /// The word that a pointer in the zero page holds; a pointer at 0xFF
    /// has its high byte at 0x00.
    pub open spec fn zero_page_word(&self, ptr: u8) -> u16 {
        word(self.bus.cpu_vram[ptr as int], self.bus.cpu_vram[add8(ptr, 1) as int])
    }

    /// The word that `ptr` points at, the high byte taken from the page of
    /// the low byte.
    pub open spec fn read_u16_in_page(&self, ptr: u16) -> u16 {
        word(self.read(ptr), self.after_mem_read(ptr).read(next_in_page(ptr)))
    }

    /// The processor after the two reads of `read_u16_in_page`.
    pub open spec fn after_read_u16_in_page(&self, ptr: u16) -> CPU {
        self.after_mem_read(ptr).after_mem_read(next_in_page(ptr))
    }

    pub fn mem_read(&mut self, addr: u16) -> (data: u8)
        requires
            old(self).wf(),
        ensures
            final(self).wf(),
            data == old(self).read(addr),
            *final(self) == old(self).after_mem_read(addr),
    {
        self.bus.mem_read(addr)
    }

    pub fn mem_write(&mut self, addr: u16, data: u8) -> (r: Result<(), BusError>)
        requires
            old(self).wf(),
        ensures
            final(self).wf(),
            *final(self) == old(self).after_mem_write(addr, data),
            match r {
                Ok(_) => Bus::write_error(addr) is None,
                Err(e) => Bus::write_error(addr) == Some(e),
            },
    {
        self.bus.mem_write(addr, data)
    }

    pub fn mem_read_u16(&mut self, addr: u16) -> (data: u16)
        requires
            old(self).wf(),
        ensures
            final(self).wf(),
            data == old(self).read_u16(addr),
            *final(self) == old(self).after_read_u16(addr),
    {
        let lo = self.mem_read(addr);
        let hi = self.mem_read(wrap16(addr, 1));
        make_word(lo, hi)
    }

    /// Writes a word, low byte first.
    pub fn mem_write_u16(&mut self, addr: u16, data: u16) -> (r: Result<(), BusError>)
        requires
            old(self).wf(),
        ensures
            final(self).wf(),
            match r {
                Ok(_) => {
                    &&& Bus::write_error(addr) is None
                    &&& Bus::write_error(add16(addr, 1)) is None
                    &&& *final(self) == old(self).after_mem_write(
                        addr,
                        (data % 256) as u8,
                    ).after_mem_write(add16(addr, 1), (data / 256) as u8)
                },
                Err(e) => if Bus::write_error(addr) is Some {
                    Bus::write_error(addr) == Some(e) && *final(self) == old(self).after_mem_write(
                        addr,
                        (data % 256) as u8,
                    )
                } else {
                    Bus::write_error(add16(addr, 1)) == Some(e) && *final(self) == old(
                        self,
                    ).after_mem_write(addr, (data % 256) as u8).after_mem_write(
                        add16(addr, 1),
                        (data / 256) as u8,
                    )
                },
            },
    {
        let hi: u8 = (data / 256) as u8;
        let lo: u8 = (data % 256) as u8;
        match self.mem_write(addr, lo) {
            Ok(_) => self.mem_write(wrap16(addr, 1), hi),
            Err(e) => Err(e),
        }
    }

    // ---------------------------------------------------------------
    // Stack
    // ---------------------------------------------------------------

    /// The processor after `data` was pushed: the byte lies at 0x0100 plus
    /// the stack pointer, which has gone down by one and wraps.
    pub open spec fn after_push(&self, data: u8) -> CPU {
        CPU {
            bus: Bus {
                cpu_vram: vstd::array::spec_array_update(
                    self.bus.cpu_vram,
                    STACK_PAGE + self.stack_pointer,
                    data,
                ),
                ..self.bus
            },
            stack_pointer: add8(self.stack_pointer, -1),
            ..*self
        }
    }

    /// The byte that a pull gives: the one above the stack pointer.
    pub open spec fn pulled(&self) -> u8 {
        self.bus.cpu_vram[STACK_PAGE + add8(self.stack_pointer, 1)]
    }

    /// The processor after a pull: the stack pointer has gone up by one
    /// and wraps.
    pub open spec fn after_pull(&self) -> CPU {
        CPU { stack_pointer: add8(self.stack_pointer, 1), ..*self }
    }

    pub(crate) fn stack_push(&mut self, data: u8)
        requires
            old(self).wf(),
        ensures
            final(self).wf(),
            *final(self) == old(self).after_push(data),
    {
        reveal(Bus::after_write);
        let r = self.bus.mem_write(STACK_PAGE + self.stack_pointer as u16, data);
        self.stack_pointer = self.stack_pointer.wrapping_sub(1);
        assert(r is Ok);
    }

    pub(crate) fn stack_pop(&mut self) -> (data: u8)
        requires
            old(self).wf(),
        ensures
            final(self).wf(),
            data == old(self).pulled(),
            *final(self) == old(self).after_pull(),
    {
        reveal(Bus::read_value);
        reveal(Bus::after_read);
        self.stack_pointer = self.stack_pointer.wrapping_add(1);
        self.bus.mem_read(STACK_PAGE + self.stack_pointer as u16)
    }

    /// The processor after a word was pushed, high byte first.
    pub open spec fn after_push_u16(&self, data: u16) -> CPU {
        self.after_push((data / 256) as u8).after_push((data % 256) as u8)
    }

    /// The word that two pulls give, low byte first.
    pub open spec fn pulled_u16(&self) -> u16 {
        word(self.pulled(), self.after_pull().pulled())
    }

    pub(crate) fn stack_push_u16(&mut self, data: u16)
        requires
            old(self).wf(),
        ensures
            final(self).wf(),
            *final(self) == old(self).after_push_u16(data),
    {
        self.stack_push((data / 256) as u8);
        self.stack_push((data % 256) as u8);
    }

    pub(crate) fn stack_pop_u16(&mut self) -> (data: u16)
        requires
            old(self).wf(),
        ensures
            final(self).wf(),
            data == old(self).pulled_u16(),
            *final(self) == old(self).after_pull().after_pull(),
    {
        let lo = self.stack_pop();
        let hi = self.stack_pop();
        make_word(lo, hi)
    }

    // ---------------------------------------------------------------
    // Operands
    // ---------------------------------------------------------------

    /// Where the operand of an instruction in mode `mode` lies, the
    /// program counter standing just past the opcode.
    ///
    /// - Immediate: at the program counter.
    /// - Zero page: at the byte that follows the opcode; with X or Y, that
    ///   byte plus the register, wrapping within the zero page.
    /// - Absolute: at the word that follows the opcode; with X or Y, that
    ///   word plus the register.
    /// - (Indirect,X): at the word that the zero page holds at the
    ///   operand byte plus X.
    /// - (Indirect),Y: at the word that the zero page holds at the operand
    ///   byte, plus Y.
    /// - Indirect: at the word at the operand word, its high byte taken
    ///   from the same page as its low byte.
    /// - Relative: the operand byte as a signed offset from the next
    ///   instruction.
    /// - Accumulator, implicit: there is no operand, and the result is the
    ///   program counter.
    pub open spec fn operand(&self, mode: AddressingMode) -> Operand {
        let pc = self.program_counter;
        match mode {
            AddressingMode::Immediate | AddressingMode::Accumulator | AddressingMode::Implicit => Operand {
                addr: pc,
                page_crossed: false,
            },
            AddressingMode::ZeroPage => Operand { addr: self.read(pc) as u16, page_crossed: false },
            AddressingMode::ZeroPageX => Operand {
                addr: add8(self.read(pc), self.register_x as int) as u16,
                page_crossed: false,
            },
            AddressingMode::ZeroPageY => Operand {
                addr: add8(self.read(pc), self.register_y as int) as u16,
                page_crossed: false,
            },
            AddressingMode::Absolute => Operand { addr: self.read_u16(pc), page_crossed: false },
            AddressingMode::AbsoluteX => indexed(self.read_u16(pc), self.register_x),
            AddressingMode::AbsoluteY => indexed(self.read_u16(pc), self.register_y),
            AddressingMode::IndirectX => Operand {
                addr: self.zero_page_word(add8(self.read(pc), self.register_x as int)),
                page_crossed: false,
            },
            AddressingMode::IndirectY => indexed(self.zero_page_word(self.read(pc)), self.register_y),
            AddressingMode::Indirect => Operand {
                addr: self.after_read_u16(pc).read_u16_in_page(self.read_u16(pc)),
                page_crossed: false,
            },
            AddressingMode::Relative => Operand {
                addr: add16(add16(pc, 1), signed(self.read(pc))),
                page_crossed: add16(pc, 1) / 256 != add16(add16(pc, 1), signed(self.read(pc))) / 256,
            },
        }
    }

    /// The processor after the reads that finding the operand takes.
    pub open spec fn after_addressing(&self, mode: AddressingMode) -> CPU {
        let pc = self.program_counter;
        match mode {
            AddressingMode::Immediate | AddressingMode::Accumulator | AddressingMode::Implicit => *self,
            AddressingMode::Absolute | AddressingMode::AbsoluteX | AddressingMode::AbsoluteY => self.after_read_u16(
                pc,
            ),
            AddressingMode::Indirect => self.after_read_u16(pc).after_read_u16_in_page(
                self.read_u16(pc),
            ),
            _ => self.after_mem_read(pc),
        }
    }

    /// The operand itself: the byte at the operand's address.
    pub open spec fn operand_value(&self, mode: AddressingMode) -> u8 {
        self.after_addressing(mode).read(self.operand(mode).addr)
    }

    /// The processor after the operand was found and read.
    pub open spec fn after_operand_read(&self, mode: AddressingMode) -> CPU {
        self.after_addressing(mode).after_mem_read(self.operand(mode).addr)
    }

    /// The error that writing to the operand meets, if any.
    pub open spec fn store_error(&self, mode: AddressingMode) -> Option<BusError> {
        Bus::write_error(self.operand(mode).addr)
    }

    pub(crate) fn zero_page_read_u16(&mut self, ptr: u8) -> (data: u16)
        requires
            old(self).wf(),
        ensures
            final(self).wf(),
            data == old(self).zero_page_word(ptr),
            *final(self) == *old(self),
    {
        reveal(Bus::read_value);
        reveal(Bus::after_read);
        let lo = self.mem_read(ptr as u16);
        let hi = self.mem_read(wrap8(ptr, 1) as u16);
        make_word(lo, hi)
    }

    pub(crate) fn index_address(base: u16, index: u8) -> (operand: Operand)
        ensures
            operand == indexed(base, index),
    {
        let addr = wrap16(base, index as u16);
        Operand { addr, page_crossed: base / 256 != addr / 256 }
    }

    pub(crate) fn read_u16_in_page_at(&mut self, ptr: u16) -> (data: u16)
        requires
            old(self).wf(),
        ensures
            final(self).wf(),
            data == old(self).read_u16_in_page(ptr),
            *final(self) == old(self).after_read_u16_in_page(ptr),
    {
        let lo = self.mem_read(ptr);
        let next: u16 = if ptr % 256 == 255 {
            ptr - 255
        } else {
            ptr + 1
        };
        let hi = self.mem_read(next);
        make_word(lo, hi)
    }

    pub(crate) fn relative_operand(&mut self) -> (operand: Operand)
        requires
            old(self).wf(),
        ensures
            final(self).wf(),
            operand == old(self).operand(AddressingMode::Relative),
            *final(self) == old(self).after_addressing(AddressingMode::Relative),
    {
        let pc = self.program_counter;
        let offset = self.mem_read(pc);
        let next = wrap16(pc, 1);
        let addr = branch_target(next, offset);
        Operand { addr, page_crossed: next / 256 != addr / 256 }
    }

    pub(crate) fn indirect_operand(&mut self, mode: AddressingMode) -> (operand: Operand)
        requires
            old(self).wf(),
            mode == AddressingMode::Indirect || mode == AddressingMode::IndirectX || mode
                == AddressingMode::IndirectY,
        ensures
            final(self).wf(),
            operand == old(self).operand(mode),
            *final(self) == old(self).after_addressing(mode),
    {
        reveal(Bus::after_read);
        let pc = self.program_counter;
        match mode {
            AddressingMode::IndirectX => {
                let base = self.mem_read(pc);
                let addr = self.zero_page_read_u16(wrap8(base, self.register_x));
                Operand { addr, page_crossed: false }
            },
            AddressingMode::IndirectY => {
                let ptr = self.mem_read(pc);
                let base = self.zero_page_read_u16(ptr);
                Self::index_address(base, self.register_y)
            },
            _ => {
                let ptr = self.mem_read_u16(pc);
                let addr = self.read_u16_in_page_at(ptr);
                Operand { addr, page_crossed: false }
            },
        }
    }

    pub(crate) fn zero_page_operand(&mut self, index: u8) -> (operand: Operand)
        requires
            old(self).wf(),
        ensures
            final(self).wf(),
            operand == (Operand {
                addr: add8(old(self).read(old(self).program_counter), index as int) as u16,
                page_crossed: false,
            }),
            *final(self) == old(self).after_mem_read(old(self).program_counter),
    {
        let pos = self.mem_read(self.program_counter);
        Operand { addr: wrap8(pos, index) as u16, page_crossed: false }
    }

    pub(crate) fn absolute_operand(&mut self, index: u8) -> (operand: Operand)
        requires
            old(self).wf(),
        ensures
            final(self).wf(),
            operand == indexed(old(self).read_u16(old(self).program_counter), index),
            *final(self) == old(self).after_read_u16(old(self).program_counter),
    {
        let base = self.mem_read_u16(self.program_counter);
        Self::index_address(base, index)
    }

    pub(crate) fn get_operand_address(&mut self, mode: AddressingMode) -> (operand: Operand)
        requires
            old(self).wf(),
        ensures
            final(self).wf(),
            operand == old(self).operand(mode),
            *final(self) == old(self).after_addressing(mode),
    {
        match mode {
            AddressingMode::Immediate | AddressingMode::Accumulator | AddressingMode::Implicit => Operand {
                addr: self.program_counter,
                page_crossed: false,
            },
            AddressingMode::ZeroPage => self.zero_page_operand(0),
            AddressingMode::ZeroPageX => self.zero_page_operand(self.register_x),
            AddressingMode::ZeroPageY => self.zero_page_operand(self.register_y),
            AddressingMode::Absolute => self.absolute_operand(0),
            AddressingMode::AbsoluteX => self.absolute_operand(self.register_x),
            AddressingMode::AbsoluteY => self.absolute_operand(self.register_y),
            AddressingMode::IndirectX => self.indirect_operand(mode),
            AddressingMode::IndirectY => self.indirect_operand(mode),
            AddressingMode::Indirect => self.indirect_operand(mode),
            AddressingMode::Relative => self.relative_operand(),
        }
    }

    pub(crate) fn get_operand_value(&mut self, mode: AddressingMode) -> (r: (u8, bool))
        requires
            old(self).wf(),
        ensures
            final(self).wf(),
            r.0 == old(self).operand_value(mode),
            r.1 == old(self).operand(mode).page_crossed,
            *final(self) == old(self).after_operand_read(mode),
    {
        let operand = self.get_operand_address(mode);
        let value = self.mem_read(operand.addr);
        (value, operand.page_crossed)
    }

    pub(crate) fn update_z_and_n_flags(&mut self, result: u8)
        ensures
            *final(self) == (CPU { status: old(self).status.with_zn(result), ..*old(self) }),
    {
        self.status.set(CpuFlags::ZERO, result == 0);
        self.status.set(CpuFlags::NEGATIVE, result >= 0x80);
    }
}

impl CPU {
    // ---------------------------------------------------------------
    // Set-up
    // ---------------------------------------------------------------

    /// A processor with every register at 0, on a bus without a
    /// cartridge.
    pub fn new() -> (cpu: CPU)
        ensures
            cpu.wf(),
            cpu.register_a == 0,
            cpu.register_x == 0,
            cpu.register_y == 0,
            cpu.status.bits == 0,
            cpu.stack_pointer == 0,
            cpu.program_counter == 0,
            cpu.bus.powered_on(None),
    {
        CPU::with_bus(Bus::new(None))
    }

    /// A processor with every register at 0, on the bus `bus`.
    pub fn with_bus(bus: Bus) -> (cpu: CPU)
        requires
            bus.wf(),
        ensures
            cpu.wf(),
            cpu == (CPU {
                register_a: 0,
                register_x: 0,
                register_y: 0,
                status: CpuFlags { bits: 0 },
                stack_pointer: 0,
                program_counter: 0,
                bus,
            }),
    {
        CPU {
            register_a: 0,
            register_x: 0,
            register_y: 0,
            status: CpuFlags { bits: 0 },
            stack_pointer: 0,
            program_counter: 0,
            bus,
        }
    }

    /// `self` is `before` with a cartridge put in that holds `program` at
    /// 0x8000 and names that address as the place to start from: 32 KiB of
    /// program ROM as `program_image` gives them, a character ROM of
    /// zeros, a fresh picture unit. Registers, RAM, controller and clock
    /// are those of `before`.
    pub open spec fn holds_program(&self, before: &CPU, program: Seq<u8>) -> bool {
        &&& self.register_a == before.register_a
        &&& self.register_x == before.register_x
        &&& self.register_y == before.register_y
        &&& self.status == before.status
        &&& self.stack_pointer == before.stack_pointer
        &&& self.program_counter == before.program_counter
        &&& self.bus.cpu_vram == before.bus.cpu_vram
        &&& self.bus.joypad1 == before.bus.joypad1
        &&& self.bus.cycles == before.bus.cycles
        &&& self.bus.dma_stall == before.bus.dma_stall
        &&& self.bus.ppu.is_fresh(Seq::new(0x2000, |i: int| 0u8), ScreenMirroring::Horizontal)
        &&& match self.bus.cartridge {
            Some(c) => {
                &&& c.prg_rom@ == program_image(program)
                &&& c.chr_rom@ == Seq::new(0x2000, |i: int| 0u8)
                &&& c.mapper == 0
                &&& c.screen_mirroring == ScreenMirroring::Horizontal
            },
            None => false,
        }
    }

    /// Puts a cartridge in that holds `program` at 0x8000. Bytes of the
    /// program past the end of the address space, or where the reset
    /// vector lies, are left out.
    pub fn load(&mut self, program: Vec<u8>)
        requires
            old(self).wf(),
        ensures
            final(self).wf(),
            final(self).holds_program(old(self), program@),
    {
        let mut prg_rom: Vec<u8> = Vec::with_capacity(0x8000);
        let mut i: usize = 0;
        while i < 0x8000
            invariant
                i <= 0x8000,
                prg_rom@.len() == i,
                forall|k: int| 0 <= k < i ==> prg_rom@[k] == program_image(program@)[k],
            decreases 0x8000 - i,
        {
            let byte: u8 = if i == 0x7FFC {
                0x00
            } else if i == 0x7FFD {
                0x80
            } else if i < program.len() {
                program[i]
            } else {
                0
            };
            prg_rom.push(byte);
            i += 1;
        }
        assert(prg_rom@ =~= program_image(program@));
        let cartridge = Cartridge {
            prg_rom,
            chr_rom: zeros(0x2000),
            mapper: 0,
            screen_mirroring: ScreenMirroring::Horizontal,
        };
        self.bus.insert_cartridge(cartridge);
    }

    /// The processor after a reset: the registers at 0, the stack pointer
    /// at 0xFD, interrupts disabled, and the program counter at the
    /// address that the reset vector holds.
    pub open spec fn after_reset(&self) -> CPU {
        CPU {
            register_a: 0,
            register_x: 0,
            register_y: 0,
            status: CpuFlags { bits: STATUS_START },
            stack_pointer: STACK_START,
            program_counter: self.read_u16(RESET_VECTOR),
            ..self.after_read_u16(RESET_VECTOR)
        }
    }

    pub fn reset(&mut self)
        requires
            old(self).wf(),
        ensures
            final(self).wf(),
            *final(self) == old(self).after_reset(),
    {
        self.register_a = 0;
        self.register_x = 0;
        self.register_y = 0;
        self.status = CpuFlags { bits: STATUS_START };
        self.stack_pointer = STACK_START;
        self.program_counter = self.mem_read_u16(RESET_VECTOR);
    }

    /// Some processor that holds `program` as `load` leaves it, reset and
    /// run, gives `after` and the result `r`.
    pub open spec fn runs_program(&self, program: Seq<u8>, after: &CPU, r: Result<bool, CpuError>) -> bool {
        exists|loaded: CPU| #[trigger]
            loaded.holds_program(self, program) && *after == loaded.after_reset().after_run(
                u64::MAX as nat,
            ) && r == loaded.after_reset().run_result(u64::MAX as nat)
    }

    /// Loads `program`, resets the processor and runs the program until it
    /// reaches a BRK or an instruction fails.
    pub fn load_and_run(&mut self, program: Vec<u8>) -> (r: Result<bool, CpuError>)
        requires
            old(self).wf(),
        ensures
            final(self).wf(),
            old(self).runs_program(program@, final(self), r),
    {
        let ghost image = program@;
        self.load(program);
        let ghost loaded = *self;
        self.reset();
        let r = self.run();
        assert(loaded.holds_program(old(self), image));
        r
    }
}

} // verus!
