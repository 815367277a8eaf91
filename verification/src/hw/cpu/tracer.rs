//! One line of text for the instruction that the processor is about to
//! carry out.
//!
//! The line has three parts: up to column 16 the program counter, the
//! opcode and the operand bytes in hexadecimal; up to column 48 the
//! instruction with its operand, the address that the operand resolves to
//! and the byte there; then the registers. All text is ASCII.

use vstd::prelude::*;
use crate::hw::cpu::opcodes::{lookup, spec_lookup};
use crate::hw::cpu::{
    add16,
    add8,
    branch_target,
    make_word,
    next_in_page,
    signed,
    word,
    wrap16,
    wrap8,
    AddressingMode,
    CPU,
};

verus! {

/// The column at which the instruction starts.
pub const INSTRUCTION_COLUMN: usize = 16;

/// The column at which the registers start.
pub const REGISTER_COLUMN: usize = 48;

pub const SPACE: [u8; 1] = [32];

pub const DOLLAR: [u8; 1] = [36];

pub const IMMEDIATE: [u8; 2] = [35, 36];

pub const IS: [u8; 3] = [32, 61, 32];

pub const INDEXED_X: [u8; 5] = [44, 88, 32, 64, 32];

pub const INDEXED_Y: [u8; 5] = [44, 89, 32, 64, 32];

pub const OPEN: [u8; 2] = [40, 36];

pub const CLOSE_X: [u8; 6] = [44, 88, 41, 32, 64, 32];

pub const CLOSE_Y: [u8; 6] = [41, 44, 89, 32, 64, 32];

pub const CLOSE: [u8; 4] = [41, 32, 64, 32];

pub const ILLEGAL: [u8; 7] = [73, 76, 76, 69, 71, 65, 76];

pub const REG_A: [u8; 2] = [65, 58];

pub const REG_X: [u8; 3] = [32, 88, 58];

pub const REG_Y: [u8; 3] = [32, 89, 58];

pub const REG_P: [u8; 3] = [32, 80, 58];

pub const REG_SP: [u8; 4] = [32, 83, 80, 58];

/// The character for a hexadecimal digit, upper case.
pub open spec fn hex_digit(n: int) -> u8 {
    if n < 10 {
        (48 + n) as u8
    } else {
        (55 + n) as u8
    }
}

/// A byte as two hexadecimal digits.
pub open spec fn hex2(value: u8) -> Seq<u8> {
    seq![hex_digit(value as int / 16), hex_digit(value as int % 16)]
}

/// A word as four hexadecimal digits.
pub open spec fn hex4(value: u16) -> Seq<u8> {
    hex2((value / 256) as u8) + hex2((value % 256) as u8)
}

/// A word in hexadecimal digits, as few as hold it but two at least.
pub open spec fn hex_short(value: u16) -> Seq<u8> {
    if value < 0x100 {
        hex2(value as u8)
    } else if value < 0x1000 {
        seq![hex_digit(value as int / 256)] + hex2((value % 256) as u8)
    } else {
        hex4(value)
    }
}

/// `text` with spaces after it up to `width` bytes; longer text stays as
/// it is.
pub open spec fn padded(text: Seq<u8>, width: int) -> Seq<u8> {
    if text.len() >= width {
        text
    } else {
        text + Seq::new((width - text.len()) as nat, |i: int| 32u8)
    }
}

/// The word that two reads from `addr` on would give.
pub open spec fn peeked_word(cpu: &CPU, addr: u16) -> u16 {
    word(cpu.bus.read_value(addr), cpu.bus.read_value(add16(addr, 1)))
}

/// The word that a pointer in the zero page holds.
pub open spec fn peeked_zero_page_word(cpu: &CPU, ptr: u8) -> u16 {
    word(cpu.bus.read_value(ptr as u16), cpu.bus.read_value(add8(ptr, 1) as u16))
}

/// The program counter, the opcode and the operand bytes, each followed by
/// a space.
pub open spec fn trace_bytes(cpu: &CPU) -> Seq<u8> {
    let pc = cpu.program_counter;
    let head = Seq::<u8>::empty() + hex4(pc) + SPACE@ + hex2(cpu.bus.read_value(pc)) + SPACE@;
    match spec_lookup(cpu.bus.read_value(pc)) {
        Some(op) => if op.bytes == 2 {
            head + hex2(cpu.bus.read_value(add16(pc, 1))) + SPACE@
        } else if op.bytes == 3 {
            head + hex2(cpu.bus.read_value(add16(pc, 1))) + SPACE@ + hex2(
                cpu.bus.read_value(add16(pc, 2)),
            ) + SPACE@
        } else {
            head
        },
        None => head,
    }
}

/// The operand as the assembler writes it, with the address that it
/// resolves to and the byte at that address:
///
/// ```text
/// #$NN                          immediate
/// $NN = VV                      zero page
/// $NN,X @ AA = VV               zero page, indexed (Y likewise)
/// $NNNN = VV                    absolute
/// $NNNN,X @ AAAA = VV           absolute, indexed (Y likewise)
/// ($NN,X) @ II = AAAA = VV      indexed indirect
/// ($NN),Y @ II = AAAA = VV      indirect indexed
/// ($NNNN) @ AAAA = VV           indirect
/// $NNNN                         relative: the branch target
/// ```
///
/// `II` is where the pointer is read in the first case, and the pointer
/// itself, in as few digits as hold it, in the second. Accumulator and
/// implicit instructions have no operand text.
pub open spec fn operand_text(cpu: &CPU, mode: AddressingMode) -> Seq<u8> {
    let pc = cpu.program_counter;
    let byte = cpu.bus.read_value(add16(pc, 1));
    let wide = peeked_word(cpu, add16(pc, 1));
    let text = Seq::<u8>::empty();
    match mode {
        AddressingMode::Immediate => text + IMMEDIATE@ + hex2(byte),
        AddressingMode::ZeroPage => text + DOLLAR@ + hex2(byte) + IS@ + hex2(
            cpu.bus.read_value(byte as u16),
        ),
        AddressingMode::ZeroPageX => text + DOLLAR@ + hex2(byte) + INDEXED_X@ + hex2(
            add8(byte, cpu.register_x as int),
        ) + IS@ + hex2(cpu.bus.read_value(add8(byte, cpu.register_x as int) as u16)),
        AddressingMode::ZeroPageY => text + DOLLAR@ + hex2(byte) + INDEXED_Y@ + hex2(
            add8(byte, cpu.register_y as int),
        ) + IS@ + hex2(cpu.bus.read_value(add8(byte, cpu.register_y as int) as u16)),
        AddressingMode::Absolute => text + DOLLAR@ + hex4(wide) + IS@ + hex2(
            cpu.bus.read_value(wide),
        ),
        AddressingMode::AbsoluteX => text + DOLLAR@ + hex4(wide) + INDEXED_X@ + hex4(
            add16(wide, cpu.register_x as int),
        ) + IS@ + hex2(cpu.bus.read_value(add16(wide, cpu.register_x as int))),
        AddressingMode::AbsoluteY => text + DOLLAR@ + hex4(wide) + INDEXED_Y@ + hex4(
            add16(wide, cpu.register_y as int),
        ) + IS@ + hex2(cpu.bus.read_value(add16(wide, cpu.register_y as int))),
        AddressingMode::IndirectX => text + OPEN@ + hex2(byte) + CLOSE_X@ + hex2(
            add8(byte, cpu.register_x as int),
        ) + IS@ + hex4(peeked_zero_page_word(cpu, add8(byte, cpu.register_x as int))) + IS@ + hex2(
            cpu.bus.read_value(peeked_zero_page_word(cpu, add8(byte, cpu.register_x as int))),
        ),
        AddressingMode::IndirectY => text + OPEN@ + hex2(byte) + CLOSE_Y@ + hex_short(
            peeked_zero_page_word(cpu, byte),
        ) + IS@ + hex4(add16(peeked_zero_page_word(cpu, byte), cpu.register_y as int)) + IS@
            + hex2(
            cpu.bus.read_value(add16(peeked_zero_page_word(cpu, byte), cpu.register_y as int)),
        ),
        AddressingMode::Indirect => text + OPEN@ + hex4(wide) + CLOSE@ + hex4(
            word(cpu.bus.read_value(wide), cpu.bus.read_value(next_in_page(wide))),
        ) + IS@ + hex2(
            cpu.bus.read_value(
                word(cpu.bus.read_value(wide), cpu.bus.read_value(next_in_page(wide))),
            ),
        ),
        AddressingMode::Relative => text + DOLLAR@ + hex4(add16(add16(pc, 2), signed(byte))),
        AddressingMode::Accumulator | AddressingMode::Implicit => text,
    }
}

/// The registers: `A:AA X:XX Y:YY P:PP SP:SS`.
pub open spec fn register_text(cpu: &CPU) -> Seq<u8> {
    Seq::<u8>::empty() + REG_A@ + hex2(cpu.register_a) + REG_X@ + hex2(cpu.register_x) + REG_Y@
        + hex2(cpu.register_y) + REG_P@ + hex2(cpu.status.bits) + REG_SP@ + hex2(
        cpu.stack_pointer,
    )
}

/// The instruction and its operand, each followed by a space; `ILLEGAL`
/// where the byte at the program counter is no opcode.
pub open spec fn instruction_text(cpu: &CPU) -> Seq<u8> {
    match spec_lookup(cpu.bus.read_value(cpu.program_counter)) {
        Some(op) => op.instruction.spec_mnemonic() + SPACE@ + operand_text(cpu, op.addressing_mode)
            + SPACE@,
        None => ILLEGAL@,
    }
}

/// The whole line.
pub open spec fn trace_line(cpu: &CPU) -> Seq<u8> {
    padded(
        padded(trace_bytes(cpu), INSTRUCTION_COLUMN as int) + instruction_text(cpu),
        REGISTER_COLUMN as int,
    ) + register_text(cpu)
}

fn push_array<const N: usize>(out: &mut Vec<u8>, bytes: &[u8; N])
    ensures
        final(out)@ == old(out)@ + bytes@,
{
    let mut i: usize = 0;
    while i < N
        invariant
            i <= N,
            out@ == old(out)@ + bytes@.subrange(0, i as int),
        decreases N - i,
    {
        out.push(bytes[i]);
        assert(out@ =~= old(out)@ + bytes@.subrange(0, i + 1));
        i += 1;
    }
    assert(bytes@.subrange(0, N as int) =~= bytes@);
}

fn push_vec(out: &mut Vec<u8>, bytes: &Vec<u8>)
    ensures
        final(out)@ == old(out)@ + bytes@,
{
    let mut i: usize = 0;
    while i < bytes.len()
        invariant
            i <= bytes@.len(),
            out@ == old(out)@ + bytes@.subrange(0, i as int),
        decreases bytes@.len() - i,
    {
        out.push(bytes[i]);
        assert(out@ =~= old(out)@ + bytes@.subrange(0, i + 1));
        i += 1;
    }
    assert(bytes@.subrange(0, bytes@.len() as int) =~= bytes@);
}

fn digit(n: u8) -> (c: u8)
    requires
        n < 16,
    ensures
        c == hex_digit(n as int),
{
    if n < 10 {
        48 + n
    } else {
        55 + n
    }
}

fn push_hex2(out: &mut Vec<u8>, value: u8)
    ensures
        final(out)@ == old(out)@ + hex2(value),
{
    out.push(digit(value / 16));
    out.push(digit(value % 16));
    assert(out@ =~= old(out)@ + hex2(value));
}

fn push_hex4(out: &mut Vec<u8>, value: u16)
    ensures
        final(out)@ == old(out)@ + hex4(value),
{
    push_hex2(out, (value / 256) as u8);
    push_hex2(out, (value % 256) as u8);
    assert(out@ =~= old(out)@ + hex4(value));
}

fn push_hex_short(out: &mut Vec<u8>, value: u16)
    ensures
        final(out)@ == old(out)@ + hex_short(value),
{
    if value < 0x100 {
        push_hex2(out, value as u8);
    } else if value < 0x1000 {
        out.push(digit((value / 256) as u8));
        push_hex2(out, (value % 256) as u8);
        assert(out@ =~= old(out)@ + hex_short(value));
    } else {
        push_hex4(out, value);
    }
}

fn pad(out: &mut Vec<u8>, width: usize)
    ensures
        final(out)@ == padded(old(out)@, width as int),
{
    if out.len() >= width {
        return ;
    }
    let ghost start = out@;
    while out.len() < width
        invariant
            start.len() <= out@.len() <= width,
            out@ == start + Seq::new((out@.len() - start.len()) as nat, |i: int| 32u8),
        decreases width - out@.len(),
    {
        out.push(32);
        assert(out@ =~= start + Seq::new((out@.len() - start.len()) as nat, |i: int| 32u8));
    }
}

fn peek_word(cpu: &CPU, addr: u16) -> (data: u16)
    requires
        cpu.wf(),
    ensures
        data == peeked_word(cpu, addr),
{
    let lo = cpu.bus.peek(addr);
    let hi = cpu.bus.peek(wrap16(addr, 1));
    make_word(lo, hi)
}

fn peek_zero_page_word(cpu: &CPU, ptr: u8) -> (data: u16)
    requires
        cpu.wf(),
    ensures
        data == peeked_zero_page_word(cpu, ptr),
{
    let lo = cpu.bus.peek(ptr as u16);
    let hi = cpu.bus.peek(wrap8(ptr, 1) as u16);
    make_word(lo, hi)
}

fn branch_goal(pc: u16, offset: u8) -> (goal: u16)
    ensures
        goal == add16(add16(pc, 2), signed(offset)),
{
    branch_target(wrap16(pc, 2), offset)
}

fn indexed_text(cpu: &CPU, mode: AddressingMode) -> (text: Vec<u8>)
    requires
        cpu.wf(),
        mode == AddressingMode::ZeroPageX || mode == AddressingMode::ZeroPageY || mode
            == AddressingMode::AbsoluteX || mode == AddressingMode::AbsoluteY,
    ensures
        text@ == operand_text(cpu, mode),
{
    let pc = cpu.program_counter;
    let mut text: Vec<u8> = Vec::new();
    push_array(&mut text, &DOLLAR);
    match mode {
        AddressingMode::ZeroPageX => {
            let byte = cpu.bus.peek(wrap16(pc, 1));
            let addr = wrap8(byte, cpu.register_x);
            push_hex2(&mut text, byte);
            push_array(&mut text, &INDEXED_X);
            push_hex2(&mut text, addr);
            push_array(&mut text, &IS);
            push_hex2(&mut text, cpu.bus.peek(addr as u16));
        },
        AddressingMode::ZeroPageY => {
            let byte = cpu.bus.peek(wrap16(pc, 1));
            let addr = wrap8(byte, cpu.register_y);
            push_hex2(&mut text, byte);
            push_array(&mut text, &INDEXED_Y);
            push_hex2(&mut text, addr);
            push_array(&mut text, &IS);
            push_hex2(&mut text, cpu.bus.peek(addr as u16));
        },
        AddressingMode::AbsoluteX => {
            let wide = peek_word(cpu, wrap16(pc, 1));
            let addr = wrap16(wide, cpu.register_x as u16);
            push_hex4(&mut text, wide);
            push_array(&mut text, &INDEXED_X);
            push_hex4(&mut text, addr);
            push_array(&mut text, &IS);
            push_hex2(&mut text, cpu.bus.peek(addr));
        },
        _ => {
            let wide = peek_word(cpu, wrap16(pc, 1));
            let addr = wrap16(wide, cpu.register_y as u16);
            push_hex4(&mut text, wide);
            push_array(&mut text, &INDEXED_Y);
            push_hex4(&mut text, addr);
            push_array(&mut text, &IS);
            push_hex2(&mut text, cpu.bus.peek(addr));
        },
    }
    text
}

fn indirect_text(cpu: &CPU, mode: AddressingMode) -> (text: Vec<u8>)
    requires
        cpu.wf(),
        mode == AddressingMode::IndirectX || mode == AddressingMode::IndirectY || mode
            == AddressingMode::Indirect,
    ensures
        text@ == operand_text(cpu, mode),
{
    let pc = cpu.program_counter;
    let mut text: Vec<u8> = Vec::new();
    push_array(&mut text, &OPEN);
    match mode {
        AddressingMode::IndirectX => {
            let byte = cpu.bus.peek(wrap16(pc, 1));
            let ptr = wrap8(byte, cpu.register_x);
            let addr = peek_zero_page_word(cpu, ptr);
            push_hex2(&mut text, byte);
            push_array(&mut text, &CLOSE_X);
            push_hex2(&mut text, ptr);
            push_array(&mut text, &IS);
            push_hex4(&mut text, addr);
            push_array(&mut text, &IS);
            push_hex2(&mut text, cpu.bus.peek(addr));
        },
        AddressingMode::IndirectY => {
            let byte = cpu.bus.peek(wrap16(pc, 1));
            let base = peek_zero_page_word(cpu, byte);
            let addr = wrap16(base, cpu.register_y as u16);
            push_hex2(&mut text, byte);
            push_array(&mut text, &CLOSE_Y);
            push_hex_short(&mut text, base);
            push_array(&mut text, &IS);
            push_hex4(&mut text, addr);
            push_array(&mut text, &IS);
            push_hex2(&mut text, cpu.bus.peek(addr));
        },
        _ => {
            let wide = peek_word(cpu, wrap16(pc, 1));
            let lo = cpu.bus.peek(wide);
            let next: u16 = if wide % 256 == 255 {
                wide - 255
            } else {
                wide + 1
            };
            let hi = cpu.bus.peek(next);
            let addr: u16 = make_word(lo, hi);
            push_hex4(&mut text, wide);
            push_array(&mut text, &CLOSE);
            push_hex4(&mut text, addr);
            push_array(&mut text, &IS);
            push_hex2(&mut text, cpu.bus.peek(addr));
        },
    }
    text
}

fn operand_text_of(cpu: &CPU, mode: AddressingMode) -> (text: Vec<u8>)
    requires
        cpu.wf(),
    ensures
        text@ == operand_text(cpu, mode),
{
    let pc = cpu.program_counter;
    match mode {
        AddressingMode::Immediate => {
            let mut text: Vec<u8> = Vec::new();
            push_array(&mut text, &IMMEDIATE);
            push_hex2(&mut text, cpu.bus.peek(wrap16(pc, 1)));
            text
        },
        AddressingMode::ZeroPage => {
            let mut text: Vec<u8> = Vec::new();
            let byte = cpu.bus.peek(wrap16(pc, 1));
            push_array(&mut text, &DOLLAR);
            push_hex2(&mut text, byte);
            push_array(&mut text, &IS);
            push_hex2(&mut text, cpu.bus.peek(byte as u16));
            text
        },
        AddressingMode::Absolute => {
            let mut text: Vec<u8> = Vec::new();
            let wide = peek_word(cpu, wrap16(pc, 1));
            push_array(&mut text, &DOLLAR);
            push_hex4(&mut text, wide);
            push_array(&mut text, &IS);
            push_hex2(&mut text, cpu.bus.peek(wide));
            text
        },
        AddressingMode::Relative => {
            let mut text: Vec<u8> = Vec::new();
            let byte = cpu.bus.peek(wrap16(pc, 1));
            push_array(&mut text, &DOLLAR);
            push_hex4(&mut text, branch_goal(pc, byte));
            text
        },
        AddressingMode::ZeroPageX
        | AddressingMode::ZeroPageY
        | AddressingMode::AbsoluteX
        | AddressingMode::AbsoluteY => indexed_text(cpu, mode),
        AddressingMode::IndirectX | AddressingMode::IndirectY | AddressingMode::Indirect => indirect_text(
            cpu,
            mode,
        ),
        AddressingMode::Accumulator | AddressingMode::Implicit => Vec::new(),
    }
}

fn trace_bytes_of(cpu: &CPU) -> (line: Vec<u8>)
    requires
        cpu.wf(),
    ensures
        line@ == trace_bytes(cpu),
{
    let pc = cpu.program_counter;
    let code = cpu.bus.peek(pc);
    let mut line: Vec<u8> = Vec::new();
    push_hex4(&mut line, pc);
    push_array(&mut line, &SPACE);
    push_hex2(&mut line, code);
    push_array(&mut line, &SPACE);
    match lookup(code) {
        Some(op) => {
            if op.bytes == 2 || op.bytes == 3 {
                push_hex2(&mut line, cpu.bus.peek(wrap16(pc, 1)));
                push_array(&mut line, &SPACE);
            }
            if op.bytes == 3 {
                push_hex2(&mut line, cpu.bus.peek(wrap16(pc, 2)));
                push_array(&mut line, &SPACE);
            }
        },
        None => {},
    }
    line
}

fn register_text_of(cpu: &CPU) -> (text: Vec<u8>)
    ensures
        text@ == register_text(cpu),
{
    let mut text: Vec<u8> = Vec::new();
    push_array(&mut text, &REG_A);
    push_hex2(&mut text, cpu.register_a);
    push_array(&mut text, &REG_X);
    push_hex2(&mut text, cpu.register_x);
    push_array(&mut text, &REG_Y);
    push_hex2(&mut text, cpu.register_y);
    push_array(&mut text, &REG_P);
    push_hex2(&mut text, cpu.status.bits);
    push_array(&mut text, &REG_SP);
    push_hex2(&mut text, cpu.stack_pointer);
    text
}

fn instruction_text_of(cpu: &CPU) -> (text: Vec<u8>)
    requires
        cpu.wf(),
    ensures
        text@ == instruction_text(cpu),
{
    match lookup(cpu.bus.peek(cpu.program_counter)) {
        Some(op) => {
            let mut text: Vec<u8> = Vec::new();
            let name = op.instruction.mnemonic();
            push_array(&mut text, &name);
            assert(text@ =~= op.instruction.spec_mnemonic());
            push_array(&mut text, &SPACE);
            let operand = operand_text_of(cpu, op.addressing_mode);
            push_vec(&mut text, &operand);
            push_array(&mut text, &SPACE);
            text
        },
        None => {
            let mut text: Vec<u8> = Vec::new();
            push_array(&mut text, &ILLEGAL);
            assert(text@ =~= ILLEGAL@);
            text
        },
    }
}

/// The line for the instruction at the program counter. Memory is looked
/// at without being read: no port changes.
pub fn trace(cpu: &CPU) -> (line: Vec<u8>)
    requires
        cpu.wf(),
    ensures
        line@ == trace_line(cpu),
{
    let mut line = trace_bytes_of(cpu);
    pad(&mut line, INSTRUCTION_COLUMN);
    let instruction = instruction_text_of(cpu);
    push_vec(&mut line, &instruction);
    pad(&mut line, REGISTER_COLUMN);
    let registers = register_text_of(cpu);
    push_vec(&mut line, &registers);
    line
}

} // verus!
