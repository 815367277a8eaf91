use nesrs::hw::bus::Bus;
use nesrs::hw::cartridge::Cartridge;
use nesrs::hw::cpu::opcodes::{lookup, Instruction, OpCode};
use nesrs::hw::cpu::{AddressingMode, CpuError, CpuFlags, StepOutcome, CPU};

/// A processor that holds `program` at 0x8000, reset and ready to run.
fn ready(program: &[u8]) -> CPU {
    let mut cpu = CPU::new();
    cpu.load(program.to_vec());
    cpu.reset();
    cpu
}

/// A processor on a 32 KiB cartridge with `program` at 0x8000 and the
/// three vectors as given.
fn with_vectors(program: &[u8], nmi: u16, reset: u16, brk: u16) -> CPU {
    let mut raw = vec![0x4E, 0x45, 0x53, 0x1A, 2, 1, 0, 0, 0, 0, 0, 0, 0, 0, 0, 0];
    let mut prg = vec![0u8; 0x8000];
    prg[..program.len()].copy_from_slice(program);
    for (at, v) in [(0x7FFA, nmi), (0x7FFC, reset), (0x7FFE, brk)] {
        prg[at] = (v & 0xFF) as u8;
        prg[at + 1] = (v >> 8) as u8;
    }
    raw.extend_from_slice(&prg);
    raw.extend_from_slice(&[0u8; 0x2000]);
    let mut cpu = CPU::with_bus(Bus::new(Some(Cartridge::new(raw).unwrap())));
    cpu.reset();
    cpu
}

#[test]
fn reset_state() {
    let cpu = ready(&[0xEA]);
    assert_eq!(cpu.program_counter, 0x8000);
    assert_eq!(cpu.stack_pointer, 0xFD);
    assert_eq!(cpu.status.bits(), 0x24);
    assert!(cpu.status.contains(CpuFlags::INTERRUPT));
    assert_eq!((cpu.register_a, cpu.register_x, cpu.register_y), (0, 0, 0));
}

#[test]
fn load_immediate_and_transfer() {
    let mut cpu = ready(&[0xA9, 0x05, 0xAA, 0x00]);
    assert_eq!(cpu.run(), Ok(true));
    assert_eq!(cpu.register_a, 0x05);
    assert_eq!(cpu.register_x, 0x05);
    assert!(!cpu.status.contains(CpuFlags::ZERO));
    assert!(!cpu.status.contains(CpuFlags::NEGATIVE));
    // The program counter stands past the BRK.
    assert_eq!(cpu.program_counter, 0x8004);
}

#[test]
fn inx_wraps_to_zero() {
    let mut cpu = ready(&[0xE8, 0xE8, 0x00]);
    cpu.register_x = 0xFE;
    cpu.run().unwrap();
    assert_eq!(cpu.register_x, 0x00);
    assert!(cpu.status.contains(CpuFlags::ZERO));
}

#[test]
fn adc_carry_and_overflow() {
    let mut cpu = ready(&[0x69, 0x50, 0x00]);
    cpu.register_a = 0x50;
    cpu.status.remove(CpuFlags::CARRY);
    cpu.run().unwrap();
    assert_eq!(cpu.register_a, 0xA0);
    assert!(!cpu.status.contains(CpuFlags::CARRY));
    assert!(cpu.status.contains(CpuFlags::OVERFLOW));
    assert!(cpu.status.contains(CpuFlags::NEGATIVE));
    assert!(!cpu.status.contains(CpuFlags::ZERO));
}

#[test]
fn sbc_without_borrow() {
    let mut cpu = ready(&[0xE9, 0x30, 0x00]);
    cpu.register_a = 0x50;
    cpu.status.insert(CpuFlags::CARRY);
    cpu.run().unwrap();
    assert_eq!(cpu.register_a, 0x20);
    assert!(cpu.status.contains(CpuFlags::CARRY));
    assert!(!cpu.status.contains(CpuFlags::OVERFLOW));
}

#[test]
fn lda_indexed_indirect() {
    let mut cpu = ready(&[0xA1, 0x1C, 0x00]);
    cpu.mem_write(0x20, 0x34).unwrap();
    cpu.mem_write(0x21, 0x12).unwrap();
    cpu.mem_write(0x1234, 0x77).unwrap();
    cpu.register_x = 0x04;
    cpu.run().unwrap();
    assert_eq!(cpu.register_a, 0x77);
}

#[test]
fn jmp_indirect_wraps_within_the_page() {
    let mut cpu = ready(&[0x6C, 0xFF, 0x02]);
    cpu.mem_write(0x02FF, 0x40).unwrap();
    cpu.mem_write(0x0200, 0x80).unwrap();
    cpu.mem_write(0x0300, 0x90).unwrap();
    let outcome = cpu.step().unwrap();
    assert_eq!(cpu.program_counter, 0x8040);
    assert_eq!(outcome.cycles, 5);
}

#[test]
fn adc_exhaustive_against_the_formula() {
    for a in 0..=255u16 {
        for m in [0u16, 1, 0x0F, 0x50, 0x7F, 0x80, 0x81, 0xD0, 0xFF] {
            for c in 0..=1u16 {
                let mut cpu = ready(&[0x69, m as u8]);
                cpu.register_a = a as u8;
                cpu.status.set(CpuFlags::CARRY, c == 1);
                cpu.step().unwrap();
                let sum = a + m + c;
                let r = (sum % 256) as u8;
                assert_eq!(cpu.register_a, r);
                assert_eq!(cpu.status.contains(CpuFlags::CARRY), sum > 255);
                assert_eq!(
                    cpu.status.contains(CpuFlags::OVERFLOW),
                    ((a as u8 ^ r) & (m as u8 ^ r) & 0x80) != 0
                );
                assert_eq!(cpu.status.contains(CpuFlags::ZERO), r == 0);
                assert_eq!(cpu.status.contains(CpuFlags::NEGATIVE), r & 0x80 != 0);
            }
        }
    }
}

#[test]
fn adc_ignores_the_decimal_flag() {
    let mut cpu = ready(&[0xF8, 0x69, 0x09, 0x00]);
    cpu.register_a = 0x09;
    cpu.run().unwrap();
    assert_eq!(cpu.register_a, 0x12);
}

#[test]
fn sbc_with_borrow_and_overflow() {
    // 0x50 - 0xB0 with carry set: 0xA0, borrow, signed overflow.
    let mut cpu = ready(&[0x38, 0xE9, 0xB0, 0x00]);
    cpu.register_a = 0x50;
    cpu.run().unwrap();
    assert_eq!(cpu.register_a, 0xA0);
    assert!(!cpu.status.contains(CpuFlags::CARRY));
    assert!(cpu.status.contains(CpuFlags::OVERFLOW));
    // 0x00 - 0x01 with carry clear: one more is taken.
    let mut cpu = ready(&[0x18, 0xE9, 0x01, 0x00]);
    cpu.run().unwrap();
    assert_eq!(cpu.register_a, 0xFE);
    assert!(!cpu.status.contains(CpuFlags::CARRY));
}

#[test]
fn php_plp_keeps_flags_but_break_and_bit5() {
    for bits in [0x00u8, 0x10, 0x20, 0x30, 0xC3, 0xFF, 0x4F] {
        let mut cpu = ready(&[0x08, 0x28, 0x00]);
        cpu.status = CpuFlags::from_bits(bits).unwrap();
        cpu.step().unwrap();
        assert_eq!(cpu.mem_read(0x01FD), bits | 0x30);
        cpu.step().unwrap();
        assert_eq!(cpu.status.bits(), (bits & !0x10) | 0x20);
        assert_eq!(cpu.stack_pointer, 0xFD);
    }
}

#[test]
fn pha_pla_round_trips_and_sets_flags() {
    for a in [0x00u8, 0x01, 0x7F, 0x80, 0xFF] {
        let mut cpu = ready(&[0x48, 0x68, 0x00]);
        cpu.register_a = a;
        cpu.status = CpuFlags::from_bits(0x24 | 0x82).unwrap();
        cpu.run().unwrap();
        assert_eq!(cpu.register_a, a);
        assert_eq!(cpu.stack_pointer, 0xFD);
        assert_eq!(cpu.status.contains(CpuFlags::ZERO), a == 0);
        assert_eq!(cpu.status.contains(CpuFlags::NEGATIVE), a >= 0x80);
    }
}

#[test]
fn stack_pointer_wraps() {
    let mut cpu = ready(&[0x68, 0x48, 0x48, 0x00]);
    cpu.stack_pointer = 0xFF;
    cpu.mem_write(0x0100, 0x5A).unwrap();
    cpu.step().unwrap();
    assert_eq!(cpu.register_a, 0x5A);
    assert_eq!(cpu.stack_pointer, 0x00);
    cpu.step().unwrap();
    assert_eq!(cpu.stack_pointer, 0xFF);
    cpu.step().unwrap();
    assert_eq!(cpu.mem_read(0x01FF), 0x5A);
    assert_eq!(cpu.stack_pointer, 0xFE);
}

#[test]
fn pc_advances_by_instruction_length() {
    for code in 0..=255u8 {
        let op = match lookup(code) {
            Some(op) => op,
            None => continue,
        };
        if op.instruction.sets_pc() && !op.instruction.is_branch() {
            continue;
        }
        // Operand 0x10 0x02: a RAM address in every mode.
        let mut cpu = ready(&[code, 0x10, 0x02]);
        if op.instruction.is_branch() {
            // Make the branch fall through.
            let taken_when_clear = matches!(
                op.instruction,
                Instruction::BCC | Instruction::BNE | Instruction::BPL | Instruction::BVC
            );
            cpu.status = CpuFlags::from_bits(if taken_when_clear { 0xFF } else { 0x00 }).unwrap();
        }
        cpu.step().unwrap();
        assert_eq!(cpu.program_counter, 0x8000 + op.bytes, "opcode {:02X}", code);
    }
}

#[test]
fn opcode_table_has_151_rows() {
    let rows = (0..=255u8).filter(|c| lookup(*c).is_some()).count();
    assert_eq!(rows, 151);
    assert_eq!(
        lookup(0xA9),
        Some(OpCode::new(Instruction::LDA, 2, 2, AddressingMode::Immediate))
    );
    assert_eq!(
        lookup(0x6C),
        Some(OpCode::new(Instruction::JMP, 3, 5, AddressingMode::Indirect))
    );
    assert_eq!(
        lookup(0x0A),
        Some(OpCode::new(Instruction::ASLA, 1, 2, AddressingMode::Accumulator))
    );
    assert_eq!(
        lookup(0x91),
        Some(OpCode::new(Instruction::STA, 2, 6, AddressingMode::IndirectY))
    );
    assert_eq!(lookup(0x02), None);
    assert_eq!(lookup(0xFF), None);
}

#[test]
fn illegal_opcode_stops_the_step() {
    let mut cpu = ready(&[0xEA, 0x02]);
    cpu.step().unwrap();
    assert_eq!(cpu.step(), Err(CpuError::IllegalOpcode { opcode: 0x02, pc: 0x8001 }));
    assert_eq!(cpu.program_counter, 0x8001);
    let mut cpu = ready(&[0xEA, 0x02]);
    assert_eq!(cpu.run(), Err(CpuError::IllegalOpcode { opcode: 0x02, pc: 0x8001 }));
}

#[test]
fn write_to_rom_stops_the_step() {
    let mut cpu = ready(&[0x8D, 0x00, 0x80]);
    assert_eq!(cpu.step(), Err(CpuError::WriteToRom { addr: 0x8000 }));
    let mut program = vec![0xEE, 0xFF, 0xFF];
    program.resize(0x8000, 0xFF);
    let mut cpu = ready(&program);
    assert_eq!(cpu.step(), Err(CpuError::WriteToRom { addr: 0xFFFF }));
    // Nothing was written; the flags follow the value that would have been.
    assert_eq!(cpu.mem_read(0xFFFF), 0xFF);
    assert!(cpu.status.contains(CpuFlags::ZERO));
    assert!(!cpu.status.contains(CpuFlags::NEGATIVE));
}

#[test]
fn run_with_limit_stops_when_steps_run_out() {
    // JMP $8000
    let mut cpu = ready(&[0x4C, 0x00, 0x80]);
    assert_eq!(cpu.run_with_limit(1000), Ok(false));
    assert_eq!(cpu.program_counter, 0x8000);
    assert_eq!(cpu.bus.cycles, 3000);
    assert_eq!(cpu.run_with_limit(0), Ok(false));
}

#[test]
fn branch_not_taken_takes_two_cycles() {
    let mut cpu = ready(&[0xB0, 0x10]);
    let outcome = cpu.step().unwrap();
    assert_eq!(outcome, StepOutcome { cycles: 2, frame_complete: false });
    assert_eq!(cpu.program_counter, 0x8002);
}

#[test]
fn branch_taken_forward_and_backward() {
    let mut cpu = ready(&[0x90, 0x10]);
    let outcome = cpu.step().unwrap();
    assert_eq!(cpu.program_counter, 0x8012);
    assert_eq!(outcome.cycles, 3);
    // BNE -4 from 0x8004: the target is 0x8002.
    let mut cpu = ready(&[0xEA, 0xEA, 0xEA, 0xEA, 0xD0, 0xFC]);
    for _ in 0..4 {
        cpu.step().unwrap();
    }
    let outcome = cpu.step().unwrap();
    assert_eq!(cpu.program_counter, 0x8002);
    assert_eq!(outcome.cycles, 3);
}

#[test]
fn branch_across_a_page_takes_four_cycles() {
    // BCC -3 at 0x8000: the next instruction is at 0x8002, the target 0x7FFF.
    let mut cpu = ready(&[0x90, 0xFD]);
    let outcome = cpu.step().unwrap();
    assert_eq!(cpu.program_counter, 0x7FFF);
    assert_eq!(outcome.cycles, 4);
}

#[test]
fn every_branch_follows_its_flag() {
    let cases = [
        (0x90u8, CpuFlags::CARRY, false),
        (0xB0, CpuFlags::CARRY, true),
        (0xD0, CpuFlags::ZERO, false),
        (0xF0, CpuFlags::ZERO, true),
        (0x10, CpuFlags::NEGATIVE, false),
        (0x30, CpuFlags::NEGATIVE, true),
        (0x50, CpuFlags::OVERFLOW, false),
        (0x70, CpuFlags::OVERFLOW, true),
    ];
    for (code, flag, when_set) in cases {
        for set in [false, true] {
            let mut cpu = ready(&[code, 0x20]);
            cpu.status.set(flag, set);
            cpu.step().unwrap();
            let expected = if set == when_set { 0x8022 } else { 0x8002 };
            assert_eq!(cpu.program_counter, expected, "opcode {:02X} flag {}", code, set);
        }
    }
}

#[test]
fn page_crossing_reads_take_one_more_cycle() {
    // LDA $02F0,X with X = 0x20 reads 0x0310.
    let mut cpu = ready(&[0xBD, 0xF0, 0x02]);
    cpu.register_x = 0x20;
    cpu.mem_write(0x0310, 0x99).unwrap();
    let outcome = cpu.step().unwrap();
    assert_eq!(cpu.register_a, 0x99);
    assert_eq!(outcome.cycles, 5);
    // Without crossing: four.
    let mut cpu = ready(&[0xBD, 0xF0, 0x02]);
    cpu.register_x = 0x0F;
    assert_eq!(cpu.step().unwrap().cycles, 4);
    // A store pays nothing extra: five either way.
    let mut cpu = ready(&[0x9D, 0xF0, 0x02]);
    cpu.register_x = 0x20;
    assert_eq!(cpu.step().unwrap().cycles, 5);
    // LDA ($10),Y across a page: six.
    let mut cpu = ready(&[0xB1, 0x10]);
    cpu.mem_write(0x10, 0xFF).unwrap();
    cpu.mem_write(0x11, 0x02).unwrap();
    cpu.mem_write(0x0300, 0x42).unwrap();
    cpu.register_y = 1;
    let outcome = cpu.step().unwrap();
    assert_eq!(cpu.register_a, 0x42);
    assert_eq!(outcome.cycles, 6);
}

#[test]
fn zero_page_indexing_wraps() {
    let mut cpu = ready(&[0xB5, 0xF0, 0xB6, 0xF0, 0xA1, 0xFF]);
    cpu.mem_write(0x0010, 0x11).unwrap();
    cpu.mem_write(0x0020, 0x22).unwrap();
    cpu.register_x = 0x20;
    cpu.register_y = 0x30;
    cpu.step().unwrap();
    assert_eq!(cpu.register_a, 0x11);
    cpu.step().unwrap();
    assert_eq!(cpu.register_x, 0x22);
    // ($FF,X) with X = 0: the pointer's high byte comes from 0x00.
    cpu.register_x = 0;
    cpu.mem_write(0x00FF, 0x34).unwrap();
    cpu.mem_write(0x0000, 0x02).unwrap();
    cpu.mem_write(0x0234, 0x5C).unwrap();
    cpu.step().unwrap();
    assert_eq!(cpu.register_a, 0x5C);
}

#[test]
fn jsr_and_rts() {
    // 8000: JSR $8005; 8003: INX; 8004: BRK; 8005: INY; 8006: RTS
    let mut cpu = ready(&[0x20, 0x05, 0x80, 0xE8, 0x00, 0xC8, 0x60]);
    let outcome = cpu.step().unwrap();
    assert_eq!(outcome.cycles, 6);
    assert_eq!(cpu.program_counter, 0x8005);
    assert_eq!(cpu.stack_pointer, 0xFB);
    assert_eq!(cpu.mem_read(0x01FD), 0x80);
    assert_eq!(cpu.mem_read(0x01FC), 0x02);
    cpu.step().unwrap();
    let outcome = cpu.step().unwrap();
    assert_eq!(outcome.cycles, 6);
    assert_eq!(cpu.program_counter, 0x8003);
    assert_eq!(cpu.stack_pointer, 0xFD);
    assert_eq!(cpu.run(), Ok(true));
    assert_eq!((cpu.register_x, cpu.register_y), (1, 1));
}

#[test]
fn brk_and_rti_through_step() {
    // 8000: CLI; 8001: BRK; 8002: (padding); 8003: INX. Handler at 8010: RTI.
    let mut program = vec![0x58, 0x00, 0xEA, 0xE8];
    program.resize(0x10, 0xEA);
    program.push(0x40);
    let mut cpu = with_vectors(&program, 0x9000, 0x8000, 0x8010);
    cpu.step().unwrap();
    assert_eq!(cpu.status.bits(), 0x20);
    let outcome = cpu.step().unwrap();
    assert_eq!(outcome.cycles, 7);
    assert_eq!(cpu.program_counter, 0x8010);
    assert_eq!(cpu.stack_pointer, 0xFA);
    assert_eq!(cpu.mem_read(0x01FD), 0x80);
    assert_eq!(cpu.mem_read(0x01FC), 0x03);
    assert_eq!(cpu.mem_read(0x01FB), 0x30);
    assert!(cpu.status.contains(CpuFlags::INTERRUPT));
    let outcome = cpu.step().unwrap();
    assert_eq!(outcome.cycles, 6);
    assert_eq!(cpu.program_counter, 0x8003);
    assert_eq!(cpu.status.bits(), 0x20);
    assert_eq!(cpu.stack_pointer, 0xFD);
}

#[test]
fn nmi_is_serviced_before_the_next_instruction() {
    // 8000: LDA #$80; 8002: STA $2000; 8005: JMP $8005. Handler at 8010: INX; RTI.
    let mut program = vec![0xA9, 0x80, 0x8D, 0x00, 0x20, 0x4C, 0x05, 0x80];
    program.resize(0x10, 0xEA);
    program.extend_from_slice(&[0xE8, 0x40]);
    let mut cpu = with_vectors(&program, 0x8010, 0x8000, 0x9000);
    cpu.step().unwrap();
    cpu.step().unwrap();
    assert!(cpu.bus.ppu.controller_register.generate_vblank_nmi());
    // Run to the start of vertical blank.
    let mut steps = 0;
    while cpu.bus.ppu.nmi_interrupt.is_none() {
        cpu.step().unwrap();
        steps += 1;
        assert!(steps < 20000);
    }
    assert_eq!(cpu.bus.ppu.scanline, 241);
    assert!(cpu.bus.ppu.status_register.is_in_vblank());
    assert_eq!(cpu.program_counter, 0x8005);
    let status = cpu.status.bits();
    // The next step enters the handler and carries out its first instruction.
    let outcome = cpu.step().unwrap();
    assert_eq!(outcome.cycles, 7 + 2);
    assert_eq!(cpu.register_x, 1);
    assert_eq!(cpu.program_counter, 0x8011);
    assert_eq!(cpu.bus.ppu.nmi_interrupt, None);
    assert_eq!(cpu.stack_pointer, 0xFA);
    assert_eq!(cpu.mem_read(0x01FD), 0x80);
    assert_eq!(cpu.mem_read(0x01FC), 0x05);
    assert_eq!(cpu.mem_read(0x01FB), (status & !0x10) | 0x20);
    assert!(cpu.status.contains(CpuFlags::INTERRUPT));
    cpu.step().unwrap();
    assert_eq!(cpu.program_counter, 0x8005);
    assert_eq!(cpu.stack_pointer, 0xFD);
}

#[test]
fn bit_sets_flags_from_memory() {
    let mut cpu = ready(&[0x24, 0x10, 0x2C, 0x00, 0x02]);
    cpu.mem_write(0x0010, 0xC0).unwrap();
    cpu.mem_write(0x0200, 0x01).unwrap();
    cpu.register_a = 0x01;
    cpu.step().unwrap();
    assert!(cpu.status.contains(CpuFlags::ZERO));
    assert!(cpu.status.contains(CpuFlags::NEGATIVE));
    assert!(cpu.status.contains(CpuFlags::OVERFLOW));
    cpu.step().unwrap();
    assert!(!cpu.status.contains(CpuFlags::ZERO));
    assert!(!cpu.status.contains(CpuFlags::NEGATIVE));
    assert!(!cpu.status.contains(CpuFlags::OVERFLOW));
    assert_eq!(cpu.register_a, 0x01);
}

#[test]
fn rotations_through_carry_in_memory() {
    // SEC; ROL $10; ROR $11
    let mut cpu = ready(&[0x38, 0x26, 0x10, 0x66, 0x11, 0x00]);
    cpu.mem_write(0x0010, 0x80).unwrap();
    cpu.mem_write(0x0011, 0x01).unwrap();
    cpu.step().unwrap();
    let outcome = cpu.step().unwrap();
    assert_eq!(outcome.cycles, 5);
    assert_eq!(cpu.mem_read(0x0010), 0x01);
    assert!(cpu.status.contains(CpuFlags::CARRY));
    cpu.step().unwrap();
    assert_eq!(cpu.mem_read(0x0011), 0x80);
    assert!(cpu.status.contains(CpuFlags::CARRY));
    assert!(cpu.status.contains(CpuFlags::NEGATIVE));
}

#[test]
fn shifts_in_memory() {
    // ASL $10; LSR $11
    let mut cpu = ready(&[0x06, 0x10, 0x46, 0x11, 0x00]);
    cpu.mem_write(0x0010, 0xC1).unwrap();
    cpu.mem_write(0x0011, 0x03).unwrap();
    cpu.step().unwrap();
    assert_eq!(cpu.mem_read(0x0010), 0x82);
    assert!(cpu.status.contains(CpuFlags::CARRY));
    cpu.step().unwrap();
    assert_eq!(cpu.mem_read(0x0011), 0x01);
    assert!(cpu.status.contains(CpuFlags::CARRY));
    assert!(!cpu.status.contains(CpuFlags::ZERO));
}

#[test]
fn clv_clears_overflow() {
    let mut cpu = ready(&[0xB8, 0x00]);
    cpu.status.insert(CpuFlags::OVERFLOW);
    cpu.run().unwrap();
    assert!(!cpu.status.contains(CpuFlags::OVERFLOW));
}

#[test]
fn stores_reach_every_mode() {
    // LDA #$5A; STA $0210,X; STA ($20),Y; STX $30,Y; STY $40,X
    let mut cpu = ready(&[0xA9, 0x5A, 0x9D, 0x10, 0x02, 0x91, 0x20, 0x96, 0x30, 0x94, 0x40, 0x00]);
    cpu.register_x = 0x04;
    cpu.register_y = 0x02;
    cpu.mem_write(0x0020, 0x00).unwrap();
    cpu.mem_write(0x0021, 0x03).unwrap();
    cpu.run().unwrap();
    assert_eq!(cpu.mem_read(0x0214), 0x5A);
    assert_eq!(cpu.mem_read(0x0302), 0x5A);
    assert_eq!(cpu.mem_read(0x0032), 0x04);
    assert_eq!(cpu.mem_read(0x0044), 0x02);
}

#[test]
fn load_keeps_ram_and_sets_the_reset_vector() {
    let mut cpu = CPU::new();
    cpu.mem_write(0x0123, 0x45).unwrap();
    cpu.load(vec![0xA9, 0x01]);
    assert_eq!(cpu.mem_read(0x0123), 0x45);
    assert_eq!(cpu.mem_read(0x8000), 0xA9);
    assert_eq!(cpu.mem_read(0x8001), 0x01);
    assert_eq!(cpu.mem_read(0x8002), 0x00);
    assert_eq!(cpu.mem_read_u16(0xFFFC), 0x8000);
    assert_eq!(cpu.program_counter, 0);
    // A program longer than the window is cut off; the vector stays.
    cpu.load(vec![0x77; 0x9000]);
    assert_eq!(cpu.mem_read(0xFFFB), 0x77);
    assert_eq!(cpu.mem_read_u16(0xFFFC), 0x8000);
    assert_eq!(cpu.mem_read(0xFFFE), 0x77);
}

#[test]
fn mem_write_u16_is_little_endian() {
    let mut cpu = CPU::new();
    cpu.mem_write_u16(0x0010, 0xBEEF).unwrap();
    assert_eq!(cpu.mem_read(0x0010), 0xEF);
    assert_eq!(cpu.mem_read(0x0011), 0xBE);
    assert_eq!(cpu.mem_read_u16(0x0010), 0xBEEF);
    assert!(cpu.mem_write_u16(0x7FFF, 0x1234).is_err());
}

#[test]
fn flag_register_operations() {
    let mut flags = CpuFlags::empty();
    flags.insert(CpuFlags::CARRY);
    flags.insert(CpuFlags::NEGATIVE);
    assert_eq!(flags.bits(), 0x81);
    assert!(flags.contains(CpuFlags::CARRY | CpuFlags::NEGATIVE));
    assert!(!flags.contains(CpuFlags::CARRY | CpuFlags::ZERO));
    flags.remove(CpuFlags::CARRY);
    assert_eq!(flags.bits(), 0x80);
    flags.set(CpuFlags::ZERO, true);
    flags.set(CpuFlags::NEGATIVE, false);
    assert_eq!(flags.bits(), 0x02);
    assert_eq!(flags.bitand(CpuFlags::ZERO).bits(), 0x02);
    assert_eq!(flags.bitand(CpuFlags::CARRY).bits(), 0x00);
}

#[test]
fn mnemonics_are_three_letters() {
    assert_eq!(&Instruction::LDA.mnemonic(), b"LDA");
    assert_eq!(&Instruction::ASLA.mnemonic(), b"ASL");
    assert_eq!(&Instruction::RORA.mnemonic(), b"ROR");
    assert_eq!(&Instruction::BRK.mnemonic(), b"BRK");
    assert!(Instruction::STA.writes_operand());
    assert!(!Instruction::STA.reads_operand());
    assert!(Instruction::CMP.reads_operand());
    assert!(Instruction::BEQ.is_branch());
    assert!(Instruction::RTS.sets_pc());
    assert!(!Instruction::NOP.sets_pc());
}
