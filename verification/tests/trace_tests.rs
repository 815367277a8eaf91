use nesrs::hw::cpu::tracer::trace;
use nesrs::hw::cpu::CPU;

fn ready(program: &[u8]) -> CPU {
    let mut cpu = CPU::new();
    cpu.load(program.to_vec());
    cpu.reset();
    cpu
}

fn line(cpu: &CPU) -> String {
    String::from_utf8(trace(cpu)).unwrap()
}

fn expected(bytes: &str, instruction: &str, registers: &str) -> String {
    format!("{:<16}{:<32}{}", bytes, instruction, registers)
}

#[test]
fn trace_immediate() {
    let cpu = ready(&[0xA9, 0x05]);
    assert_eq!(
        line(&cpu),
        "8000 A9 05      LDA #$05                        A:00 X:00 Y:00 P:24 SP:FD"
    );
}

#[test]
fn trace_implicit_and_accumulator() {
    let mut cpu = ready(&[0xAA, 0x0A]);
    cpu.register_a = 0xAB;
    cpu.register_x = 0x01;
    cpu.register_y = 0xEF;
    assert_eq!(line(&cpu), expected("8000 AA ", "TAX  ", "A:AB X:01 Y:EF P:24 SP:FD"));
    cpu.program_counter = 0x8001;
    assert_eq!(line(&cpu), expected("8001 0A ", "ASL  ", "A:AB X:01 Y:EF P:24 SP:FD"));
}

#[test]
fn trace_zero_page_modes() {
    let mut cpu = ready(&[0xA5, 0x10, 0xB5, 0xF0, 0xB6, 0x10]);
    cpu.mem_write(0x0010, 0x5A).unwrap();
    cpu.mem_write(0x0012, 0x6B).unwrap();
    cpu.register_x = 0x20;
    cpu.register_y = 0x02;
    assert_eq!(line(&cpu), expected("8000 A5 10 ", "LDA $10 = 5A ", "A:00 X:20 Y:02 P:24 SP:FD"));
    cpu.program_counter = 0x8002;
    assert_eq!(
        line(&cpu),
        expected("8002 B5 F0 ", "LDA $F0,X @ 10 = 5A ", "A:00 X:20 Y:02 P:24 SP:FD")
    );
    cpu.program_counter = 0x8004;
    assert_eq!(
        line(&cpu),
        expected("8004 B6 10 ", "LDX $10,Y @ 12 = 6B ", "A:00 X:20 Y:02 P:24 SP:FD")
    );
}

#[test]
fn trace_absolute_modes() {
    let mut cpu = ready(&[0xAD, 0x34, 0x02, 0xBD, 0xF0, 0x02, 0xB9, 0x00, 0x03]);
    cpu.mem_write(0x0234, 0x77).unwrap();
    cpu.mem_write(0x0301, 0x88).unwrap();
    cpu.register_x = 0x11;
    cpu.register_y = 0x01;
    assert_eq!(
        line(&cpu),
        expected("8000 AD 34 02 ", "LDA $0234 = 77 ", "A:00 X:11 Y:01 P:24 SP:FD")
    );
    cpu.program_counter = 0x8003;
    assert_eq!(
        line(&cpu),
        expected("8003 BD F0 02 ", "LDA $02F0,X @ 0301 = 88 ", "A:00 X:11 Y:01 P:24 SP:FD")
    );
    cpu.program_counter = 0x8006;
    assert_eq!(
        line(&cpu),
        expected("8006 B9 00 03 ", "LDA $0300,Y @ 0301 = 88 ", "A:00 X:11 Y:01 P:24 SP:FD")
    );
}

#[test]
fn trace_indirect_modes() {
    let mut cpu = ready(&[0xA1, 0x1C, 0xB1, 0x20, 0x6C, 0xFF, 0x02, 0xB1, 0x30]);
    cpu.mem_write(0x0020, 0x34).unwrap();
    cpu.mem_write(0x0021, 0x02).unwrap();
    cpu.mem_write(0x0234, 0x77).unwrap();
    cpu.mem_write(0x0236, 0x99).unwrap();
    cpu.mem_write(0x02FF, 0x10).unwrap();
    cpu.mem_write(0x0200, 0x03).unwrap();
    cpu.mem_write(0x0310, 0xEE).unwrap();
    cpu.mem_write(0x0030, 0x34).unwrap();
    cpu.register_x = 0x04;
    cpu.register_y = 0x02;
    assert_eq!(
        line(&cpu),
        expected("8000 A1 1C ", "LDA ($1C,X) @ 20 = 0234 = 77 ", "A:00 X:04 Y:02 P:24 SP:FD")
    );
    cpu.program_counter = 0x8002;
    assert_eq!(
        line(&cpu),
        expected("8002 B1 20 ", "LDA ($20),Y @ 234 = 0236 = 99 ", "A:00 X:04 Y:02 P:24 SP:FD")
    );
    cpu.program_counter = 0x8004;
    assert_eq!(
        line(&cpu),
        expected("8004 6C FF 02 ", "JMP ($02FF) @ 0310 = EE ", "A:00 X:04 Y:02 P:24 SP:FD")
    );
    // A pointer below 0x100 takes two digits.
    cpu.program_counter = 0x8007;
    assert_eq!(
        line(&cpu),
        expected("8007 B1 30 ", "LDA ($30),Y @ 34 = 0036 = 00 ", "A:00 X:04 Y:02 P:24 SP:FD")
    );
}

#[test]
fn trace_relative_gives_the_target() {
    let mut cpu = ready(&[0xD0, 0x10, 0xF0, 0xFC]);
    assert_eq!(line(&cpu), expected("8000 D0 10 ", "BNE $8012 ", "A:00 X:00 Y:00 P:24 SP:FD"));
    cpu.program_counter = 0x8002;
    assert_eq!(line(&cpu), expected("8002 F0 FC ", "BEQ $8000 ", "A:00 X:00 Y:00 P:24 SP:FD"));
}

#[test]
fn trace_illegal_opcode() {
    let mut cpu = ready(&[0x02]);
    cpu.stack_pointer = 0x0A;
    cpu.status.insert(0xC3);
    assert_eq!(line(&cpu), expected("8000 02 ", "ILLEGAL", "A:00 X:00 Y:00 P:E7 SP:0A"));
}

#[test]
fn trace_reads_nothing() {
    // LDA $2002 with vertical blank flagged: the trace shows the flag and leaves it.
    let mut cpu = ready(&[0xAD, 0x02, 0x20]);
    cpu.bus.ppu.status_register.set_vblank_status(true);
    assert_eq!(
        line(&cpu),
        expected("8000 AD 02 20 ", "LDA $2002 = 80 ", "A:00 X:00 Y:00 P:24 SP:FD")
    );
    assert!(cpu.bus.ppu.status_register.is_in_vblank());
    assert_eq!(line(&cpu).len(), 48 + 25);
}

#[test]
fn traced_step_shows_the_instruction_that_is_carried_out() {
    let mut cpu = ready(&[0xA9, 0x05, 0xAA]);
    let (first, r) = cpu.step_with_trace();
    assert!(r.is_ok());
    assert_eq!(
        String::from_utf8(first).unwrap(),
        expected("8000 A9 05 ", "LDA #$05 ", "A:00 X:00 Y:00 P:24 SP:FD")
    );
    let (second, r) = cpu.step_with_trace();
    assert_eq!(r.unwrap().cycles, 2);
    assert_eq!(
        String::from_utf8(second).unwrap(),
        expected("8002 AA ", "TAX  ", "A:05 X:00 Y:00 P:24 SP:FD")
    );
    assert_eq!(cpu.register_x, 5);
}

#[test]
fn traced_step_shows_the_handler_when_an_interrupt_is_taken() {
    let mut cpu = ready(&[0xEA]);
    cpu.mem_write(0x0000, 0xE8).unwrap();
    cpu.bus.ppu.nmi_interrupt = Some(1);
    // The vector at 0xFFFA is 0: the handler is the INX at 0x0000.
    let (line, r) = cpu.step_with_trace();
    assert_eq!(r.unwrap().cycles, 9);
    assert_eq!(
        String::from_utf8(line).unwrap(),
        expected("0000 E8 ", "INX  ", "A:00 X:00 Y:00 P:24 SP:FA")
    );
    assert_eq!(cpu.register_x, 1);
}
