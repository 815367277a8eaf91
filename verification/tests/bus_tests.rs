use nesrs::hw::bus::{Bus, BusError};
use nesrs::hw::cartridge::{Cartridge, ScreenMirroring};
use nesrs::hw::joypad::JoypadButton;

fn cartridge(prg_banks: u8) -> Cartridge {
    let mut raw = vec![0x4E, 0x45, 0x53, 0x1A, prg_banks, 1, 1, 0, 0, 0, 0, 0, 0, 0, 0, 0];
    for i in 0..(prg_banks as usize * 0x4000) {
        raw.push((i % 253) as u8);
    }
    for i in 0..0x2000usize {
        raw.push((i % 241) as u8);
    }
    Cartridge::new(raw).unwrap()
}

#[test]
fn ram_is_mirrored_four_times() {
    let mut bus = Bus::new(None);
    bus.mem_write(0x0005, 0x11).unwrap();
    bus.mem_write(0x0FFF, 0x22).unwrap();
    bus.mem_write(0x1800, 0x33).unwrap();
    for a in 0x0000..0x2000u16 {
        assert_eq!(bus.mem_read(a), bus.mem_read(a & 0x07FF));
    }
    assert_eq!(bus.mem_read(0x0805), 0x11);
    assert_eq!(bus.mem_read(0x1005), 0x11);
    assert_eq!(bus.mem_read(0x1805), 0x11);
    assert_eq!(bus.mem_read(0x07FF), 0x22);
    assert_eq!(bus.mem_read(0x0000), 0x33);
}

#[test]
fn ppu_ports_are_mirrored_every_eight_bytes() {
    let mut a = Bus::new(Some(cartridge(1)));
    let mut b = Bus::new(Some(cartridge(1)));
    // The same accesses through the ports and through their mirrors.
    a.mem_write(0x2006, 0x21).unwrap();
    a.mem_write(0x2006, 0x08).unwrap();
    a.mem_write(0x2007, 0x5A).unwrap();
    a.mem_write(0x2003, 0x10).unwrap();
    a.mem_write(0x2004, 0x77).unwrap();
    b.mem_write(0x3FFE, 0x21).unwrap();
    b.mem_write(0x200E, 0x08).unwrap();
    b.mem_write(0x2F07 + 8, 0x5A).unwrap();
    b.mem_write(0x300B, 0x10).unwrap();
    b.mem_write(0x3FFC, 0x77).unwrap();
    assert_eq!(a.ppu.vram, b.ppu.vram);
    assert_eq!(a.ppu.vram[0x0108], 0x5A);
    assert_eq!(a.ppu.oam_data, b.ppu.oam_data);
    assert_eq!(a.ppu.oam_data[0x10], 0x77);
    a.ppu.status_register.set_vblank_status(true);
    b.ppu.status_register.set_vblank_status(true);
    for addr in (0x2008..0x4000u16).step_by(37) {
        let port = 0x2000 + (addr & 7);
        assert_eq!(a.mem_read(port), b.mem_read(addr), "port {:04X} at {:04X}", port, addr);
        assert_eq!(a.ppu.address_register, b.ppu.address_register);
        assert_eq!(a.ppu.status_register, b.ppu.status_register);
        assert_eq!(a.ppu.internal_data_buf, b.ppu.internal_data_buf);
    }
}

#[test]
fn write_only_ports_read_as_zero() {
    let mut bus = Bus::new(Some(cartridge(1)));
    bus.mem_write(0x2000, 0xFF).unwrap();
    bus.mem_write(0x2001, 0xFF).unwrap();
    for addr in [0x2000u16, 0x2001, 0x2003, 0x2005, 0x2006, 0x4014] {
        assert_eq!(bus.mem_read(addr), 0);
    }
}

#[test]
fn status_port_reads_and_clears() {
    let mut bus = Bus::new(Some(cartridge(1)));
    bus.ppu.status_register.set_vblank_status(true);
    bus.mem_write(0x2006, 0x3F).unwrap();
    assert_eq!(bus.peek(0x2002), 0x80);
    assert_eq!(bus.mem_read(0x2002), 0x80);
    assert_eq!(bus.mem_read(0x2002), 0x00);
    // The write to 0x2006 after the read is a high byte again.
    bus.mem_write(0x2006, 0x12).unwrap();
    assert_eq!(bus.ppu.address_register.get(), 0x1200);
    // A write to the status port changes nothing.
    bus.ppu.status_register.set_vblank_status(true);
    bus.mem_write(0x2002, 0x00).unwrap();
    assert_eq!(bus.peek(0x2002), 0x80);
}

#[test]
fn program_rom_of_16k_is_mirrored() {
    let mut bus = Bus::new(Some(cartridge(1)));
    for a in [0x8000u16, 0x8001, 0xBFFF] {
        assert_eq!(bus.mem_read(a), ((a as usize - 0x8000) % 253) as u8);
        assert_eq!(bus.mem_read(a), bus.mem_read(a + 0x4000));
    }
}

#[test]
fn program_rom_of_32k_is_not_mirrored() {
    let mut bus = Bus::new(Some(cartridge(2)));
    assert_eq!(bus.mem_read(0x8000), 0);
    assert_eq!(bus.mem_read(0xC000), (0x4000 % 253) as u8);
    assert_eq!(bus.mem_read(0xFFFF), (0x7FFF % 253) as u8);
}

#[test]
fn program_rom_cannot_be_written() {
    let mut bus = Bus::new(Some(cartridge(1)));
    assert_eq!(bus.mem_write(0x8000, 1), Err(BusError::WriteToRom { addr: 0x8000 }));
    assert_eq!(bus.mem_write(0xFFFF, 1), Err(BusError::WriteToRom { addr: 0xFFFF }));
    assert_eq!(bus.mem_read(0x8000), 0);
    assert_eq!(bus.mem_write(0x7FFF, 1), Ok(()));
}

#[test]
fn without_a_cartridge_rom_reads_zero() {
    let mut bus = Bus::new(None);
    assert_eq!(bus.mem_read(0x8000), 0);
    assert_eq!(bus.mem_read(0xFFFC), 0);
}

#[test]
fn unmapped_addresses_read_zero_and_ignore_writes() {
    let mut bus = Bus::new(Some(cartridge(1)));
    for addr in [0x4000u16, 0x4015, 0x4017, 0x4018, 0x5000, 0x7FFF] {
        bus.mem_write(addr, 0xAB).unwrap();
        assert_eq!(bus.mem_read(addr), 0);
    }
}

#[test]
fn oam_dma_copies_a_page() {
    let mut bus = Bus::new(Some(cartridge(1)));
    for i in 0..256u16 {
        bus.mem_write(0x0200 + i, (255 - i) as u8).unwrap();
    }
    bus.mem_write(0x2003, 0x00).unwrap();
    bus.mem_write(0x4014, 0x02).unwrap();
    for i in 0..256usize {
        assert_eq!(bus.ppu.oam_data[i], (255 - i) as u8);
    }
    assert_eq!(bus.ppu.oam_addr, 0);
    assert_eq!(bus.dma_stall, 513);
    // The copy starts at the sprite address and wraps.
    bus.mem_write(0x2003, 0x10).unwrap();
    bus.mem_write(0x4014, 0x02).unwrap();
    assert_eq!(bus.ppu.oam_data[0x10], 255);
    assert_eq!(bus.ppu.oam_data[0x0F], 0);
    assert_eq!(bus.ppu.oam_addr, 0x10);
}

#[test]
fn oam_dma_cycles_are_accounted_at_the_next_tick() {
    let mut bus = Bus::new(Some(cartridge(1)));
    bus.mem_write(0x4014, 0x00).unwrap();
    assert!(!bus.tick(4));
    assert_eq!(bus.cycles, 517);
    assert_eq!(bus.dma_stall, 0);
    assert_eq!(bus.ppu.scanline as u32 * 341 + bus.ppu.cycles as u32, 517 * 3);
    bus.tick(2);
    assert_eq!(bus.cycles, 519);
}

#[test]
fn tick_runs_three_dots_per_cycle() {
    let mut bus = Bus::new(Some(cartridge(1)));
    assert!(!bus.tick(255));
    assert_eq!(bus.cycles, 255);
    assert_eq!((bus.ppu.scanline, bus.ppu.cycles), (2, 765 - 682));
    assert!(!bus.tick(0));
    assert_eq!(bus.cycles, 255);
}

#[test]
fn frame_ends_once_per_29781_cycles() {
    let mut bus = Bus::new(Some(cartridge(1)));
    let mut ends = Vec::new();
    while ends.len() < 3 {
        if bus.tick(1) {
            ends.push(bus.cycles);
        }
    }
    // 89,342 dots are 29,780 2/3 cycles.
    assert_eq!(ends, vec![29781, 59562, 89342]);
}

#[test]
fn nmi_poll_takes_the_flag() {
    let mut bus = Bus::new(Some(cartridge(1)));
    bus.mem_write(0x2000, 0x80).unwrap();
    assert_eq!(bus.poll_nmi_status(), None);
    let mut cycles = 0u32;
    while bus.ppu.nmi_interrupt.is_none() {
        bus.tick(1);
        cycles += 1;
    }
    // Line 241 begins after 241 * 341 = 82,181 dots: cycle 27,394.
    assert_eq!(cycles, 27394);
    assert_eq!(bus.poll_nmi_status(), Some(1));
    assert_eq!(bus.poll_nmi_status(), None);
}

#[test]
fn controller_port() {
    let mut bus = Bus::new(None);
    bus.set_key_to_press(JoypadButton::START);
    bus.set_key_to_press(JoypadButton::BUTTON_A);
    bus.mem_write(0x4016, 1).unwrap();
    bus.mem_write(0x4016, 0).unwrap();
    assert_eq!(bus.peek(0x4016), 1);
    let got: Vec<u8> = (0..9).map(|_| bus.mem_read(0x4016)).collect();
    assert_eq!(got, vec![1, 0, 0, 1, 0, 0, 0, 0, 1]);
    bus.set_key_to_release(JoypadButton::START);
    assert_eq!(bus.joypad1.button_status.bits(), JoypadButton::BUTTON_A);
}

#[test]
fn inserting_a_cartridge_keeps_ram_and_renews_the_ppu() {
    let mut bus = Bus::new(None);
    bus.mem_write(0x0042, 0x99).unwrap();
    bus.ppu.vram[5] = 1;
    bus.tick(10);
    bus.insert_cartridge(cartridge(2));
    assert_eq!(bus.mem_read(0x0042), 0x99);
    assert_eq!(bus.ppu.vram[5], 0);
    assert_eq!(bus.ppu.mirroring, ScreenMirroring::Vertical);
    assert_eq!(bus.ppu.chr_rom[0x1FFF], (0x1FFF % 241) as u8);
    assert_eq!((bus.ppu.scanline, bus.ppu.cycles), (0, 0));
    assert_eq!(bus.cycles, 10);
    assert_eq!(bus.mem_read(0x8001), 1);
}

#[test]
fn peek_changes_nothing() {
    let mut bus = Bus::new(Some(cartridge(1)));
    bus.mem_write(0x2006, 0x3F).unwrap();
    bus.mem_write(0x2006, 0x01).unwrap();
    bus.mem_write(0x2007, 0x2C).unwrap();
    bus.mem_write(0x2006, 0x3F).unwrap();
    bus.mem_write(0x2006, 0x01).unwrap();
    assert_eq!(bus.peek(0x2007), 0x2C);
    assert_eq!(bus.peek(0x2007), 0x2C);
    assert_eq!(bus.ppu.address_register.get(), 0x3F01);
    assert_eq!(bus.mem_read(0x2007), 0x2C);
    assert_eq!(bus.ppu.address_register.get(), 0x3F02);
    bus.mem_write(0x2003, 0x05).unwrap();
    bus.mem_write(0x2004, 0x44).unwrap();
    bus.mem_write(0x2003, 0x05).unwrap();
    assert_eq!(bus.peek(0x2004), 0x44);
    assert_eq!(bus.mem_read(0x2004), 0x44);
    assert_eq!(bus.peek(0x0000), 0);
    assert_eq!(bus.peek(0x8002), 2);
    assert_eq!(bus.peek(0x5000), 0);
}
