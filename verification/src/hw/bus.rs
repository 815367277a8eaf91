//! The processor's address space: work RAM, the ports of the picture
//! unit, the controller port and the cartridge's program ROM.

use vstd::prelude::*;
use crate::hw::bytes::copy_bytes;
use crate::hw::cartridge::{Cartridge, ScreenMirroring};
use crate::hw::joypad::Joypad;
use crate::hw::ppu::registers::MaskRegister;
use crate::hw::ppu::{lemma_status_read_resets, PPU};

verus! {

/// First address past the work RAM and its mirrors.
pub const RAM_END: u16 = 0x2000;

/// First address past the ports of the picture unit and their mirrors.
pub const PPU_REG_END: u16 = 0x4000;

/// The port that starts a copy of one page into sprite memory.
pub const OAM_DMA: u16 = 0x4014;

/// The port of the first controller.
pub const JOYPAD1: u16 = 0x4016;

/// First address of the program ROM.
pub const PRG_START: u16 = 0x8000;

/// Processor cycles that a copy into sprite memory takes.
pub const DMA_CYCLES: u16 = 513;

/// Why the bus turned an access down.
#[derive(Clone, Copy, Debug, PartialEq, Eq, Structural)]
pub enum BusError {
    /// A write to the program ROM.
    WriteToRom { addr: u16 },
}

pub struct Bus {
    pub cpu_vram: [u8; 2048],
    pub cartridge: Option<Cartridge>,
    pub ppu: PPU,
    pub joypad1: Joypad,
    /// Processor cycles since power-on, modulo 2^64.
    pub cycles: u64,
    /// Cycles of a copy into sprite memory that the clock has yet to see.
    pub dma_stall: u16,
}

impl Bus {
    pub open spec fn wf(&self) -> bool {
        &&& self.ppu.wf()
        &&& self.dma_stall <= DMA_CYCLES
        &&& match self.cartridge {
            Some(c) => c.wf(),
            None => true,
        }
    }

    /// Says whether the bus is in a state that its own operations leave
    /// it in.
    pub fn is_wf(&self) -> (ok: bool)
        ensures
            ok == self.wf(),
    {
        self.ppu.is_wf() && self.dma_stall <= DMA_CYCLES && match &self.cartridge {
            Some(c) => c.is_wf(),
            None => true,
        }
    }

    /// The bus as it is switched on with `cartridge` in the slot: RAM
    /// zeroed, the picture unit fresh, the controller idle, the clock at 0.
    /// Without a cartridge the character ROM reads as zeros.
    pub open spec fn powered_on(&self, cartridge: Option<Cartridge>) -> bool {
        &&& self.cartridge == cartridge
        &&& forall|i: int| 0 <= i < 2048 ==> self.cpu_vram[i] == 0
        &&& self.joypad1 == Joypad::idle()
        &&& self.cycles == 0
        &&& self.dma_stall == 0
        &&& match cartridge {
            Some(c) => self.ppu.is_fresh(c.chr_rom@, c.screen_mirroring),
            None => self.ppu.is_fresh(Seq::new(0x2000, |i: int| 0u8), ScreenMirroring::Horizontal),
        }
    }

    /// A bus switched on with `cartridge` in the slot.
    pub fn new(cartridge: Option<Cartridge>) -> (bus: Bus)
        requires
            match cartridge {
                Some(c) => c.wf(),
                None => true,
            },
        ensures
            bus.wf(),
            bus.powered_on(cartridge),
    {
        let ppu = match &cartridge {
            Some(c) => PPU::new(copy_bytes(c.chr_rom.as_slice()), c.screen_mirroring),
            None => PPU::new_empty_rom(),
        };
        Bus { cpu_vram: [0u8; 2048], cartridge, ppu, joypad1: Joypad::new(), cycles: 0, dma_stall: 0 }
    }

    /// Puts a cartridge in: the program ROM is the cartridge's, and the
    /// picture unit starts afresh on its character ROM. RAM, controller
    /// and clock stay.
    pub fn insert_cartridge(&mut self, cartridge: Cartridge)
        requires
            old(self).wf(),
            cartridge.wf(),
        ensures
            final(self).wf(),
            final(self).cartridge == Some(cartridge),
            final(self).ppu.is_fresh(cartridge.chr_rom@, cartridge.screen_mirroring),
            final(self).cpu_vram == old(self).cpu_vram,
            final(self).joypad1 == old(self).joypad1,
            final(self).cycles == old(self).cycles,
            final(self).dma_stall == old(self).dma_stall,
    {
        let chr_rom = copy_bytes(cartridge.chr_rom.as_slice());
        self.ppu = PPU::new(chr_rom, cartridge.screen_mirroring);
        self.cartridge = Some(cartridge);
    }

    // ---------------------------------------------------------------
    // Reading
    // ---------------------------------------------------------------

    /// The byte of program ROM at `addr`. A ROM of 16 KiB shows twice in
    /// the 32 KiB window.
    pub open spec fn prg_byte(&self, addr: u16) -> u8 {
        match self.cartridge {
            Some(c) => c.prg_rom@[(addr - PRG_START) % (c.prg_rom@.len() as int)],
            None => 0,
        }
    }

    fn read_prg_rom(&self, addr: u16) -> (data: u8)
        requires
            self.wf(),
            addr >= PRG_START,
        ensures
            data == self.prg_byte(addr),
    {
        match &self.cartridge {
            Some(c) => {
                let offset: usize = (addr - PRG_START) as usize % c.prg_rom.len();
                c.prg_rom[offset]
            },
            None => 0,
        }
    }

    /// What a read of `addr` returns. RAM repeats every 0x800 bytes up to
    /// 0x2000, the eight ports of the picture unit every 8 bytes up to
    /// 0x4000. Of the ports only status (2), sprite data (4) and data (7)
    /// can be read; the others, and every address that nothing answers,
    /// read as 0.
    #[verifier::opaque]
    pub open spec fn read_value(&self, addr: u16) -> u8 {
        if addr < RAM_END {
            self.cpu_vram[(addr % 0x800) as int]
        } else if addr < PPU_REG_END {
            if addr % 8 == 2 {
                self.ppu.status_register.bits
            } else if addr % 8 == 4 {
                self.ppu.oam_data[self.ppu.oam_addr as int]
            } else if addr % 8 == 7 {
                self.ppu.data_read_value()
            } else {
                0
            }
        } else if addr == JOYPAD1 {
            self.joypad1.read_value()
        } else if addr >= PRG_START {
            self.prg_byte(addr)
        } else {
            0
        }
    }

    /// The bus after a read of `addr`: reading the status port, the data
    /// port or the controller port changes what they hold; any other read
    /// changes nothing.
    #[verifier::opaque]
    pub open spec fn after_read(&self, addr: u16) -> Bus {
        if RAM_END <= addr < PPU_REG_END && addr % 8 == 2 {
            Bus { ppu: self.ppu.after_status_read(), ..*self }
        } else if RAM_END <= addr < PPU_REG_END && addr % 8 == 7 {
            Bus { ppu: self.ppu.after_data_read(), ..*self }
        } else if addr == JOYPAD1 {
            Bus { joypad1: self.joypad1.after_read(), ..*self }
        } else {
            *self
        }
    }

    /// A read by the processor.
    pub fn mem_read(&mut self, addr: u16) -> (data: u8)
        requires
            old(self).wf(),
        ensures
            final(self).wf(),
            data == old(self).read_value(addr),
            *final(self) == old(self).after_read(addr),
    {
        reveal(Bus::read_value);
        reveal(Bus::after_read);
        if addr < RAM_END {
            self.cpu_vram[(addr % 0x800) as usize]
        } else if addr < PPU_REG_END {
            let port: u16 = addr % 8;
            if port == 2 {
                self.ppu.read_status()
            } else if port == 4 {
                self.ppu.read_oam_data()
            } else if port == 7 {
                self.ppu.read_data()
            } else {
                0
            }
        } else if addr == JOYPAD1 {
            self.joypad1.read()
        } else if addr >= PRG_START {
            self.read_prg_rom(addr)
        } else {
            0
        }
    }

    /// What a read of `addr` would return, without the read taking place.
    pub fn peek(&self, addr: u16) -> (data: u8)
        requires
            self.wf(),
        ensures
            data == self.read_value(addr),
    {
        reveal(Bus::read_value);
        if addr < RAM_END {
            self.cpu_vram[(addr % 0x800) as usize]
        } else if addr < PPU_REG_END {
            let port: u16 = addr % 8;
            if port == 2 {
                self.ppu.status_register.bits
            } else if port == 4 {
                self.ppu.read_oam_data()
            } else if port == 7 {
                let at = self.ppu.address_register.get();
                if at < 0x3F00 {
                    self.ppu.internal_data_buf
                } else {
                    self.ppu.palette_table[PPU::mirror_palette_addr(at) as usize]
                }
            } else {
                0
            }
        } else if addr == JOYPAD1 {
            let mut pad = self.joypad1;
            pad.read()
        } else if addr >= PRG_START {
            self.read_prg_rom(addr)
        } else {
            0
        }
    }

    // ---------------------------------------------------------------
    // Writing
    // ---------------------------------------------------------------

    /// The error that a write to `addr` meets: the program ROM cannot be
    /// written.
    pub open spec fn write_error(addr: u16) -> Option<BusError> {
        if addr >= PRG_START {
            Some(BusError::WriteToRom { addr })
        } else {
            None
        }
    }

    /// The bus after the first `n` bytes of page `page` were copied into
    /// sprite memory: each byte is read over the bus and written through
    /// the sprite-data port, one after the other.
    pub open spec fn after_dma(&self, page: u8, n: nat) -> Bus
        decreases n,
    {
        if n == 0 {
            *self
        } else {
            let before = self.after_dma(page, (n - 1) as nat);
            let addr = (page * 256 + (n - 1)) as u16;
            let read = before.after_read(addr);
            Bus { ppu: read.ppu.after_oam_write(before.read_value(addr)), ..read }
        }
    }

    /// The bus after a write of `data` to `addr`. A write to the status
    /// port, to the program ROM or to an address that nothing answers
    /// changes nothing. A write to port 0x4014 copies a page into sprite
    /// memory and leaves 513 cycles for the clock to catch up on.
    #[verifier::opaque]
    pub open spec fn after_write(&self, addr: u16, data: u8) -> Bus {
        if addr < RAM_END {
            Bus {
                cpu_vram: vstd::array::spec_array_update(self.cpu_vram, (addr % 0x800) as int, data),
                ..*self
            }
        } else if addr < PPU_REG_END {
            let ppu = if addr % 8 == 0 {
                self.ppu.after_ctrl_write(data)
            } else if addr % 8 == 1 {
                PPU { mask_register: MaskRegister { bits: data }, ..self.ppu }
            } else if addr % 8 == 2 {
                self.ppu
            } else if addr % 8 == 3 {
                PPU { oam_addr: data, ..self.ppu }
            } else if addr % 8 == 4 {
                self.ppu.after_oam_write(data)
            } else if addr % 8 == 5 {
                self.ppu.after_scroll_write(data)
            } else if addr % 8 == 6 {
                self.ppu.after_addr_write(data)
            } else {
                self.ppu.after_data_write(data)
            };
            Bus { ppu, ..*self }
        } else if addr == OAM_DMA {
            Bus { dma_stall: DMA_CYCLES, ..self.after_dma(data, 256) }
        } else if addr == JOYPAD1 {
            Bus { joypad1: self.joypad1.after_write(data), ..*self }
        } else {
            *self
        }
    }

    fn oam_dma(&mut self, page: u8)
        requires
            old(self).wf(),
        ensures
            final(self).wf(),
            *final(self) == (Bus { dma_stall: DMA_CYCLES, ..old(self).after_dma(page, 256) }),
    {
        let start: u16 = page as u16 * 256;
        let mut i: u16 = 0;
        while i < 256
            invariant
                i <= 256,
                start == page * 256,
                self.wf(),
                *self == old(self).after_dma(page, i as nat),
            decreases 256 - i,
        {
            let value = self.mem_read(start + i);
            self.ppu.write_to_oam_data(value);
            i += 1;
        }
        self.dma_stall = DMA_CYCLES;
    }

    /// A write by the processor.
    pub fn mem_write(&mut self, addr: u16, data: u8) -> (r: Result<(), BusError>)
        requires
            old(self).wf(),
        ensures
            final(self).wf(),
            *final(self) == old(self).after_write(addr, data),
            match r {
                Ok(_) => Self::write_error(addr) is None,
                Err(e) => Self::write_error(addr) == Some(e),
            },
    {
        reveal(Bus::after_write);
        if addr < RAM_END {
            self.cpu_vram[(addr % 0x800) as usize] = data;
            assert(final(self).cpu_vram =~= old(self).after_write(addr, data).cpu_vram);
        } else if addr < PPU_REG_END {
            let port: u16 = addr % 8;
            if port == 0 {
                self.ppu.write_to_ctrl(data);
            } else if port == 1 {
                self.ppu.write_to_mask(data);
            } else if port == 2 {
            } else if port == 3 {
                self.ppu.write_to_oam_addr(data);
            } else if port == 4 {
                self.ppu.write_to_oam_data(data);
            } else if port == 5 {
                self.ppu.write_to_scroll(data);
            } else if port == 6 {
                self.ppu.write_to_ppu_addr_reg(data);
            } else {
                self.ppu.write_to_data(data);
            }
        } else if addr == OAM_DMA {
            self.oam_dma(data);
        } else if addr == JOYPAD1 {
            self.joypad1.write(data);
        } else if addr >= PRG_START {
            return Err(BusError::WriteToRom { addr });
        }
        Ok(())
    }

    // ---------------------------------------------------------------
    // Clock, interrupt, controller
    // ---------------------------------------------------------------

    /// Takes the interrupt that the picture unit has pending, if any.
    pub fn poll_nmi_status(&mut self) -> (taken: Option<u8>)
        requires
            old(self).wf(),
        ensures
            final(self).wf(),
            taken == old(self).ppu.nmi_interrupt,
            *final(self) == (Bus { ppu: PPU { nmi_interrupt: None, ..old(self).ppu }, ..*old(self) }),
    {
        self.ppu.poll_nmi_interrupt()
    }

    /// The cycles that a tick of `cycles` accounts for: its own and those
    /// of a copy into sprite memory made since the last tick.
    pub open spec fn cycles_due(&self, cycles: u8) -> nat {
        (cycles + self.dma_stall) as nat
    }

    /// The bus after `cycles` processor cycles: the picture unit has run
    /// three dots for each cycle that was due.
    pub open spec fn after_tick(&self, cycles: u8) -> Bus {
        Bus {
            cycles: ((self.cycles + self.cycles_due(cycles)) % 0x1_0000_0000_0000_0000) as u64,
            dma_stall: 0,
            ppu: self.ppu.after_dots(3 * self.cycles_due(cycles)),
            ..*self
        }
    }

    /// A frame ends within the next `cycles` processor cycles.
    pub open spec fn frame_ends_within(&self, cycles: u8) -> bool {
        self.ppu.frames_within(3 * self.cycles_due(cycles)) > 0
    }

    /// Lets `cycles` processor cycles pass and says whether a frame ended
    /// on the way.
    pub fn tick(&mut self, cycles: u8) -> (frame_complete: bool)
        requires
            old(self).wf(),
        ensures
            final(self).wf(),
            *final(self) == old(self).after_tick(cycles),
            frame_complete == old(self).frame_ends_within(cycles),
    {
        let due: u16 = cycles as u16 + self.dma_stall;
        self.dma_stall = 0;
        self.cycles = self.cycles.wrapping_add(due as u64);
        self.ppu.tick(3 * due)
    }

    pub fn set_key_to_press(&mut self, button: u8)
        ensures
            *final(self) == (Bus {
                joypad1: Joypad {
                    button_status: old(self).joypad1.button_status.with(button, true),
                    ..old(self).joypad1
                },
                ..*old(self)
            }),
    {
        self.joypad1.set_button_pressed_status(button, true);
    }

    pub fn set_key_to_release(&mut self, button: u8)
        ensures
            *final(self) == (Bus {
                joypad1: Joypad {
                    button_status: old(self).joypad1.button_status.with(button, false),
                    ..old(self).joypad1
                },
                ..*old(self)
            }),
    {
        self.joypad1.set_button_pressed_status(button, false);
    }
}

/// The work RAM shows four times below 0x2000: an access at `addr` there
/// is an access at `addr & 0x07FF`.
pub proof fn lemma_ram_mirrors(bus: Bus, addr: u16, data: u8)
    requires
        addr < RAM_END,
    ensures
        bus.read_value(addr) == bus.read_value(addr & 0x07FF),
        bus.after_read(addr) == bus,
        bus.after_write(addr, data) == bus.after_write(addr & 0x07FF, data),
{
    reveal(Bus::read_value);
    reveal(Bus::after_read);
    reveal(Bus::after_write);
    assert(addr & 0x07FF == addr % 0x800) by (bit_vector);
}

/// The eight ports of the picture unit show again and again up to 0x4000:
/// an access at `addr` there is an access at `0x2000 + (addr & 7)`.
pub proof fn lemma_ppu_ports_mirror(bus: Bus, addr: u16, data: u8)
    requires
        RAM_END <= addr < PPU_REG_END,
    ensures
        bus.read_value(addr) == bus.read_value((0x2000 + (addr & 7)) as u16),
        bus.after_read(addr) == bus.after_read((0x2000 + (addr & 7)) as u16),
        bus.after_write(addr, data) == bus.after_write((0x2000 + (addr & 7)) as u16, data),
{
    reveal(Bus::read_value);
    reveal(Bus::after_read);
    reveal(Bus::after_write);
    assert(addr & 7 == addr % 8) by (bit_vector);
}

/// A read of 0x2002 returns the status flags, clears the flag of vertical
/// blank, and makes the next write to 0x2006 the first of its pair: it
/// sets the high six bits of the address and leaves the low eight.
pub proof fn lemma_status_read(bus: Bus, value: u8)
    ensures
        bus.read_value(0x2002) == bus.ppu.status_register.bits,
        bus.after_read(0x2002).ppu.status_register.bits & 0x80 == 0,
        !bus.after_read(0x2002).ppu.write_latch,
        bus.after_read(0x2002).after_write(0x2006, value).ppu.address_register.value / 256
            == value % 64,
        bus.after_read(0x2002).after_write(0x2006, value).ppu.address_register.value % 256
            == bus.ppu.address_register.value % 256,
{
    reveal(Bus::read_value);
    reveal(Bus::after_read);
    reveal(Bus::after_write);
    lemma_status_read_resets(bus.ppu, value);
}

/// Byte `i` of page `page` of work RAM.
pub open spec fn ram_page_byte(bus: &Bus, page: u8, i: int) -> u8 {
    bus.cpu_vram[(page * 256 + i) % 0x800]
}

/// A read of work RAM gives the byte there and changes nothing.
proof fn lemma_ram_read(bus: Bus, addr: u16)
    requires
        addr < RAM_END,
    ensures
        bus.read_value(addr) == bus.cpu_vram[(addr % 0x800) as int],
        bus.after_read(addr) == bus,
{
    reveal(Bus::read_value);
    reveal(Bus::after_read);
}

/// Two places in sprite memory that are less than 256 bytes apart, counted
/// from the same start, are different places.
proof fn lemma_oam_places_differ(start: u8, i: int, j: int)
    requires
        0 <= i < j < 256,
    ensures
        (start + i) % 256 != (start + j) % 256,
{
}

/// The first `n` bytes of a copy from a page of work RAM lie in sprite
/// memory from the sprite address on, wrapping at its end; the sprite
/// address has moved on by `n`, and nothing else has changed.
proof fn lemma_dma_progress(bus: Bus, page: u8, n: nat)
    requires
        page < 0x20,
        n <= 256,
    ensures
        bus.after_dma(page, n) == (Bus {
            ppu: PPU {
                oam_data: bus.after_dma(page, n).ppu.oam_data,
                oam_addr: ((bus.ppu.oam_addr + n) % 256) as u8,
                ..bus.ppu
            },
            ..bus
        }),
        forall|i: int|
            0 <= i < n ==> bus.after_dma(page, n).ppu.oam_data[(bus.ppu.oam_addr + i) % 256]
                == #[trigger] ram_page_byte(&bus, page, i),
    decreases n,
{
    if n > 0 {
        lemma_dma_progress(bus, page, (n - 1) as nat);
        let before = bus.after_dma(page, (n - 1) as nat);
        let addr = (page * 256 + (n - 1)) as u16;
        let value = bus.cpu_vram[(page * 256 + (n - 1)) % 0x800];
        let at = (bus.ppu.oam_addr + (n - 1)) % 256;
        lemma_ram_read(before, addr);
        let after = bus.after_dma(page, n);
        assert(after.ppu == before.ppu.after_oam_write(value));
        assert(after.ppu.oam_data@ == before.ppu.oam_data@.update(at, value));
        assert forall|i: int| 0 <= i < n implies after.ppu.oam_data[(bus.ppu.oam_addr + i) % 256]
            == #[trigger] ram_page_byte(&bus, page, i) by {
            if i < n - 1 {
                lemma_oam_places_differ(bus.ppu.oam_addr, i, n - 1);
                assert(before.ppu.oam_data[(bus.ppu.oam_addr + i) % 256] == ram_page_byte(
                    &bus,
                    page,
                    i,
                ));
            }
        }
    }
}

/// A write of a page of work RAM to 0x4014 puts the 256 bytes of the page
/// into sprite memory, from the sprite address on and wrapping at the end
/// of sprite memory; the sprite address is where it was; 513 cycles are
/// due; nothing else changes.
pub proof fn lemma_dma_from_ram(bus: Bus, page: u8)
    requires
        page < 0x20,
    ensures
        bus.after_write(OAM_DMA, page) == (Bus {
            dma_stall: DMA_CYCLES,
            ppu: PPU { oam_data: bus.after_write(OAM_DMA, page).ppu.oam_data, ..bus.ppu },
            ..bus
        }),
        forall|i: int|
            0 <= i < 256 ==> bus.after_write(OAM_DMA, page).ppu.oam_data[(bus.ppu.oam_addr + i)
                % 256] == #[trigger] ram_page_byte(&bus, page, i),
{
    reveal(Bus::after_write);
    lemma_dma_progress(bus, page, 256);
}

} // verus!
