//! The picture processing unit: its memory, its ports and its clock.

pub mod registers;

use vstd::prelude::*;
use crate::hw::bits::{has_flag, lemma_flag_written};
use crate::hw::bytes::zeros;
use crate::hw::cartridge::ScreenMirroring;
use crate::hw::ppu::registers::{
    AddressRegister,
    ControlRegister,
    MaskRegister,
    ScrollRegister,
    StatusRegister,
};

verus! {

/// Dots in one scanline.
pub const DOTS_PER_SCANLINE: u16 = 341;

/// Scanlines in one frame.
pub const SCANLINES_PER_FRAME: u16 = 262;

/// The scanline at whose start vertical blank begins.
pub const VBLANK_SCANLINE: u16 = 241;

/// The pre-render scanline, at whose start the status flags are cleared.
pub const PRERENDER_SCANLINE: u16 = 261;

/// Dots in one frame.
pub const DOTS_PER_FRAME: u32 = 89342;

/// Size of the character ROM.
pub const CHR_SIZE: usize = 0x2000;

pub struct PPU {
    pub chr_rom: Vec<u8>,
    pub palette_table: [u8; 32],
    pub vram: [u8; 2048],
    pub oam_data: [u8; 256],
    pub oam_addr: u8,
    pub mirroring: ScreenMirroring,
    pub address_register: AddressRegister,
    pub controller_register: ControlRegister,
    pub mask_register: MaskRegister,
    pub status_register: StatusRegister,
    pub scroll_register: ScrollRegister,
    /// Shared by the scroll and address ports: set when the next write to
    /// either is the second of its pair.
    pub write_latch: bool,
    /// What the data port handed out last fills this, and the next read
    /// below the palette returns it.
    pub internal_data_buf: u8,
    pub scanline: u16,
    /// The dot within the scanline.
    pub cycles: u16,
    pub nmi_interrupt: Option<u8>,
}

/// Where in the 2 KiB of name-table memory an address of 0x2000..0x3FFF
/// lies. The four logical tables of 0x400 bytes fold onto two physical
/// ones: horizontally as A A B B, vertically as A B A B. Four-screen
/// boards are treated as vertical.
pub open spec fn vram_index(mirroring: ScreenMirroring, addr: u16) -> int {
    let index = (addr - 0x2000) % 0x1000;
    let name_table = index / 0x400;
    let offset = index % 0x400;
    match mirroring {
        ScreenMirroring::Horizontal => (name_table / 2) * 0x400 + offset,
        _ => (name_table % 2) * 0x400 + offset,
    }
}

/// Where in the 32 bytes of palette memory an address of 0x3F00..0x3FFF
/// lies: the memory repeats every 32 bytes, and entries 0x10, 0x14, 0x18
/// and 0x1C are entries 0x00, 0x04, 0x08 and 0x0C.
pub open spec fn palette_index(addr: u16) -> int {
    let index = (addr - 0x3F00) % 32;
    if index >= 16 && index % 4 == 0 {
        index - 16
    } else {
        index
    }
}

impl PPU {
    pub open spec fn wf(&self) -> bool {
        &&& self.chr_rom@.len() == CHR_SIZE
        &&& self.cycles < DOTS_PER_SCANLINE
        &&& self.scanline < SCANLINES_PER_FRAME
        &&& self.address_register.wf()
    }

    /// Says whether the unit is in a state that its own operations leave
    /// it in.
    pub fn is_wf(&self) -> (ok: bool)
        ensures
            ok == self.wf(),
    {
        self.chr_rom.len() == CHR_SIZE && self.cycles < DOTS_PER_SCANLINE && self.scanline
            < SCANLINES_PER_FRAME && self.address_register.get() < 0x4000
    }

    /// A unit at the first dot of a frame, with all memory but the
    /// character ROM zeroed.
    pub open spec fn is_fresh(&self, chr_rom: Seq<u8>, mirroring: ScreenMirroring) -> bool {
        &&& self.chr_rom@ == chr_rom
        &&& self.mirroring == mirroring
        &&& forall|i: int| 0 <= i < 32 ==> self.palette_table[i] == 0
        &&& forall|i: int| 0 <= i < 2048 ==> self.vram[i] == 0
        &&& forall|i: int| 0 <= i < 256 ==> self.oam_data[i] == 0
        &&& self.oam_addr == 0
        &&& self.address_register.value == 0
        &&& self.controller_register.bits == 0
        &&& self.mask_register.bits == 0
        &&& self.status_register.bits == 0
        &&& self.scroll_register == (ScrollRegister { scroll_x: 0, scroll_y: 0 })
        &&& !self.write_latch
        &&& self.internal_data_buf == 0
        &&& self.scanline == 0
        &&& self.cycles == 0
        &&& self.nmi_interrupt is None
    }

    pub fn new(chr_rom: Vec<u8>, mirroring: ScreenMirroring) -> (ppu: PPU)
        requires
            chr_rom@.len() == CHR_SIZE,
        ensures
            ppu.wf(),
            ppu.is_fresh(chr_rom@, mirroring),
    {
        PPU {
            chr_rom,
            mirroring,
            palette_table: [0u8; 32],
            vram: [0u8; 2048],
            oam_data: [0u8; 256],
            oam_addr: 0,
            address_register: AddressRegister::new(),
            controller_register: ControlRegister::new(),
            mask_register: MaskRegister::new(),
            status_register: StatusRegister::new(),
            scroll_register: ScrollRegister::new(),
            write_latch: false,
            internal_data_buf: 0,
            scanline: 0,
            cycles: 0,
            nmi_interrupt: None,
        }
    }

    /// A unit without a cartridge: the character ROM reads as zeros.
    pub fn new_empty_rom() -> (ppu: PPU)
        ensures
            ppu.wf(),
            ppu.is_fresh(Seq::new(CHR_SIZE as nat, |i: int| 0u8), ScreenMirroring::Horizontal),
    {
        PPU::new(zeros(CHR_SIZE), ScreenMirroring::Horizontal)
    }

    // ---------------------------------------------------------------
    // Ports
    // ---------------------------------------------------------------

    /// The unit after a write to the control port. Switching the
    /// interrupt on while vertical blank is flagged raises it at once.
    pub open spec fn after_ctrl_write(&self, value: u8) -> PPU {
        PPU {
            controller_register: ControlRegister { bits: value },
            nmi_interrupt: if !self.controller_register.generate_vblank_nmi() && has_flag(
                value,
                ControlRegister::GENERATE_NMI,
            ) && self.status_register.is_in_vblank() {
                Some(1u8)
            } else {
                self.nmi_interrupt
            },
            ..*self
        }
    }

    pub fn write_to_ctrl(&mut self, value: u8)
        ensures
            *final(self) == old(self).after_ctrl_write(value),
    {
        let before = self.controller_register.generate_vblank_nmi();
        self.controller_register.update(value);
        if !before && self.controller_register.generate_vblank_nmi()
            && self.status_register.is_in_vblank() {
            self.nmi_interrupt = Some(1);
        }
    }

    pub fn write_to_mask(&mut self, value: u8)
        ensures
            *final(self) == (PPU { mask_register: MaskRegister { bits: value }, ..*old(self) }),
    {
        self.mask_register.update(value);
    }

    /// The unit after a read of the status port: vertical blank is no
    /// longer flagged, and the next write to the scroll or address port is
    /// the first of its pair.
    pub open spec fn after_status_read(&self) -> PPU {
        PPU {
            status_register: self.status_register.with(StatusRegister::VBLANK_STARTED, false),
            write_latch: false,
            ..*self
        }
    }

    /// Reads the status port: the flags as they stood before the read.
    pub fn read_status(&mut self) -> (data: u8)
        ensures
            data == old(self).status_register.bits,
            *final(self) == old(self).after_status_read(),
    {
        let data = self.status_register.snapshot();
        self.status_register.reset_vblank_status();
        self.write_latch = false;
        data
    }

    pub fn write_to_oam_addr(&mut self, value: u8)
        ensures
            *final(self) == (PPU { oam_addr: value, ..*old(self) }),
    {
        self.oam_addr = value;
    }

    /// The unit after a write to the sprite-memory port: the byte lands at
    /// the sprite address, which then moves on by one and wraps.
    pub open spec fn after_oam_write(&self, value: u8) -> PPU {
        PPU {
            oam_data: vstd::array::spec_array_update(self.oam_data, self.oam_addr as int, value),
            oam_addr: if self.oam_addr == 255 {
                0u8
            } else {
                (self.oam_addr + 1) as u8
            },
            ..*self
        }
    }

    pub fn write_to_oam_data(&mut self, value: u8)
        ensures
            *final(self) == old(self).after_oam_write(value),
    {
        self.oam_data[self.oam_addr as usize] = value;
        self.oam_addr = self.oam_addr.wrapping_add(1);
        assert(final(self).oam_data =~= old(self).after_oam_write(value).oam_data);
    }

    /// Reads the sprite-memory port; the sprite address stays.
    pub fn read_oam_data(&self) -> (data: u8)
        ensures
            data == self.oam_data[self.oam_addr as int],
    {
        self.oam_data[self.oam_addr as usize]
    }

    /// The unit after a write to the scroll port.
    pub open spec fn after_scroll_write(&self, value: u8) -> PPU {
        PPU {
            scroll_register: self.scroll_register.after_write(value, self.write_latch),
            write_latch: !self.write_latch,
            ..*self
        }
    }

    pub fn write_to_scroll(&mut self, value: u8)
        ensures
            *final(self) == old(self).after_scroll_write(value),
    {
        self.scroll_register.write(value, self.write_latch);
        self.write_latch = !self.write_latch;
    }

    /// The unit after a write to the address port.
    pub open spec fn after_addr_write(&self, value: u8) -> PPU {
        PPU {
            address_register: self.address_register.after_update(value, self.write_latch),
            write_latch: !self.write_latch,
            ..*self
        }
    }

    pub fn write_to_ppu_addr_reg(&mut self, value: u8)
        requires
            old(self).wf(),
        ensures
            final(self).wf(),
            *final(self) == old(self).after_addr_write(value),
    {
        self.address_register.update(value, self.write_latch);
        self.write_latch = !self.write_latch;
    }

    /// Folds an address of 0x2000..0x3FFF onto the name-table memory.
    pub fn mirror_vram_addr(&self, addr: u16) -> (index: u16)
        requires
            0x2000 <= addr,
        ensures
            index == vram_index(self.mirroring, addr),
            index < 2048,
    {
        let index: u16 = (addr - 0x2000) % 0x1000;
        let name_table: u16 = index / 0x400;
        let offset: u16 = index % 0x400;
        match self.mirroring {
            ScreenMirroring::Horizontal => (name_table / 2) * 0x400 + offset,
            _ => (name_table % 2) * 0x400 + offset,
        }
    }

    /// Folds an address of 0x3F00..0x3FFF onto the palette memory.
    pub fn mirror_palette_addr(addr: u16) -> (index: u16)
        requires
            0x3F00 <= addr,
        ensures
            index == palette_index(addr),
            index < 32,
    {
        let index: u16 = (addr - 0x3F00) % 32;
        if index >= 16 && index % 4 == 0 {
            index - 16
        } else {
            index
        }
    }

    /// The address register moved on by the step that the control register
    /// selects.
    pub open spec fn next_address(&self) -> AddressRegister {
        self.address_register.after_increment(self.controller_register.vram_addr_increment())
    }

    fn increment_vram_addr(&mut self)
        requires
            old(self).wf(),
        ensures
            final(self).wf(),
            *final(self) == (PPU { address_register: old(self).next_address(), ..*old(self) }),
    {
        self.address_register.increment(self.controller_register.vram_addr_increment());
    }

    /// The byte of picture memory at the address register, past any read
    /// buffer: character ROM below 0x2000, name tables from there on
    /// (the palette range reads the name table that lies beneath it).
    pub open spec fn memory_byte(&self) -> u8 {
        let addr = self.address_register.value;
        if addr < 0x2000 {
            self.chr_rom@[addr as int]
        } else {
            self.vram[vram_index(self.mirroring, addr)]
        }
    }

    /// What a read of the data port returns: the buffered byte below the
    /// palette, the palette entry itself in the palette range.
    pub open spec fn data_read_value(&self) -> u8 {
        let addr = self.address_register.value;
        if addr < 0x3F00 {
            self.internal_data_buf
        } else {
            self.palette_table[palette_index(addr)]
        }
    }

    /// The unit after a read of the data port: the buffer holds the byte
    /// at the address, and the address has moved on.
    pub open spec fn after_data_read(&self) -> PPU {
        PPU {
            internal_data_buf: self.memory_byte(),
            address_register: self.next_address(),
            ..*self
        }
    }

    pub fn read_data(&mut self) -> (data: u8)
        requires
            old(self).wf(),
        ensures
            final(self).wf(),
            data == old(self).data_read_value(),
            *final(self) == old(self).after_data_read(),
    {
        let addr = self.address_register.get();
        self.increment_vram_addr();
        let fill: u8 = if addr < 0x2000 {
            self.chr_rom[addr as usize]
        } else {
            let index = self.mirror_vram_addr(addr);
            self.vram[index as usize]
        };
        let data: u8 = if addr < 0x3F00 {
            self.internal_data_buf
        } else {
            let index = Self::mirror_palette_addr(addr);
            self.palette_table[index as usize]
        };
        self.internal_data_buf = fill;
        data
    }

    /// The unit after a write to the data port: a byte for the name tables
    /// or the palette is stored, one for the character ROM is dropped, and
    /// the address has moved on.
    pub open spec fn after_data_write(&self, value: u8) -> PPU {
        let addr = self.address_register.value;
        PPU {
            vram: if 0x2000 <= addr < 0x3F00 {
                vstd::array::spec_array_update(self.vram, vram_index(self.mirroring, addr), value)
            } else {
                self.vram
            },
            palette_table: if 0x3F00 <= addr {
                vstd::array::spec_array_update(self.palette_table, palette_index(addr), value)
            } else {
                self.palette_table
            },
            address_register: self.next_address(),
            ..*self
        }
    }

    pub fn write_to_data(&mut self, value: u8)
        requires
            old(self).wf(),
        ensures
            final(self).wf(),
            *final(self) == old(self).after_data_write(value),
    {
        let addr = self.address_register.get();
        if addr < 0x2000 {
        } else if addr < 0x3F00 {
            let index = self.mirror_vram_addr(addr);
            self.vram[index as usize] = value;
        } else {
            let index = Self::mirror_palette_addr(addr);
            self.palette_table[index as usize] = value;
        }
        self.increment_vram_addr();
        assert(final(self).vram =~= old(self).after_data_write(value).vram);
        assert(final(self).palette_table =~= old(self).after_data_write(value).palette_table);
    }

    /// Takes the pending interrupt, if there is one.
    pub fn poll_nmi_interrupt(&mut self) -> (taken: Option<u8>)
        ensures
            taken == old(self).nmi_interrupt,
            *final(self) == (PPU { nmi_interrupt: None, ..*old(self) }),
    {
        let taken = self.nmi_interrupt;
        self.nmi_interrupt = None;
        taken
    }

    // ---------------------------------------------------------------
    // Clock
    // ---------------------------------------------------------------

    /// The unit at the start of the scanline after this one. Entering
    /// line 241 flags vertical blank and, if the control register asks for
    /// it, raises the interrupt; entering line 261 clears the status
    /// flags; after line 261 comes line 0.
    pub open spec fn at_next_scanline(&self) -> PPU {
        let line: u16 = if self.scanline + 1 >= SCANLINES_PER_FRAME {
            0u16
        } else {
            (self.scanline + 1) as u16
        };
        PPU {
            cycles: 0,
            scanline: line,
            status_register: if line == VBLANK_SCANLINE {
                self.status_register.with(StatusRegister::VBLANK_STARTED, true)
            } else if line == PRERENDER_SCANLINE {
                self.status_register.cleared()
            } else {
                self.status_register
            },
            nmi_interrupt: if line == VBLANK_SCANLINE
                && self.controller_register.generate_vblank_nmi() {
                Some(1u8)
            } else {
                self.nmi_interrupt
            },
            ..*self
        }
    }

    /// This dot is the last of its scanline.
    pub open spec fn at_line_end(&self) -> bool {
        self.cycles + 1 >= DOTS_PER_SCANLINE
    }

    /// This dot is the last of its frame.
    pub open spec fn at_frame_end(&self) -> bool {
        self.at_line_end() && self.scanline + 1 >= SCANLINES_PER_FRAME
    }

    /// The unit one dot later.
    pub open spec fn after_dot(&self) -> PPU {
        if self.at_line_end() {
            self.at_next_scanline()
        } else {
            PPU { cycles: (self.cycles + 1) as u16, ..*self }
        }
    }

    /// The unit `n` dots later.
    pub open spec fn after_dots(&self, n: nat) -> PPU
        decreases n,
    {
        if n == 0 {
            *self
        } else {
            self.after_dot().after_dots((n - 1) as nat)
        }
    }

    /// How many frames end within the next `n` dots.
    pub open spec fn frames_within(&self, n: nat) -> nat
        decreases n,
    {
        if n == 0 {
            0
        } else {
            let ended: nat = if self.at_frame_end() {
                1
            } else {
                0
            };
            ended + self.after_dot().frames_within((n - 1) as nat)
        }
    }

    /// How many times the interrupt is raised by the clock within the next
    /// `n` dots.
    pub open spec fn nmis_within(&self, n: nat) -> nat
        decreases n,
    {
        if n == 0 {
            0
        } else {
            let raised: nat = if self.at_line_end() && self.at_next_scanline().scanline
                == VBLANK_SCANLINE && self.controller_register.generate_vblank_nmi() {
                1
            } else {
                0
            };
            raised + self.after_dot().nmis_within((n - 1) as nat)
        }
    }

    fn next_scanline(&mut self) -> (wrapped: bool)
        requires
            old(self).wf(),
        ensures
            final(self).wf(),
            *final(self) == old(self).at_next_scanline(),
            wrapped == (old(self).scanline + 1 >= SCANLINES_PER_FRAME),
    {
        self.cycles = 0;
        let wrapped = self.scanline + 1 >= SCANLINES_PER_FRAME;
        if wrapped {
            self.scanline = 0;
        } else {
            self.scanline = self.scanline + 1;
        }
        if self.scanline == VBLANK_SCANLINE {
            self.status_register.set_vblank_status(true);
            if self.controller_register.generate_vblank_nmi() {
                self.nmi_interrupt = Some(1);
            }
        } else if self.scanline == PRERENDER_SCANLINE {
            self.status_register.set_vblank_status(false);
            self.status_register.set_sprite_zero_hit(false);
            self.status_register.set_sprite_overflow(false);
        }
        wrapped
    }

    /// Runs the clock for `dots` dots and says whether a frame ended on
    /// the way.
    pub fn tick(&mut self, dots: u16) -> (frame_complete: bool)
        requires
            old(self).wf(),
        ensures
            final(self).wf(),
            *final(self) == old(self).after_dots(dots as nat),
            frame_complete == (old(self).frames_within(dots as nat) > 0),
    {
        let mut left: u16 = dots;
        let mut frame_complete = false;
        let ghost mut ended: nat = 0;
        while left > 0
            invariant
                self.wf(),
                self.after_dots(left as nat) == old(self).after_dots(dots as nat),
                ended + self.frames_within(left as nat) == old(self).frames_within(dots as nat),
                frame_complete == (ended > 0),
            decreases left,
        {
            let room: u16 = DOTS_PER_SCANLINE - self.cycles;
            if left < room {
                proof {
                    lemma_dots_within_line(*self, left as nat);
                }
                self.cycles = self.cycles + left;
                left = 0;
            } else {
                proof {
                    let ghost before = *self;
                    let ghost at_end = PPU { cycles: 340, ..before };
                    lemma_dots_within_line(before, (room - 1) as nat);
                    lemma_one_dot(at_end);
                    lemma_dots_split(before, (room - 1) as nat, 1);
                    lemma_dots_split(before, room as nat, (left - room) as nat);
                    assert(at_end.at_next_scanline() == before.at_next_scanline());
                    if before.scanline + 1 >= SCANLINES_PER_FRAME {
                        ended = ended + 1;
                    }
                }
                left = left - room;
                let wrapped = self.next_scanline();
                if wrapped {
                    frame_complete = true;
                }
            }
        }
        frame_complete
    }
}

/// Dots that do not reach the end of the scanline only move the dot
/// counter.
pub proof fn lemma_dots_within_line(ppu: PPU, n: nat)
    requires
        ppu.cycles + n < DOTS_PER_SCANLINE,
    ensures
        ppu.after_dots(n) == (PPU { cycles: (ppu.cycles + n) as u16, ..ppu }),
        ppu.frames_within(n) == 0,
        ppu.nmis_within(n) == 0,
    decreases n,
{
    if n > 0 {
        lemma_dots_within_line(ppu.after_dot(), (n - 1) as nat);
    }
}

/// One dot of the clock.
pub proof fn lemma_one_dot(ppu: PPU)
    ensures
        ppu.after_dots(1) == ppu.after_dot(),
        ppu.frames_within(1) == if ppu.at_frame_end() {
            1nat
        } else {
            0nat
        },
{
    reveal_with_fuel(PPU::after_dots, 2);
    reveal_with_fuel(PPU::frames_within, 2);
}

/// Running the clock for `a + b` dots is running it for `a` and then for
/// `b`.
pub proof fn lemma_dots_split(ppu: PPU, a: nat, b: nat)
    ensures
        ppu.after_dots(a + b) == ppu.after_dots(a).after_dots(b),
        ppu.frames_within(a + b) == ppu.frames_within(a) + ppu.after_dots(a).frames_within(b),
        ppu.nmis_within(a + b) == ppu.nmis_within(a) + ppu.after_dots(a).nmis_within(b),
    decreases a,
{
    if a > 0 {
        lemma_dots_split(ppu.after_dot(), (a - 1) as nat, b);
        assert(a + b - 1 == (a - 1) + b);
    }
}

/// Palette memory shows again every 32 bytes up to 0x3FFF, and within
/// its 32 bytes the entries 0x10, 0x14, 0x18 and 0x1C are the entries 0x00,
/// 0x04, 0x08 and 0x0C.
pub proof fn lemma_palette_mirrors(addr: u16)
    requires
        0x3F00 <= addr <= 0x3FFF,
    ensures
        0 <= palette_index(addr) < 32,
        palette_index(addr) == palette_index((0x3F00 + (addr - 0x3F00) % 32) as u16),
        palette_index(0x3F10) == 0x00,
        palette_index(0x3F14) == 0x04,
        palette_index(0x3F18) == 0x08,
        palette_index(0x3F1C) == 0x0C,
{
}

/// The four logical name tables fold onto two physical ones: with
/// horizontal mirroring the first two share one and the last two the
/// other; with vertical mirroring the first and third share one and the
/// second and fourth the other. The range from 0x3000 on shows the name
/// tables again.
pub proof fn lemma_name_tables_mirror(mirroring: ScreenMirroring, offset: u16)
    requires
        offset < 0x400,
    ensures
        0 <= vram_index(mirroring, (0x2000 + offset) as u16) < 2048,
        mirroring == ScreenMirroring::Horizontal ==> {
            &&& vram_index(mirroring, (0x2000 + offset) as u16) == offset
            &&& vram_index(mirroring, (0x2400 + offset) as u16) == offset
            &&& vram_index(mirroring, (0x2800 + offset) as u16) == 0x400 + offset
            &&& vram_index(mirroring, (0x2C00 + offset) as u16) == 0x400 + offset
        },
        mirroring != ScreenMirroring::Horizontal ==> {
            &&& vram_index(mirroring, (0x2000 + offset) as u16) == offset
            &&& vram_index(mirroring, (0x2400 + offset) as u16) == 0x400 + offset
            &&& vram_index(mirroring, (0x2800 + offset) as u16) == offset
            &&& vram_index(mirroring, (0x2C00 + offset) as u16) == 0x400 + offset
        },
        forall|addr: u16|
            0x2000 <= addr < 0x2F00 ==> #[trigger] vram_index(mirroring, (addr + 0x1000) as u16)
                == vram_index(mirroring, addr),
{
}

/// Dots from the start of the frame to the dot at which vertical blank
/// begins.
pub const VBLANK_DOT: u32 = 82181;

impl PPU {
    /// Dots since the start of the frame.
    pub open spec fn dot_position(&self) -> int {
        self.scanline * DOTS_PER_SCANLINE + self.cycles
    }
}

/// Where the clock stands after `n` dots, and how many frames ended on the
/// way: the dots of a frame are counted round and round, and a frame ends
/// each time the count returns to 0. So a frame ends exactly once in every
/// 89,342 dots, which is once in 29,780 2/3 processor cycles.
pub proof fn lemma_frames_by_position(ppu: PPU, n: nat)
    requires
        ppu.wf(),
    ensures
        ppu.after_dots(n).wf(),
        ppu.after_dots(n).dot_position() == (ppu.dot_position() + n) % (DOTS_PER_FRAME as int),
        ppu.frames_within(n) == (ppu.dot_position() + n) / (DOTS_PER_FRAME as int),
    decreases n,
{
    if n > 0 {
        lemma_frames_by_position(ppu.after_dot(), (n - 1) as nat);
    }
}

/// In any 89,342 dots in a row exactly one frame ends.
pub proof fn lemma_one_frame_per_period(ppu: PPU)
    requires
        ppu.wf(),
    ensures
        ppu.frames_within(DOTS_PER_FRAME as nat) == 1,
{
    lemma_frames_by_position(ppu, DOTS_PER_FRAME as nat);
}

/// How often the dot at which vertical blank begins lies among the first
/// `x` dots after the start of a frame, dot `x` included.
pub open spec fn vblank_starts_up_to(x: int) -> int {
    (x + DOTS_PER_FRAME - VBLANK_DOT) / (DOTS_PER_FRAME as int)
}

/// While the control register asks for the interrupt, the clock raises it
/// each time vertical blank begins, and at no other time.
pub proof fn lemma_nmis_by_position(ppu: PPU, n: nat)
    requires
        ppu.wf(),
    ensures
        ppu.after_dots(n).controller_register == ppu.controller_register,
        ppu.controller_register.generate_vblank_nmi() ==> ppu.nmis_within(n) == vblank_starts_up_to(
            ppu.dot_position() + n,
        ) - vblank_starts_up_to(ppu.dot_position()),
        !ppu.controller_register.generate_vblank_nmi() ==> ppu.nmis_within(n) == 0
            && ppu.after_dots(n).nmi_interrupt == ppu.nmi_interrupt,
    decreases n,
{
    if n > 0 {
        lemma_frames_by_position(ppu, 1);
        lemma_one_dot(ppu);
        lemma_nmis_by_position(ppu.after_dot(), (n - 1) as nat);
    }
}

/// While the control register asks for the interrupt, the clock raises it
/// at most once in the dots of one frame; while it does not, never.
pub proof fn lemma_nmi_once_per_frame(ppu: PPU, n: nat)
    requires
        ppu.wf(),
        n <= DOTS_PER_FRAME,
    ensures
        ppu.nmis_within(n) <= 1,
        !ppu.controller_register.generate_vblank_nmi() ==> ppu.nmis_within(n) == 0,
{
    lemma_nmis_by_position(ppu, n);
}

/// After a read of the status port vertical blank is no longer flagged,
/// and the next write to the address port sets the high six bits of the
/// address and leaves the low eight.
pub proof fn lemma_status_read_resets(ppu: PPU, value: u8)
    ensures
        !ppu.after_status_read().status_register.is_in_vblank(),
        ppu.after_status_read().status_register.bits & 0x80 == 0,
        !ppu.after_status_read().write_latch,
        ppu.after_status_read().after_addr_write(value).address_register.value / 256 == value
            % 64,
        ppu.after_status_read().after_addr_write(value).address_register.value % 256
            == ppu.address_register.value % 256,
{
    lemma_flag_written(ppu.status_register.bits, StatusRegister::VBLANK_STARTED, false);
    let bits = ppu.status_register.bits;
    assert((bits & !0x80u8) & 0x80 == 0) by (bit_vector);
}

} // verus!
