//! The registers of the picture unit that the processor reaches through
//! the bus.

use vstd::prelude::*;
use crate::hw::bits::{has_flag, set_flag, test_flag, with_flag};

verus! {

/// The control register, written through port 0x2000.
#[derive(Clone, Copy, Debug, PartialEq, Eq, Structural)]
pub struct ControlRegister {
    pub bits: u8,
}

impl ControlRegister {
    pub const NAMETABLE1: u8 = 0b0000_0001;
    pub const NAMETABLE2: u8 = 0b0000_0010;
    pub const VRAM_ADD_INCREMENT: u8 = 0b0000_0100;
    pub const SPRITE_PATTERN_ADDR: u8 = 0b0000_1000;
    pub const BACKROUND_PATTERN_ADDR: u8 = 0b0001_0000;
    pub const SPRITE_SIZE: u8 = 0b0010_0000;
    pub const MASTER_SLAVE_SELECT: u8 = 0b0100_0000;
    pub const GENERATE_NMI: u8 = 0b1000_0000;

    pub fn new() -> (r: ControlRegister)
        ensures
            r.bits == 0,
    {
        ControlRegister { bits: 0 }
    }

    pub open spec fn spec_nametable_addr(self) -> u16 {
        if self.bits & 0b11 == 0 {
            0x2000
        } else if self.bits & 0b11 == 1 {
            0x2400
        } else if self.bits & 0b11 == 2 {
            0x2800
        } else {
            0x2C00
        }
    }

    /// Address of the name table that bits 0 and 1 select.
    #[verifier::when_used_as_spec(spec_nametable_addr)]
    pub fn nametable_addr(self) -> (r: u16)
        ensures
            r == self.spec_nametable_addr(),
    {
        let select: u8 = self.bits & 0b11;
        if select == 0 {
            0x2000
        } else if select == 1 {
            0x2400
        } else if select == 2 {
            0x2800
        } else {
            0x2C00
        }
    }

    pub open spec fn spec_vram_addr_increment(self) -> u8 {
        if has_flag(self.bits, Self::VRAM_ADD_INCREMENT) {
            32
        } else {
            1
        }
    }

    /// The step by which an access through the data port moves the
    /// address on: 1, or 32 when bit 2 is set.
    #[verifier::when_used_as_spec(spec_vram_addr_increment)]
    pub fn vram_addr_increment(self) -> (r: u8)
        ensures
            r == self.spec_vram_addr_increment(),
    {
        if test_flag(self.bits, Self::VRAM_ADD_INCREMENT) {
            32
        } else {
            1
        }
    }

    pub open spec fn spec_sprt_pattern_addr(self) -> u16 {
        if has_flag(self.bits, Self::SPRITE_PATTERN_ADDR) {
            0x1000
        } else {
            0
        }
    }

    /// Start of the pattern table that sprites are drawn from.
    #[verifier::when_used_as_spec(spec_sprt_pattern_addr)]
    pub fn sprt_pattern_addr(self) -> (r: u16)
        ensures
            r == self.spec_sprt_pattern_addr(),
    {
        if test_flag(self.bits, Self::SPRITE_PATTERN_ADDR) {
            0x1000
        } else {
            0
        }
    }

    pub open spec fn spec_bknd_pattern_addr(self) -> u16 {
        if has_flag(self.bits, Self::BACKROUND_PATTERN_ADDR) {
            0x1000
        } else {
            0
        }
    }

    /// Start of the pattern table that the background is drawn from.
    #[verifier::when_used_as_spec(spec_bknd_pattern_addr)]
    pub fn bknd_pattern_addr(self) -> (r: u16)
        ensures
            r == self.spec_bknd_pattern_addr(),
    {
        if test_flag(self.bits, Self::BACKROUND_PATTERN_ADDR) {
            0x1000
        } else {
            0
        }
    }

    pub open spec fn spec_sprite_size(self) -> u8 {
        if has_flag(self.bits, Self::SPRITE_SIZE) {
            16
        } else {
            8
        }
    }

    /// Height of a sprite in pixels.
    #[verifier::when_used_as_spec(spec_sprite_size)]
    pub fn sprite_size(self) -> (r: u8)
        ensures
            r == self.spec_sprite_size(),
    {
        if test_flag(self.bits, Self::SPRITE_SIZE) {
            16
        } else {
            8
        }
    }

    pub open spec fn spec_master_slave_select(self) -> u8 {
        if has_flag(self.bits, Self::MASTER_SLAVE_SELECT) {
            1
        } else {
            0
        }
    }

    #[verifier::when_used_as_spec(spec_master_slave_select)]
    pub fn master_slave_select(self) -> (r: u8)
        ensures
            r == self.spec_master_slave_select(),
    {
        if test_flag(self.bits, Self::MASTER_SLAVE_SELECT) {
            1
        } else {
            0
        }
    }

    pub open spec fn spec_generate_vblank_nmi(self) -> bool {
        has_flag(self.bits, Self::GENERATE_NMI)
    }

    /// Bit 7: the unit interrupts the processor when vertical blank begins.
    #[verifier::when_used_as_spec(spec_generate_vblank_nmi)]
    pub fn generate_vblank_nmi(self) -> (r: bool)
        ensures
            r == self.spec_generate_vblank_nmi(),
    {
        test_flag(self.bits, Self::GENERATE_NMI)
    }

    pub fn update(&mut self, data: u8)
        ensures
            final(self).bits == data,
    {
        self.bits = data;
    }
}

/// The mask register, written through port 0x2001.
#[derive(Clone, Copy, Debug, PartialEq, Eq, Structural)]
pub struct MaskRegister {
    pub bits: u8,
}

impl MaskRegister {
    pub const GREYSCALE: u8 = 0b0000_0001;
    pub const LEFTMOST_8PXL_BACKGROUND: u8 = 0b0000_0010;
    pub const LEFTMOST_8PXL_SPRITE: u8 = 0b0000_0100;
    pub const SHOW_BACKGROUND: u8 = 0b0000_1000;
    pub const SHOW_SPRITES: u8 = 0b0001_0000;
    pub const EMPHASISE_RED: u8 = 0b0010_0000;
    pub const EMPHASISE_GREEN: u8 = 0b0100_0000;
    pub const EMPHASISE_BLUE: u8 = 0b1000_0000;

    pub fn new() -> (r: MaskRegister)
        ensures
            r.bits == 0,
    {
        MaskRegister { bits: 0 }
    }

    pub open spec fn spec_contains(self, mask: u8) -> bool {
        has_flag(self.bits, mask)
    }

    /// Every switch of `mask` is on.
    #[verifier::when_used_as_spec(spec_contains)]
    pub fn contains(self, mask: u8) -> (r: bool)
        ensures
            r == has_flag(self.bits, mask),
    {
        test_flag(self.bits, mask)
    }

    /// Bit 0: the picture is shown in shades of grey.
    pub fn is_grayscale(self) -> (r: bool)
        ensures
            r == has_flag(self.bits, Self::GREYSCALE),
    {
        test_flag(self.bits, Self::GREYSCALE)
    }

    /// Bit 1: the background is shown in the leftmost eight pixels.
    pub fn leftmost_8pxl_background(self) -> (r: bool)
        ensures
            r == has_flag(self.bits, Self::LEFTMOST_8PXL_BACKGROUND),
    {
        test_flag(self.bits, Self::LEFTMOST_8PXL_BACKGROUND)
    }

    /// Bit 2: sprites are shown in the leftmost eight pixels.
    pub fn leftmost_8pxl_sprite(self) -> (r: bool)
        ensures
            r == has_flag(self.bits, Self::LEFTMOST_8PXL_SPRITE),
    {
        test_flag(self.bits, Self::LEFTMOST_8PXL_SPRITE)
    }

    /// Bit 3: the background is shown.
    pub fn show_background(self) -> (r: bool)
        ensures
            r == has_flag(self.bits, Self::SHOW_BACKGROUND),
    {
        test_flag(self.bits, Self::SHOW_BACKGROUND)
    }

    /// Bit 4: sprites are shown.
    pub fn show_sprites(self) -> (r: bool)
        ensures
            r == has_flag(self.bits, Self::SHOW_SPRITES),
    {
        test_flag(self.bits, Self::SHOW_SPRITES)
    }

    /// Bits 5, 6 and 7: red, green and blue are emphasised.
    pub fn emphasise(self) -> (r: (bool, bool, bool))
        ensures
            r.0 == has_flag(self.bits, Self::EMPHASISE_RED),
            r.1 == has_flag(self.bits, Self::EMPHASISE_GREEN),
            r.2 == has_flag(self.bits, Self::EMPHASISE_BLUE),
    {
        (
            test_flag(self.bits, Self::EMPHASISE_RED),
            test_flag(self.bits, Self::EMPHASISE_GREEN),
            test_flag(self.bits, Self::EMPHASISE_BLUE),
        )
    }

    pub fn update(&mut self, data: u8)
        ensures
            final(self).bits == data,
    {
        self.bits = data;
    }
}

/// The status register, read through port 0x2002.
#[derive(Clone, Copy, Debug, PartialEq, Eq, Structural)]
pub struct StatusRegister {
    pub bits: u8,
}

impl StatusRegister {
    pub const SPRITE_OVERFLOW: u8 = 0b0010_0000;
    pub const SPRITE_ZERO_HIT: u8 = 0b0100_0000;
    pub const VBLANK_STARTED: u8 = 0b1000_0000;

    pub fn new() -> (r: StatusRegister)
        ensures
            r.bits == 0,
    {
        StatusRegister { bits: 0 }
    }

    /// The register with the flags of `mask` set or cleared.
    pub open spec fn with(self, mask: u8, on: bool) -> StatusRegister {
        StatusRegister { bits: with_flag(self.bits, mask, on) }
    }

    /// The register as the pre-render line leaves it: vertical blank,
    /// sprite-zero hit and sprite overflow cleared.
    pub open spec fn cleared(self) -> StatusRegister {
        self.with(Self::VBLANK_STARTED, false).with(Self::SPRITE_ZERO_HIT, false).with(
            Self::SPRITE_OVERFLOW,
            false,
        )
    }

    pub fn set_vblank_status(&mut self, status: bool)
        ensures
            *final(self) == old(self).with(Self::VBLANK_STARTED, status),
    {
        self.bits = set_flag(self.bits, Self::VBLANK_STARTED, status);
    }

    pub fn set_sprite_zero_hit(&mut self, status: bool)
        ensures
            *final(self) == old(self).with(Self::SPRITE_ZERO_HIT, status),
    {
        self.bits = set_flag(self.bits, Self::SPRITE_ZERO_HIT, status);
    }

    pub fn set_sprite_overflow(&mut self, status: bool)
        ensures
            *final(self) == old(self).with(Self::SPRITE_OVERFLOW, status),
    {
        self.bits = set_flag(self.bits, Self::SPRITE_OVERFLOW, status);
    }

    pub fn reset_vblank_status(&mut self)
        ensures
            *final(self) == old(self).with(Self::VBLANK_STARTED, false),
    {
        self.bits = set_flag(self.bits, Self::VBLANK_STARTED, false);
    }

    pub open spec fn spec_is_in_vblank(self) -> bool {
        has_flag(self.bits, Self::VBLANK_STARTED)
    }

    #[verifier::when_used_as_spec(spec_is_in_vblank)]
    pub fn is_in_vblank(self) -> (r: bool)
        ensures
            r == self.spec_is_in_vblank(),
    {
        test_flag(self.bits, Self::VBLANK_STARTED)
    }

    pub fn snapshot(self) -> (r: u8)
        ensures
            r == self.bits,
    {
        self.bits
    }
}

/// The scroll position, written through port 0x2005 in two steps.
#[derive(Clone, Copy, Debug, PartialEq, Eq, Structural)]
pub struct ScrollRegister {
    pub scroll_x: u8,
    pub scroll_y: u8,
}

impl ScrollRegister {
    pub fn new() -> (r: ScrollRegister)
        ensures
            r == (ScrollRegister { scroll_x: 0, scroll_y: 0 }),
    {
        ScrollRegister { scroll_x: 0, scroll_y: 0 }
    }

    /// The register after a write: the first of a pair sets the horizontal
    /// position, the second the vertical one.
    pub open spec fn after_write(self, data: u8, second: bool) -> ScrollRegister {
        if second {
            ScrollRegister { scroll_y: data, ..self }
        } else {
            ScrollRegister { scroll_x: data, ..self }
        }
    }

    pub fn write(&mut self, data: u8, second: bool)
        ensures
            *final(self) == old(self).after_write(data, second),
    {
        if second {
            self.scroll_y = data;
        } else {
            self.scroll_x = data;
        }
    }
}

/// The address that the data port works at: 14 bits, written through port
/// 0x2006 in two steps.
#[derive(Clone, Copy, Debug, PartialEq, Eq, Structural)]
pub struct AddressRegister {
    pub value: u16,
}

impl AddressRegister {
    pub open spec fn wf(self) -> bool {
        self.value < 0x4000
    }

    pub fn new() -> (r: AddressRegister)
        ensures
            r.value == 0,
    {
        AddressRegister { value: 0 }
    }

    /// The register after a write: the first of a pair sets the high six
    /// bits, the second the low eight.
    pub open spec fn after_update(self, data: u8, second: bool) -> AddressRegister {
        if second {
            AddressRegister { value: ((self.value / 256) * 256 + data) as u16 }
        } else {
            AddressRegister { value: ((data % 64) * 256 + self.value % 256) as u16 }
        }
    }

    pub fn update(&mut self, data: u8, second: bool)
        requires
            old(self).wf(),
        ensures
            *final(self) == old(self).after_update(data, second),
            final(self).wf(),
    {
        let high: u16 = self.value / 256;
        let low: u16 = self.value % 256;
        if second {
            self.value = high * 256 + data as u16;
        } else {
            self.value = (data % 64) as u16 * 256 + low;
        }
    }

    /// The register moved on by `inc`, wrapping at the end of the 14-bit
    /// space.
    pub open spec fn after_increment(self, inc: u8) -> AddressRegister {
        AddressRegister { value: ((self.value + inc) % 0x4000) as u16 }
    }

    pub fn increment(&mut self, inc: u8)
        requires
            old(self).wf(),
        ensures
            *final(self) == old(self).after_increment(inc),
            final(self).wf(),
    {
        self.value = (self.value + inc as u16) % 0x4000;
    }

    pub fn get(self) -> (r: u16)
        ensures
            r == self.value,
    {
        self.value
    }
}

} // verus!
