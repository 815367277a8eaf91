//! Cartridge images in the iNES container, restricted to the NROM board.

use vstd::prelude::*;
use crate::hw::bytes::{copy_bytes, copy_range};

verus! {

/// Size of one program ROM bank.
pub const PRG_ROM_PAGE_SIZE: usize = 0x4000;

/// Size of one character ROM bank.
pub const CHR_ROM_PAGE_SIZE: usize = 0x2000;

/// Length of the iNES header.
pub const HEADER_SIZE: usize = 16;

/// Length of the optional trainer block that follows the header.
pub const TRAINER_SIZE: usize = 512;

/// How the two physical name tables are laid out over the four logical ones.
#[derive(Clone, Copy, Debug, PartialEq, Eq, Structural)]
pub enum ScreenMirroring {
    Horizontal,
    Vertical,
    FourScreen,
}

/// Why an image was turned down.
#[derive(Clone, Copy, Debug, PartialEq, Eq, Structural)]
pub enum CartridgeError {
    /// The image is not an iNES 1 file of an NROM board.
    UnsupportedFormat,
    /// The image asks for a mapper other than 0.
    UnsupportedMapper,
    /// The image is shorter than its header announces.
    Truncated,
}

/// A loaded NROM cartridge.
#[derive(Debug)]
pub struct Cartridge {
    pub prg_rom: Vec<u8>,
    pub chr_rom: Vec<u8>,
    pub mapper: u8,
    pub screen_mirroring: ScreenMirroring,
}

/// The first four bytes are `N`, `E`, `S`, `0x1A`.
pub open spec fn has_magic(raw: Seq<u8>) -> bool {
    &&& raw.len() >= 4
    &&& raw[0] == 0x4E
    &&& raw[1] == 0x45
    &&& raw[2] == 0x53
    &&& raw[3] == 0x1A
}

/// Bits 2 and 3 of byte 7 read `10`: the header is in the iNES 2 layout.
pub open spec fn is_ines2(raw: Seq<u8>) -> bool {
    raw[7] & 0x0C == 0x08
}

/// The mapper number: high nibble from byte 7, low nibble from byte 6.
pub open spec fn mapper_of(raw: Seq<u8>) -> u8 {
    (raw[7] & 0xF0) | (raw[6] >> 4)
}

/// The mirroring mode that byte 6 selects.
pub open spec fn mirroring_of(raw: Seq<u8>) -> ScreenMirroring {
    if raw[6] & 0x08 != 0 {
        ScreenMirroring::FourScreen
    } else if raw[6] & 0x01 != 0 {
        ScreenMirroring::Vertical
    } else {
        ScreenMirroring::Horizontal
    }
}

/// Offset of the program ROM: after the header and, if present, the trainer.
pub open spec fn prg_start(raw: Seq<u8>) -> int {
    if raw[6] & 0x04 != 0 {
        HEADER_SIZE + TRAINER_SIZE
    } else {
        HEADER_SIZE as int
    }
}

/// Length of the program ROM that byte 4 announces.
pub open spec fn prg_len(raw: Seq<u8>) -> int {
    raw[4] * PRG_ROM_PAGE_SIZE
}

/// Length of the character ROM that byte 5 announces.
pub open spec fn chr_len(raw: Seq<u8>) -> int {
    raw[5] * CHR_ROM_PAGE_SIZE
}

/// The reason for which an image is turned down, if there is one.
///
/// The checks are made in this order: magic, header length, iNES 2 marker,
/// mapper, bank counts (one or two program banks and one character bank),
/// payload length.
pub open spec fn load_error(raw: Seq<u8>) -> Option<CartridgeError> {
    if !has_magic(raw) {
        Some(CartridgeError::UnsupportedFormat)
    } else if raw.len() < HEADER_SIZE {
        Some(CartridgeError::Truncated)
    } else if is_ines2(raw) {
        Some(CartridgeError::UnsupportedFormat)
    } else if mapper_of(raw) != 0 {
        Some(CartridgeError::UnsupportedMapper)
    } else if !(raw[4] == 1 || raw[4] == 2) || raw[5] != 1 {
        Some(CartridgeError::UnsupportedFormat)
    } else if raw.len() < prg_start(raw) + prg_len(raw) + chr_len(raw) {
        Some(CartridgeError::Truncated)
    } else {
        None
    }
}

impl Cartridge {
    /// The sizes of an NROM board: 16 or 32 KiB of program ROM, 8 KiB of
    /// character ROM, mapper 0.
    pub open spec fn wf(&self) -> bool {
        &&& (self.prg_rom@.len() == 0x4000 || self.prg_rom@.len() == 0x8000)
        &&& self.chr_rom@.len() == 0x2000
        &&& self.mapper == 0
    }

    /// The cartridge is what the iNES image `raw` holds: the program ROM
    /// and the character ROM are the bytes of the image where its header
    /// places them, and the mirroring is the one that the header names.
    pub open spec fn holds(&self, raw: Seq<u8>) -> bool {
        &&& self.wf()
        &&& self.prg_rom@ == raw.subrange(prg_start(raw), prg_start(raw) + prg_len(raw))
        &&& self.chr_rom@ == raw.subrange(
            prg_start(raw) + prg_len(raw),
            prg_start(raw) + prg_len(raw) + chr_len(raw),
        )
        &&& self.screen_mirroring == mirroring_of(raw)
    }

    /// Says whether the cartridge has the sizes of an NROM board.
    pub fn is_wf(&self) -> (ok: bool)
        ensures
            ok == self.wf(),
    {
        (self.prg_rom.len() == 0x4000 || self.prg_rom.len() == 0x8000) && self.chr_rom.len()
            == 0x2000 && self.mapper == 0
    }

    /// Reads an iNES image.
    pub fn new(raw: Vec<u8>) -> (r: Result<Cartridge, CartridgeError>)
        ensures
            match r {
                Ok(c) => load_error(raw@) is None && c.holds(raw@),
                Err(e) => load_error(raw@) == Some(e),
            },
    {
        if raw.len() < 4 || raw[0] != 0x4E || raw[1] != 0x45 || raw[2] != 0x53 || raw[3] != 0x1A {
            return Err(CartridgeError::UnsupportedFormat);
        }
        if raw.len() < HEADER_SIZE {
            return Err(CartridgeError::Truncated);
        }
        if raw[7] & 0x0C == 0x08 {
            return Err(CartridgeError::UnsupportedFormat);
        }
        let mapper: u8 = (raw[7] & 0xF0) | (raw[6] >> 4);
        if mapper != 0 {
            return Err(CartridgeError::UnsupportedMapper);
        }
        if !(raw[4] == 1 || raw[4] == 2) || raw[5] != 1 {
            return Err(CartridgeError::UnsupportedFormat);
        }
        let screen_mirroring = if raw[6] & 0x08 != 0 {
            ScreenMirroring::FourScreen
        } else if raw[6] & 0x01 != 0 {
            ScreenMirroring::Vertical
        } else {
            ScreenMirroring::Horizontal
        };
        let start: usize = if raw[6] & 0x04 != 0 {
            HEADER_SIZE + TRAINER_SIZE
        } else {
            HEADER_SIZE
        };
        let prg_size: usize = if raw[4] == 1 {
            PRG_ROM_PAGE_SIZE
        } else {
            2 * PRG_ROM_PAGE_SIZE
        };
        if raw.len() < start + prg_size + CHR_ROM_PAGE_SIZE {
            return Err(CartridgeError::Truncated);
        }
        let prg_rom = copy_range(raw.as_slice(), start, prg_size);
        let chr_rom = copy_range(raw.as_slice(), start + prg_size, CHR_ROM_PAGE_SIZE);
        Ok(Cartridge { prg_rom, chr_rom, mapper, screen_mirroring })
    }

    /// A copy of this cartridge.
    pub fn duplicate(&self) -> (c: Cartridge)
        ensures
            c.prg_rom@ == self.prg_rom@,
            c.chr_rom@ == self.chr_rom@,
            c.mapper == self.mapper,
            c.screen_mirroring == self.screen_mirroring,
    {
        Cartridge {
            prg_rom: copy_bytes(self.prg_rom.as_slice()),
            chr_rom: copy_bytes(self.chr_rom.as_slice()),
            mapper: self.mapper,
            screen_mirroring: self.screen_mirroring,
        }
    }
}

} // verus!
