//! Draws a whole frame from the state of the picture unit: the background
//! of the first name table, then the sprites over it.

use vstd::prelude::*;
use crate::hw::ppu::PPU;
use crate::rendering::frame::{Frame, HEIGHT, WIDTH};
use crate::rendering::palette::{color_of, system_color};

verus! {

/// Bit `7 - col` of `byte`: the bit that column `col` of a pattern row
/// takes from a bit plane.
pub open spec fn plane_bit(byte: u8, col: int) -> u8 {
    (byte >> ((7 - col) as u8)) & 1
}

/// The colour number, 0 to 3, at column `col` and row `row` of the
/// pattern `tile` in the pattern table at `bank`. The pattern is 16 bytes:
/// eight rows of the low bit plane, then eight of the high one.
pub open spec fn pattern_value(ppu: &PPU, bank: u16, tile: u8, col: int, row: int) -> u8 {
    let upper = ppu.chr_rom@[bank + tile * 16 + row];
    let lower = ppu.chr_rom@[bank + tile * 16 + row + 8];
    (plane_bit(lower, col) * 2 + plane_bit(upper, col)) as u8
}

/// The background palette, 0 to 3, of the tile at column `col` and row
/// `row`. One attribute byte serves a block of four by four tiles, two
/// bits for each quarter of it.
pub open spec fn bg_palette_number(ppu: &PPU, col: int, row: int) -> int {
    let attr = ppu.vram[0x3c0 + row / 4 * 8 + col / 4] as int;
    if col % 4 / 2 == 0 && row % 4 / 2 == 0 {
        attr % 4
    } else if row % 4 / 2 == 0 {
        attr / 4 % 4
    } else if col % 4 / 2 == 0 {
        attr / 16 % 4
    } else {
        attr / 64 % 4
    }
}

/// The colour of the background at pixel (`x`, `y`): colour number 0 is
/// the universal background colour, the others come from the tile's
/// palette.
pub open spec fn bg_pixel(ppu: &PPU, x: int, y: int) -> (u8, u8, u8) {
    let col = x / 8;
    let row = y / 8;
    let tile = ppu.vram[row * 32 + col];
    let value = pattern_value(ppu, ppu.controller_register.bknd_pattern_addr(), tile, x % 8, y % 8);
    if value == 0 {
        system_color(ppu.palette_table[0])
    } else {
        system_color(ppu.palette_table[bg_palette_number(ppu, col, row) * 4 + value])
    }
}

/// Sprite `s` covers pixel (`x`, `y`): the pixel lies in the square of
/// eight by eight whose corner the sprite's entry gives.
pub open spec fn sprite_covers(ppu: &PPU, s: int, x: int, y: int) -> bool {
    let left = ppu.oam_data[4 * s + 3] as int;
    let top = ppu.oam_data[4 * s] as int;
    left <= x < left + 8 && top <= y < top + 8
}

/// The colour number that sprite `s` has at pixel (`x`, `y`), which it
/// covers. Bits 6 and 7 of the attribute byte mirror the pattern.
pub open spec fn sprite_value(ppu: &PPU, s: int, x: int, y: int) -> u8 {
    let dx = x - ppu.oam_data[4 * s + 3];
    let dy = y - ppu.oam_data[4 * s];
    let attributes = ppu.oam_data[4 * s + 2];
    let col = if attributes / 64 % 2 == 1 {
        7 - dx
    } else {
        dx
    };
    let row = if attributes / 128 == 1 {
        7 - dy
    } else {
        dy
    };
    pattern_value(ppu, ppu.controller_register.sprt_pattern_addr(), ppu.oam_data[4 * s + 1], col, row)
}

/// The colour that sprite `s` puts on pixel (`x`, `y`), if any: none
/// where it does not reach or where its colour number is 0.
pub open spec fn sprite_pixel(ppu: &PPU, s: int, x: int, y: int) -> Option<(u8, u8, u8)> {
    if sprite_covers(ppu, s, x, y) && sprite_value(ppu, s, x, y) != 0 {
        Some(
            system_color(
                ppu.palette_table[0x10 + (ppu.oam_data[4 * s + 2] % 4) * 4 + sprite_value(
                    ppu,
                    s,
                    x,
                    y,
                )],
            ),
        )
    } else {
        None
    }
}

/// The colour of pixel (`x`, `y`) once the sprites from `from` on lie over
/// a picture that shows `under` there: the sprite with the lowest number
/// that puts a colour on the pixel wins.
pub open spec fn sprites_over(ppu: &PPU, under: (u8, u8, u8), x: int, y: int, from: int) -> (
    u8,
    u8,
    u8,
)
    decreases 64 - from,
{
    if from >= 64 || from < 0 {
        under
    } else {
        match sprite_pixel(ppu, from, x, y) {
            Some(rgb) => rgb,
            None => sprites_over(ppu, under, x, y, from + 1),
        }
    }
}

/// `frame` is the picture that the state of `ppu` describes: at every
/// pixel the background, with the sprites over it.
pub open spec fn shows(frame: &Frame, ppu: &PPU) -> bool {
    &&& frame.wf()
    &&& forall|x: int, y: int|
        0 <= x < WIDTH && 0 <= y < HEIGHT ==> #[trigger] frame.pixel(x, y) == sprites_over(
            ppu,
            bg_pixel(ppu, x, y),
            x,
            y,
            0,
        )
}

/// Pixel (`x`, `y`) comes before pixel (`at_x`, `at_y`) when the picture
/// is gone through row by row.
pub open spec fn scanned_before(x: int, y: int, at_x: int, at_y: int) -> bool {
    y < at_y || (y == at_y && x < at_x)
}

fn plane_bit_of(byte: u8, col: u8) -> (bit: u8)
    requires
        col < 8,
    ensures
        bit == plane_bit(byte, col as int),
        bit <= 1,
{
    let shift: u8 = 7 - col;
    let bit: u8 = (byte >> shift) & 1;
    assert((byte >> shift) & 1 <= 1) by (bit_vector);
    bit
}

fn pattern_value_of(ppu: &PPU, bank: u16, tile: u8, col: u8, row: u8) -> (value: u8)
    requires
        ppu.wf(),
        bank <= 0x1000,
        col < 8,
        row < 8,
    ensures
        value == pattern_value(ppu, bank, tile, col as int, row as int),
        value <= 3,
{
    let start: usize = bank as usize + tile as usize * 16 + row as usize;
    let upper = ppu.chr_rom[start];
    let lower = ppu.chr_rom[start + 8];
    plane_bit_of(lower, col) * 2 + plane_bit_of(upper, col)
}

/// The four palette bytes of the background tile at (`tile_column`,
/// `tile_row`): the universal background colour, then the three colours of
/// the tile's palette.
fn bg_pallette(ppu: &PPU, tile_column: usize, tile_row: usize) -> (palette: [u8; 4])
    requires
        tile_column < 32,
        tile_row < 30,
    ensures
        palette[0] == ppu.palette_table[0],
        forall|v: int|
            1 <= v < 4 ==> palette[v] == ppu.palette_table[bg_palette_number(
                ppu,
                tile_column as int,
                tile_row as int,
            ) * 4 + v],
{
    let attr_table_idx: usize = tile_row / 4 * 8 + tile_column / 4;
    let attr_byte: u8 = ppu.vram[0x3c0 + attr_table_idx];
    let pallet_idx: u8 = if tile_column % 4 / 2 == 0 && tile_row % 4 / 2 == 0 {
        attr_byte % 4
    } else if tile_row % 4 / 2 == 0 {
        attr_byte / 4 % 4
    } else if tile_column % 4 / 2 == 0 {
        attr_byte / 16 % 4
    } else {
        attr_byte / 64 % 4
    };
    let pallete_start: usize = 1 + (pallet_idx as usize) * 4;
    [
        ppu.palette_table[0],
        ppu.palette_table[pallete_start],
        ppu.palette_table[pallete_start + 1],
        ppu.palette_table[pallete_start + 2],
    ]
}

/// The four palette bytes of sprite palette `pallete_idx`: a first byte
/// that is never shown, then the palette's three colours.
fn sprite_palette(ppu: &PPU, pallete_idx: u8) -> (palette: [u8; 4])
    requires
        pallete_idx < 4,
    ensures
        palette[0] == 0,
        forall|v: int| 1 <= v < 4 ==> palette[v] == ppu.palette_table[0x10 + pallete_idx * 4 + v],
{
    let start: usize = 0x11 + (pallete_idx as usize) * 4;
    [0, ppu.palette_table[start], ppu.palette_table[start + 1], ppu.palette_table[start + 2]]
}

/// Draws the background of the first name table over the whole picture.
pub fn render_bg(ppu: &PPU, frame: &mut Frame)
    requires
        ppu.wf(),
        old(frame).wf(),
    ensures
        final(frame).wf(),
        forall|x: int, y: int|
            0 <= x < WIDTH && 0 <= y < HEIGHT ==> #[trigger] final(frame).pixel(x, y) == bg_pixel(
                ppu,
                x,
                y,
            ),
{
    let bank = ppu.controller_register.bknd_pattern_addr();
    let mut y: usize = 0;
    while y < HEIGHT
        invariant
            y <= HEIGHT,
            ppu.wf(),
            frame.wf(),
            bank == ppu.controller_register.bknd_pattern_addr(),
            forall|px: int, py: int|
                0 <= px < WIDTH && 0 <= py < y ==> #[trigger] frame.pixel(px, py) == bg_pixel(
                    ppu,
                    px,
                    py,
                ),
        decreases HEIGHT - y,
    {
        let mut x: usize = 0;
        while x < WIDTH
            invariant
                x <= WIDTH,
                y < HEIGHT,
                ppu.wf(),
                frame.wf(),
                bank == ppu.controller_register.bknd_pattern_addr(),
                forall|px: int, py: int|
                    0 <= px < WIDTH && 0 <= py < HEIGHT && scanned_before(px, py, x as int, y as int)
                        ==> #[trigger] frame.pixel(px, py) == bg_pixel(ppu, px, py),
            decreases WIDTH - x,
        {
            let tile_column: usize = x / 8;
            let tile_row: usize = y / 8;
            let tile: u8 = ppu.vram[tile_row * 32 + tile_column];
            let palette = bg_pallette(ppu, tile_column, tile_row);
            let value = pattern_value_of(ppu, bank, tile, (x % 8) as u8, (y % 8) as u8);
            let rgb = if value == 0 {
                color_of(ppu.palette_table[0])
            } else {
                color_of(palette[value as usize])
            };
            frame.set_pixel(x, y, rgb);
            x += 1;
        }
        y += 1;
    }
}

/// Draws sprite `s` over the picture.
fn render_sprite(ppu: &PPU, frame: &mut Frame, s: usize)
    requires
        ppu.wf(),
        old(frame).wf(),
        s < 64,
    ensures
        final(frame).wf(),
        forall|x: int, y: int|
            0 <= x < WIDTH && 0 <= y < HEIGHT ==> #[trigger] final(frame).pixel(x, y)
                == match sprite_pixel(ppu, s as int, x, y) {
                Some(rgb) => rgb,
                None => old(frame).pixel(x, y),
            },
{
    let i: usize = s * 4;
    let tile_idx: u8 = ppu.oam_data[i + 1];
    let tile_x: usize = ppu.oam_data[i + 3] as usize;
    let tile_y: usize = ppu.oam_data[i] as usize;
    let attributes: u8 = ppu.oam_data[i + 2];
    let flip_vertical = attributes / 128 == 1;
    let flip_horizontal = attributes / 64 % 2 == 1;
    let sprite_palette = sprite_palette(ppu, attributes % 4);
    let bank: u16 = ppu.controller_register.sprt_pattern_addr();

    let mut dy: usize = 0;
    while dy < 8
        invariant
            dy <= 8,
            ppu.wf(),
            frame.wf(),
            s < 64,
            i == s * 4,
            tile_idx == ppu.oam_data[4 * s + 1],
            tile_x == ppu.oam_data[4 * s + 3],
            tile_y == ppu.oam_data[4 * s as int],
            attributes == ppu.oam_data[4 * s + 2],
            flip_vertical == (attributes / 128 == 1),
            flip_horizontal == (attributes / 64 % 2 == 1),
            bank == ppu.controller_register.sprt_pattern_addr(),
            sprite_palette[0] == 0,
            forall|v: int|
                1 <= v < 4 ==> sprite_palette[v] == ppu.palette_table[0x10 + (attributes % 4) * 4
                    + v],
            forall|x: int, y: int|
                0 <= x < WIDTH && 0 <= y < HEIGHT ==> #[trigger] frame.pixel(x, y) == if y < tile_y
                    + dy {
                    match sprite_pixel(ppu, s as int, x, y) {
                        Some(rgb) => rgb,
                        None => old(frame).pixel(x, y),
                    }
                } else {
                    old(frame).pixel(x, y)
                },
        decreases 8 - dy,
    {
        let mut dx: usize = 0;
        while dx < 8
            invariant
                dx <= 8,
                dy < 8,
                ppu.wf(),
                frame.wf(),
                s < 64,
                i == s * 4,
                tile_idx == ppu.oam_data[4 * s + 1],
                tile_x == ppu.oam_data[4 * s + 3],
                tile_y == ppu.oam_data[4 * s as int],
                attributes == ppu.oam_data[4 * s + 2],
                flip_vertical == (attributes / 128 == 1),
                flip_horizontal == (attributes / 64 % 2 == 1),
                bank == ppu.controller_register.sprt_pattern_addr(),
                sprite_palette[0] == 0,
                forall|v: int|
                    1 <= v < 4 ==> sprite_palette[v] == ppu.palette_table[0x10 + (attributes % 4)
                        * 4 + v],
                forall|x: int, y: int|
                    0 <= x < WIDTH && 0 <= y < HEIGHT ==> #[trigger] frame.pixel(x, y)
                        == if scanned_before(x, y, tile_x + dx, tile_y + dy) {
                        match sprite_pixel(ppu, s as int, x, y) {
                            Some(rgb) => rgb,
                            None => old(frame).pixel(x, y),
                        }
                    } else {
                        old(frame).pixel(x, y)
                    },
            decreases 8 - dx,
        {
            let col: u8 = if flip_horizontal {
                (7 - dx) as u8
            } else {
                dx as u8
            };
            let row: u8 = if flip_vertical {
                (7 - dy) as u8
            } else {
                dy as u8
            };
            let value = pattern_value_of(ppu, bank, tile_idx, col, row);
            if value != 0 {
                frame.set_pixel(tile_x + dx, tile_y + dy, color_of(sprite_palette[value as usize]));
            }
            dx += 1;
        }
        dy += 1;
    }
}

/// Draws the 64 sprites over the picture, the last one first, so that of
/// two sprites on one pixel the one with the lower number shows. A colour
/// number of 0 lets the picture beneath show through.
pub fn render_sprites(ppu: &PPU, frame: &mut Frame)
    requires
        ppu.wf(),
        old(frame).wf(),
    ensures
        final(frame).wf(),
        forall|x: int, y: int|
            0 <= x < WIDTH && 0 <= y < HEIGHT ==> #[trigger] final(frame).pixel(x, y)
                == sprites_over(ppu, old(frame).pixel(x, y), x, y, 0),
{
    let mut s: usize = 64;
    while s > 0
        invariant
            s <= 64,
            ppu.wf(),
            frame.wf(),
            forall|x: int, y: int|
                0 <= x < WIDTH && 0 <= y < HEIGHT ==> #[trigger] frame.pixel(x, y) == sprites_over(
                    ppu,
                    old(frame).pixel(x, y),
                    x,
                    y,
                    s as int,
                ),
        decreases s,
    {
        s -= 1;
        render_sprite(ppu, frame, s);
    }
}

/// Draws the frame that the unit's state describes: background, then
/// sprites.
pub fn render(ppu: &PPU, frame: &mut Frame)
    requires
        ppu.wf(),
        old(frame).wf(),
    ensures
        shows(final(frame), ppu),
{
    render_bg(ppu, frame);
    render_sprites(ppu, frame);
}

} // verus!
