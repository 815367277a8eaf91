use nesrs::hw::cartridge::ScreenMirroring;
use nesrs::hw::ppu::PPU;
use nesrs::rendering::frame::{Frame, FRAME_BYTES, HEIGHT, WIDTH};
use nesrs::rendering::palette::{color_of, SYSTEM_PALLETE};
use nesrs::rendering::renderer::{render, render_bg, render_sprites};

fn pixel(frame: &Frame, x: usize, y: usize) -> (u8, u8, u8) {
    let at = (y * 256 + x) * 3;
    (frame.data[at], frame.data[at + 1], frame.data[at + 2])
}

/// A unit whose tile 1 has colour number 1 in its top left pixel, 2 in
/// the pixel right of it, 3 in the one after, and whose tile 2 is colour
/// number 3 all over.
fn unit() -> PPU {
    let mut chr = vec![0u8; 0x2000];
    chr[16] = 0b1010_0000;
    chr[16 + 8] = 0b0110_0000;
    for i in 0..16 {
        chr[32 + i] = 0xFF;
    }
    // The same patterns in the second table, for tiles 3 and 4.
    chr[0x1000 + 48] = 0b1010_0000;
    chr[0x1000 + 48 + 8] = 0b0110_0000;
    for i in 0..16 {
        chr[0x1000 + 64 + i] = 0xFF;
    }
    let mut ppu = PPU::new(chr, ScreenMirroring::Horizontal);
    for i in 0..32 {
        ppu.palette_table[i] = i as u8 + 1;
    }
    ppu
}

#[test]
fn frame_is_black_and_of_full_size() {
    let frame = Frame::new();
    assert_eq!(frame.data.len(), FRAME_BYTES);
    assert_eq!(FRAME_BYTES, WIDTH * HEIGHT * 3);
    assert!(frame.data.iter().all(|b| *b == 0));
    assert_eq!(frame.bytes(), frame.data);
}

#[test]
fn set_pixel_writes_three_bytes() {
    let mut frame = Frame::new();
    frame.set_pixel(3, 2, (10, 20, 30));
    assert_eq!(&frame.data[(2 * 256 + 3) * 3..(2 * 256 + 3) * 3 + 3], &[10, 20, 30]);
    assert_eq!(frame.data.iter().filter(|b| **b != 0).count(), 3);
    frame.set_pixel(255, 239, (1, 2, 3));
    assert_eq!(&frame.data[FRAME_BYTES - 3..], &[1, 2, 3]);
}

#[test]
fn set_pixel_outside_the_picture_does_nothing() {
    let mut frame = Frame::new();
    frame.set_pixel(256, 0, (9, 9, 9));
    frame.set_pixel(0, 240, (9, 9, 9));
    frame.set_pixel(usize::MAX, usize::MAX, (9, 9, 9));
    assert!(frame.data.iter().all(|b| *b == 0));
}

#[test]
fn system_palette_entries() {
    assert_eq!(SYSTEM_PALLETE.len(), 64);
    assert_eq!(color_of(0x00), (0x80, 0x80, 0x80));
    assert_eq!(color_of(0x0D), (0x00, 0x00, 0x00));
    assert_eq!(color_of(0x20), (0xFF, 0xFF, 0xFF));
    assert_eq!(color_of(0x3F), (0x11, 0x11, 0x11));
    // Only the low six bits count.
    assert_eq!(color_of(0x41), color_of(0x01));
    assert_eq!(color_of(0xFF), color_of(0x3F));
}

#[test]
fn background_of_an_empty_name_table_is_the_universal_colour() {
    let ppu = unit();
    let mut frame = Frame::new();
    render_bg(&ppu, &mut frame);
    for (x, y) in [(0, 0), (255, 0), (0, 239), (255, 239), (100, 100)] {
        assert_eq!(pixel(&frame, x, y), SYSTEM_PALLETE[1]);
    }
}

#[test]
fn background_tile_pixels_take_colours_from_the_pattern() {
    let mut ppu = unit();
    // Tile 1 at column 5, row 3.
    ppu.vram[3 * 32 + 5] = 1;
    let mut frame = Frame::new();
    render_bg(&ppu, &mut frame);
    // Palette 0: entries 1, 2, 3 of the palette memory.
    assert_eq!(pixel(&frame, 40, 24), SYSTEM_PALLETE[2]);
    assert_eq!(pixel(&frame, 41, 24), SYSTEM_PALLETE[3]);
    assert_eq!(pixel(&frame, 42, 24), SYSTEM_PALLETE[4]);
    assert_eq!(pixel(&frame, 43, 24), SYSTEM_PALLETE[1]);
    assert_eq!(pixel(&frame, 40, 25), SYSTEM_PALLETE[1]);
    assert_eq!(pixel(&frame, 39, 24), SYSTEM_PALLETE[1]);
}

#[test]
fn attribute_byte_selects_the_palette_by_quadrant() {
    let mut ppu = unit();
    // Tile 2 (colour number 3 everywhere) in each quadrant of the first block.
    for (col, row) in [(0, 0), (2, 0), (0, 2), (2, 2), (1, 1), (3, 3)] {
        ppu.vram[row * 32 + col] = 2;
    }
    // Quadrants take palettes 1, 2, 3, 0.
    ppu.vram[0x3C0] = 0b00_11_10_01;
    let mut frame = Frame::new();
    render_bg(&ppu, &mut frame);
    // Entry of colour 3 in palette p: palette memory index 4p + 3, which holds 4p + 4.
    assert_eq!(pixel(&frame, 0, 0), SYSTEM_PALLETE[8]);
    assert_eq!(pixel(&frame, 8, 8), SYSTEM_PALLETE[8]);
    assert_eq!(pixel(&frame, 16, 0), SYSTEM_PALLETE[12]);
    assert_eq!(pixel(&frame, 0, 16), SYSTEM_PALLETE[16]);
    assert_eq!(pixel(&frame, 16, 16), SYSTEM_PALLETE[4]);
    assert_eq!(pixel(&frame, 31, 31), SYSTEM_PALLETE[4]);
}

#[test]
fn attribute_bytes_are_laid_out_eight_per_row() {
    let mut ppu = unit();
    ppu.vram[29 * 32 + 31] = 2;
    // Block column 7, block row 7; the tile is in its quadrant (1, 0).
    ppu.vram[0x3C0 + 7 * 8 + 7] = 0b0000_1000;
    let mut frame = Frame::new();
    render_bg(&ppu, &mut frame);
    assert_eq!(pixel(&frame, 255, 239), SYSTEM_PALLETE[12]);
}

#[test]
fn background_uses_the_pattern_table_of_the_control_register() {
    let mut ppu = unit();
    ppu.vram[0] = 4;
    let mut frame = Frame::new();
    render_bg(&ppu, &mut frame);
    assert_eq!(pixel(&frame, 0, 0), SYSTEM_PALLETE[1]);
    ppu.write_to_ctrl(0x10);
    render_bg(&ppu, &mut frame);
    assert_eq!(pixel(&frame, 0, 0), SYSTEM_PALLETE[4]);
}

#[test]
fn sprite_pixels_replace_the_picture_where_they_are_not_transparent() {
    let mut ppu = unit();
    // Sprite 1: tile 1 at (20, 10), palette 2.
    ppu.oam_data[4] = 10;
    ppu.oam_data[5] = 1;
    ppu.oam_data[6] = 0x02;
    ppu.oam_data[7] = 20;
    let mut frame = Frame::new();
    frame.set_pixel(23, 10, (1, 2, 3));
    render_sprites(&ppu, &mut frame);
    // Sprite palette 2: palette memory 0x19, 0x1A, 0x1B, which hold 0x1A, 0x1B, 0x1C.
    assert_eq!(pixel(&frame, 20, 10), SYSTEM_PALLETE[0x1A]);
    assert_eq!(pixel(&frame, 21, 10), SYSTEM_PALLETE[0x1B]);
    assert_eq!(pixel(&frame, 22, 10), SYSTEM_PALLETE[0x1C]);
    assert_eq!(pixel(&frame, 23, 10), (1, 2, 3));
    assert_eq!(pixel(&frame, 20, 11), (0, 0, 0));
}

#[test]
fn sprite_flips() {
    for (attributes, expected) in [
        (0x00u8, [(20usize, 10usize), (21, 10), (22, 10)]),
        (0x40, [(27, 10), (26, 10), (25, 10)]),
        (0x80, [(20, 17), (21, 17), (22, 17)]),
        (0xC0, [(27, 17), (26, 17), (25, 17)]),
    ] {
        let mut ppu = unit();
        ppu.oam_data[0] = 10;
        ppu.oam_data[1] = 1;
        ppu.oam_data[2] = attributes;
        ppu.oam_data[3] = 20;
        // Keep the other 63 sprites, all at (0, 0) with tile 0, out of the way: tile 0 is blank.
        let mut frame = Frame::new();
        render_sprites(&ppu, &mut frame);
        for (i, (x, y)) in expected.iter().enumerate() {
            assert_eq!(pixel(&frame, *x, *y), SYSTEM_PALLETE[0x12 + i], "attributes {:02X}", attributes);
        }
        let lit = (0..HEIGHT)
            .flat_map(|y| (0..WIDTH).map(move |x| (x, y)))
            .filter(|(x, y)| pixel(&frame, *x, *y) != (0, 0, 0))
            .count();
        assert_eq!(lit, 3);
    }
}

#[test]
fn lower_numbered_sprite_is_on_top() {
    let mut ppu = unit();
    // Sprite 0: tile 2 at (50, 50), palette 0. Sprite 5: tile 2 at (54, 54), palette 1.
    ppu.oam_data[0..4].copy_from_slice(&[50, 2, 0x00, 50]);
    ppu.oam_data[20..24].copy_from_slice(&[54, 2, 0x01, 54]);
    let mut frame = Frame::new();
    render_sprites(&ppu, &mut frame);
    assert_eq!(pixel(&frame, 50, 50), SYSTEM_PALLETE[0x14]);
    assert_eq!(pixel(&frame, 57, 57), SYSTEM_PALLETE[0x14]);
    assert_eq!(pixel(&frame, 58, 58), SYSTEM_PALLETE[0x18]);
    assert_eq!(pixel(&frame, 61, 61), SYSTEM_PALLETE[0x18]);
    assert_eq!(pixel(&frame, 62, 62), (0, 0, 0));
}

#[test]
fn sprites_at_the_edge_are_cut_off() {
    let mut ppu = unit();
    ppu.oam_data[0..4].copy_from_slice(&[236, 2, 0x00, 252]);
    let mut frame = Frame::new();
    render_sprites(&ppu, &mut frame);
    assert_eq!(pixel(&frame, 252, 236), SYSTEM_PALLETE[0x14]);
    assert_eq!(pixel(&frame, 255, 239), SYSTEM_PALLETE[0x14]);
    // Nothing wraps to the left edge or the next line.
    assert_eq!(pixel(&frame, 0, 236), (0, 0, 0));
    assert_eq!(pixel(&frame, 0, 237), (0, 0, 0));
    let lit = frame.data.chunks(3).filter(|p| *p != [0, 0, 0]).count();
    assert_eq!(lit, 16);
}

#[test]
fn sprites_use_the_pattern_table_of_the_control_register() {
    let mut ppu = unit();
    ppu.oam_data[0..4].copy_from_slice(&[8, 4, 0x00, 8]);
    let mut frame = Frame::new();
    render_sprites(&ppu, &mut frame);
    assert_eq!(pixel(&frame, 8, 8), (0, 0, 0));
    ppu.write_to_ctrl(0x08);
    render_sprites(&ppu, &mut frame);
    assert_eq!(pixel(&frame, 8, 8), SYSTEM_PALLETE[0x14]);
}

#[test]
fn render_draws_sprites_over_the_background() {
    let mut ppu = unit();
    ppu.vram[0] = 2;
    ppu.oam_data[0..4].copy_from_slice(&[4, 1, 0x03, 4]);
    let mut frame = Frame::new();
    frame.set_pixel(200, 200, (7, 7, 7));
    render(&ppu, &mut frame);
    assert_eq!(pixel(&frame, 0, 0), SYSTEM_PALLETE[4]);
    assert_eq!(pixel(&frame, 4, 4), SYSTEM_PALLETE[0x1E]);
    assert_eq!(pixel(&frame, 5, 4), SYSTEM_PALLETE[0x1F]);
    assert_eq!(pixel(&frame, 6, 4), SYSTEM_PALLETE[0x20]);
    assert_eq!(pixel(&frame, 7, 4), SYSTEM_PALLETE[4]);
    assert_eq!(pixel(&frame, 200, 200), SYSTEM_PALLETE[1]);
}
