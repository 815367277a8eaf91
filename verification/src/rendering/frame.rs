//! The picture that a frame's rendering fills.

use vstd::prelude::*;
use crate::hw::bytes::{copy_bytes, zeros};

verus! {

/// Width of the picture in pixels.
pub const WIDTH: usize = 256;

/// Height of the picture in pixels.
pub const HEIGHT: usize = 240;

/// Number of bytes in a picture: three per pixel.
pub const FRAME_BYTES: usize = 184320;

/// A picture of 256 by 240 pixels, row by row from the top, three bytes
/// (red, green, blue) per pixel.
#[derive(Debug)]
pub struct Frame {
    pub data: Vec<u8>,
}

/// Offset of the red byte of pixel (`x`, `y`).
pub open spec fn pixel_offset(x: int, y: int) -> int {
    (y * 256 + x) * 3
}

impl Frame {
    pub open spec fn wf(&self) -> bool {
        self.data@.len() == FRAME_BYTES
    }

    /// The colour of pixel (`x`, `y`).
    pub open spec fn pixel(&self, x: int, y: int) -> (u8, u8, u8) {
        (
            self.data@[pixel_offset(x, y)],
            self.data@[pixel_offset(x, y) + 1],
            self.data@[pixel_offset(x, y) + 2],
        )
    }

    /// Says whether the picture has its full size.
    pub fn is_wf(&self) -> (ok: bool)
        ensures
            ok == self.wf(),
    {
        self.data.len() == FRAME_BYTES
    }

    /// A black picture.
    pub fn new() -> (f: Frame)
        ensures
            f.wf(),
            forall|i: int| 0 <= i < FRAME_BYTES ==> f.data@[i] == 0,
    {
        Frame { data: zeros(FRAME_BYTES) }
    }

    /// Colours pixel (`x`, `y`); a position outside the picture is left
    /// out, and nothing changes.
    pub fn set_pixel(&mut self, x: usize, y: usize, rgb: (u8, u8, u8))
        requires
            old(self).wf(),
        ensures
            final(self).wf(),
            x < WIDTH && y < HEIGHT ==> final(self).data@ == old(self).data@.update(
                pixel_offset(x as int, y as int),
                rgb.0,
            ).update(pixel_offset(x as int, y as int) + 1, rgb.1).update(
                pixel_offset(x as int, y as int) + 2,
                rgb.2,
            ),
            !(x < WIDTH && y < HEIGHT) ==> final(self).data@ == old(self).data@,
            x < WIDTH && y < HEIGHT ==> final(self).pixel(x as int, y as int) == rgb,
            forall|px: int, py: int|
                0 <= px < WIDTH && 0 <= py < HEIGHT && !(px == x && py == y) ==> #[trigger] final(self).pixel(px, py)
                    == old(self).pixel(px, py),
    {
        if x < WIDTH && y < HEIGHT {
            let base: usize = (y * 256 + x) * 3;
            self.data[base] = rgb.0;
            self.data[base + 1] = rgb.1;
            self.data[base + 2] = rgb.2;
            assert forall|px: int, py: int|
                0 <= px < WIDTH && 0 <= py < HEIGHT && !(px == x && py == y) implies #[trigger] self.pixel(
                px,
                py,
            ) == old(self).pixel(px, py) by {
                lemma_pixels_apart(px, py, x as int, y as int);
            }
        }
    }

    /// A copy of the picture's bytes.
    pub fn bytes(&self) -> (out: Vec<u8>)
        ensures
            out@ == self.data@,
    {
        copy_bytes(self.data.as_slice())
    }
}

/// Two pixels at different positions inside the picture lie apart.
pub proof fn lemma_pixels_apart(x1: int, y1: int, x2: int, y2: int)
    requires
        0 <= x1 < 256,
        0 <= x2 < 256,
        0 <= y1,
        0 <= y2,
        x1 != x2 || y1 != y2,
    ensures
        pixel_offset(x1, y1) + 3 <= pixel_offset(x2, y2) || pixel_offset(x2, y2) + 3
            <= pixel_offset(x1, y1),
{
}

} // verus!
