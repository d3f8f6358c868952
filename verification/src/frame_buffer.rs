//! The 64 by 32 monochrome display surface.

use vstd::prelude::*;

verus! {

/// Pixels per row.
pub const WIDTH: usize = 64;

/// Number of rows.
pub const HEIGHT: usize = 32;

/// Number of pixels of the surface.
pub const PIXEL_COUNT: usize = 2048;

/// Position of the pixel in column `x` of row `y` in the row-major grid.
pub open spec fn pixel_index(x: int, y: int) -> int {
    y * 64 + x
}

/// The other state of a pixel: off for a lit one, lit for any other.
pub open spec fn toggled(pixel: u8) -> u8 {
    if pixel == 1 {
        0
    } else {
        1
    }
}

/// A grid in which every pixel is off.
pub open spec fn blank() -> Seq<u8> {
    Seq::new(PIXEL_COUNT as nat, |k: int| 0u8)
}

/// Whether `pixels` is a full grid of pixels that are each 0 (off) or 1
/// (lit).
pub open spec fn is_grid(pixels: Seq<u8>) -> bool {
    &&& pixels.len() == PIXEL_COUNT
    &&& forall|k: int| 0 <= k < PIXEL_COUNT ==> #[trigger] pixels[k] <= 1
}

/// The colour bytes, red, green, blue and alpha per pixel, that show
/// `pixels`: opaque white for a lit pixel, opaque black for any other.
pub open spec fn rgba_of(pixels: Seq<u8>) -> Seq<u8> {
    Seq::new(
        4 * pixels.len(),
        |b: int|
            if b % 4 == 3 || pixels[b / 4] == 1 {
                0xFFu8
            } else {
                0x00u8
            },
    )
}

/// The display surface. Its view is the row-major grid, one byte per pixel,
/// and always satisfies `is_grid`.
pub struct FrameBuffer {
    buffer: [u8; 2048],
}

impl View for FrameBuffer {
    type V = Seq<u8>;

    closed spec fn view(&self) -> Seq<u8> {
        self.buffer@
    }
}

impl FrameBuffer {
    #[verifier::type_invariant]
    spec fn binary(&self) -> bool {
        forall|k: int| 0 <= k < PIXEL_COUNT ==> #[trigger] self.buffer@[k] <= 1
    }

    /// Every surface has exactly `PIXEL_COUNT` pixels.
    pub proof fn lemma_len(&self)
        ensures
            self@.len() == PIXEL_COUNT,
    {
    }

    /// A surface with every pixel off.
    pub fn new() -> (frame_buffer: FrameBuffer)
        ensures
            frame_buffer@ == blank(),
    {
        let frame_buffer = FrameBuffer { buffer: [0; 2048] };
        assert(frame_buffer@ =~= blank());
        frame_buffer
    }

    fn index(&self, x: usize, y: usize) -> (idx: usize)
        requires
            x < WIDTH,
            y < HEIGHT,
        ensures
            idx == pixel_index(x as int, y as int),
            idx < PIXEL_COUNT,
    {
        y * 64 + x
    }

    /// Turns every pixel off.
    pub fn clear(&mut self)
        ensures
            final(self)@ == blank(),
    {
        self.buffer = [0; 2048];
        assert(self@ =~= blank());
    }

    /// The pixel in column `x` of row `y`: 1 if lit, 0 if off.
    pub fn get_pixel(&self, x: usize, y: usize) -> (pixel: u8)
        requires
            x < WIDTH,
            y < HEIGHT,
        ensures
            pixel == self@[pixel_index(x as int, y as int)],
            pixel == 0 || pixel == 1,
    {
        proof {
            use_type_invariant(self);
        }
        let idx: usize = self.index(x, y);
        self.buffer[idx]
    }

    /// Inverts the pixel in column `x` of row `y` and tells whether that
    /// turned a lit pixel off.
    pub fn flip_pixel(&mut self, x: usize, y: usize) -> (erased: bool)
        requires
            x < WIDTH,
            y < HEIGHT,
        ensures
            final(self)@ == old(self)@.update(
                pixel_index(x as int, y as int),
                toggled(old(self)@[pixel_index(x as int, y as int)]),
            ),
            erased == (old(self)@[pixel_index(x as int, y as int)] == 1),
    {
        proof {
            use_type_invariant(&*self);
        }
        let idx: usize = self.index(x, y);
        let before: u8 = self.buffer[idx];
        let was_on: bool = before == 1;
        assert(before <= 1 ==> before ^ 1 == (if before == 1 { 0u8 } else { 1u8 })) by (bit_vector);
        self.buffer[idx] = before ^ 1;
        was_on && self.buffer[idx] == 0
    }

    /// The whole grid, row by row, one byte per pixel.
    pub fn buffer(&self) -> (pixels: &[u8])
        ensures
            pixels@ == self@,
            is_grid(pixels@),
    {
        proof {
            use_type_invariant(self);
        }
        &self.buffer
    }

    /// The colour bytes that show the surface, four per pixel.
    pub fn rgba(&self) -> (frame: Vec<u8>)
        ensures
            frame@ == rgba_of(self@),
    {
        let mut frame: Vec<u8> = Vec::new();
        let mut k: usize = 0;
        while k < 2048
            invariant
                k <= 2048,
                frame@.len() == 4 * k,
                forall|b: int|
                    0 <= b < 4 * k ==> #[trigger] frame@[b] == if b % 4 == 3 || self.buffer@[b / 4]
                        == 1 {
                        0xFFu8
                    } else {
                        0x00u8
                    },
            decreases 2048 - k,
        {
            let shade: u8 = if self.buffer[k] == 1 {
                0xFF
            } else {
                0x00
            };
            frame.push(shade);
            frame.push(shade);
            frame.push(shade);
            frame.push(0xFF);
            k += 1;
        }
        assert(frame@ =~= rgba_of(self@));
        frame
    }
}

} // verus!
