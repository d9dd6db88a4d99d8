//! What a frontend needs to paint the display.
use crate::cpu::Cpu;
use vstd::prelude::*;

verus! {

/// A rectangle on the host's canvas: `x`, `y`, `width`, `height`.
pub type CellRect = (i32, i32, u32, u32);

impl Cpu {
    /// Whether the pixel in column `x` of row `y` is to be painted as on:
    /// it is, unless it holds 0.
    pub fn pixel_lit(&self, x: usize, y: usize) -> (lit: bool)
        requires
            x < Cpu::GFX_WIDTH,
            y < Cpu::GFX_HEIGHT,
        ensures
            lit == (self@.display[y as int][x as int] != 0),
    {
        self.graphics[y][x] != 0
    }

    /// The square of side `scale` that stands for the pixel in column `x`
    /// of row `y` on a canvas where every pixel is that large.
    pub fn cell_rect(x: usize, y: usize, scale: u32) -> (rect: CellRect)
        requires
            x < Cpu::GFX_WIDTH,
            y < Cpu::GFX_HEIGHT,
            Cpu::GFX_WIDTH * scale <= i32::MAX,
        ensures
            rect.0 == x * scale,
            rect.1 == y * scale,
            rect.2 == scale,
            rect.3 == scale,
    {
        proof {
            assert(x * scale <= 64 * scale && y * scale <= 64 * scale) by (nonlinear_arith)
                requires
                    x < 64,
                    y < 64,
            ;
        }
        let left: u32 = x as u32 * scale;
        let top: u32 = y as u32 * scale;
        (left as i32, top as i32, scale, scale)
    }
}

} // verus!
