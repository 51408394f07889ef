//! The grayscale pixel grid that the pipeline stages pass along.

use vstd::prelude::*;

verus! {

/// Two grids are the same when they agree in dimensions and in every
/// pixel of their row-major buffers.
pub open spec fn same_grid(a: PixelGrid, b: PixelGrid) -> bool {
    &&& a.width == b.width
    &&& a.height == b.height
    &&& a.pixels@ == b.pixels@
}

/// A 2-D grid of 8-bit luminance values, row-major, origin top-left.
/// Well-formed grids hold exactly `width * height` pixels.
pub struct PixelGrid {
    pub width: u32,
    pub height: u32,
    pub pixels: Vec<u8>,
}

impl PixelGrid {
    /// The buffer holds one luminance value per grid cell.
    pub open spec fn wf(self) -> bool {
        self.pixels@.len() == self.width as int * self.height as int
    }

    /// The luminance at row `r`, column `c`.
    pub open spec fn pixel(self, r: int, c: int) -> u8 {
        self.pixels@[r * self.width as int + c]
    }

    /// Builds a grid from a raw row-major luminance buffer. Returns
    /// `None` exactly when the buffer's length does not match the
    /// requested dimensions, so a mismatched buffer is never accepted.
    pub fn new(width: u32, height: u32, pixels: Vec<u8>) -> (r: Option<PixelGrid>)
        ensures
            r is Some <==> pixels@.len() == width as int * height as int,
            r is Some ==> {
                let g = r.unwrap();
                &&& g.width == width
                &&& g.height == height
                &&& g.pixels@ == pixels@
                &&& g.wf()
            },
    {
        proof {
            let w = width as int;
            let h = height as int;
            assert(w * h <= 0xFFFF_FFFFint * 0xFFFF_FFFFint) by (nonlinear_arith)
                requires
                    0 <= w <= 0xFFFF_FFFFint,
                    0 <= h <= 0xFFFF_FFFFint,
            ;
        }
        if pixels.len() as u64 == (width as u64) * (height as u64) {
            Some(PixelGrid { width, height, pixels })
        } else {
            None
        }
    }
}

} // verus!
