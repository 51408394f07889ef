//! Resizing a pixel grid to a requested character width and/or height,
//! preserving the aspect ratio when only one of the two is given. The
//! resampling filter itself is an opaque external capability; the
//! dimension arithmetic around it is exact integer math.

use vstd::prelude::*;
use crate::grid::{same_grid, PixelGrid};

verus! {

/// What the external resampling filter returns for an `sw x sh`
/// row-major grayscale buffer resized to `tw x th`: a function of the
/// source buffer and the dimensions alone.
pub uninterp spec fn resample_of(p: Seq<u8>, sw: u32, sh: u32, tw: u32, th: u32) -> Seq<u8>;

/// Relies on `image::imageops::resize` with the Lanczos3 filter: every
/// path through it returns a buffer of exactly the requested
/// dimensions, and the result is computed from the source pixels and
/// the dimensions alone. The size bounds keep its internal buffers
/// (sixteen bytes per pixel in the intermediate image) addressable.
#[verifier::external_body]
fn resample(pixels: &Vec<u8>, sw: u32, sh: u32, tw: u32, th: u32) -> (r: Vec<u8>)
    requires
        pixels@.len() == sw as int * sh as int,
        16 * (sw as int) * (th as int) <= usize::MAX,
        16 * (tw as int) * (th as int) <= usize::MAX,
    ensures
        r@ == resample_of(pixels@, sw, sh, tw, th),
        r@.len() == tw as int * th as int,
{
    let src: image::GrayImage = image::ImageBuffer::from_raw(sw, sh, pixels.clone())
        .expect("buffer length mismatch");
    image::imageops::resize(&src, tw, th, image::imageops::FilterType::Lanczos3).into_raw()
}

/// A resize request: an optional target character width and an optional
/// target height. Both absent means "no resize".
pub struct Scaler(pub Option<u32>, pub Option<u32>);

impl Scaler {
    /// The dimensions the scaled grid will have: the requested ones
    /// where both are given; where only one is given, the other is
    /// derived from the source's aspect ratio, truncated toward zero;
    /// the source's own where none is given.
    pub open spec fn target_dims(self, g: PixelGrid) -> (int, int) {
        match (self.0, self.1) {
            (Some(w), Some(h)) => (w as int, h as int),
            (Some(w), None) => (w as int, w as int * g.height as int / g.width as int),
            (None, Some(h)) => (h as int * g.width as int / g.height as int, h as int),
            (None, None) => (g.width as int, g.height as int),
        }
    }

    /// The target dimensions can be represented and resampled on this
    /// machine: they fit in 32 bits, and the resampler's buffers fit in
    /// the address space.
    pub open spec fn fits(self, g: PixelGrid) -> bool {
        let dims = self.target_dims(g);
        &&& dims.0 <= u32::MAX
        &&& dims.1 <= u32::MAX
        &&& 16 * g.width as int * dims.1 <= usize::MAX
        &&& 16 * dims.0 * dims.1 <= usize::MAX
    }

    /// Whether this request asks for any resampling at all.
    pub open spec fn resamples(self) -> bool {
        self.0 is Some || self.1 is Some
    }

    /// Resizes a grid to the requested dimensions. With both dimensions
    /// given the grid is resampled to exactly that size; with one
    /// given, the other is derived so that the aspect ratio is kept,
    /// truncating toward zero; with none given the grid is returned
    /// unchanged, pixel for pixel.
    pub fn scale(&self, grid: &PixelGrid) -> (r: PixelGrid)
        requires
            grid.wf(),
            self.0 is Some && self.1 is None ==> grid.width > 0,
            self.0 is None && self.1 is Some ==> grid.height > 0,
            self.resamples() ==> self.fits(*grid),
        ensures
            r.wf(),
            r.width as int == self.target_dims(*grid).0,
            r.height as int == self.target_dims(*grid).1,
            !self.resamples() ==> same_grid(r, *grid),
            self.resamples() ==> r.pixels@ == resample_of(
                grid.pixels@,
                grid.width,
                grid.height,
                r.width,
                r.height,
            ),
    {
        match (self.0, self.1) {
            (Some(w), Some(h)) => {
                let pixels = resample(&grid.pixels, grid.width, grid.height, w, h);
                PixelGrid { width: w, height: h, pixels }
            },
            (Some(w), None) => {
                proof {
                    let a = w as int;
                    let b = grid.height as int;
                    assert(a * b <= 0xFFFF_FFFFint * 0xFFFF_FFFFint) by (nonlinear_arith)
                        requires
                            0 <= a <= 0xFFFF_FFFFint,
                            0 <= b <= 0xFFFF_FFFFint,
                    ;
                }
                let th64: u64 = (w as u64) * (grid.height as u64) / (grid.width as u64);
                let th: u32 = th64 as u32;
                let pixels = resample(&grid.pixels, grid.width, grid.height, w, th);
                PixelGrid { width: w, height: th, pixels }
            },
            (None, Some(h)) => {
                proof {
                    let a = h as int;
                    let b = grid.width as int;
                    assert(a * b <= 0xFFFF_FFFFint * 0xFFFF_FFFFint) by (nonlinear_arith)
                        requires
                            0 <= a <= 0xFFFF_FFFFint,
                            0 <= b <= 0xFFFF_FFFFint,
                    ;
                }
                let tw64: u64 = (h as u64) * (grid.width as u64) / (grid.height as u64);
                let tw: u32 = tw64 as u32;
                let pixels = resample(&grid.pixels, grid.width, grid.height, tw, h);
                PixelGrid { width: tw, height: h, pixels }
            },
            (None, None) => {
                let pixels = grid.pixels.clone();
                proof {
                    assert(pixels@ =~= grid.pixels@);
                }
                PixelGrid { width: grid.width, height: grid.height, pixels }
            },
        }
    }
}

/// Applying the identity scale (no dimension requested) twice yields
/// the same grid as applying it once: the identity scale returns its
/// input unchanged, so a second application changes nothing further.
pub proof fn lemma_identity_scale_idempotent(g: PixelGrid, once: PixelGrid, twice: PixelGrid)
    requires
        same_grid(once, g),
        same_grid(twice, once),
    ensures
        same_grid(twice, g),
{
}

} // verus!
