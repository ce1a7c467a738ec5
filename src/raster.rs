//! A decoded raster held as plain values: RGBA bytes, row by row.
use vstd::prelude::*;

verus! {

/// A pixel grid of `width` by `height`, four bytes (RGBA) per pixel.
pub struct Raster {
    pub width: u32,
    pub height: u32,
    pub rgba: Vec<u8>,
}

impl Raster {
    /// The byte buffer holds exactly one RGBA quadruple per pixel.
    pub open spec fn wf(&self) -> bool {
        self.rgba@.len() == 4 * (self.width as int) * (self.height as int)
    }

    /// A raster over `rgba`, or `None` when its length is not four bytes per pixel.
    pub fn new(width: u32, height: u32, rgba: Vec<u8>) -> (r: Option<Raster>)
        ensures
            r is Some <==> rgba@.len() == 4 * (width as int) * (height as int),
            r matches Some(x) ==> x.width == width && x.height == height && x.rgba@ == rgba@,
    {
        proof {
            assert(0 <= (width as int) * (height as int) <= 0xffff_ffff * 0xffff_ffff)
                by (nonlinear_arith);
        }
        let pixels: u128 = width as u128 * height as u128;
        assert(4 * pixels == 4 * (width as int) * (height as int)) by (nonlinear_arith)
            requires
                pixels == (width as int) * (height as int),
        ;
        if rgba.len() as u128 == 4 * pixels {
            Some(Raster { width, height, rgba })
        } else {
            None
        }
    }
}

} // verus!
