//! Failures that end a search or stop it before it starts.
use vstd::prelude::*;

verus! {

/// Why a compression did not produce an artifact. A budget that was not met
/// is no error: see `SearchOutcome::met_budget`.
#[derive(Debug)]
pub enum CompressError {
    /// The image crate failed to encode.
    Image(image::ImageError),
    /// oxipng failed to optimize a PNG stream.
    Optimize(oxipng::PngError),
    /// The raster has no pixels, so it cannot be scaled down.
    EmptyRaster,
    /// The size text is not a size.
    InvalidSize,
}

impl CompressError {
    /// A short description of the failure kind.
    pub fn kind_name(&self) -> (r: &'static str) {
        match self {
            CompressError::Image(_) => "image encoding failed",
            CompressError::Optimize(_) => "PNG optimization failed",
            CompressError::EmptyRaster => "raster has zero width or height",
            CompressError::InvalidSize => "invalid size constraint",
        }
    }
}

} // verus!
