//! Size-constrained image encoding: a greedy search over encoding knobs
//! (JPEG quality, then scale) until an encoded image fits a byte budget.

pub mod budget;
pub mod encoders;
pub mod error;
pub mod format;
pub mod knobs;
pub mod raster;
pub mod search;

pub use budget::{budget_from_parsed, count_digits, parse_budget};
pub use error::CompressError;
pub use format::{codec_from_extension, same_text, select_codec, Format};
pub use knobs::{Codec, Knobs};
pub use raster::Raster;
pub use search::{
    compress_jpeg, compress_png, compress_webp, compress_with, optimize_png_bytes,
    scaled_dimension, SearchOutcome,
};
