//! Per-pixel colour filters over packed RGBA byte buffers.
//!
//! Every filter maps a buffer of `width * height` four-byte pixels to a new
//! buffer of the same size; each output pixel depends on the matching input
//! pixel alone.

pub mod filter;
pub mod formula;
pub mod glow;
pub mod pixel;
pub mod raster;

pub use filter::{cold_inverse, grayscale, sepia, spectral_glow, transform, Filter, FilterError};
pub use pixel::RgbaPixel;
