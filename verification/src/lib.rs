//! A stateful image session: decode once, transform step by step, encode on demand.
//!
//! A session ([`ImageProcessor`]) is empty or holds one image as a canonical RGBA8
//! pixel buffer ([`PixelBuffer`]). Every operation answers with a line of JSON or
//! with a [`ProcessorError`]; none panics, and a refused operation leaves the
//! session exactly as it was.
//!
//! * `raster` is the mathematical model of an image, `transform` states on it what
//!   cropping, turning, brightening and resampling give, and `laws` proves what
//!   follows.
//! * `buffer` and `processor` are the executable code, verified against the model.
//! * `response`, `error` and `text` produce the answers, character by character.
//! * `codec` is the boundary to the `image` crate, which decodes, resamples and
//!   encodes. What crosses it is taken on trust and said so there.

pub mod buffer;
pub mod codec;
pub mod error;
pub mod laws;
pub mod processor;
pub mod raster;
pub mod response;
pub mod text;
pub mod transform;

pub use buffer::PixelBuffer;
pub use error::{OutputFormat, ProcessorError};
pub use processor::ImageProcessor;
pub use raster::Raster;
pub use response::{get_wasm_info, Response};
