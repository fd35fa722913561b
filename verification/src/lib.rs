//! Camera RAW file handling: format detection from magic bytes, RAW probing,
//! decoding to packed 8-bit RGB, JPEG conversion and embedded-preview extraction.

pub mod decoder;
pub mod format;
pub mod jpeg;
pub mod messages;
pub mod orient;
pub mod pixels;
pub mod preview;

pub use decoder::{RawDecodeResult, RawImageInfo};
pub use format::detect_format;
