//! JPEG compression of packed 8-bit RGB images with the `image` crate.

use image::codecs::jpeg::JpegEncoder;
use image::{ColorType, ImageEncoder};
use std::io::Cursor;
use vstd::prelude::*;

verus! {

/// The largest width or height that a baseline JPEG frame header can hold.
pub open spec fn max_jpeg_dimension() -> int {
    65535
}

/// What `JpegEncoder::new_with_quality(..).write_image(..)` writes for an
/// `Rgb8` image: the encoded bytes, or the error text.
pub uninterp spec fn jpeg_encoding(pixels: Seq<u8>, width: u32, height: u32, quality: u8) -> Result<Seq<u8>, Seq<char>>;

/// Encode packed RGB pixels as JPEG at the given quality with `image`'s
/// `JpegEncoder::new_with_quality` and `write_image` (colour type `Rgb8`).
/// Trusted: the outcome is the named result `jpeg_encoding` of the
/// arguments; as the encoder's source shows, it fails exactly when a
/// dimension does not fit the 16-bit frame header. The encoder panics when
/// the buffer is not exactly three bytes per pixel, which `requires` rules out.
#[verifier::external_body]
pub(crate) fn encode_jpeg(pixels: &[u8], width: u32, height: u32, quality: u8) -> (r: Result<Vec<u8>, String>)
    requires
        pixels@.len() == 3 * width * height,
    ensures
        match r {
            Ok(bytes) => jpeg_encoding(pixels@, width, height, quality) == Ok::<Seq<u8>, Seq<char>>(bytes@),
            Err(e) => jpeg_encoding(pixels@, width, height, quality) == Err::<Seq<u8>, Seq<char>>(e@),
        },
        r is Ok <==> (width <= max_jpeg_dimension() && height <= max_jpeg_dimension()),
{
    let mut buf = Cursor::new(Vec::new());
    match JpegEncoder::new_with_quality(&mut buf, quality).write_image(pixels, width, height, ColorType::Rgb8) {
        Ok(()) => Ok(buf.into_inner()),
        Err(e) => Err(e.to_string()),
    }
}

/// Whether a buffer of `len` bytes is big enough for an RGB image of the
/// given size: the test that `ImageBuffer::from_raw` makes before it accepts
/// a buffer (three bytes per pixel, the product computed without overflow).
pub fn rgb_buffer_fits(width: u32, height: u32, len: usize) -> (r: bool)
    ensures
        r == (3 * width * height <= len),
{
    let row: u64 = 3 * (width as u64);
    match row.checked_mul(height as u64) {
        Some(needed) => needed <= len as u64,
        None => {
            assert(3 * width * height > u64::MAX) by (nonlinear_arith)
                requires
                    row * height > u64::MAX,
                    row == 3 * width,
            ;
            false
        },
    }
}

} // verus!
