//! Choosing and re-encoding the embedded preview of a RAW file.

use crate::jpeg::{encode_jpeg, jpeg_encoding};
use crate::messages::prefixed;
use vstd::prelude::*;

verus! {

/// Whether a buffer of `len` bytes holds exactly three bytes per pixel of a
/// `width` x `height` image.
pub fn exact_rgb_len(width: u32, height: u32, len: usize) -> (r: bool)
    ensures
        r == (len == 3 * width * height),
{
    assert(width * height <= 0xffff_fffe_0000_0001) by (nonlinear_arith)
        requires
            width <= 0xffff_ffff,
            height <= 0xffff_ffff,
    ;
    let pixels: u64 = (width as u64) * (height as u64);
    assert(3 * width * height == pixels * 3) by (nonlinear_arith)
        requires
            pixels == width * height,
    ;
    match pixels.checked_mul(3) {
        Some(needed) => needed == len as u64,
        None => false,
    }
}

/// An image as packed 8-bit RGB: three bytes per pixel, row-major, no
/// padding.
pub struct RgbPixels {
    width: u32,
    height: u32,
    data: Vec<u8>,
}

impl RgbPixels {
    /// The buffer holds exactly three bytes per pixel.
    #[verifier::type_invariant]
    closed spec fn well_formed(self) -> bool {
        self.data@.len() == 3 * self.width * self.height
    }

    /// Width in pixels.
    pub closed spec fn spec_width(self) -> u32 {
        self.width
    }

    /// Height in pixels.
    pub closed spec fn spec_height(self) -> u32 {
        self.height
    }

    /// The packed RGB bytes.
    pub closed spec fn bytes(self) -> Seq<u8> {
        self.data@
    }

    /// An RGB image from its size and packed bytes; `None` unless the
    /// bytes are exactly three per pixel.
    pub fn from_rgb_buffer(width: u32, height: u32, data: Vec<u8>) -> (r: Option<RgbPixels>)
        ensures
            r is Some <==> data@.len() == 3 * width * height,
            r matches Some(p) ==> p.spec_width() == width && p.spec_height() == height && p.bytes() == data@,
    {
        if exact_rgb_len(width, height, data.len()) {
            Some(RgbPixels { width, height, data })
        } else {
            None
        }
    }

    /// Width in pixels.
    pub fn width(&self) -> (r: u32)
        ensures
            r == self.spec_width(),
    {
        self.width
    }

    /// Height in pixels.
    pub fn height(&self) -> (r: u32)
        ensures
            r == self.spec_height(),
    {
        self.height
    }

    /// The packed RGB bytes.
    pub fn as_bytes(&self) -> (r: &[u8])
        ensures
            r@ == self.bytes(),
            r@.len() == 3 * self.spec_width() * self.spec_height(),
    {
        proof {
            use_type_invariant(self);
        }
        self.data.as_slice()
    }
}

/// The first of three lookups that found something, in the order given;
/// failed lookups count as finding nothing.
pub open spec fn spec_first_available<T>(
    full: Result<Option<T>, String>,
    preview: Result<Option<T>, String>,
    thumbnail: Result<Option<T>, String>,
) -> Option<T> {
    match full {
        Ok(Some(x)) => Some(x),
        _ => match preview {
            Ok(Some(x)) => Some(x),
            _ => match thumbnail {
                Ok(Some(x)) => Some(x),
                _ => None,
            },
        },
    }
}

/// Pick the full-size image, else the preview, else the thumbnail; a lookup
/// that failed counts as finding nothing.
pub fn first_available<T>(
    full: Result<Option<T>, String>,
    preview: Result<Option<T>, String>,
    thumbnail: Result<Option<T>, String>,
) -> (r: Option<T>)
    ensures
        r == spec_first_available(full, preview, thumbnail),
{
    match full {
        Ok(Some(x)) => Some(x),
        _ => match preview {
            Ok(Some(x)) => Some(x),
            _ => match thumbnail {
                Ok(Some(x)) => Some(x),
                _ => None,
            },
        },
    }
}

/// The JPEG quality at which previews are re-encoded.
pub open spec fn preview_quality() -> u8 {
    90
}

/// `result` is what extracting the preview gives when the three lookups
/// gave `full`, `preview` and `thumbnail`: nothing when none found an image;
/// else the quality-90 JPEG of the first image found, or the encoder's error.
pub open spec fn is_preview_outcome(
    result: Result<Option<Vec<u8>>, String>,
    full: Result<Option<RgbPixels>, String>,
    preview: Result<Option<RgbPixels>, String>,
    thumbnail: Result<Option<RgbPixels>, String>,
) -> bool {
    match spec_first_available(full, preview, thumbnail) {
        None => result matches Ok(None),
        Some(img) => match jpeg_encoding(img.bytes(), img.spec_width(), img.spec_height(), preview_quality()) {
            Ok(jpeg) => result matches Ok(Some(v)) && v@ == jpeg,
            Err(e) => result matches Err(msg) && msg@ == "JPEG encoding of preview failed: "@ + e,
        },
    }
}

/// Re-encode, at quality 90, the first image that the lookups found: the
/// full-size image, else the preview, else the thumbnail. `Ok(None)` when
/// none found one.
pub fn preview_jpeg(
    full: Result<Option<RgbPixels>, String>,
    preview: Result<Option<RgbPixels>, String>,
    thumbnail: Result<Option<RgbPixels>, String>,
) -> (r: Result<Option<Vec<u8>>, String>)
    ensures
        is_preview_outcome(r, full, preview, thumbnail),
{
    match first_available(full, preview, thumbnail) {
        None => Ok(None),
        Some(img) => {
            let bytes = img.as_bytes();
            match encode_jpeg(bytes, img.width(), img.height(), 90) {
                Ok(jpeg) => Ok(Some(jpeg)),
                Err(e) => Err(prefixed("JPEG encoding of preview failed: ", e.as_str())),
            }
        },
    }
}

/// A lookup found an image.
pub open spec fn found<T>(lookup: Result<Option<T>, String>) -> bool {
    lookup matches Ok(Some(_))
}

/// The preview order: the full-size image when it was found; else the
/// preview when it was found; else the thumbnail when it was found; else
/// nothing. A lookup that failed counts exactly as one that found nothing.
pub proof fn law_first_available_order<T>(
    full: Result<Option<T>, String>,
    preview: Result<Option<T>, String>,
    thumbnail: Result<Option<T>, String>,
    r: Option<T>,
)
    requires
        r == spec_first_available(full, preview, thumbnail),
    ensures
        full matches Ok(Some(f)) ==> r == Some(f),
        !found(full) ==> (preview matches Ok(Some(p)) ==> r == Some(p)),
        !found(full) && !found(preview) ==> (thumbnail matches Ok(Some(t)) ==> r == Some(t)),
        !found(full) && !found(preview) && !found(thumbnail) ==> r is None,
{
}

/// A failed lookup, in any of the three places, gives the same choice as a
/// lookup that found nothing.
pub proof fn law_failed_lookup_is_nothing<T>(
    e: String,
    full: Result<Option<T>, String>,
    preview: Result<Option<T>, String>,
    thumbnail: Result<Option<T>, String>,
)
    ensures
        spec_first_available(Err(e), preview, thumbnail) == spec_first_available(
            Ok(None),
            preview,
            thumbnail,
        ),
        spec_first_available(full, Err(e), thumbnail) == spec_first_available(full, Ok(None), thumbnail),
        spec_first_available(full, preview, Err(e)) == spec_first_available(full, preview, Ok(None)),
{
}

/// `result` is the JPEG encoding of `img` at quality 90, or the encoder's
/// error under the preview's words.
pub open spec fn is_quality_90_jpeg_of(result: Result<Option<Vec<u8>>, String>, img: RgbPixels) -> bool {
    match jpeg_encoding(img.bytes(), img.spec_width(), img.spec_height(), 90u8) {
        Ok(jpeg) => result matches Ok(Some(v)) && v@ == jpeg,
        Err(e) => result matches Err(msg) && msg@ == "JPEG encoding of preview failed: "@ + e,
    }
}

/// What a preview extraction gives: the quality-90 JPEG of the full-size
/// image when it was found; else of the preview when it was found; else of
/// the thumbnail when it was found; else nothing. Failed lookups count as
/// finding nothing, and never make the extraction fail.
pub proof fn law_preview_is_first_image_at_quality_90(
    full: Result<Option<RgbPixels>, String>,
    preview: Result<Option<RgbPixels>, String>,
    thumbnail: Result<Option<RgbPixels>, String>,
    result: Result<Option<Vec<u8>>, String>,
)
    requires
        is_preview_outcome(result, full, preview, thumbnail),
    ensures
        full matches Ok(Some(f)) ==> is_quality_90_jpeg_of(result, f),
        !found(full) ==> (preview matches Ok(Some(p)) ==> is_quality_90_jpeg_of(result, p)),
        !found(full) && !found(preview) ==> (thumbnail matches Ok(Some(t)) ==> is_quality_90_jpeg_of(
            result,
            t,
        )),
        !found(full) && !found(preview) && !found(thumbnail) ==> result == Ok::<
            Option<Vec<u8>>,
            String,
        >(None),
        result matches Err(msg) ==> "JPEG encoding of preview failed: "@.is_prefix_of(msg@),
{
    reveal_strlit("JPEG encoding of preview failed: ");
    match spec_first_available(full, preview, thumbnail) {
        Some(img) => {
            match jpeg_encoding(img.bytes(), img.spec_width(), img.spec_height(), 90u8) {
                Ok(_) => {},
                Err(e) => {
                    let p = "JPEG encoding of preview failed: "@;
                    assert((p + e).subrange(0, p.len() as int) =~= p);
                },
            }
        },
        None => {},
    }
}

} // verus!
