//! The RAW operations: probing metadata, decoding to RGB pixels, converting
//! a decode to JPEG, and extracting the embedded preview.
//!
//! Reading a RAW file is rawler's work, and rawler may panic on malformed
//! files; such work is run by the caller under a panic guard. What the
//! operations decide between those reads stands here as stage machines: the
//! caller performs the read that a stage asks for and hands its outcome to
//! the stage, which gives the next stage, up to the finished result.

use crate::format::{format_of, raw_format, raw_format_name};
use crate::jpeg::{encode_jpeg, jpeg_encoding, max_jpeg_dimension, rgb_buffer_fits};
use crate::messages::prefixed;
use crate::orient::{apply_orientation, oriented_height, oriented_rgb, oriented_width};
use crate::pixels::{intermediate_to_rgb8, DevelopedPixels};
use crate::preview::{is_preview_outcome, preview_jpeg, RgbPixels};
use vstd::prelude::*;

verus! {

/// Metadata extracted from a RAW file before full decode.
pub struct RawImageInfo {
    /// Image width in pixels.
    pub width: u32,
    /// Image height in pixels.
    pub height: u32,
    /// Camera make (e.g. "Canon", "Nikon", "Sony").
    pub make: String,
    /// Camera model (e.g. "EOS R5", "Z 9", "A7R V").
    pub model: String,
    /// ISO sensitivity.
    pub iso: u32,
    /// Whether the format is supported for full decode.
    pub supported: bool,
    /// Detected RAW format name (e.g. "DNG", "CR3", "NEF", "ARW"); see
    /// [`raw_format_name`](crate::format::raw_format_name).
    pub format: String,
}

/// Result of decoding a RAW file to RGB pixels.
pub struct RawDecodeResult {
    /// Decoded pixel data as 8-bit sRGB (RGBRGBRGB..., no alpha).
    pub pixels: Vec<u8>,
    /// Image width after demosaic and orientation.
    pub width: u32,
    /// Image height after demosaic and orientation.
    pub height: u32,
    /// Camera make.
    pub make: String,
    /// Camera model.
    pub model: String,
    /// ISO sensitivity.
    pub iso: u32,
}

/// Camera metadata read from a RAW file.
pub struct CameraMetadata {
    /// Camera make, as rawler cleans it up.
    pub make: String,
    /// Camera model, as rawler cleans it up.
    pub model: String,
    /// The EXIF ISO speed, if the file records one.
    pub iso_speed: Option<u32>,
    /// The EXIF orientation, if the file records one.
    pub orientation: Option<u16>,
}

/// Make, model, ISO speed and orientation as plain values.
pub type MetadataView = (Seq<char>, Seq<char>, Option<u32>, Option<u16>);

impl View for CameraMetadata {
    type V = MetadataView;

    open spec fn view(&self) -> MetadataView {
        (self.make@, self.model@, self.iso_speed, self.orientation)
    }
}

/// The ISO speed that is reported: the recorded one, or 0.
pub open spec fn iso_or_zero(iso: Option<u32>) -> u32 {
    match iso {
        Some(v) => v,
        None => 0,
    }
}

/// What the dummy decode of a probe reads: width, height and the mode of
/// the camera definition that rawler decoded the file with.
pub type DecodedSize = (usize, usize, String);

/// The size that a probe reports: the size that the dummy decode read
/// (converted with `as`), or 0 x 0 when that decode failed.
pub open spec fn reported_size(decoded: Result<DecodedSize, String>) -> (u32, u32) {
    match decoded {
        Ok(d) => (d.0 as u32, d.1 as u32),
        Err(_) => (0u32, 0u32),
    }
}

/// rawler decoded the file as a DNG: its DNG decoder uses the camera mode
/// `dng`, which no camera definition of rawler's uses.
pub open spec fn decoded_as_dng(decoded: Result<DecodedSize, String>) -> bool {
    decoded matches Ok(d) && d.2@ == "dng"@
}

/// `info` is what a probe reports for a file with bytes `bytes`, camera
/// metadata `meta` and dummy-decode outcome `decoded`.
pub open spec fn is_image_info(
    info: RawImageInfo,
    meta: MetadataView,
    decoded: Result<DecodedSize, String>,
    bytes: Seq<u8>,
) -> bool {
    &&& (info.width, info.height) == reported_size(decoded)
    &&& info.make@ == meta.0
    &&& info.model@ == meta.1
    &&& info.iso == iso_or_zero(meta.2)
    &&& info.supported
    &&& info.format@ == raw_format_name(format_of(bytes), meta.0, decoded_as_dng(decoded))
}

/// Assemble the metadata of a probed file from the camera metadata and the
/// outcome of the dummy decode that reads the size.
pub fn image_info(metadata: CameraMetadata, decoded: Result<DecodedSize, String>, file_bytes: &[u8]) -> (r: RawImageInfo)
    ensures
        is_image_info(r, metadata@, decoded, file_bytes@),
{
    let (width, height, dng): (u32, u32, bool) = match &decoded {
        Ok((w, h, mode)) => (*w as u32, *h as u32, *mode == "dng".to_string()),
        Err(_) => (0, 0, false),
    };
    let iso: u32 = match metadata.iso_speed {
        Some(v) => v,
        None => 0,
    };
    let format = raw_format(file_bytes, &metadata.make, dng);
    RawImageInfo { width, height, make: metadata.make, model: metadata.model, iso, supported: true, format }
}

/// The stages of a probe, in order.
pub enum ProbeStage {
    /// Ask rawler for a decoder for the file.
    FindDecoder,
    /// Read the camera metadata.
    ReadMetadata,
    /// Read the image size with a dummy decode; its failure is not fatal.
    ReadSize { metadata: CameraMetadata },
    /// The probe is over.
    Finished { result: Result<RawImageInfo, String> },
}

impl ProbeStage {
    /// A probe starts by looking for a decoder.
    pub fn start() -> (r: ProbeStage)
        ensures
            r is FindDecoder,
    {
        ProbeStage::FindDecoder
    }

    /// Go on from the decoder lookup: without a decoder the probe fails.
    pub fn decoder_found(self, found: Result<(), String>) -> (r: ProbeStage)
        requires
            self is FindDecoder,
        ensures
            match found {
                Ok(_) => r is ReadMetadata,
                Err(e) => r matches ProbeStage::Finished { result: Err(msg) } && msg@ == "No decoder found: "@
                    + e@,
            },
    {
        match found {
            Ok(_) => ProbeStage::ReadMetadata,
            Err(e) => ProbeStage::Finished { result: Err(prefixed("No decoder found: ", e.as_str())) },
        }
    }

    /// Go on from reading the metadata: without it the probe fails.
    pub fn metadata_read(self, read: Result<CameraMetadata, String>) -> (r: ProbeStage)
        requires
            self is ReadMetadata,
        ensures
            match read {
                Ok(m) => r == (ProbeStage::ReadSize { metadata: m }),
                Err(e) => r matches ProbeStage::Finished { result: Err(msg) } && msg@
                    == "Failed to read metadata: "@ + e@,
            },
    {
        match read {
            Ok(m) => ProbeStage::ReadSize { metadata: m },
            Err(e) => ProbeStage::Finished { result: Err(prefixed("Failed to read metadata: ", e.as_str())) },
        }
    }

    /// Finish from the dummy decode: the probe succeeds, with 0 x 0 when the
    /// size could not be read.
    pub fn size_read(self, decoded: Result<DecodedSize, String>, file_bytes: &[u8]) -> (r: ProbeStage)
        requires
            self is ReadSize,
        ensures
            r matches ProbeStage::Finished { result: Ok(info) } && is_image_info(
                info,
                self->metadata@,
                decoded,
                file_bytes@,
            ),
    {
        match self {
            ProbeStage::ReadSize { metadata } => ProbeStage::Finished {
                result: Ok(image_info(metadata, decoded, file_bytes)),
            },
            _ => ProbeStage::FindDecoder,
        }
    }
}

/// The stages of a decode, in order.
pub enum DecodeStage {
    /// Ask rawler for a decoder for the file.
    FindDecoder,
    /// Decode the raw image.
    DecodeRawImage,
    /// Read the camera metadata.
    ReadMetadata,
    /// Develop the raw image (demosaic, white balance, colour calibration, sRGB).
    Develop { camera: CameraMetadata },
    /// The decode is over; on success it gives the camera metadata, and the
    /// developed image is finished with [`finish_decode`].
    Finished { outcome: Result<CameraMetadata, String> },
}

impl DecodeStage {
    /// A decode starts by looking for a decoder.
    pub fn start() -> (r: DecodeStage)
        ensures
            r is FindDecoder,
    {
        DecodeStage::FindDecoder
    }

    /// Go on from the decoder lookup: without a decoder the decode fails.
    pub fn decoder_found(self, found: Result<(), String>) -> (r: DecodeStage)
        requires
            self is FindDecoder,
        ensures
            match found {
                Ok(_) => r is DecodeRawImage,
                Err(e) => r matches DecodeStage::Finished { outcome: Err(msg) } && msg@
                    == "No decoder found for this RAW format: "@ + e@,
            },
    {
        match found {
            Ok(_) => DecodeStage::DecodeRawImage,
            Err(e) => DecodeStage::Finished {
                outcome: Err(prefixed("No decoder found for this RAW format: ", e.as_str())),
            },
        }
    }

    /// Go on from decoding the raw image: if that failed, so does the decode.
    pub fn raw_image_decoded(self, decoded: Result<(), String>) -> (r: DecodeStage)
        requires
            self is DecodeRawImage,
        ensures
            match decoded {
                Ok(_) => r is ReadMetadata,
                Err(e) => r matches DecodeStage::Finished { outcome: Err(msg) } && msg@ == "RAW decode failed: "@
                    + e@,
            },
    {
        match decoded {
            Ok(_) => DecodeStage::ReadMetadata,
            Err(e) => DecodeStage::Finished { outcome: Err(prefixed("RAW decode failed: ", e.as_str())) },
        }
    }

    /// Go on from reading the metadata: without it the decode fails.
    pub fn metadata_read(self, read: Result<CameraMetadata, String>) -> (r: DecodeStage)
        requires
            self is ReadMetadata,
        ensures
            match read {
                Ok(m) => r == (DecodeStage::Develop { camera: m }),
                Err(e) => r matches DecodeStage::Finished { outcome: Err(msg) } && msg@
                    == "Failed to read metadata: "@ + e@,
            },
    {
        match read {
            Ok(m) => DecodeStage::Develop { camera: m },
            Err(e) => DecodeStage::Finished { outcome: Err(prefixed("Failed to read metadata: ", e.as_str())) },
        }
    }

    /// Finish from developing the image: on success the decode gives the
    /// camera metadata that was read.
    pub fn developed(self, developed: Result<(), String>) -> (r: DecodeStage)
        requires
            self is Develop,
        ensures
            match developed {
                Ok(_) => r == (DecodeStage::Finished { outcome: Ok(self->camera) }),
                Err(e) => r matches DecodeStage::Finished { outcome: Err(msg) } && msg@
                    == "RAW development failed: "@ + e@,
            },
    {
        match self {
            DecodeStage::Develop { camera } => match developed {
                Ok(_) => DecodeStage::Finished { outcome: Ok(camera) },
                Err(e) => DecodeStage::Finished { outcome: Err(prefixed("RAW development failed: ", e.as_str())) },
            },
            _ => DecodeStage::FindDecoder,
        }
    }
}

/// The upright image: the packed image turned by its EXIF orientation, when
/// there is one.
pub open spec fn upright_image(orientation: Option<u16>, w: u32, h: u32, rgb: Seq<u8>) -> (u32, u32, Seq<u8>) {
    match orientation {
        Some(o) => (
            oriented_width(o, w as int, h as int) as u32,
            oriented_height(o, w as int, h as int) as u32,
            oriented_rgb(o, w as int, h as int, rgb),
        ),
        None => (w, h, rgb),
    }
}

/// Finish a decode: pack the developed 8-bit samples as RGB bytes, turn the
/// image upright by its EXIF orientation, and attach the camera metadata.
/// The result has exactly three bytes per pixel of its reported size.
pub fn finish_decode(metadata: CameraMetadata, pixels: DevelopedPixels) -> (r: RawDecodeResult)
    ensures
        (r.width, r.height, r.pixels@) == upright_image(
            metadata.orientation,
            pixels.spec_width() as u32,
            pixels.spec_height() as u32,
            pixels.packed_rgb(),
        ),
        r.pixels@.len() == 3 * r.width * r.height,
        r.make@ == metadata.make@,
        r.model@ == metadata.model@,
        r.iso == iso_or_zero(metadata.iso_speed),
{
    let (w, h, rgb) = intermediate_to_rgb8(pixels);
    let (width, height, upright) = match metadata.orientation {
        Some(o) => {
            let turned = apply_orientation(o, w, h, &rgb);
            assert(3 * h * w == 3 * w * h) by (nonlinear_arith);
            turned
        },
        None => (w, h, rgb),
    };
    let iso: u32 = match metadata.iso_speed {
        Some(v) => v,
        None => 0,
    };
    RawDecodeResult { pixels: upright, width, height, make: metadata.make, model: metadata.model, iso }
}

/// Compress a decoded image as JPEG at the given quality. A pixel buffer
/// too short for the stated size is refused; one that is too long makes the
/// JPEG encoder panic, so `requires` leaves it out. Encoding succeeds exactly
/// when the buffer fits and both sides are at most 65535.
pub fn encode_rgb8_jpeg(result: &RawDecodeResult, quality: u8) -> (r: Result<Vec<u8>, String>)
    requires
        result.pixels@.len() <= 3 * result.width * result.height,
    ensures
        if result.pixels@.len() < 3 * result.width * result.height {
            r matches Err(msg) && msg@ == "Failed to create image buffer from decoded pixels"@
        } else {
            match jpeg_encoding(result.pixels@, result.width, result.height, quality) {
                Ok(bytes) => r matches Ok(v) && v@ == bytes,
                Err(e) => r matches Err(msg) && msg@ == "JPEG encoding failed: "@ + e,
            }
        },
        r is Ok <==> (result.pixels@.len() == 3 * result.width * result.height && result.width
            <= max_jpeg_dimension() && result.height <= max_jpeg_dimension()),
{
    if !rgb_buffer_fits(result.width, result.height, result.pixels.len()) {
        return Err("Failed to create image buffer from decoded pixels".to_string());
    }
    match encode_jpeg(result.pixels.as_slice(), result.width, result.height, quality) {
        Ok(bytes) => Ok(bytes),
        Err(e) => Err(prefixed("JPEG encoding failed: ", e.as_str())),
    }
}

/// The stages of a preview extraction, in order.
pub enum PreviewStage {
    /// Ask rawler for a decoder for the file.
    FindDecoder,
    /// Look up the full-size image, the preview and the thumbnail, each
    /// converted to 8-bit RGB.
    LookUp,
    /// The extraction is over.
    Finished { result: Result<Option<Vec<u8>>, String> },
}

impl PreviewStage {
    /// An extraction starts by looking for a decoder.
    pub fn start() -> (r: PreviewStage)
        ensures
            r is FindDecoder,
    {
        PreviewStage::FindDecoder
    }

    /// Go on from the decoder lookup: without a decoder the extraction fails.
    pub fn decoder_found(self, found: Result<(), String>) -> (r: PreviewStage)
        requires
            self is FindDecoder,
        ensures
            match found {
                Ok(_) => r is LookUp,
                Err(e) => r matches PreviewStage::Finished { result: Err(msg) } && msg@ == "No decoder found: "@
                    + e@,
            },
    {
        match found {
            Ok(_) => PreviewStage::LookUp,
            Err(e) => PreviewStage::Finished { result: Err(prefixed("No decoder found: ", e.as_str())) },
        }
    }

    /// Finish from the three lookups: re-encode the first image found.
    pub fn images_found(
        self,
        full: Result<Option<RgbPixels>, String>,
        preview: Result<Option<RgbPixels>, String>,
        thumbnail: Result<Option<RgbPixels>, String>,
    ) -> (r: PreviewStage)
        requires
            self is LookUp,
        ensures
            r matches PreviewStage::Finished { result } && is_preview_outcome(result, full, preview, thumbnail),
    {
        PreviewStage::Finished { result: preview_jpeg(full, preview, thumbnail) }
    }
}

} // verus!
