use image::GenericImageView;
use raw_decoder::decoder::{encode_rgb8_jpeg, image_info, CameraMetadata, DecodeStage, PreviewStage, ProbeStage};
use raw_decoder::jpeg::rgb_buffer_fits;
use raw_decoder::messages::{panic_report, prefixed, RawOperation};
use raw_decoder::preview::{exact_rgb_len, first_available, preview_jpeg, RgbPixels};
use raw_decoder::{RawDecodeResult, RawImageInfo};

#[test]
fn raw_image_info_fields() {
    let info = RawImageInfo {
        width: 6000,
        height: 4000,
        make: "Canon".to_string(),
        model: "EOS R5".to_string(),
        iso: 400,
        supported: true,
        format: "CR3".to_string(),
    };

    assert_eq!(info.width, 6000);
    assert_eq!(info.height, 4000);
    assert_eq!(info.make, "Canon");
    assert_eq!(info.model, "EOS R5");
    assert_eq!(info.iso, 400);
    assert!(info.supported);
    assert_eq!(info.format, "CR3");
}

#[test]
fn raw_decode_result_fields() {
    let result = RawDecodeResult {
        pixels: vec![255, 128, 0],
        width: 1,
        height: 1,
        make: "Nikon".to_string(),
        model: "Z 9".to_string(),
        iso: 64,
    };

    assert_eq!(result.pixels.len(), 3);
    assert_eq!(result.width, 1);
    assert_eq!(result.height, 1);
    assert_eq!(result.make, "Nikon");
    assert_eq!(result.model, "Z 9");
    assert_eq!(result.iso, 64);
}

fn metadata(make: &str, model: &str, iso: Option<u32>) -> CameraMetadata {
    CameraMetadata { make: make.to_string(), model: model.to_string(), iso_speed: iso, orientation: None }
}

fn tiff_header() -> Vec<u8> {
    let mut bytes = vec![0x49, 0x49, 0x2A, 0x00];
    bytes.resize(32, 0);
    bytes
}

#[test]
fn image_info_from_decoded_size() {
    let info = image_info(metadata("Sony", "A7R V", Some(800)), Ok((9504, 6336, String::new())), &tiff_header());
    assert_eq!(info.width, 9504);
    assert_eq!(info.height, 6336);
    assert_eq!(info.make, "Sony");
    assert_eq!(info.model, "A7R V");
    assert_eq!(info.iso, 800);
    assert!(info.supported);
    assert_eq!(info.format, "ARW");
}

#[test]
fn image_info_without_size_or_iso() {
    let info = image_info(metadata("Fujifilm", "X-T5", None), Err("no size".to_string()), b"FUJIFILMCCD-RAW 0201");
    assert_eq!((info.width, info.height), (0, 0));
    assert_eq!(info.iso, 0);
    assert_eq!(info.format, "RAF");
}

#[test]
fn image_info_truncates_oversized_sides() {
    let info = image_info(metadata("", "", None), Ok(((1usize << 32) + 3, 4, String::new())), &[]);
    assert_eq!((info.width, info.height), (3, 4));
    assert_eq!(info.format, "unknown");
}

fn probe_finished(stage: ProbeStage) -> Result<RawImageInfo, String> {
    match stage {
        ProbeStage::Finished { result } => result,
        _ => panic!("the probe should be over"),
    }
}

#[test]
fn probe_without_decoder_fails() {
    let stage = ProbeStage::start().decoder_found(Err("unknown file".to_string()));
    assert_eq!(probe_finished(stage).err().unwrap(), "No decoder found: unknown file");
}

#[test]
fn probe_without_metadata_fails() {
    let stage = ProbeStage::start().decoder_found(Ok(()));
    assert!(matches!(stage, ProbeStage::ReadMetadata));
    let stage = stage.metadata_read(Err("bad exif".to_string()));
    assert_eq!(probe_finished(stage).err().unwrap(), "Failed to read metadata: bad exif");
}

#[test]
fn probe_reports_decoded_size() {
    let stage = ProbeStage::start().decoder_found(Ok(())).metadata_read(Ok(metadata("Canon", "EOS R5", Some(100))));
    assert!(matches!(stage, ProbeStage::ReadSize { .. }));
    let info = probe_finished(stage.size_read(Ok((8192, 5464, String::new())), b"....ftypcrx ")).unwrap();
    assert_eq!((info.width, info.height), (8192, 5464));
    assert_eq!(info.make, "Canon");
    assert_eq!(info.iso, 100);
    assert_eq!(info.format, "CR3");
}

#[test]
fn probe_tolerates_failed_size_read() {
    let stage = ProbeStage::start().decoder_found(Ok(())).metadata_read(Ok(metadata("Nikon", "Z 9", None)));
    let info = probe_finished(stage.size_read(Err("cannot decode".to_string()), &tiff_header())).unwrap();
    assert_eq!((info.width, info.height), (0, 0));
    assert!(info.supported);
}

fn decode_finished(stage: DecodeStage) -> Result<CameraMetadata, String> {
    match stage {
        DecodeStage::Finished { outcome } => outcome,
        _ => panic!("the decode should be over"),
    }
}

#[test]
fn decode_stops_at_first_failing_step() {
    let s = DecodeStage::start().decoder_found(Err("x".to_string()));
    assert_eq!(decode_finished(s).err().unwrap(), "No decoder found for this RAW format: x");

    let s = DecodeStage::start().decoder_found(Ok(())).raw_image_decoded(Err("truncated".to_string()));
    assert_eq!(decode_finished(s).err().unwrap(), "RAW decode failed: truncated");

    let s = DecodeStage::start().decoder_found(Ok(())).raw_image_decoded(Ok(())).metadata_read(Err("m".to_string()));
    assert_eq!(decode_finished(s).err().unwrap(), "Failed to read metadata: m");

    let s = DecodeStage::start()
        .decoder_found(Ok(()))
        .raw_image_decoded(Ok(()))
        .metadata_read(Ok(metadata("Leica", "M11", Some(64))))
        .developed(Err("cfa".to_string()));
    assert_eq!(decode_finished(s).err().unwrap(), "RAW development failed: cfa");
}

#[test]
fn decode_steps_in_order() {
    let s = DecodeStage::start();
    assert!(matches!(s, DecodeStage::FindDecoder));
    let s = s.decoder_found(Ok(()));
    assert!(matches!(s, DecodeStage::DecodeRawImage));
    let s = s.raw_image_decoded(Ok(()));
    assert!(matches!(s, DecodeStage::ReadMetadata));
    let s = s.metadata_read(Ok(metadata("Leica", "M11", Some(64))));
    assert!(matches!(s, DecodeStage::Develop { .. }));
    let camera = decode_finished(s.developed(Ok(()))).unwrap();
    assert_eq!(camera.make, "Leica");
    assert_eq!(camera.model, "M11");
    assert_eq!(camera.iso_speed, Some(64));
}

fn decoded(width: u32, height: u32, pixels: Vec<u8>) -> RawDecodeResult {
    RawDecodeResult { pixels, width, height, make: String::new(), model: String::new(), iso: 0 }
}

#[test]
fn jpeg_of_decoded_image() {
    let result = decoded(2, 2, vec![10, 20, 30, 40, 50, 60, 70, 80, 90, 100, 110, 120]);
    let jpeg = encode_rgb8_jpeg(&result, 90).expect("encoding succeeds");
    assert_eq!(&jpeg[..2], &[0xFF, 0xD8]);
    assert_eq!(&jpeg[jpeg.len() - 2..], &[0xFF, 0xD9]);
    assert_eq!(image::load_from_memory(&jpeg).unwrap().dimensions(), (2, 2));
}

#[test]
fn jpeg_quality_changes_output() {
    let pixels: Vec<u8> = (0..(16 * 16 * 3)).map(|i| ((i * 37) % 251) as u8).collect();
    let result = decoded(16, 16, pixels);
    let low = encode_rgb8_jpeg(&result, 10).unwrap();
    let high = encode_rgb8_jpeg(&result, 100).unwrap();
    assert_ne!(low, high);
}

#[test]
fn jpeg_refuses_short_buffer() {
    let result = decoded(2, 2, vec![0; 11]);
    assert_eq!(encode_rgb8_jpeg(&result, 90), Err("Failed to create image buffer from decoded pixels".to_string()));
}

#[test]
fn jpeg_refuses_oversized_dimensions() {
    let result = decoded(70000, 1, vec![0; 210000]);
    let err = encode_rgb8_jpeg(&result, 90).err().expect("too wide for JPEG");
    assert!(err.starts_with("JPEG encoding failed: "), "{err}");
}

#[test]
fn jpeg_accepts_largest_side() {
    let result = decoded(65535, 1, vec![0; 3 * 65535]);
    assert!(encode_rgb8_jpeg(&result, 50).is_ok());
}

#[test]
fn empty_image_encodes() {
    let result = decoded(0, 0, vec![]);
    assert!(encode_rgb8_jpeg(&result, 90).is_ok());
}

#[test]
fn rgb_buffer_fit_test() {
    assert!(rgb_buffer_fits(2, 2, 12));
    assert!(rgb_buffer_fits(2, 2, 13));
    assert!(!rgb_buffer_fits(2, 2, 11));
    assert!(rgb_buffer_fits(0, 5, 0));
    assert!(!rgb_buffer_fits(u32::MAX, u32::MAX, usize::MAX));
}

#[test]
fn first_available_prefers_full_then_preview_then_thumbnail() {
    let r = first_available::<u8>(Ok(Some(1)), Ok(Some(2)), Ok(Some(3)));
    assert_eq!(r, Some(1));
    let r = first_available::<u8>(Ok(None), Ok(Some(2)), Ok(Some(3)));
    assert_eq!(r, Some(2));
    let r = first_available::<u8>(Err("broken".to_string()), Err("broken".to_string()), Ok(Some(3)));
    assert_eq!(r, Some(3));
    let r = first_available::<u8>(Ok(None), Err("broken".to_string()), Ok(None));
    assert_eq!(r, None);
}

fn solid(width: u32, height: u32, colour: [u8; 3]) -> Result<Option<RgbPixels>, String> {
    let data: Vec<u8> = colour.iter().copied().cycle().take(3 * width as usize * height as usize).collect();
    Ok(Some(RgbPixels::from_rgb_buffer(width, height, data).unwrap()))
}

#[test]
fn rgb_pixels_need_three_bytes_per_pixel() {
    let rgb = RgbPixels::from_rgb_buffer(4, 2, vec![9; 24]).unwrap();
    assert_eq!((rgb.width(), rgb.height()), (4, 2));
    assert_eq!(rgb.as_bytes(), &[9u8; 24][..]);
    assert!(RgbPixels::from_rgb_buffer(4, 2, vec![9; 23]).is_none());
    assert!(RgbPixels::from_rgb_buffer(4, 2, vec![9; 25]).is_none());
    assert!(RgbPixels::from_rgb_buffer(0, 7, vec![]).is_some());
    assert!(exact_rgb_len(2, 3, 18));
    assert!(!exact_rgb_len(u32::MAX, u32::MAX, usize::MAX));
}

fn preview_size(jpeg: Option<Vec<u8>>) -> (u32, u32) {
    image::load_from_memory(&jpeg.expect("a preview")).unwrap().dimensions()
}

#[test]
fn preview_prefers_full_image() {
    let jpeg = preview_jpeg(solid(8, 4, [200, 0, 0]), solid(6, 6, [0, 200, 0]), solid(2, 2, [0, 0, 200])).unwrap();
    assert_eq!(preview_size(jpeg), (8, 4));
}

#[test]
fn preview_falls_back_in_order() {
    let jpeg = preview_jpeg(Err("no full".to_string()), solid(6, 6, [0, 200, 0]), solid(2, 2, [0, 0, 200])).unwrap();
    assert_eq!(preview_size(jpeg), (6, 6));
    let jpeg = preview_jpeg(Ok(None), Err("no preview".to_string()), solid(2, 2, [0, 0, 200])).unwrap();
    assert_eq!(preview_size(jpeg), (2, 2));
}

#[test]
fn preview_none_when_nothing_found() {
    assert_eq!(preview_jpeg(Ok(None), Err("x".to_string()), Ok(None)), Ok(None));
}

#[test]
fn preview_too_large_for_jpeg() {
    let err = preview_jpeg(solid(70000, 1, [1, 2, 3]), Ok(None), Ok(None)).err().unwrap();
    assert!(err.starts_with("JPEG encoding of preview failed: "), "{err}");
}

#[test]
fn preview_stages() {
    let s = PreviewStage::start().decoder_found(Err("not raw".to_string()));
    match s {
        PreviewStage::Finished { result } => assert_eq!(result.err().unwrap(), "No decoder found: not raw"),
        _ => panic!("the extraction should be over"),
    }
    let s = PreviewStage::start().decoder_found(Ok(()));
    assert!(matches!(s, PreviewStage::LookUp));
    match s.images_found(Ok(None), Ok(None), solid(3, 1, [5, 5, 5])) {
        PreviewStage::Finished { result } => assert_eq!(preview_size(result.unwrap()), (3, 1)),
        _ => panic!("the extraction should be over"),
    }
}

fn probe_format(bytes: &[u8], make: &str, mode: &str) -> String {
    let meta = metadata(make, "model", None);
    image_info(meta, Ok((10, 10, mode.to_string())), bytes).format
}

#[test]
fn probe_names_tiff_based_formats_by_maker() {
    let tiff = tiff_header();
    assert_eq!(probe_format(&tiff, "Nikon", ""), "NEF");
    assert_eq!(probe_format(&tiff, "NIKON CORPORATION", "12bit"), "NEF");
    assert_eq!(probe_format(&tiff, "Sony", ""), "ARW");
    assert_eq!(probe_format(&tiff, "Canon", "raw"), "CR2");
    assert_eq!(probe_format(&tiff, "Pentax", ""), "PEF");
    assert_eq!(probe_format(&tiff, "Leica", ""), "DNG/TIFF-RAW");
    assert_eq!(probe_format(&tiff, "Unheard Of", ""), "DNG/TIFF-RAW");
}

#[test]
fn probe_names_dng_files() {
    // rawler's DNG decoder works with the camera mode "dng", whatever the maker.
    assert_eq!(probe_format(&tiff_header(), "Pentax", "dng"), "DNG");
    assert_eq!(probe_format(&tiff_header(), "Leica", "dng"), "DNG");
}

#[test]
fn probe_keeps_magic_byte_formats() {
    assert_eq!(probe_format(b"....ftypcrx ", "Canon", ""), "CR3");
    assert_eq!(probe_format(b"FUJIFILMCCD-RAW 0201", "Fujifilm", ""), "RAF");
}

#[test]
fn probe_names_other_containers_by_maker() {
    let other = b"IIRO\x08\x00\x00\x00........";
    assert_eq!(probe_format(other, "Olympus", ""), "ORF");
    assert_eq!(probe_format(other, "Panasonic", ""), "RW2");
    assert_eq!(probe_format(other, "Canon", ""), "CRW");
    assert_eq!(probe_format(other, "Someone", ""), "unknown");
}

#[test]
fn probe_without_size_uses_maker() {
    let meta = metadata("Sony", "A7", None);
    let info = image_info(meta, Err("no size".to_string()), &tiff_header());
    assert_eq!(info.format, "ARW");
}

#[test]
fn prefixed_joins_texts() {
    assert_eq!(prefixed("No decoder found: ", "oops"), "No decoder found: oops");
    assert_eq!(prefixed("", ""), "");
}

#[test]
fn panic_reports() {
    assert_eq!(panic_report(RawOperation::Probe, Some("boom".to_string())), "RAW probe panic: boom");
    assert_eq!(panic_report(RawOperation::Probe, None), "RAW probe panic: Unknown panic during RAW probe");
    assert_eq!(panic_report(RawOperation::Decode, None), "RAW decode panic: Unknown panic during RAW decode");
    assert_eq!(
        panic_report(RawOperation::DecodeToJpeg, None),
        "RAW decode panic: Unknown panic during RAW-to-JPEG decode"
    );
    assert_eq!(panic_report(RawOperation::DecodeToJpeg, Some("x".to_string())), "RAW decode panic: x");
    assert_eq!(
        panic_report(RawOperation::Preview, None),
        "Preview extraction panic: Unknown panic during preview extraction"
    );
}
