use imageops::{ImageProcessor, OutputFormat, ProcessorError};

fn gradient(width: u32, height: u32) -> Vec<u8> {
    let mut samples = Vec::new();
    for y in 0..height {
        for x in 0..width {
            samples.push((x * 20 + y) as u8);
            samples.push((y * 20 + x) as u8);
            samples.push((x * y) as u8);
            samples.push(255 - (x + y) as u8);
        }
    }
    samples
}

fn loaded(width: u32, height: u32) -> ImageProcessor {
    let mut session = ImageProcessor::new();
    session.load_rgba8(width, height, gradient(width, height)).unwrap();
    session
}

fn samples_of(session: &ImageProcessor) -> Vec<u8> {
    session.snapshot().unwrap().samples().clone()
}

#[test]
fn png_bytes_start_with_the_png_signature() {
    let session = loaded(4, 3);
    let bytes = session.to_png().unwrap();
    assert_eq!(&bytes[..8], &[0x89, b'P', b'N', b'G', 0x0d, 0x0a, 0x1a, 0x0a]);
    assert_ne!(bytes, gradient(4, 3));
    assert_eq!(image::guess_format(&bytes).unwrap(), image::ImageFormat::Png);
}

#[test]
fn jpeg_bytes_start_with_the_jpeg_marker() {
    let session = loaded(4, 3);
    let bytes = session.to_jpeg(90).unwrap();
    assert_eq!(&bytes[..3], &[0xff, 0xd8, 0xff]);
    assert_eq!(image::guess_format(&bytes).unwrap(), image::ImageFormat::Jpeg);
}

#[test]
fn webp_bytes_sit_in_a_riff_container() {
    let session = loaded(4, 3);
    let bytes = session.to_webp(90).unwrap();
    assert_eq!(&bytes[..4], b"RIFF");
    assert_eq!(&bytes[8..12], b"WEBP");
    assert_eq!(image::guess_format(&bytes).unwrap(), image::ImageFormat::WebP);
}

#[test]
fn encode_as_agrees_with_the_named_encoders() {
    let session = loaded(5, 2);
    assert_eq!(session.encode_as(OutputFormat::Png).unwrap(), session.to_png().unwrap());
    assert_eq!(session.encode_as(OutputFormat::Jpeg).unwrap(), session.to_jpeg(1).unwrap());
    assert_eq!(session.encode_as(OutputFormat::WebP).unwrap(), session.to_webp(1).unwrap());
}

#[test]
fn encoding_is_repeatable_and_leaves_the_session_alone() {
    let session = loaded(6, 6);
    let first = session.to_png().unwrap();
    let second = session.to_png().unwrap();
    assert_eq!(first, second);
    assert_eq!(session.to_webp(0).unwrap(), session.to_webp(0).unwrap());
    assert_eq!(session.to_jpeg(0).unwrap(), session.to_jpeg(0).unwrap());
    assert_eq!(samples_of(&session), gradient(6, 6));
}

#[test]
fn quality_has_no_effect() {
    let session = loaded(8, 8);
    assert_eq!(session.to_jpeg(1).unwrap(), session.to_jpeg(100).unwrap());
    assert_eq!(session.to_webp(1).unwrap(), session.to_webp(100).unwrap());
}

#[test]
fn png_round_trip_is_exact() {
    let mut session = loaded(7, 5);
    let bytes = session.to_png().unwrap();
    let report = session.load_image(&bytes).unwrap();
    assert_eq!(report, r#"{"success": true, "width": 7, "height": 5, "format": "detected"}"#);
    assert_eq!(samples_of(&session), gradient(7, 5));
    let again = session.to_png().unwrap();
    assert_eq!(again, bytes);
}

#[test]
fn webp_round_trip_is_exact() {
    let mut session = loaded(7, 5);
    let bytes = session.to_webp(75).unwrap();
    session.load_image(&bytes).unwrap();
    assert_eq!(session.get_dimensions().unwrap(), r#"{"width": 7, "height": 5}"#);
    assert_eq!(samples_of(&session), gradient(7, 5));
}

#[test]
fn jpeg_round_trip_keeps_dimensions() {
    let mut session = loaded(17, 9);
    let bytes = session.to_jpeg(75).unwrap();
    session.load_image(&bytes).unwrap();
    assert_eq!(session.get_dimensions().unwrap(), r#"{"width": 17, "height": 9}"#);
    let held = samples_of(&session);
    assert_eq!(held.len(), 17 * 9 * 4);
    assert!(held.iter().skip(3).step_by(4).all(|alpha| *alpha == 255));
}

#[test]
fn red_square_scenario() {
    let red: Vec<u8> = (0..16).flat_map(|_| [255u8, 0, 0, 255]).collect();
    let source = {
        let mut first = ImageProcessor::new();
        first.load_rgba8(4, 4, red).unwrap();
        first.to_png().unwrap()
    };
    let mut session = ImageProcessor::new();
    let report = session.load_image(&source).unwrap();
    assert_eq!(report, r#"{"success": true, "width": 4, "height": 4, "format": "detected"}"#);
    let resized = session.resize(2, 2).unwrap();
    assert_eq!(resized, r#"{"success": true, "operation": "resize", "width": 2, "height": 2}"#);
    assert_eq!(session.get_dimensions().unwrap(), r#"{"width": 2, "height": 2}"#);
    let bytes = session.to_png().unwrap();
    let decoded = image::load_from_memory(&bytes).unwrap();
    assert_eq!((decoded.width(), decoded.height()), (2, 2));
    let expected: Vec<u8> = (0..4).flat_map(|_| [255u8, 0, 0, 255]).collect();
    assert_eq!(decoded.into_rgba8().into_raw(), expected);
}

#[test]
fn jpeg_refuses_an_image_wider_than_its_limit() {
    let mut session = ImageProcessor::new();
    session.load_rgba8(65536, 1, vec![9; 65536 * 4]).unwrap();
    let error = session.to_jpeg(80).unwrap_err();
    assert!(matches!(error, ProcessorError::Encode(OutputFormat::Jpeg, _)));
    assert!(error.message().starts_with("Failed to encode JPEG: "));
    assert!(error.message().len() > "Failed to encode JPEG: ".len());
    assert_eq!(session.get_dimensions().unwrap(), r#"{"width": 65536, "height": 1}"#);
    assert!(session.to_png().is_ok());
}

#[test]
fn webp_refuses_an_image_wider_than_its_limit() {
    let mut session = ImageProcessor::new();
    session.load_rgba8(16385, 1, vec![9; 16385 * 4]).unwrap();
    let error = session.to_webp(80).unwrap_err();
    assert!(matches!(error, ProcessorError::Encode(OutputFormat::WebP, _)));
    assert!(error.message().starts_with("Failed to encode WebP: "));
}

#[test]
fn encoded_png_agrees_with_the_image_crate() {
    let session = loaded(5, 4);
    let pixels = image::RgbaImage::from_raw(5, 4, gradient(5, 4)).unwrap();
    let mut out = std::io::Cursor::new(Vec::new());
    image::DynamicImage::ImageRgba8(pixels).write_to(&mut out, image::ImageFormat::Png).unwrap();
    assert_eq!(session.to_png().unwrap(), out.into_inner());
}
