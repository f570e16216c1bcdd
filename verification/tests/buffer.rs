use imageops::PixelBuffer;

fn gradient(width: u32, height: u32) -> Vec<u8> {
    let mut samples = Vec::new();
    for y in 0..height {
        for x in 0..width {
            samples.push((x * 30 + y) as u8);
            samples.push((y * 30 + x) as u8);
            samples.push((x ^ y) as u8);
            samples.push(128 + (x * y) as u8);
        }
    }
    samples
}

fn buffer(width: u32, height: u32) -> PixelBuffer {
    PixelBuffer::from_raw(width, height, gradient(width, height)).unwrap()
}

fn reference(width: u32, height: u32) -> image::RgbaImage {
    image::RgbaImage::from_raw(width, height, gradient(width, height)).unwrap()
}

#[test]
fn from_raw_accepts_exactly_four_samples_per_pixel() {
    let made = PixelBuffer::from_raw(3, 2, vec![7; 24]).unwrap();
    assert_eq!(made.width(), 3);
    assert_eq!(made.height(), 2);
    assert_eq!(made.samples(), &vec![7; 24]);
    assert!(PixelBuffer::from_raw(3, 2, vec![7; 23]).is_none());
    assert!(PixelBuffer::from_raw(3, 2, vec![7; 25]).is_none());
    assert!(PixelBuffer::from_raw(3, 2, vec![]).is_none());
}

#[test]
fn from_raw_refuses_empty_dimensions() {
    assert!(PixelBuffer::from_raw(0, 0, vec![]).is_none());
    assert!(PixelBuffer::from_raw(0, 5, vec![]).is_none());
    assert!(PixelBuffer::from_raw(5, 0, vec![]).is_none());
}

#[test]
fn from_raw_refuses_dimensions_beyond_the_data() {
    assert!(PixelBuffer::from_raw(u32::MAX, u32::MAX, vec![0; 16]).is_none());
    assert!(PixelBuffer::from_raw(1 << 31, 2, vec![0; 16]).is_none());
}

#[test]
fn get_reads_one_channel() {
    let made = buffer(4, 3);
    let source = gradient(4, 3);
    for y in 0..3u32 {
        for x in 0..4u32 {
            for c in 0..4u8 {
                let at = 4 * (y as usize * 4 + x as usize) + c as usize;
                assert_eq!(made.get(x, y, c), Some(source[at]));
            }
        }
    }
    assert_eq!(made.get(2, 1, 0), Some(61));
    assert_eq!(made.get(2, 1, 1), Some(32));
    assert_eq!(made.get(2, 1, 2), Some(3));
    assert_eq!(made.get(2, 1, 3), Some(130));
}

#[test]
fn get_outside_the_image_is_none() {
    let made = buffer(4, 3);
    assert_eq!(made.get(4, 0, 0), None);
    assert_eq!(made.get(0, 3, 0), None);
    assert_eq!(made.get(0, 0, 4), None);
    assert_eq!(made.get(u32::MAX, u32::MAX, 255), None);
}

#[test]
fn rotate_agrees_with_the_image_crate() {
    for (width, height) in [(1, 1), (1, 5), (5, 1), (4, 3), (3, 4), (7, 7)] {
        let turned = buffer(width, height).rotate90();
        let expected = image::imageops::rotate90(&reference(width, height));
        assert_eq!((turned.width(), turned.height()), (height, width));
        assert_eq!(turned.samples(), expected.as_raw());
    }
}

#[test]
fn rotate_puts_the_top_left_pixel_top_right() {
    let made = buffer(4, 3);
    let turned = made.rotate90();
    for c in 0..4u8 {
        assert_eq!(turned.get(2, 0, c), made.get(0, 0, c));
        assert_eq!(turned.get(2, 3, c), made.get(3, 0, c));
        assert_eq!(turned.get(0, 0, c), made.get(0, 2, c));
        assert_eq!(turned.get(0, 3, c), made.get(3, 2, c));
    }
}

#[test]
fn rotate_leaves_the_source_alone() {
    let made = buffer(4, 3);
    let _turned = made.rotate90();
    assert_eq!(made.samples(), &gradient(4, 3));
}

#[test]
fn crop_agrees_with_the_image_crate() {
    let made = buffer(6, 5);
    let source = reference(6, 5);
    for (x, y, width, height) in [(0, 0, 6, 5), (1, 1, 4, 3), (5, 4, 1, 1), (0, 2, 6, 1), (3, 0, 2, 5)] {
        let cut = made.crop(x, y, width, height).unwrap();
        let expected = image::imageops::crop_imm(&source, x, y, width, height).to_image();
        assert_eq!((cut.width(), cut.height()), (width, height));
        assert_eq!(cut.samples(), expected.as_raw());
    }
}

#[test]
fn crop_takes_the_pixels_of_the_rectangle() {
    let made = buffer(6, 5);
    let cut = made.crop(2, 1, 3, 2).unwrap();
    for j in 0..2u32 {
        for i in 0..3u32 {
            for c in 0..4u8 {
                assert_eq!(cut.get(i, j, c), made.get(2 + i, 1 + j, c));
            }
        }
    }
}

#[test]
fn crop_refuses_what_does_not_fit() {
    let made = buffer(6, 5);
    assert!(made.crop(0, 0, 7, 5).is_none());
    assert!(made.crop(0, 0, 6, 6).is_none());
    assert!(made.crop(1, 0, 6, 5).is_none());
    assert!(made.crop(0, 1, 6, 5).is_none());
    assert!(made.crop(6, 5, 1, 1).is_none());
    assert!(made.crop(0, 0, 0, 1).is_none());
    assert!(made.crop(0, 0, 1, 0).is_none());
    assert!(made.crop(u32::MAX, 0, 2, 1).is_none());
    assert!(made.crop(1, 0, 6, 5).is_none());
    assert!(made.crop(0, 0, 6, 5).is_some());
}

#[test]
fn brighten_agrees_with_the_image_crate() {
    let made = buffer(6, 5);
    let source = reference(6, 5);
    for value in [-255, -100, -1, 0, 1, 37, 128, 255, 1000, -1000] {
        let lit = made.brighten(value);
        let expected = image::imageops::brighten(&source, value);
        assert_eq!((lit.width(), lit.height()), (6, 5));
        assert_eq!(lit.samples(), expected.as_raw());
    }
}

#[test]
fn brighten_limits_each_colour_sample() {
    let made = PixelBuffer::from_raw(1, 1, vec![0, 128, 255, 77]).unwrap();
    assert_eq!(made.brighten(127).samples(), &vec![127, 255, 255, 77]);
    assert_eq!(made.brighten(128).samples(), &vec![128, 255, 255, 77]);
    assert_eq!(made.brighten(-128).samples(), &vec![0, 0, 127, 77]);
    assert_eq!(made.brighten(-129).samples(), &vec![0, 0, 126, 77]);
    assert_eq!(made.brighten(255).samples(), &vec![255, 255, 255, 77]);
    assert_eq!(made.brighten(254).samples(), &vec![254, 255, 255, 77]);
    assert_eq!(made.brighten(-255).samples(), &vec![0, 0, 0, 77]);
    assert_eq!(made.brighten(-254).samples(), &vec![0, 0, 1, 77]);
    assert_eq!(made.brighten(i32::MAX).samples(), &vec![255, 255, 255, 77]);
    assert_eq!(made.brighten(i32::MIN).samples(), &vec![0, 0, 0, 77]);
}

#[test]
fn resize_gives_exactly_the_requested_size() {
    let made = buffer(6, 5);
    for (width, height) in [(1, 1), (3, 10), (12, 2), (6, 5), (13, 13)] {
        let scaled = made.resize(width, height).unwrap();
        assert_eq!((scaled.width(), scaled.height()), (width, height));
        assert_eq!(scaled.samples().len(), (width * height * 4) as usize);
    }
}

#[test]
fn resize_agrees_with_the_image_crate() {
    let made = buffer(6, 5);
    let scaled = made.resize(4, 9).unwrap();
    let expected = image::imageops::resize(
        &reference(6, 5),
        4,
        9,
        image::imageops::FilterType::Lanczos3,
    );
    assert_eq!(scaled.samples(), expected.as_raw());
}

#[test]
fn resize_to_the_same_size_keeps_the_samples() {
    let made = buffer(6, 5);
    let scaled = made.resize(6, 5).unwrap();
    assert_eq!(scaled.samples(), &gradient(6, 5));
}

#[test]
fn resize_refuses_empty_and_oversized_results() {
    let made = buffer(6, 5);
    assert!(made.resize(0, 5).is_none());
    assert!(made.resize(6, 0).is_none());
    assert!(made.resize(u32::MAX, u32::MAX).is_none());
    assert_eq!(made.samples(), &gradient(6, 5));
}

#[test]
fn clone_is_an_equal_buffer_of_its_own() {
    let made = buffer(4, 3);
    let copy = made.clone();
    assert_eq!((copy.width(), copy.height()), (4, 3));
    assert_eq!(copy.samples(), made.samples());
    let turned = copy.rotate90();
    assert_eq!(turned.width(), 3);
    assert_eq!(made.samples(), &gradient(4, 3));
}

#[test]
fn resize_to_the_longest_side_is_accepted() {
    let made = PixelBuffer::from_raw(1, 1, vec![10, 20, 30, 40]).unwrap();
    let wide = made.resize(2_097_152, 1).unwrap();
    assert_eq!((wide.width(), wide.height()), (2_097_152, 1));
    assert_eq!(&wide.samples()[..4], &[10, 20, 30, 40]);
    assert_eq!(&wide.samples()[4 * 2_097_151..], &[10, 20, 30, 40]);
}

#[test]
fn resize_beyond_the_longest_side_is_refused() {
    let made = buffer(6, 5);
    assert!(made.resize(2_097_153, 1).is_none());
    assert!(made.resize(1, 2_097_153).is_none());
    assert!(made.resize(33_554_436, 1).is_none());
    assert_eq!(made.samples(), &gradient(6, 5));
}

#[test]
fn resize_of_an_image_beyond_the_longest_side_is_refused() {
    let wide = PixelBuffer::from_raw(2_097_153, 1, vec![7; 4 * 2_097_153]).unwrap();
    assert!(wide.resize(10, 1).is_none());
    assert!(wide.resize(2_097_153, 1).is_none());
    let high = PixelBuffer::from_raw(1, 2_097_153, vec![7; 4 * 2_097_153]).unwrap();
    assert!(high.resize(1, 10).is_none());
    let longest = PixelBuffer::from_raw(2_097_152, 1, vec![7; 4 * 2_097_152]).unwrap();
    let narrow = longest.resize(3, 1).unwrap();
    assert_eq!(narrow.samples(), &vec![7; 12]);
}

#[test]
fn resize_between_nearly_equal_long_sides_gives_whole_samples() {
    let long: Vec<u8> = (0..2_097_151u32).flat_map(|x| [(x % 251) as u8, 9, 200, 255]).collect();
    let made = PixelBuffer::from_raw(2_097_151, 1, long).unwrap();
    let scaled = made.resize(2_097_152, 1).unwrap();
    assert_eq!(scaled.samples().len(), 4 * 2_097_152);
    assert!(scaled.samples().iter().skip(1).step_by(4).all(|green| *green == 9));
    assert!(scaled.samples().iter().skip(3).step_by(4).all(|alpha| *alpha == 255));
}

#[test]
fn remap_looks_every_sample_up() {
    let made = PixelBuffer::from_raw(1, 2, vec![0, 10, 20, 30, 255, 10, 0, 30]).unwrap();
    let curve: Vec<u8> = (0..=255u8).map(|v| v / 2 + 100).collect();
    let mapped = made.remap(&curve).unwrap();
    assert_eq!((mapped.width(), mapped.height()), (1, 2));
    assert_eq!(mapped.samples(), &vec![100, 105, 110, 115, 227, 105, 100, 115]);
    assert_eq!(made.samples(), &vec![0, 10, 20, 30, 255, 10, 0, 30]);
}

#[test]
fn remap_refuses_a_curve_of_another_length() {
    let made = buffer(3, 3);
    assert!(made.remap(&[1; 255]).is_none());
    assert!(made.remap(&[1; 257]).is_none());
    assert!(made.remap(&[1; 256]).is_some());
}
