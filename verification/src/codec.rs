//! The boundary to the `image` crate: decoding, resampling and encoding.
//!
//! Nothing in this file is proved. Each item says what it takes on trust.

use crate::error::OutputFormat;
use crate::transform::MAX_RESAMPLE_SIDE;
use vstd::prelude::*;

verus! {

/// The error type of the `image` crate, carried through as it is.
#[verifier::external_type_specification]
#[verifier::external_body]
pub struct ExImageError(image::ImageError);

/// The bytes that `image::DynamicImage::write_to` writes for an RGBA8 image of the
/// given size and samples in the given format, or `None` where it reports an error.
/// The encoders read nothing but their arguments.
pub uninterp spec fn encoding(
    format: OutputFormat,
    width: u32,
    height: u32,
    samples: Seq<u8>,
) -> Option<Seq<u8>>;

/// Calls `image::load_from_memory`, which guesses the container format from the
/// first bytes, and turns what it decoded into RGBA8 with `into_rgba8`.
///
/// Nothing is promised of the result: the decoder may accept or refuse any input,
/// and a process may have hooked decoders of its own into the `image` crate.
#[verifier::external_body]
pub(crate) fn decode_rgba8(bytes: &[u8]) -> (r: Result<(u32, u32, Vec<u8>), image::ImageError>) {
    let decoded = image::load_from_memory(bytes)?.into_rgba8();
    Ok((decoded.width(), decoded.height(), decoded.into_raw()))
}

/// Calls `image::imageops::resize` with the Lanczos filter of window 3.
///
/// Taken on trust: the result holds four samples for each pixel of the new size,
/// and where the new size is the old one it is a copy of `samples`. Other sample
/// values are not described, they come out of floating-point sums.
///
/// `resize` panics where a buffer is too large for a `Vec`, and where the weights of
/// a sampling window sum to zero, which makes every weight NaN. The `requires`
/// leaves both out. The two bounds by `isize::MAX` are on the buffers that `resize`
/// allocates, one of `f32` and one of `u8` samples. The bound on the four sides is
/// for the weights. With no side above `MAX_RESAMPLE_SIDE`, `f32` holds every pixel
/// index and half-pixel centre exactly and puts the centre of a window less than a
/// quarter of a pixel from its true place, which is never more than half a pixel
/// beyond the first or the last source pixel. The source pixel nearest to the
/// centre is then in the window and under the main lobe of the kernel, less than
/// three quarters of a unit from the centre. A window is a run of neighbouring
/// pixels around that one, and under its negative lobes the kernel is smaller in
/// size than one unit nearer the centre, so the weights sum to a positive number.
#[verifier::external_body]
pub(crate) fn resample_lanczos3(
    width: u32,
    height: u32,
    samples: &[u8],
    new_width: u32,
    new_height: u32,
) -> (r: Vec<u8>)
    requires
        0 < width <= MAX_RESAMPLE_SIDE,
        0 < height <= MAX_RESAMPLE_SIDE,
        samples@.len() == 4 * width * height,
        0 < new_width <= MAX_RESAMPLE_SIDE,
        0 < new_height <= MAX_RESAMPLE_SIDE,
        16 * width * new_height <= isize::MAX,
        4 * new_width * new_height <= isize::MAX,
    ensures
        r@.len() == 4 * new_width * new_height,
        new_width == width && new_height == height ==> r@ == samples@,
{
    let source = image::ImageBuffer::<image::Rgba<u8>, &[u8]>::from_raw(width, height, samples)
        .unwrap();
    let filter = image::imageops::FilterType::Lanczos3;
    image::imageops::resize(&source, new_width, new_height, filter).into_raw()
}

/// Calls `image::DynamicImage::write_to` on an RGBA8 image, writing into memory.
///
/// Taken on trust: the outcome is the one that `encoding` names.
#[verifier::external_body]
pub(crate) fn encode(format: OutputFormat, width: u32, height: u32, samples: &[u8]) -> (r: Result<
    Vec<u8>,
    image::ImageError,
>)
    requires
        0 < width,
        0 < height,
        samples@.len() == 4 * width * height,
    ensures
        match r {
            Ok(bytes) => encoding(format, width, height, samples@) == Some(bytes@),
            Err(_) => encoding(format, width, height, samples@) is None,
        },
{
    let target = match format {
        OutputFormat::Png => image::ImageFormat::Png,
        OutputFormat::Jpeg => image::ImageFormat::Jpeg,
        OutputFormat::WebP => image::ImageFormat::WebP,
    };
    let pixels = image::RgbaImage::from_raw(width, height, samples.to_vec()).unwrap();
    let mut out = std::io::Cursor::new(Vec::new());
    image::DynamicImage::ImageRgba8(pixels).write_to(&mut out, target)?;
    Ok(out.into_inner())
}

/// Formats an error of the `image` crate with its `Display` impl.
/// Nothing is promised of the text.
#[verifier::external_body]
pub(crate) fn describe(error: &image::ImageError) -> (s: String) {
    format!("{}", error)
}

} // verus!
