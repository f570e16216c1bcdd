//! What each transform computes, stated on the mathematical model.

use crate::raster::{lemma_generate, Raster};
use vstd::prelude::*;

verus! {

/// Whether the rectangle of size `width` x `height` with its top-left corner at
/// `(x, y)` is not empty and lies inside `img`.
pub open spec fn crop_fits(img: Raster, x: int, y: int, width: int, height: int) -> bool {
    &&& 0 <= x
    &&& 0 <= y
    &&& 0 < width
    &&& 0 < height
    &&& x + width <= img.width
    &&& y + height <= img.height
}

/// The sub-image of size `width` x `height` whose top-left pixel is `(x, y)` of `img`.
pub open spec fn cropped(img: Raster, x: int, y: int, width: nat, height: nat) -> Raster {
    Raster::generate(width, height, |i: int, j: int, c: int| img.sample(x + i, y + j, c))
}

/// A rectangle that fits gives a well-formed image of exactly its size, whose pixel
/// at `(i, j)` is the pixel at `(x + i, y + j)` of the source.
pub proof fn lemma_cropped(img: Raster, x: int, y: int, width: nat, height: nat)
    requires
        img.wf(),
        crop_fits(img, x, y, width as int, height as int),
    ensures
        cropped(img, x, y, width, height).wf(),
        cropped(img, x, y, width, height).width == width,
        cropped(img, x, y, width, height).height == height,
        forall|i: int, j: int, c: int|
            0 <= i < width && 0 <= j < height && 0 <= c < 4 ==> #[trigger] cropped(
                img,
                x,
                y,
                width,
                height,
            ).sample(i, j, c) == img.sample(x + i, y + j, c),
{
    lemma_generate(width, height, |i: int, j: int, c: int| img.sample(x + i, y + j, c));
}

/// `img` turned a quarter clockwise: the top row becomes the right column.
pub open spec fn rotated(img: Raster) -> Raster {
    Raster::generate(
        img.height,
        img.width,
        |i: int, j: int, c: int| img.sample(j, img.height - 1 - i, c),
    )
}

/// A quarter turn keeps an image well formed, swaps its width and height, and
/// moves the pixel at `(j, height - 1 - i)` to `(i, j)`.
pub proof fn lemma_rotated(img: Raster)
    requires
        img.wf(),
    ensures
        rotated(img).wf(),
        rotated(img).width == img.height,
        rotated(img).height == img.width,
        forall|i: int, j: int, c: int|
            0 <= i < img.height && 0 <= j < img.width && 0 <= c < 4 ==> #[trigger] rotated(
                img,
            ).sample(i, j, c) == img.sample(j, img.height - 1 - i, c),
{
    lemma_generate(
        img.height,
        img.width,
        |i: int, j: int, c: int| img.sample(j, img.height - 1 - i, c),
    );
    assert(4 * img.height * img.width == 4 * img.width * img.height) by (nonlinear_arith);
}

/// The longest side, in pixels, that resampling takes or gives: 2 to the power 21.
///
/// Resampling places its windows in `f32`. Up to this length every pixel index and
/// every half-pixel centre is exact there, and the centre of a window is off by less
/// than a quarter of a pixel.
pub const MAX_RESAMPLE_SIDE: u32 = 2_097_152;

/// Whether `img` can be resampled to `width` x `height`: the new size is not empty,
/// no side of `img` or of the result is longer than `MAX_RESAMPLE_SIDE`, and the
/// buffers that the resampling needs fit in memory that can be addressed.
/// Resampling goes by rows first, through a buffer of `f32` samples that is as wide
/// as `img` and as high as the result.
pub open spec fn resize_fits(img: Raster, width: int, height: int) -> bool {
    &&& 0 < width <= MAX_RESAMPLE_SIDE
    &&& 0 < height <= MAX_RESAMPLE_SIDE
    &&& img.width <= MAX_RESAMPLE_SIDE
    &&& img.height <= MAX_RESAMPLE_SIDE
    &&& 4 * width * height <= isize::MAX
    &&& 16 * img.width * height <= isize::MAX
}

/// `v` limited to the range of a sample.
pub open spec fn clamp_sample(v: int) -> u8 {
    if v < 0 {
        0
    } else if v > 255 {
        255
    } else {
        v as u8
    }
}

/// `img` with `value` added to every colour sample, limited to `0..=255`.
/// Alpha samples, every fourth one, stay as they are.
pub open spec fn brightened(img: Raster, value: int) -> Raster {
    Raster {
        width: img.width,
        height: img.height,
        samples: Seq::new(
            img.samples.len(),
            |k: int|
                if k % 4 == 3 {
                    img.samples[k]
                } else {
                    clamp_sample(img.samples[k] + value)
                },
        ),
    }
}

/// `img` with every sample `s` replaced by `curve[s]`: a tone curve, which says for
/// each of the 256 sample values what it becomes. Every sample is mapped by itself,
/// alpha like the colours.
pub open spec fn remapped(img: Raster, curve: Seq<u8>) -> Raster {
    Raster {
        width: img.width,
        height: img.height,
        samples: Seq::new(img.samples.len(), |k: int| curve[img.samples[k] as int]),
    }
}

} // verus!
