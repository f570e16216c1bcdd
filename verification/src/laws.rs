//! Laws of the transforms and of the session, proved on the mathematical model.

use crate::processor::dimensions_report;
use crate::raster::{lemma_raster_ext, Raster};
use crate::response::Response;
use crate::transform::{
    brightened, crop_fits, cropped, lemma_cropped, lemma_rotated, remapped, rotated,
};
use vstd::prelude::*;

verus! {

/// Four quarter turns give back the image they started from: the same width and
/// height, and the same samples.
pub proof fn lemma_rotate_four_times(img: Raster)
    requires
        img.wf(),
    ensures
        rotated(rotated(rotated(rotated(img)))) == img,
{
    let r1 = rotated(img);
    let r2 = rotated(r1);
    let r3 = rotated(r2);
    let r4 = rotated(r3);
    lemma_rotated(img);
    lemma_rotated(r1);
    lemma_rotated(r2);
    lemma_rotated(r3);
    assert forall|i: int, j: int, c: int|
        0 <= i < img.width && 0 <= j < img.height && 0 <= c < 4 implies r4.sample(i, j, c)
        == img.sample(i, j, c) by {
        assert(r4.sample(i, j, c) == r3.sample(j, img.width - 1 - i, c));
        assert(r3.sample(j, img.width - 1 - i, c) == r2.sample(img.width - 1 - i, img.height - 1 - j, c));
        assert(r2.sample(img.width - 1 - i, img.height - 1 - j, c) == r1.sample(
            img.height - 1 - j,
            i,
            c,
        ));
        assert(r1.sample(img.height - 1 - j, i, c) == img.sample(i, j, c));
    }
    lemma_raster_ext(r4, img);
}

/// A rectangle that ends on the right or lower edge of the image fits; one that
/// ends a single pixel beyond either edge does not.
pub proof fn lemma_crop_boundary(img: Raster, x: int, y: int, width: int, height: int)
    requires
        img.wf(),
        0 <= x,
        0 <= y,
        0 < width,
        0 < height,
    ensures
        x + width == img.width && y + height <= img.height ==> crop_fits(img, x, y, width, height),
        x + width <= img.width && y + height == img.height ==> crop_fits(img, x, y, width, height),
        x + width == img.width + 1 ==> !crop_fits(img, x, y, width, height),
        y + height == img.height + 1 ==> !crop_fits(img, x, y, width, height),
{
}

/// Cropping to the whole image changes nothing.
pub proof fn lemma_crop_whole(img: Raster)
    requires
        img.wf(),
    ensures
        crop_fits(img, 0, 0, img.width as int, img.height as int),
        cropped(img, 0, 0, img.width, img.height) == img,
{
    lemma_cropped(img, 0, 0, img.width, img.height);
    lemma_raster_ext(cropped(img, 0, 0, img.width, img.height), img);
}

/// Brightening keeps the size of an image and its alpha samples, and keeps it well
/// formed.
pub proof fn lemma_brightened(img: Raster, value: int)
    requires
        img.wf(),
    ensures
        brightened(img, value).wf(),
        brightened(img, value).width == img.width,
        brightened(img, value).height == img.height,
        forall|k: int|
            0 <= k < img.samples.len() && k % 4 == 3 ==> #[trigger] brightened(
                img,
                value,
            ).samples[k] == img.samples[k],
{
}

/// Brightening by 255 or more drives every colour sample to 255, and darkening by
/// 255 or more drives it to 0: samples saturate, they never wrap around.
pub proof fn lemma_brighten_saturates(img: Raster, value: int)
    requires
        img.wf(),
    ensures
        value >= 255 ==> forall|k: int|
            0 <= k < img.samples.len() && k % 4 != 3 ==> #[trigger] brightened(
                img,
                value,
            ).samples[k] == 255,
        value <= -255 ==> forall|k: int|
            0 <= k < img.samples.len() && k % 4 != 3 ==> #[trigger] brightened(
                img,
                value,
            ).samples[k] == 0,
{
}

/// Brightening never moves a colour sample against the sign of `value`, and by no
/// more than `value`.
pub proof fn lemma_brighten_monotone(img: Raster, value: int)
    requires
        img.wf(),
    ensures
        forall|k: int|
            #![trigger brightened(img, value).samples[k]]
            0 <= k < img.samples.len() && value >= 0 ==> img.samples[k] <= brightened(
                img,
                value,
            ).samples[k] <= img.samples[k] + value,
        forall|k: int|
            #![trigger brightened(img, value).samples[k]]
            0 <= k < img.samples.len() && value <= 0 ==> img.samples[k] + value <= brightened(
                img,
                value,
            ).samples[k] <= img.samples[k],
{
}

/// A tone curve keeps the size of an image and keeps it well formed, and what a
/// sample becomes depends on that sample alone: equal samples become equal samples.
pub proof fn lemma_remapped(img: Raster, curve: Seq<u8>)
    requires
        img.wf(),
    ensures
        remapped(img, curve).wf(),
        remapped(img, curve).width == img.width,
        remapped(img, curve).height == img.height,
        forall|k: int, t: int|
            #![trigger remapped(img, curve).samples[k], remapped(img, curve).samples[t]]
            0 <= k < img.samples.len() && 0 <= t < img.samples.len() && img.samples[k]
                == img.samples[t] ==> remapped(img, curve).samples[k] == remapped(
                img,
                curve,
            ).samples[t],
{
}

/// The curve that maps every sample value to itself changes nothing.
pub proof fn lemma_identity_curve(img: Raster, curve: Seq<u8>)
    requires
        img.wf(),
        curve.len() == 256,
        forall|v: int| 0 <= v < 256 ==> curve[v] == v,
    ensures
        remapped(img, curve) == img,
{
    assert(remapped(img, curve).samples =~= img.samples);
}

/// A session that holds an image of `width` x `height` reports exactly these
/// dimensions. This is the state that a successful resize to `width` x `height`
/// leaves behind.
pub proof fn lemma_dimensions_after_resize(state: Option<Raster>, width: u32, height: u32)
    requires
        state matches Some(img) && img.wf() && img.width == width && img.height == height,
    ensures
        dimensions_report(state) == Some((Response::Dimensions { width, height }).text()),
{
}

} // verus!
