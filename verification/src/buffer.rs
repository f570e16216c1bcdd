//! The pixel buffer held by a session, and the transforms that produce a new buffer from it.

use crate::codec::resample_lanczos3;
use crate::raster::{lemma_next_pixel, lemma_offset_in_range, Raster};
use crate::transform::{
    brightened, clamp_sample, crop_fits, cropped, lemma_cropped, lemma_rotated, remapped,
    resize_fits, rotated, MAX_RESAMPLE_SIDE,
};
use vstd::prelude::*;

verus! {

/// An image held in memory: its dimensions and its RGBA8 samples, row by row.
///
/// A buffer is never empty and always holds exactly four samples per pixel.
#[derive(Debug)]
pub struct PixelBuffer {
    width: u32,
    height: u32,
    samples: Vec<u8>,
}

impl View for PixelBuffer {
    type V = Raster;

    closed spec fn view(&self) -> Raster {
        Raster { width: self.width as nat, height: self.height as nat, samples: self.samples@ }
    }
}

impl Clone for PixelBuffer {
    /// A copy with the same dimensions and samples.
    fn clone(&self) -> (r: PixelBuffer)
        ensures
            r@ == self@,
            r@.wf(),
    {
        proof {
            use_type_invariant(self);
        }
        let samples: Vec<u8> = self.samples.clone();
        assert(samples@ =~= self.samples@);
        PixelBuffer { width: self.width, height: self.height, samples }
    }
}

impl PixelBuffer {
    #[verifier::type_invariant]
    pub(crate) open spec fn well_formed(self) -> bool {
        self@.wf()
    }

    /// Builds a buffer from raw parts, or returns `None` when the parts do not
    /// describe a well-formed image.
    pub fn from_raw(width: u32, height: u32, samples: Vec<u8>) -> (r: Option<PixelBuffer>)
        ensures
            r is Some <==> (Raster { width: width as nat, height: height as nat, samples: samples@ }).wf(),
            r matches Some(b) ==> b@ == (Raster {
                width: width as nat,
                height: height as nat,
                samples: samples@,
            }),
    {
        if width == 0 || height == 0 {
            return None;
        }
        assert(width * height <= 0xffff_ffff * 0xffff_ffff) by (nonlinear_arith)
            requires
                width <= 0xffff_ffff,
                height <= 0xffff_ffff,
        ;
        let pixels: u128 = (width as u128) * (height as u128);
        let needed: u128 = 4 * pixels;
        assert(needed == 4 * (width as nat) * (height as nat)) by (nonlinear_arith)
            requires
                needed == 4 * pixels,
                pixels == (width as u128) * (height as u128),
        ;
        if samples.len() as u128 != needed {
            return None;
        }
        Some(PixelBuffer { width, height, samples })
    }

    /// Width in pixels.
    pub fn width(&self) -> (w: u32)
        ensures
            w == self@.width,
            self@.wf(),
    {
        proof {
            use_type_invariant(self);
        }
        self.width
    }

    /// Height in pixels.
    pub fn height(&self) -> (h: u32)
        ensures
            h == self@.height,
            self@.wf(),
    {
        proof {
            use_type_invariant(self);
        }
        self.height
    }

    /// The samples, four per pixel, row by row.
    pub fn samples(&self) -> (s: &Vec<u8>)
        ensures
            s@ == self@.samples,
            self@.wf(),
    {
        proof {
            use_type_invariant(self);
        }
        &self.samples
    }

    /// Channel `c` of the pixel at `(x, y)`, or `None` outside the image.
    pub fn get(&self, x: u32, y: u32, c: u8) -> (r: Option<u8>)
        ensures
            r == if self@.contains(x as int, y as int) && c < 4 {
                Some(self@.sample(x as int, y as int, c as int))
            } else {
                None
            },
    {
        proof {
            use_type_invariant(self);
        }
        if x >= self.width || y >= self.height || c >= 4 {
            return None;
        }
        proof {
            lemma_offset_in_range(
                self.width as nat,
                self.height as nat,
                x as int,
                y as int,
                c as int,
            );
        }
        let len: usize = self.samples.len();
        assert(4 * (y * self.width + x) + c < len);
        let row: usize = y as usize * self.width as usize;
        let at: usize = 4 * (row + x as usize) + c as usize;
        Some(self.samples[at])
    }
}

impl PixelBuffer {
    /// Appends the four samples of the pixel at `(x, y)` to `out`.
    fn push_pixel(&self, x: u32, y: u32, out: &mut Vec<u8>)
        requires
            self@.contains(x as int, y as int),
        ensures
            final(out)@ == old(out)@ + self@.pixel(x as int, y as int),
    {
        proof {
            use_type_invariant(self);
            lemma_offset_in_range(self.width as nat, self.height as nat, x as int, y as int, 0);
            lemma_offset_in_range(self.width as nat, self.height as nat, x as int, y as int, 3);
        }
        let len: usize = self.samples.len();
        let from: usize = 4 * (y as usize * self.width as usize + x as usize);
        out.push(self.samples[from]);
        out.push(self.samples[from + 1]);
        out.push(self.samples[from + 2]);
        out.push(self.samples[from + 3]);
        proof {
            assert(final(out)@ =~= old(out)@ + self@.pixel(x as int, y as int));
        }
    }

    /// The image turned a quarter clockwise. Width and height change places.
    pub fn rotate90(&self) -> (r: PixelBuffer)
        ensures
            r@ == rotated(self@),
            r@.wf(),
    {
        proof {
            use_type_invariant(self);
            lemma_rotated(self@);
        }
        let w: u32 = self.width;
        let h: u32 = self.height;
        let ghost goal = rotated(self@);
        let mut out: Vec<u8> = Vec::with_capacity(self.samples.len());
        let mut j: u32 = 0;
        while j < w
            invariant
                j <= w,
                w == self@.width,
                h == self@.height,
                self@.wf(),
                goal == rotated(self@),
                goal.width == h,
                goal.height == w,
                goal.starts_with(out@, j * h),
            decreases w - j,
        {
            let mut i: u32 = 0;
            while i < h
                invariant
                    j < w,
                    i <= h,
                    w == self@.width,
                    h == self@.height,
                    self@.wf(),
                    goal == rotated(self@),
                    goal.width == h,
                    goal.height == w,
                    goal.starts_with(out@, j * h + i),
                decreases h - i,
            {
                let ghost held = out@;
                self.push_pixel(j, h - 1 - i, &mut out);
                proof {
                    lemma_rotated(self@);
                    assert(goal.pixel(i as int, j as int) =~= self@.pixel(j as int, h - 1 - i));
                    lemma_next_pixel(goal, held, i as int, j as int);
                }
                i = i + 1;
            }
            proof {
                assert(j * h + h == (j + 1) * h) by (nonlinear_arith);
            }
            j = j + 1;
        }
        proof {
            assert(4 * (w * h) == 4 * h * w) by (nonlinear_arith);
            assert(out@ =~= goal.samples);
        }
        PixelBuffer { width: h, height: w, samples: out }
    }

    /// The sub-image of size `width` x `height` whose top-left pixel is `(x, y)`,
    /// or `None` when that rectangle is empty or reaches outside the image.
    pub fn crop(&self, x: u32, y: u32, width: u32, height: u32) -> (r: Option<PixelBuffer>)
        ensures
            r is Some <==> crop_fits(self@, x as int, y as int, width as int, height as int),
            r matches Some(b) ==> b@.wf() && b@ == cropped(
                self@,
                x as int,
                y as int,
                width as nat,
                height as nat,
            ),
    {
        proof {
            use_type_invariant(self);
        }
        if width == 0 || height == 0 || width > self.width || height > self.height
            || x > self.width - width || y > self.height - height {
            return None;
        }
        proof {
            lemma_cropped(self@, x as int, y as int, width as nat, height as nat);
        }
        let ghost goal = cropped(self@, x as int, y as int, width as nat, height as nat);
        let mut out: Vec<u8> = Vec::new();
        let mut j: u32 = 0;
        while j < height
            invariant
                j <= height,
                0 < width,
                0 < height,
                x + width <= self@.width,
                y + height <= self@.height,
                self@.wf(),
                goal == cropped(self@, x as int, y as int, width as nat, height as nat),
                goal.width == width,
                goal.height == height,
                goal.starts_with(out@, j * width),
            decreases height - j,
        {
            let mut i: u32 = 0;
            while i < width
                invariant
                    j < height,
                    i <= width,
                    0 < width,
                    0 < height,
                    x + width <= self@.width,
                    y + height <= self@.height,
                    self@.wf(),
                    goal == cropped(self@, x as int, y as int, width as nat, height as nat),
                    goal.width == width,
                    goal.height == height,
                    goal.starts_with(out@, j * width + i),
                decreases width - i,
            {
                let ghost held = out@;
                self.push_pixel(x + i, y + j, &mut out);
                proof {
                    lemma_cropped(self@, x as int, y as int, width as nat, height as nat);
                    assert(goal.pixel(i as int, j as int) =~= self@.pixel(x + i, y + j));
                    lemma_next_pixel(goal, held, i as int, j as int);
                }
                i = i + 1;
            }
            proof {
                assert(j * width + width == (j + 1) * width) by (nonlinear_arith);
            }
            j = j + 1;
        }
        proof {
            assert(4 * (height * width) == 4 * width * height) by (nonlinear_arith);
            assert(out@ =~= goal.samples);
        }
        Some(PixelBuffer { width, height, samples: out })
    }

    /// The image resampled to exactly `width` x `height` with a Lanczos filter of
    /// window 3, or `None` when that size is empty or too large, or the image itself
    /// is too large to be resampled.
    ///
    /// Resampling to the size that the image has gives a copy. The samples of any
    /// other result come from the `image` crate and are not described.
    pub fn resize(&self, width: u32, height: u32) -> (r: Option<PixelBuffer>)
        ensures
            r is Some <==> resize_fits(self@, width as int, height as int),
            r matches Some(b) ==> b@.wf() && b@.width == width && b@.height == height,
            r matches Some(b) ==> (width == self@.width && height == self@.height ==> b@
                == self@),
    {
        proof {
            use_type_invariant(self);
        }
        if width == 0 || height == 0 || width > MAX_RESAMPLE_SIDE || height > MAX_RESAMPLE_SIDE
            || self.width > MAX_RESAMPLE_SIDE || self.height > MAX_RESAMPLE_SIDE {
            return None;
        }
        assert(width * height <= 0xffff_ffff * 0xffff_ffff) by (nonlinear_arith)
            requires
                width <= 0xffff_ffff,
                height <= 0xffff_ffff,
        ;
        assert(self.width * height <= 0xffff_ffff * 0xffff_ffff) by (nonlinear_arith)
            requires
                self.width <= 0xffff_ffff,
                height <= 0xffff_ffff,
        ;
        let limit: u128 = isize::MAX as u128;
        let result_bytes: u128 = 4 * ((width as u128) * (height as u128));
        let scratch_bytes: u128 = 16 * ((self.width as u128) * (height as u128));
        proof {
            assert(result_bytes == 4 * width * height) by (nonlinear_arith)
                requires
                    result_bytes == 4 * (width * height),
            ;
            assert(scratch_bytes == 16 * self.width * height) by (nonlinear_arith)
                requires
                    scratch_bytes == 16 * (self.width * height),
            ;
        }
        if result_bytes > limit || scratch_bytes > limit {
            return None;
        }
        let resampled: Vec<u8> = resample_lanczos3(
            self.width,
            self.height,
            self.samples.as_slice(),
            width,
            height,
        );
        PixelBuffer::from_raw(width, height, resampled)
    }

    /// The image with `value` added to every colour sample, limited to `0..=255`.
    /// Alpha is left as it is. No value of `value` makes a sample wrap around.
    pub fn brighten(&self, value: i32) -> (r: PixelBuffer)
        ensures
            r@ == brightened(self@, value as int),
            r@.wf(),
    {
        proof {
            use_type_invariant(self);
        }
        let len: usize = self.samples.len();
        let ghost goal = brightened(self@, value as int);
        let mut out: Vec<u8> = Vec::with_capacity(len);
        let mut k: usize = 0;
        while k < len
            invariant
                k <= len,
                len == self.samples@.len(),
                goal == brightened(self@, value as int),
                out@.len() == k,
                forall|t: int| 0 <= t < k ==> out@[t] == goal.samples[t],
            decreases len - k,
        {
            let s: u8 = self.samples[k];
            if k % 4 == 3 {
                out.push(s);
            } else {
                out.push(limit_sample(s as i64 + value as i64));
            }
            k = k + 1;
        }
        proof {
            assert(out@ =~= goal.samples);
        }
        PixelBuffer { width: self.width, height: self.height, samples: out }
    }
}

impl PixelBuffer {
    /// The image with every sample `s` replaced by `curve[s]`, or `None` when `curve`
    /// does not have an entry for each of the 256 sample values.
    pub fn remap(&self, curve: &[u8]) -> (r: Option<PixelBuffer>)
        ensures
            r is Some <==> curve@.len() == 256,
            r matches Some(b) ==> b@.wf() && b@ == remapped(self@, curve@),
    {
        proof {
            use_type_invariant(self);
        }
        if curve.len() != 256 {
            return None;
        }
        let len: usize = self.samples.len();
        let ghost goal = remapped(self@, curve@);
        let mut out: Vec<u8> = Vec::with_capacity(len);
        let mut k: usize = 0;
        while k < len
            invariant
                k <= len,
                len == self.samples@.len(),
                curve@.len() == 256,
                goal == remapped(self@, curve@),
                out@.len() == k,
                forall|t: int| 0 <= t < k ==> out@[t] == goal.samples[t],
            decreases len - k,
        {
            let s: u8 = self.samples[k];
            out.push(curve[s as usize]);
            k = k + 1;
        }
        proof {
            assert(out@ =~= goal.samples);
        }
        Some(PixelBuffer { width: self.width, height: self.height, samples: out })
    }
}

/// `v` limited to the range of a sample.
fn limit_sample(v: i64) -> (r: u8)
    ensures
        r == clamp_sample(v as int),
{
    if v < 0 {
        0
    } else if v > 255 {
        255
    } else {
        v as u8
    }
}

} // verus!
