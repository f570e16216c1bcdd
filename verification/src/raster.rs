//! The mathematical model of an image, and how coordinates map to samples.

use vstd::prelude::*;

verus! {

/// Mathematical model of an image: 8-bit RGBA samples in row-major order.
pub struct Raster {
    pub width: nat,
    pub height: nat,
    pub samples: Seq<u8>,
}

impl Raster {
    /// A raster is well formed when it is not empty, its dimensions fit the
    /// executable representation, and it holds four samples per pixel.
    pub open spec fn wf(self) -> bool {
        &&& 0 < self.width <= u32::MAX
        &&& 0 < self.height <= u32::MAX
        &&& self.samples.len() == 4 * self.width * self.height
    }

    /// Whether `(x, y)` names a pixel of this raster.
    pub open spec fn contains(self, x: int, y: int) -> bool {
        0 <= x < self.width && 0 <= y < self.height
    }

    /// Position of channel `c` of pixel `(x, y)` in `samples`.
    pub open spec fn offset(self, x: int, y: int, c: int) -> int {
        4 * (y * self.width + x) + c
    }

    /// Channel `c` (0 = red, 1 = green, 2 = blue, 3 = alpha) of pixel `(x, y)`.
    pub open spec fn sample(self, x: int, y: int, c: int) -> u8 {
        self.samples[self.offset(x, y, c)]
    }

    /// The four samples of pixel `(x, y)`: red, green, blue, alpha.
    pub open spec fn pixel(self, x: int, y: int) -> Seq<u8> {
        seq![
            self.sample(x, y, 0),
            self.sample(x, y, 1),
            self.sample(x, y, 2),
            self.sample(x, y, 3),
        ]
    }

    /// Whether `held` is the first `count` pixels of this raster, row by row.
    pub open spec fn starts_with(self, held: Seq<u8>, count: int) -> bool {
        &&& held.len() == 4 * count
        &&& forall|k: int| 0 <= k < held.len() ==> held[k] == self.samples[k]
    }

    /// The raster of the given size whose sample at `(x, y, c)` is `f(x, y, c)`.
    pub open spec fn generate(width: nat, height: nat, f: spec_fn(int, int, int) -> u8) -> Raster {
        Raster {
            width,
            height,
            samples: Seq::new(
                4 * width * height,
                |k: int| f((k / 4) % (width as int), (k / 4) / (width as int), k % 4),
            ),
        }
    }
}

/// Every in-range coordinate triple has its own position inside the sample sequence,
/// and the position determines the triple.
pub proof fn lemma_offset_in_range(width: nat, height: nat, x: int, y: int, c: int)
    requires
        0 <= x < width,
        0 <= y < height,
        0 <= c < 4,
    ensures
        0 <= 4 * (y * width + x) + c < 4 * width * height,
        ((4 * (y * width + x) + c) / 4) % (width as int) == x,
        ((4 * (y * width + x) + c) / 4) / (width as int) == y,
        (4 * (y * width + x) + c) % 4 == c,
{
    let p = y * width + x;
    assert(0 <= p < width * height) by (nonlinear_arith)
        requires
            0 <= x < width,
            0 <= y < height,
            p == y * width + x,
    ;
    assert(4 * width * height == 4 * (width * height)) by (nonlinear_arith);
    vstd::arithmetic::div_mod::lemma_fundamental_div_mod_converse(4 * p + c, 4, p, c);
    vstd::arithmetic::div_mod::lemma_fundamental_div_mod_converse(p, width as int, y, x);
}

/// Every position inside the sample sequence belongs to exactly one in-range
/// coordinate triple.
pub proof fn lemma_offset_split(width: nat, height: nat, k: int)
    requires
        0 <= k < 4 * width * height,
    ensures
        0 <= (k / 4) % (width as int) < width,
        0 <= (k / 4) / (width as int) < height,
        0 <= k % 4 < 4,
        4 * (((k / 4) / (width as int)) * width + (k / 4) % (width as int)) + k % 4 == k,
{
    assert(4 * width * height == 4 * (width * height)) by (nonlinear_arith);
    let p = k / 4;
    assert(width > 0) by (nonlinear_arith)
        requires
            0 <= k < 4 * width * height,
    ;
    vstd::arithmetic::div_mod::lemma_fundamental_div_mod(k, 4);
    vstd::arithmetic::div_mod::lemma_fundamental_div_mod(p, width as int);
    let y = p / (width as int);
    let x = p % (width as int);
    assert(0 <= p < width * height);
    assert(p == width * y + x);
    assert(0 <= y < height) by (nonlinear_arith)
        requires
            0 <= p < width * height,
            p == width * y + x,
            0 <= x < width,
    ;
    assert(y * width == width * y) by (nonlinear_arith);
}

/// Samples that hold a raster up to pixel `(x, y)` hold it up to the next pixel
/// once the samples of `(x, y)` are appended.
pub proof fn lemma_next_pixel(img: Raster, held: Seq<u8>, x: int, y: int)
    requires
        img.contains(x, y),
        img.starts_with(held, y * img.width + x),
    ensures
        img.starts_with(held + img.pixel(x, y), y * img.width + x + 1),
{
    let next = held + img.pixel(x, y);
    assert forall|k: int| 0 <= k < next.len() implies next[k] == img.samples[k] by {
        if k >= held.len() {
            let c = k - held.len();
            assert(next[k] == img.pixel(x, y)[c]);
            assert(img.offset(x, y, c) == k);
        }
    }
}

/// The sample of a generated raster at an in-range coordinate triple is the
/// generating function's value there.
pub proof fn lemma_generate(width: nat, height: nat, f: spec_fn(int, int, int) -> u8)
    ensures
        Raster::generate(width, height, f).width == width,
        Raster::generate(width, height, f).height == height,
        Raster::generate(width, height, f).samples.len() == 4 * width * height,
        forall|x: int, y: int, c: int|
            0 <= x < width && 0 <= y < height && 0 <= c < 4 ==> #[trigger] Raster::generate(
                width,
                height,
                f,
            ).sample(x, y, c) == f(x, y, c),
{
    let g = Raster::generate(width, height, f);
    assert forall|x: int, y: int, c: int|
        0 <= x < width && 0 <= y < height && 0 <= c < 4 implies #[trigger] g.sample(x, y, c) == f(
        x,
        y,
        c,
    ) by {
        lemma_offset_in_range(width, height, x, y, c);
    }
}

/// Two well-formed rasters of the same size that agree on every sample are equal.
pub proof fn lemma_raster_ext(a: Raster, b: Raster)
    requires
        a.wf(),
        b.wf(),
        a.width == b.width,
        a.height == b.height,
        forall|x: int, y: int, c: int|
            0 <= x < a.width && 0 <= y < a.height && 0 <= c < 4 ==> a.sample(x, y, c) == b.sample(
                x,
                y,
                c,
            ),
    ensures
        a == b,
{
    assert forall|k: int| 0 <= k < a.samples.len() implies a.samples[k] == b.samples[k] by {
        lemma_offset_split(a.width, a.height, k);
        let x = (k / 4) % (a.width as int);
        let y = (k / 4) / (a.width as int);
        let c = k % 4;
        assert(a.sample(x, y, c) == b.sample(x, y, c));
    }
    assert(a.samples =~= b.samples);
}

} // verus!
