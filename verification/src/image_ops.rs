//! Pixel transforms over 8-bit grayscale images: resize-to-bound, uniform
//! rescale and binarize/invert. All transforms are pure: each returns a new
//! image and leaves its input untouched.

use vstd::prelude::*;

verus! {

/// An 8-bit grayscale image: `width * height` luminance samples in row-major
/// order. Scale factors are given in hundredths (a factor of `115` means
/// multiplying each axis by 1.15), so every dimension law is exact integer
/// arithmetic.
pub struct GrayImg {
    pub width: u32,
    pub height: u32,
    pub data: Vec<u8>,
}

impl GrayImg {
    /// The sample buffer holds exactly one byte per pixel.
    pub open spec fn wf(&self) -> bool {
        self.data@.len() == self.width as int * self.height as int
    }

    /// Number of pixels, used by the decode orchestrator to pick a strategy.
    pub fn pixel_count(&self) -> (r: u64)
        ensures
            r == self.width as int * self.height as int,
    {
        proof {
            assert(self.width as int * self.height as int <= 0xffff_ffff * 0xffff_ffff)
                by (nonlinear_arith)
                requires
                    self.width <= 0xffff_ffff && self.height <= 0xffff_ffff,
            ;
        }
        (self.width as u64) * (self.height as u64)
    }
}

/// Scale factor (in hundredths) that leaves an image unchanged.
pub const IDENTITY_SCALE_PCT: u32 = 100;

/// What one binarized sample is: the binary maximum when the sample reaches
/// the threshold, the binary minimum otherwise; `invert` swaps the two.
pub open spec fn bin_pixel(v: u8, threshold: u8, invert: bool) -> u8 {
    if (v >= threshold) != invert {
        255
    } else {
        0
    }
}

/// The whole buffer binarized pixel by pixel.
pub open spec fn bin_seq(data: Seq<u8>, threshold: u8, invert: bool) -> Seq<u8> {
    data.map_values(|v: u8| bin_pixel(v, threshold, invert))
}

/// `n / d` rounded to the nearest integer, halves rounding up.
pub open spec fn round_div(n: nat, d: nat) -> nat
    recommends
        d > 0,
{
    (2 * n + d) / (2 * d)
}

/// One axis after scaling by `pct` hundredths: rounded, clamped to at least 1
/// and to the machine's dimension limit.
pub open spec fn scaled_dim(dim: nat, pct: nat) -> nat {
    let r = round_div(dim * pct, 100);
    if r < 1 {
        1
    } else if r > u32::MAX {
        u32::MAX as nat
    } else {
        r
    }
}

/// What `image::imageops::resize` with `FilterType::Nearest` returns for a
/// `w`-by-`h` buffer resampled to `nw`-by-`nh`: a fixed function of the input
/// samples and the target dimensions alone.
pub uninterp spec fn nearest_resized(data: Seq<u8>, w: int, h: int, nw: int, nh: int) -> Seq<u8>;

/// Relies on `image::imageops::resize` with `FilterType::Nearest`: it returns
/// a new buffer of exactly `nw * nh` samples, resampled from the input by
/// nearest neighbour, depending on nothing but its arguments.
#[verifier::external_body]
fn resize_nearest(img: &GrayImg, nw: u32, nh: u32) -> (r: GrayImg)
    requires
        img.wf(),
        img.width >= 1,
        img.height >= 1,
        nw >= 1,
        nh >= 1,
    ensures
        r.width == nw,
        r.height == nh,
        r.data@.len() == nw as int * nh as int,
        r.data@ == nearest_resized(
            img.data@,
            img.width as int,
            img.height as int,
            nw as int,
            nh as int,
        ),
{
    let src = image::GrayImage::from_raw(img.width, img.height, img.data.clone())
        .expect("well-formed image buffer");
    let out = image::imageops::resize(&src, nw, nh, image::imageops::FilterType::Nearest);
    GrayImg { width: nw, height: nh, data: out.into_raw() }
}

/// A fresh copy of the image, sample for sample.
pub fn copy_luma_image(img: &GrayImg) -> (r: GrayImg)
    ensures
        r.width == img.width,
        r.height == img.height,
        r.data@ == img.data@,
{
    let mut data: Vec<u8> = Vec::new();
    let mut i: usize = 0;
    while i < img.data.len()
        invariant
            0 <= i <= img.data@.len(),
            data@ == img.data@.take(i as int),
        decreases img.data@.len() - i,
    {
        data.push(img.data[i]);
        proof {
            assert(data@ =~= img.data@.take(i + 1));
        }
        i += 1;
    }
    proof {
        assert(img.data@.take(img.data@.len() as int) =~= img.data@);
    }
    GrayImg { width: img.width, height: img.height, data }
}

/// The image a uniform rescale by `pct` hundredths produces: unchanged when
/// the factor is 1 or the image is empty, otherwise resampled to the rounded,
/// clamped dimensions.
pub open spec fn scale_spec(data: Seq<u8>, w: int, h: int, pct: int) -> (Seq<u8>, int, int) {
    if pct == 100 || w == 0 || h == 0 {
        (data, w, h)
    } else {
        let nw = scaled_dim(w as nat, pct as nat) as int;
        let nh = scaled_dim(h as nat, pct as nat) as int;
        (nearest_resized(data, w, h, nw, nh), nw, nh)
    }
}

fn scaled_dim_exec(dim: u32, pct: u32) -> (r: u32)
    requires
        dim >= 1,
    ensures
        r == scaled_dim(dim as nat, pct as nat),
        r >= 1,
{
    proof {
        assert(dim as int * pct as int <= 0xffff_ffff * 0xffff_ffff) by (nonlinear_arith)
            requires
                dim <= 0xffff_ffff && pct <= 0xffff_ffff,
        ;
    }
    let n: u128 = (dim as u128) * (pct as u128);
    let r: u128 = (2 * n + 100) / 200;
    if r < 1 {
        1
    } else if r > 0xffff_ffff {
        0xffff_ffffu32
    } else {
        r as u32
    }
}

/// Uniform rescale by `pct` hundredths: the identity for factor 1 (and for
/// empty images), otherwise a nearest-neighbour resample with each axis
/// rounded and clamped to at least one pixel.
pub fn scale_luma_image(img: &GrayImg, scale_pct: u32) -> (r: GrayImg)
    requires
        img.wf(),
    ensures
        r.wf(),
        (r.data@, r.width as int, r.height as int) == scale_spec(
            img.data@,
            img.width as int,
            img.height as int,
            scale_pct as int,
        ),
        // a factor of one is the identity transform
        scale_pct == 100 ==> r.width == img.width && r.height == img.height && r.data@
            == img.data@,
        // the dimension law: each axis is rounded, clamped to at least 1
        scale_pct != 100 && img.width >= 1 && img.height >= 1 ==> {
            &&& r.width as nat == scaled_dim(img.width as nat, scale_pct as nat)
            &&& r.height as nat == scaled_dim(img.height as nat, scale_pct as nat)
        },
{
    if scale_pct == 100 || img.width == 0 || img.height == 0 {
        let r = copy_luma_image(img);
        r
    } else {
        let nw = scaled_dim_exec(img.width, scale_pct);
        let nh = scaled_dim_exec(img.height, scale_pct);
        resize_nearest(img, nw, nh)
    }
}

/// `n * maxd / cur` rounded, clamped to at least 1: the shorter axis of a
/// resize-to-bound.
pub open spec fn bounded_short_dim(n: nat, maxd: nat, cur: nat) -> nat {
    let r = round_div(n * maxd, cur);
    if r < 1 {
        1
    } else {
        r
    }
}

/// The image a resize-to-bound produces: unchanged when the longer side is
/// already within `maxd` (or either axis is empty); otherwise the longer side
/// becomes `maxd` (at least 1) and the shorter side scales in proportion.
pub open spec fn resize_max_spec(data: Seq<u8>, w: int, h: int, maxd: int) -> (Seq<u8>, int, int) {
    let cur = if w >= h {
        w
    } else {
        h
    };
    if cur <= maxd || w == 0 || h == 0 {
        (data, w, h)
    } else {
        let long = if maxd < 1 {
            1
        } else {
            maxd
        };
        if w >= h {
            let nh = bounded_short_dim(h as nat, maxd as nat, w as nat) as int;
            (nearest_resized(data, w, h, long, nh), long, nh)
        } else {
            let nw = bounded_short_dim(w as nat, maxd as nat, h as nat) as int;
            (nearest_resized(data, w, h, nw, long), nw, long)
        }
    }
}

proof fn lemma_bounded_short_le(n: nat, maxd: nat, cur: nat)
    requires
        1 <= n <= cur,
        1 <= maxd,
    ensures
        1 <= bounded_short_dim(n, maxd, cur) <= maxd,
{
    assert(2 * (n * maxd) + cur < 2 * cur * (maxd + 1)) by (nonlinear_arith)
        requires
            1 <= n <= cur,
            1 <= maxd,
    ;
    assert((2 * (n * maxd) + cur) / (2 * cur) < maxd + 1) by (nonlinear_arith)
        requires
            2 * (n * maxd) + cur < 2 * cur * (maxd + 1),
            1 <= cur,
    ;
}

fn bounded_short_dim_exec(n: u32, maxd: u32, cur: u32) -> (r: u32)
    requires
        1 <= n <= cur,
    ensures
        r == bounded_short_dim(n as nat, maxd as nat, cur as nat),
        1 <= r,
        1 <= maxd ==> r <= maxd,
{
    proof {
        if maxd >= 1 {
            lemma_bounded_short_le(n as nat, maxd as nat, cur as nat);
        } else {
            assert(n * maxd == 0) by (nonlinear_arith)
                requires
                    maxd == 0,
            ;
            assert(2 * 0 + cur < 2 * cur);
        }
    }
    proof {
        assert(n as int * maxd as int <= 0xffff_ffff * 0xffff_ffff) by (nonlinear_arith)
            requires
                n <= 0xffff_ffff && maxd <= 0xffff_ffff,
        ;
    }
    let prod: u128 = (n as u128) * (maxd as u128);
    let r: u128 = (2 * prod + cur as u128) / (2 * cur as u128);
    if r < 1 {
        1
    } else {
        r as u32
    }
}

/// Bound the longer side of an image to `max_dimension`, preserving aspect
/// ratio; an image already within the bound (or empty) comes back identical,
/// and the result's longer side never exceeds the bound.
pub fn resize_luma_to_max_dimension(img: &GrayImg, max_dimension: u32) -> (r: GrayImg)
    requires
        img.wf(),
    ensures
        r.wf(),
        (r.data@, r.width as int, r.height as int) == resize_max_spec(
            img.data@,
            img.width as int,
            img.height as int,
            max_dimension as int,
        ),
        // already within the bound, or an axis is empty: the identical image
        (if img.width >= img.height {
            img.width
        } else {
            img.height
        }) <= max_dimension || img.width == 0 || img.height == 0 ==> r.width == img.width
            && r.height == img.height && r.data@ == img.data@,
        // over the bound: the longer side never exceeds it
        max_dimension >= 1 && img.width >= 1 && img.height >= 1 && (if img.width >= img.height {
            img.width
        } else {
            img.height
        }) > max_dimension ==> (if r.width >= r.height {
            r.width
        } else {
            r.height
        }) <= max_dimension,
{
    let width = img.width;
    let height = img.height;
    let current_max = if width >= height {
        width
    } else {
        height
    };
    if current_max <= max_dimension || width == 0 || height == 0 {
        copy_luma_image(img)
    } else {
        let long = if max_dimension < 1 {
            1
        } else {
            max_dimension
        };
        if width >= height {
            let nh = bounded_short_dim_exec(height, max_dimension, width);
            resize_nearest(img, long, nh)
        } else {
            let nw = bounded_short_dim_exec(width, max_dimension, height);
            resize_nearest(img, nw, long)
        }
    }
}

/// Per-pixel binarization: the binary maximum where the sample reaches the
/// threshold, the binary minimum otherwise; `invert` swaps the two outcomes.
pub fn threshold_luma_image(img: &GrayImg, threshold: u8, invert: bool) -> (r: GrayImg)
    requires
        img.wf(),
    ensures
        r.wf(),
        r.width == img.width,
        r.height == img.height,
        r.data@ == bin_seq(img.data@, threshold, invert),
{
    let mut data: Vec<u8> = Vec::new();
    let mut i: usize = 0;
    while i < img.data.len()
        invariant
            0 <= i <= img.data@.len(),
            data@.len() == i,
            forall|k: int|
                0 <= k < i ==> data@[k] == bin_pixel(img.data@[k], threshold, invert),
        decreases img.data@.len() - i,
    {
        let v = img.data[i];
        let bit: u8 = if v >= threshold {
            255
        } else {
            0
        };
        let value: u8 = if invert {
            255 - bit
        } else {
            bit
        };
        data.push(value);
        i += 1;
    }
    proof {
        assert(data@ =~= bin_seq(img.data@, threshold, invert));
    }
    GrayImg { width: img.width, height: img.height, data }
}

/// Binarization is idempotent: re-applying it with the same threshold and
/// polarity changes nothing. For the plain polarity this holds for every
/// threshold; for the inverted polarity a positive threshold re-flips every
/// pixel of a non-empty image, so it holds only at threshold zero or on an
/// empty image.
pub proof fn lemma_binarize_idempotent(data: Seq<u8>, threshold: u8, invert: bool)
    requires
        !invert || threshold == 0 || data.len() == 0,
    ensures
        bin_seq(bin_seq(data, threshold, invert), threshold, invert) == bin_seq(
            data,
            threshold,
            invert,
        ),
{
    let once = bin_seq(data, threshold, invert);
    assert forall|k: int| 0 <= k < once.len() implies #[trigger] bin_seq(
        once,
        threshold,
        invert,
    )[k] == once[k] by {
        assert(once[k] == bin_pixel(data[k], threshold, invert));
    }
    assert(bin_seq(once, threshold, invert) =~= once);
}

/// Binarizing with `invert` set produces the pixel-wise complement of
/// binarizing without it, at the same threshold.
pub proof fn lemma_binarize_invert_complement(data: Seq<u8>, threshold: u8)
    ensures
        bin_seq(data, threshold, true) == bin_seq(data, threshold, false).map_values(
            |v: u8| (255 - v) as u8,
        ),
        forall|k: int|
            0 <= k < data.len() ==> #[trigger] bin_seq(data, threshold, true)[k] + bin_seq(
                data,
                threshold,
                false,
            )[k] == 255,
{
    let plain = bin_seq(data, threshold, false);
    let flipped = bin_seq(data, threshold, true);
    assert forall|k: int| 0 <= k < data.len() implies #[trigger] flipped[k] + plain[k] == 255 by {
        assert(plain[k] == bin_pixel(data[k], threshold, false));
        assert(flipped[k] == bin_pixel(data[k], threshold, true));
    }
    assert(flipped =~= plain.map_values(|v: u8| (255 - v) as u8));
}

} // verus!
