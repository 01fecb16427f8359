//! The derivation shader, modeled over 8-bit channel values: each output
//! pixel is the perceptual luminance of the sampled source pixel,
//! replicated across the color channels with full alpha. The weights are
//! the standard perceptual luminance coefficients, carried in units of
//! 1/10000 so the formula is exact integer arithmetic.

use vstd::prelude::*;
use crate::texture::{TARGET_HEIGHT, TARGET_WIDTH};

verus! {

/// Weight of the red channel, in units of 1/10000.
pub const LUMA_R_WEIGHT: u32 = 2126;

/// Weight of the green channel, in units of 1/10000.
pub const LUMA_G_WEIGHT: u32 = 7152;

/// Weight of the blue channel, in units of 1/10000.
pub const LUMA_B_WEIGHT: u32 = 722;

/// The weights sum to this scale, so luminance of a channel-uniform pixel
/// is that channel value.
pub const LUMA_SCALE: u32 = 10000;

/// One texel, 8 bits per channel.
#[derive(Clone, Copy, PartialEq, Eq, Structural, Debug)]
pub struct Pixel {
    pub r: u8,
    pub g: u8,
    pub b: u8,
    pub a: u8,
}

/// The perceptual luminance of a pixel: the fixed linear combination of
/// the RGB channels, scaled back to one 8-bit channel.
pub open spec fn luma_of(p: Pixel) -> int {
    ((p.r as int) * (LUMA_R_WEIGHT as int) + (p.g as int) * (LUMA_G_WEIGHT as int)
        + (p.b as int) * (LUMA_B_WEIGHT as int)) / (LUMA_SCALE as int)
}

/// What the fragment stage writes for a sampled pixel: its luminance
/// replicated across RGB, with alpha forced to one.
pub open spec fn shaded(p: Pixel) -> Pixel {
    Pixel { r: luma_of(p) as u8, g: luma_of(p) as u8, b: luma_of(p) as u8, a: 255 }
}

/// Runs the fragment stage on one sampled pixel.
pub fn shade(p: Pixel) -> (q: Pixel)
    ensures
        q == shaded(p),
{
    let num: u32 = p.r as u32 * LUMA_R_WEIGHT + p.g as u32 * LUMA_G_WEIGHT
        + p.b as u32 * LUMA_B_WEIGHT;
    let l = (num / LUMA_SCALE) as u8;
    Pixel { r: l, g: l, b: l, a: 255 }
}

/// Which source texel the pass samples for the output position `(x, y)`:
/// nearest-neighbor sampling of a `src_w` by `src_h` texture at the UV of a
/// fixed-size output.
pub open spec fn sample_index(x: int, y: int, src_w: int, src_h: int) -> int {
    (y * src_h / (TARGET_HEIGHT as int)) * src_w + x * src_w / (TARGET_WIDTH as int)
}

/// Scaling an in-range coordinate stays in range: for `0 <= a < d` and
/// `0 < b`, the scaled coordinate `a * b / d` is below `b`.
pub proof fn lemma_scaled_coord_in_range(a: int, b: int, d: int)
    by (nonlinear_arith)
    requires
        0 <= a < d,
        0 < b,
    ensures
        0 <= a * b / d < b,
{
}

/// A row-major index built from in-range coordinates is in range.
pub proof fn lemma_sample_in_range(sx: int, sy: int, w: int, h: int)
    by (nonlinear_arith)
    requires
        0 <= sx < w,
        0 <= sy < h,
    ensures
        0 <= sy * w + sx < h * w,
{
}

/// The sampled index is within the source texture for any output position.
pub proof fn lemma_sample_index_in_range(x: int, y: int, src_w: int, src_h: int)
    requires
        0 <= x < TARGET_WIDTH as int,
        0 <= y < TARGET_HEIGHT as int,
        0 < src_w,
        0 < src_h,
    ensures
        0 <= sample_index(x, y, src_w, src_h) < src_w * src_h,
{
    lemma_scaled_coord_in_range(x, src_w, TARGET_WIDTH as int);
    lemma_scaled_coord_in_range(y, src_h, TARGET_HEIGHT as int);
    lemma_sample_in_range(x * src_w / (TARGET_WIDTH as int), y * src_h / (TARGET_HEIGHT as int), src_w, src_h);
    assert(src_h * src_w == src_w * src_h) by (nonlinear_arith);
}

/// Runs the whole derivation pass on source texel data: produces the
/// fixed-size output in row-major order, every output pixel the shaded
/// value of its nearest-neighbor sample of the source.
pub fn derive_texture(src: &Vec<Pixel>, src_w: u32, src_h: u32) -> (out: Vec<Pixel>)
    requires
        src_w > 0,
        src_h > 0,
        src@.len() == (src_w as int) * (src_h as int),
    ensures
        out@.len() == (TARGET_WIDTH as int) * (TARGET_HEIGHT as int),
        forall|k: int| 0 <= k < out@.len() ==> #[trigger] out@[k] == shaded(
            src@[sample_index(
                k % (TARGET_WIDTH as int),
                k / (TARGET_WIDTH as int),
                src_w as int,
                src_h as int,
            )],
        ),
{
    let n = src.len();
    let mut out: Vec<Pixel> = Vec::new();
    let mut k: usize = 0;
    while k < 262144
        invariant
            k <= 262144,
            out@.len() == k,
            src_w > 0,
            src_h > 0,
            src@.len() == (src_w as int) * (src_h as int),
            n == src@.len(),
            forall|t: int| 0 <= t < k ==> #[trigger] out@[t] == shaded(
                src@[sample_index(
                    t % (TARGET_WIDTH as int),
                    t / (TARGET_WIDTH as int),
                    src_w as int,
                    src_h as int,
                )],
            ),
        decreases 262144 - k,
    {
        let x = k % 512;
        let y = k / 512;
        proof {
            lemma_scaled_coord_in_range(x as int, src_w as int, TARGET_WIDTH as int);
            lemma_scaled_coord_in_range(y as int, src_h as int, TARGET_HEIGHT as int);
            lemma_sample_index_in_range(x as int, y as int, src_w as int, src_h as int);
        }
        let sx: u64 = x as u64 * src_w as u64 / 512;
        let sy: u64 = y as u64 * src_h as u64 / 512;
        proof {
            lemma_sample_in_range(sx as int, sy as int, src_w as int, src_h as int);
        }
        let idx: u64 = sy * src_w as u64 + sx;
        let p = src[idx as usize];
        out.push(shade(p));
        k = k + 1;
    }
    out
}

/// Law (uniform source): a derivation pass over a source whose texels are
/// all the one pixel `p` yields an output whose texels are all `shaded(p)`
/// — in particular, a fully red source yields a uniform grayscale output
/// at the value the weighting formula gives for red.
pub proof fn lemma_uniform_source(
    src: Seq<Pixel>,
    p: Pixel,
    out: Seq<Pixel>,
    src_w: int,
    src_h: int,
)
    requires
        0 < src_w,
        0 < src_h,
        src.len() == src_w * src_h,
        forall|i: int| 0 <= i < src.len() ==> #[trigger] src[i] == p,
        out.len() == (TARGET_WIDTH as int) * (TARGET_HEIGHT as int),
        forall|k: int| 0 <= k < out.len() ==> #[trigger] out[k] == shaded(
            src[sample_index(
                k % (TARGET_WIDTH as int),
                k / (TARGET_WIDTH as int),
                src_w,
                src_h,
            )],
        ),
    ensures
        forall|k: int| 0 <= k < out.len() ==> #[trigger] out[k] == shaded(p),
{
    assert forall|k: int| 0 <= k < out.len() implies #[trigger] out[k] == shaded(p) by {
        let x = k % (TARGET_WIDTH as int);
        let y = k / (TARGET_WIDTH as int);
        assert(0 <= x < TARGET_WIDTH as int);
        assert(0 <= y < TARGET_HEIGHT as int);
        lemma_sample_index_in_range(x, y, src_w, src_h);
    }
}

} // verus!
