//! Images as the pipeline ships them: a raw byte buffer with its dimensions,
//! plus the integer planning for the center-crop and aspect-preserving resize
//! steps. The pixel interpolation itself is done by the shell that owns the
//! camera; the library decides every geometry and validates every buffer.

use vstd::arithmetic::mul::lemma_mul_upper_bound;
use vstd::prelude::*;

verus! {

/// The product of two values that each fit in 32 bits fits in 64 bits.
proof fn lemma_u32_mul_fits_u64(a: int, b: int)
    requires
        0 <= a <= u32::MAX,
        0 <= b <= u32::MAX,
    ensures
        0 <= a * b <= u64::MAX,
{
    lemma_mul_upper_bound(a, u32::MAX as int, b, u32::MAX as int);
    vstd::arithmetic::mul::lemma_mul_nonnegative(a, b);
}

/// An encoded image: raw pixel bytes together with the dimensions that
/// describe them. Immutable once built.
#[derive(Clone)]
pub struct Frame {
    pub width: u32,
    pub height: u32,
    pub channels: u32,
    pub data: Vec<u8>,
}

impl Frame {
    /// The shape invariant: the buffer holds exactly one byte per channel per
    /// pixel.
    pub open spec fn wf(self) -> bool {
        self.data@.len() == self.width * self.height * self.channels
    }

    /// Builds a frame from a pixel buffer, accepting it only when the buffer
    /// length matches the claimed dimensions exactly.
    pub fn encode(width: u32, height: u32, channels: u32, data: Vec<u8>) -> (r: Option<Frame>)
        ensures
            r is Some <==> data@.len() == width * height * channels,
            r matches Some(f) ==> f == (Frame { width, height, channels, data }),
            r matches Some(f) ==> f.wf(),
    {
        proof {
            lemma_u32_mul_fits_u64(width as int, height as int);
            lemma_mul_upper_bound(
                width as int * height as int,
                u64::MAX as int,
                channels as int,
                u32::MAX as int,
            );
            vstd::arithmetic::mul::lemma_mul_nonnegative(
                width as int * height as int,
                channels as int,
            );
        }
        let expected: u128 = (width as u128) * (height as u128) * (channels as u128);
        if (data.len() as u128) == expected {
            Some(Frame { width, height, channels, data })
        } else {
            None
        }
    }

    /// Width in pixels.
    pub fn width(&self) -> (r: u32)
        ensures
            r == self.width,
    {
        self.width
    }

    /// Height in pixels.
    pub fn height(&self) -> (r: u32)
        ensures
            r == self.height,
    {
        self.height
    }

    /// Number of pixel bytes.
    pub fn len(&self) -> (r: usize)
        ensures
            r == self.data@.len(),
    {
        self.data.len()
    }
}

/// The longer of the two sides of a `w` by `h` image.
pub open spec fn longer_side(w: int, h: int) -> int {
    if w >= h {
        w
    } else {
        h
    }
}

/// The side `side` after the whole image is scaled so that its longer side
/// `longer` becomes exactly `target`.
pub open spec fn scaled_side(side: int, target: int, longer: int) -> int
    recommends
        longer > 0,
{
    side * target / longer
}

/// Plans an aspect-preserving resize: scales `w` by `h` so that the longer
/// side becomes exactly `target`. When `target` already equals the longer
/// side, the dimensions come back unchanged.
pub fn resize_dims(w: u32, h: u32, target: u32) -> (r: (u32, u32))
    requires
        w >= 1,
        h >= 1,
        target >= 1,
    ensures
        r.0 == scaled_side(w as int, target as int, longer_side(w as int, h as int)),
        r.1 == scaled_side(h as int, target as int, longer_side(w as int, h as int)),
        longer_side(r.0 as int, r.1 as int) == target,
        target == longer_side(w as int, h as int) ==> r == (w, h),
        r.0 <= target && r.1 <= target,
{
    let longer: u32 = if w >= h { w } else { h };
    proof {
        lemma_u32_mul_fits_u64(w as int, target as int);
        lemma_u32_mul_fits_u64(h as int, target as int);
        lemma_scaled_side_bounds(w as int, h as int, target as int);
    }
    let sw64: u64 = (w as u64) * (target as u64) / (longer as u64);
    let sh64: u64 = (h as u64) * (target as u64) / (longer as u64);
    (sw64 as u32, sh64 as u32)
}

/// Facts behind the resize plan: the longer side lands exactly on the target,
/// the shorter never overshoots it, and a target equal to the longer side
/// leaves both dimensions alone.
pub proof fn lemma_scaled_side_bounds(w: int, h: int, target: int)
    requires
        w >= 1,
        h >= 1,
        target >= 1,
    ensures
        scaled_side(longer_side(w, h), target, longer_side(w, h)) == target,
        scaled_side(w, target, longer_side(w, h)) <= target,
        scaled_side(h, target, longer_side(w, h)) <= target,
        target == longer_side(w, h) ==> scaled_side(w, target, longer_side(w, h)) == w,
        target == longer_side(w, h) ==> scaled_side(h, target, longer_side(w, h)) == h,
{
    let longer = longer_side(w, h);
    assert(longer * target / longer == target) by (nonlinear_arith)
        requires
            longer >= 1,
            target >= 1,
    ;
    assert(w * target / longer <= target) by (nonlinear_arith)
        requires
            1 <= w <= longer,
            target >= 1,
    ;
    assert(h * target / longer <= target) by (nonlinear_arith)
        requires
            1 <= h <= longer,
            target >= 1,
    ;
    if target == longer {
        assert(w * longer / longer == w) by (nonlinear_arith)
            requires
                longer >= 1,
                w >= 1,
        ;
        assert(h * longer / longer == h) by (nonlinear_arith)
            requires
                longer >= 1,
                h >= 1,
        ;
    }
}

/// Plans a centered crop that keeps the fraction `num / den` of each side.
/// Returns `(x, y, cw, ch)`: the top-left corner and the size of the region.
pub fn crop_rect(w: u32, h: u32, num: u32, den: u32) -> (r: (u32, u32, u32, u32))
    requires
        1 <= num <= den,
    ensures
        r.2 == w * num / (den as int),
        r.3 == h * num / (den as int),
        r.0 == (w - r.2) / 2,
        r.1 == (h - r.3) / 2,
        r.0 + r.2 <= w,
        r.1 + r.3 <= h,
{
    proof {
        lemma_u32_mul_fits_u64(w as int, num as int);
        lemma_u32_mul_fits_u64(h as int, num as int);
        lemma_crop_within(w as int, h as int, num as int, den as int);
    }
    let cw64: u64 = (w as u64) * (num as u64) / (den as u64);
    let ch64: u64 = (h as u64) * (num as u64) / (den as u64);
    let cw: u32 = cw64 as u32;
    let ch: u32 = ch64 as u32;
    let x: u32 = (w - cw) / 2;
    let y: u32 = (h - ch) / 2;
    (x, y, cw, ch)
}

/// A crop that keeps a fraction of at most one of each side stays inside the
/// image, wherever it is centered.
pub proof fn lemma_crop_within(w: int, h: int, num: int, den: int)
    requires
        w >= 0,
        h >= 0,
        1 <= num <= den,
    ensures
        0 <= w * num / den <= w,
        0 <= h * num / den <= h,
        (w - w * num / den) / 2 + w * num / den <= w,
        (h - h * num / den) / 2 + h * num / den <= h,
{
    assert(0 <= w * num / den <= w) by (nonlinear_arith)
        requires
            w >= 0,
            1 <= num <= den,
    ;
    assert(0 <= h * num / den <= h) by (nonlinear_arith)
        requires
            h >= 0,
            1 <= num <= den,
    ;
}

/// A boolean occupancy mask as single-channel pixel bytes: hits become 255,
/// misses become 0.
pub open spec fn mask_bytes_of(mask: Seq<bool>) -> Seq<u8> {
    mask.map(|i: int, b: bool| if b { 255u8 } else { 0u8 })
}

/// Turns a boolean occupancy mask into displayable single-channel bytes.
pub fn mask_to_bytes(mask: &Vec<bool>) -> (r: Vec<u8>)
    ensures
        r@ == mask_bytes_of(mask@),
{
    let mut out: Vec<u8> = Vec::new();
    let n = mask.len();
    for i in 0..n
        invariant
            n == mask@.len(),
            out@ == mask_bytes_of(mask@.take(i as int)),
    {
        out.push(if mask[i] { 255 } else { 0 });
        proof {
            assert(out@ =~= mask_bytes_of(mask@.take(i + 1)));
        }
    }
    proof {
        assert(mask@.take(n as int) =~= mask@);
    }
    out
}

} // verus!
