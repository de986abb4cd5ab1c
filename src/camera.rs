use vstd::prelude::*;

verus! {

/// Width of the low-resolution canvas, in pixels.
pub const RES_WIDTH: u32 = 320;

/// Height of the low-resolution canvas, in pixels.
pub const RES_HEIGHT: u32 = 180;

/// `k` is the integer nearest to `n / d`, halves rounding up.
pub open spec fn is_nearest(k: int, n: int, d: int) -> bool {
    (2 * k - 1) * d <= 2 * n && 2 * n < (2 * k + 1) * d
}

/// For a positive denominator there is at most one nearest integer, so
/// `is_nearest` fixes a result.
pub proof fn lemma_nearest_unique(j: int, k: int, n: int, d: int)
    requires
        d > 0,
        is_nearest(j, n, d),
        is_nearest(k, n, d),
    ensures
        j == k,
{
    assert((2 * j - 1) * d < (2 * k + 1) * d);
    assert((2 * k - 1) * d < (2 * j + 1) * d);
    assert(2 * j - 1 < 2 * k + 1) by (nonlinear_arith)
        requires
            d > 0,
            (2 * j - 1) * d < (2 * k + 1) * d,
    {
    }
    assert(2 * k - 1 < 2 * j + 1) by (nonlinear_arith)
        requires
            d > 0,
            (2 * k - 1) * d < (2 * j + 1) * d,
    {
    }
}

/// The smaller of two integers.
pub open spec fn min_int(a: int, b: int) -> int {
    if a <= b { a } else { b }
}

/// Scale factor (a whole multiple) at which the canvas fits a window of
/// `width` by `height` logical pixels; the outer camera's projection scale
/// is its reciprocal.
///
/// The factor is the smaller of the ratios `width / RES_WIDTH` and
/// `height / RES_HEIGHT`, rounded to the nearest integer (halves up); over
/// the common denominator `RES_WIDTH * RES_HEIGHT` those ratios have the
/// numerators `width * RES_HEIGHT` and `height * RES_WIDTH`.  A window under
/// half the canvas in either direction gives 0.
pub fn fit_canvas(width: u32, height: u32) -> (scale: u32)
    ensures
        is_nearest(
            scale as int,
            min_int(width as int * RES_HEIGHT as int, height as int * RES_WIDTH as int),
            RES_WIDTH as int * RES_HEIGHT as int,
        ),
{
    let w: u64 = width as u64;
    let h: u64 = height as u64;
    let a: u64 = (2 * w + RES_WIDTH as u64) / (2 * RES_WIDTH as u64);
    let b: u64 = (2 * h + RES_HEIGHT as u64) / (2 * RES_HEIGHT as u64);
    proof {
        let wi = w as int;
        let hi = h as int;
        let ai = a as int;
        let bi = b as int;
        assert(640 * ai <= 2 * wi + 320 && 2 * wi + 320 < 640 * ai + 640);
        assert(360 * bi <= 2 * hi + 180 && 2 * hi + 180 < 360 * bi + 360);
        assert(ai <= bi ==> is_nearest(ai, min_int(wi * 180, hi * 320), 57600)) by (nonlinear_arith)
            requires
                640 * ai <= 2 * wi + 320,
                2 * wi + 320 < 640 * ai + 640,
                360 * bi <= 2 * hi + 180,
                2 * hi + 180 < 360 * bi + 360,
        {
        }
        assert(bi <= ai ==> is_nearest(bi, min_int(wi * 180, hi * 320), 57600)) by (nonlinear_arith)
            requires
                640 * ai <= 2 * wi + 320,
                2 * wi + 320 < 640 * ai + 640,
                360 * bi <= 2 * hi + 180,
                2 * hi + 180 < 360 * bi + 360,
        {
        }
    }
    if a <= b {
        a as u32
    } else {
        b as u32
    }
}

} // verus!
