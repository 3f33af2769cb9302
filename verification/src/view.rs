//! The viewport: the rectangle of the complex plane mapped linearly onto the
//! pixel surface, and the map from a pixel position to its coordinate.

use vstd::prelude::*;
use vstd::arithmetic::div_mod::{lemma_div_pos_is_pos, lemma_multiply_divide_lt};
use crate::complex::{Complex, COORD_LIMIT, SCALE, in_coord_range};

verus! {

/// The complex-plane rectangle shown on the surface, in fixed point.
/// Fixed for the life of the process: there is no zoom or pan.
#[derive(Clone, Copy, PartialEq, Eq, Structural, Debug)]
pub struct Viewport {
    pub x_min: i64,
    pub x_max: i64,
    pub y_min: i64,
    pub y_max: i64,
}

/// A viewport is valid when each axis runs upward and stays within the
/// coordinate range of the evaluator.
pub open spec fn viewport_valid(v: Viewport) -> bool {
    &&& -COORD_LIMIT <= v.x_min < v.x_max <= COORD_LIMIT
    &&& -COORD_LIMIT <= v.y_min < v.y_max <= COORD_LIMIT
}

/// The standard viewport of the renderer: real and imaginary parts both
/// over [-2, 2].
pub fn standard_viewport() -> (v: Viewport)
    ensures
        v.x_min == -2 * SCALE,
        v.x_max == 2 * SCALE,
        v.y_min == -2 * SCALE,
        v.y_max == 2 * SCALE,
        viewport_valid(v),
{
    Viewport { x_min: -2 * SCALE, x_max: 2 * SCALE, y_min: -2 * SCALE, y_max: 2 * SCALE }
}

/// The coordinate of pixel index p on an axis running from `lo` to `hi`
/// over `extent` pixels: `lo + p * (hi - lo) / extent`.
pub open spec fn axis_coord(p: int, lo: int, hi: int, extent: int) -> int {
    lo + p * (hi - lo) / extent
}

/// Maps a pixel index to its axis coordinate.  The result always lies in
/// `[lo, hi)`, so a valid viewport yields coordinates the evaluator accepts.
pub fn map_axis(p: u32, lo: i64, hi: i64, extent: u32) -> (r: i64)
    requires
        p < extent,
        -COORD_LIMIT <= lo < hi <= COORD_LIMIT,
    ensures
        r == axis_coord(p as int, lo as int, hi as int, extent as int),
        lo <= r < hi,
{
    let d: i64 = hi - lo;
    proof {
        assert((p as int) * (d as int) < (extent as int) * (d as int)) by (nonlinear_arith)
            requires 0 <= p < extent && 0 < d;
        assert((p as int) * (d as int) <= u128::MAX) by (nonlinear_arith)
            requires 0 <= p < 0x1_0000_0000 && 0 < d <= 2 * COORD_LIMIT && COORD_LIMIT == 68719476736;
    }
    let num: u128 = (p as u128) * (d as u128);
    let q: u128 = num / (extent as u128);
    proof {
        lemma_div_pos_is_pos(num as int, extent as int);
        lemma_multiply_divide_lt(num as int, extent as int, d as int);
        assert((extent as int) * (d as int) == (d as int) * (extent as int)) by (nonlinear_arith);
    }
    let q64: i64 = q as i64;
    lo + q64
}

/// The complex coordinate of pixel (x, y) on a `width` by `height` surface:
/// each axis is mapped linearly, with pixel (0, 0) at the top-left corner
/// `(x_min, y_min)`.
pub fn pixel_to_complex(x: u32, y: u32, v: &Viewport, width: u32, height: u32) -> (c: Complex)
    requires
        x < width,
        y < height,
        viewport_valid(*v),
    ensures
        c.re == axis_coord(x as int, v.x_min as int, v.x_max as int, width as int),
        c.im == axis_coord(y as int, v.y_min as int, v.y_max as int, height as int),
        in_coord_range(c),
{
    let re = map_axis(x, v.x_min, v.x_max, width);
    let im = map_axis(y, v.y_min, v.y_max, height);
    Complex { re, im }
}

} // verus!
