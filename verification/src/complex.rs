//! Fixed-point complex coordinates and the arithmetic of one escape-time
//! iteration.
//!
//! A coordinate holds the real number `v / SCALE` in a signed 64-bit integer
//! `v`, with 32 fractional bits.  Squared magnitudes are compared exactly at
//! double precision, so the escape test `|z|^2 > 4` involves no rounding at
//! all; only the scaling back of products in `z^2 + c` truncates, toward
//! zero, by one fixed-point unit at most.

use vstd::prelude::*;
use vstd::arithmetic::div_mod::lemma_div_is_ordered;

verus! {

/// Fixed-point scale: 2^32.  A stored value `v` stands for `v / SCALE`.
pub const SCALE: i64 = 4294967296;

/// Largest magnitude accepted for an input coordinate: 16 in fixed point.
/// The viewport of the renderer stays well inside it.
pub const COORD_LIMIT: i64 = 68719476736;

/// Magnitude bound kept by the escape iteration for the components of z:
/// 20 in fixed point.  A component of `z^2 + c` is at most `4 + 16` in
/// magnitude when `|z|^2 <= 4` and `c` is within `COORD_LIMIT`.
pub const Z_LIMIT: i64 = 85899345920;

/// The escape threshold `4`, at double (two scalings) precision.
pub const ESCAPE_THRESHOLD: u128 = 73786976294838206464;

/// A point of the complex plane in fixed-point form.
#[derive(Clone, Copy, PartialEq, Eq, Structural, Debug)]
pub struct Complex {
    pub re: i64,
    pub im: i64,
}

/// Both components of `c` are within the coordinate range of the evaluator.
pub open spec fn in_coord_range(c: Complex) -> bool {
    &&& -COORD_LIMIT <= c.re <= COORD_LIMIT
    &&& -COORD_LIMIT <= c.im <= COORD_LIMIT
}

/// Magnitude of an integer.
pub open spec fn iabs(a: int) -> int {
    if a < 0 {
        -a
    } else {
        a
    }
}

/// Squared magnitude of z, at double precision: no scaling back, no rounding.
pub open spec fn norm2(re: int, im: int) -> int {
    re * re + im * im
}

/// The escape test: `|z|^2 > 4`, compared exactly at double precision.
pub open spec fn escaped(re: int, im: int) -> bool {
    norm2(re, im) > 4 * SCALE * SCALE
}

/// A square scaled back to single precision: `(a * a) / SCALE`, truncated.
/// The dividend is never negative, so Euclidean and truncating division
/// agree.
pub open spec fn sq_scaled(a: int) -> int {
    (a * a) / (SCALE as int)
}

/// Twice the product of `a` and `b`, scaled back to single precision with
/// truncation toward zero: the division is done on the magnitudes and the
/// sign is put back afterwards.
pub open spec fn cross_scaled(a: int, b: int) -> int {
    let p = (2 * iabs(a) * iabs(b)) / (SCALE as int);
    if (a < 0) == (b < 0) {
        p
    } else {
        -p
    }
}

/// Real part of `z^2 + c` in fixed point.
pub open spec fn step_re(zr: int, zi: int, cr: int) -> int {
    sq_scaled(zr) - sq_scaled(zi) + cr
}

/// Imaginary part of `z^2 + c` in fixed point.
pub open spec fn step_im(zr: int, zi: int, ci: int) -> int {
    cross_scaled(zr, zi) + ci
}

/// Magnitude of a bounded component, as an unsigned value.
fn abs_mag(a: i64) -> (r: u64)
    requires
        -Z_LIMIT <= a <= Z_LIMIT,
    ensures
        r == iabs(a as int),
{
    if a < 0 {
        (-a) as u64
    } else {
        a as u64
    }
}

/// `(a * a) / SCALE`, computed exactly in 128 bits and truncated back.
fn sq_div(a: i64) -> (r: i64)
    requires
        -Z_LIMIT <= a <= Z_LIMIT,
    ensures
        r == sq_scaled(a as int),
        0 <= r,
        a * a <= 4 * SCALE * SCALE ==> r <= 4 * SCALE,
{
    let m = abs_mag(a);
    proof {
        assert((m as int) * (m as int) == (a as int) * (a as int)) by (nonlinear_arith)
            requires m == iabs(a as int);
        assert((m as int) * (m as int) <= (Z_LIMIT as int) * (Z_LIMIT as int))
            by (nonlinear_arith)
            requires 0 <= m <= Z_LIMIT;
    }
    let sq: u128 = (m as u128) * (m as u128);
    let q: u128 = sq / (SCALE as u128);
    proof {
        lemma_div_is_ordered(sq as int, Z_LIMIT * Z_LIMIT, SCALE as int);
        if a * a <= 4 * SCALE * SCALE {
            lemma_div_is_ordered(sq as int, 4 * SCALE * SCALE, SCALE as int);
        }
    }
    q as i64
}

/// `(2 * a * b) / SCALE` with truncation toward zero, computed on the
/// magnitudes in 128 bits.
fn cross_div(a: i64, b: i64) -> (r: i64)
    requires
        -Z_LIMIT <= a <= Z_LIMIT,
        -Z_LIMIT <= b <= Z_LIMIT,
    ensures
        r == cross_scaled(a as int, b as int),
        2 * iabs(a as int) * iabs(b as int) <= 4 * SCALE * SCALE ==> -4 * SCALE <= r <= 4 * SCALE,
{
    let neg = (a < 0) != (b < 0);
    let ma = abs_mag(a);
    let mb = abs_mag(b);
    proof {
        assert(2 * (ma as int) * (mb as int) <= 2 * (Z_LIMIT as int) * (Z_LIMIT as int))
            by (nonlinear_arith)
            requires 0 <= ma <= Z_LIMIT && 0 <= mb <= Z_LIMIT;
    }
    let p2: u128 = 2 * (ma as u128) * (mb as u128);
    let q: u128 = p2 / (SCALE as u128);
    proof {
        lemma_div_is_ordered(p2 as int, 2 * Z_LIMIT * Z_LIMIT, SCALE as int);
        if 2 * iabs(a as int) * iabs(b as int) <= 4 * SCALE * SCALE {
            lemma_div_is_ordered(p2 as int, 4 * SCALE * SCALE, SCALE as int);
        }
        vstd::arithmetic::div_mod::lemma_div_pos_is_pos(p2 as int, SCALE as int);
    }
    let q64: i64 = q as i64;
    if neg {
        -q64
    } else {
        q64
    }
}

/// Whether z has escaped: `|z|^2 > 4`, computed exactly in 128 bits.
pub fn escape_check(zr: i64, zi: i64) -> (r: bool)
    requires
        -Z_LIMIT <= zr <= Z_LIMIT,
        -Z_LIMIT <= zi <= Z_LIMIT,
    ensures
        r == escaped(zr as int, zi as int),
{
    let ma = abs_mag(zr);
    let mb = abs_mag(zi);
    proof {
        assert((ma as int) * (ma as int) == (zr as int) * (zr as int)
            && (mb as int) * (mb as int) == (zi as int) * (zi as int))
            by (nonlinear_arith)
            requires ma == iabs(zr as int) && mb == iabs(zi as int);
        assert((ma as int) * (ma as int) <= (Z_LIMIT as int) * (Z_LIMIT as int)
            && (mb as int) * (mb as int) <= (Z_LIMIT as int) * (Z_LIMIT as int))
            by (nonlinear_arith)
            requires 0 <= ma <= Z_LIMIT && 0 <= mb <= Z_LIMIT;
    }
    let n: u128 = (ma as u128) * (ma as u128) + (mb as u128) * (mb as u128);
    n > ESCAPE_THRESHOLD
}

/// One escape-time iteration, `z^2 + c`, on a z that has not escaped and a
/// c within the coordinate range.  The result stays within `Z_LIMIT`.
pub fn step(z: Complex, c: Complex) -> (w: Complex)
    requires
        norm2(z.re as int, z.im as int) <= 4 * SCALE * SCALE,
        in_coord_range(c),
    ensures
        w.re == step_re(z.re as int, z.im as int, c.re as int),
        w.im == step_im(z.re as int, z.im as int, c.im as int),
        -Z_LIMIT <= w.re <= Z_LIMIT,
        -Z_LIMIT <= w.im <= Z_LIMIT,
{
    proof {
        assert(-2 * SCALE <= z.re <= 2 * SCALE && -2 * SCALE <= z.im <= 2 * SCALE
            && z.re * z.re <= 4 * SCALE * SCALE && z.im * z.im <= 4 * SCALE * SCALE
            && 2 * iabs(z.re as int) * iabs(z.im as int) <= 4 * SCALE * SCALE)
            by (nonlinear_arith)
            requires
                z.re * z.re + z.im * z.im <= 4 * SCALE * SCALE,
                SCALE == 4294967296;
    }
    let t1 = sq_div(z.re);
    let t2 = sq_div(z.im);
    let u = cross_div(z.re, z.im);
    Complex { re: t1 - t2 + c.re, im: u + c.im }
}

} // verus!
