//! The escape-time evaluator: how many iterations of `z <- z^2 + c` a point
//! survives before its squared magnitude exceeds 4, capped at a budget.

use vstd::prelude::*;
use crate::complex::{
    Complex, SCALE, Z_LIMIT, escaped, norm2, step_re, step_im, in_coord_range, escape_check, step,
};

verus! {

/// Escape time counted from an intermediate state z, with `fuel` iterations
/// of budget left: 0 once z has escaped or the budget is spent, otherwise
/// one more than the escape time of the next state.
pub open spec fn escape_from(zr: int, zi: int, cr: int, ci: int, fuel: nat) -> nat
    decreases fuel,
{
    if fuel == 0 {
        0
    } else if escaped(zr, zi) {
        0
    } else {
        1 + escape_from(step_re(zr, zi, cr), step_im(zr, zi, ci), cr, ci, (fuel - 1) as nat)
    }
}

/// The escape time of c with iteration budget `fuel`, starting from z = 0.
pub open spec fn escape_time_spec(cr: int, ci: int, fuel: nat) -> nat {
    escape_from(0, 0, cr, ci, fuel)
}

/// The escape time never exceeds the budget: with budget `MAX_ITERS - 1`
/// every value the evaluator can produce is a valid palette index.
pub proof fn lemma_escape_from_le_fuel(zr: int, zi: int, cr: int, ci: int, fuel: nat)
    ensures
        escape_from(zr, zi, cr, ci, fuel) <= fuel,
    decreases fuel,
{
    if fuel > 0 && !escaped(zr, zi) {
        lemma_escape_from_le_fuel(
            step_re(zr, zi, cr),
            step_im(zr, zi, ci),
            cr,
            ci,
            (fuel - 1) as nat,
        );
    }
}

/// Escape time of a point of the complex plane, in fixed point: iterate
/// `z <- z^2 + c` from z = 0, at most `max_iters` times, and return the
/// number of completed iterations as soon as `|z|^2 > 4`; return the whole
/// budget if z never escapes within it.
pub fn escape_time(c: Complex, max_iters: u32) -> (r: u32)
    requires
        in_coord_range(c),
    ensures
        r == escape_time_spec(c.re as int, c.im as int, max_iters as nat),
        r <= max_iters,
{
    let mut z = Complex { re: 0, im: 0 };
    let mut i: u32 = 0;
    while i < max_iters
        invariant
            i <= max_iters,
            -Z_LIMIT <= z.re <= Z_LIMIT,
            -Z_LIMIT <= z.im <= Z_LIMIT,
            in_coord_range(c),
            escape_time_spec(c.re as int, c.im as int, max_iters as nat) == i + escape_from(
                z.re as int,
                z.im as int,
                c.re as int,
                c.im as int,
                (max_iters - i) as nat,
            ),
        decreases max_iters - i,
    {
        if escape_check(z.re, z.im) {
            proof {
                assert(escape_from(
                    z.re as int,
                    z.im as int,
                    c.re as int,
                    c.im as int,
                    (max_iters - i) as nat,
                ) == 0);
            }
            return i;
        }
        z = step(z, c);
        i = i + 1;
    }
    proof {
        assert(escape_from(z.re as int, z.im as int, c.re as int, c.im as int, 0) == 0);
    }
    max_iters
}

/// A zero iteration budget yields escape time 0 for every point.
pub proof fn lemma_zero_budget(cr: int, ci: int)
    ensures
        escape_time_spec(cr, ci, 0) == 0,
{
}

/// The origin never escapes: z stays exactly 0 under `z <- z^2 + 0`, so its
/// escape time equals the whole budget.
pub proof fn lemma_origin_never_escapes(fuel: nat)
    ensures
        escape_time_spec(0, 0, fuel) == fuel,
    decreases fuel,
{
    if fuel > 0 {
        assert(!escaped(0, 0));
        assert(step_re(0, 0, 0) == 0);
        assert(step_im(0, 0, 0) == 0);
        lemma_origin_never_escapes((fuel - 1) as nat);
    }
}

/// A point with `|c| > 2` escapes at the first test of z = c: with any
/// budget of at least 1 its escape time is exactly 1, and so less than any
/// budget of at least 2.  (With budget exactly 1 the single allowed
/// iteration is the one that computes z = c, so the whole budget of 1 is
/// both the escape time and the cap.)
pub proof fn lemma_far_point_escapes_first(cr: int, ci: int, fuel: nat)
    requires
        norm2(cr, ci) > 4 * SCALE * SCALE,
        fuel >= 1,
    ensures
        escape_time_spec(cr, ci, fuel) == 1,
        fuel >= 2 ==> escape_time_spec(cr, ci, fuel) < fuel,
{
    assert(!escaped(0, 0));
    assert(step_re(0, 0, cr) == cr);
    assert(step_im(0, 0, ci) == ci);
    assert(escaped(cr, ci));
    assert(escape_from(cr, ci, cr, ci, (fuel - 1) as nat) == 0);
}

} // verus!
