use mandelbrot::complex::{Complex, SCALE};
use mandelbrot::escape::escape_time;

#[test]
fn origin_never_escapes() {
    let origin = Complex { re: 0, im: 0 };
    for budget in [0u32, 1, 2, 17, 255, 256, 1000] {
        assert_eq!(escape_time(origin, budget), budget);
    }
}

#[test]
fn zero_budget_returns_zero() {
    for c in [
        Complex { re: 0, im: 0 },
        Complex { re: SCALE, im: -SCALE },
        Complex { re: 10 * SCALE, im: 10 * SCALE },
        Complex { re: -2 * SCALE, im: 2 * SCALE },
    ] {
        assert_eq!(escape_time(c, 0), 0);
    }
}

#[test]
fn far_point_escapes_on_first_test() {
    // |c| > 2: z = c escapes as soon as it is tested, after one iteration.
    let far = Complex { re: 3 * SCALE, im: 0 };
    for budget in [2u32, 3, 10, 255] {
        assert_eq!(escape_time(far, budget), 1);
    }
    let far2 = Complex { re: -2 * SCALE, im: 2 * SCALE };
    assert_eq!(escape_time(far2, 255), 1);
}

#[test]
fn far_point_with_budget_one_spends_it() {
    // The single allowed iteration completes before z = c is ever tested,
    // so the whole budget of 1 comes back even for a far point.
    let far = Complex { re: 3 * SCALE, im: 0 };
    assert_eq!(escape_time(far, 1), 1);
}

#[test]
fn threshold_is_strict() {
    // c = 2 + 0i sits exactly on |c| = 2: z = c passes the strict test,
    // and only z = c^2 + c = 6 escapes, after two iterations.
    let edge = Complex { re: 2 * SCALE, im: 0 };
    assert_eq!(escape_time(edge, 255), 2);
}

#[test]
fn inner_point_spends_whole_budget() {
    // c = -1 + 0i cycles 0, -1, 0, -1, ... and never escapes.
    let inner = Complex { re: -SCALE, im: 0 };
    assert_eq!(escape_time(inner, 255), 255);
    assert_eq!(escape_time(inner, 1000), 1000);
}

#[test]
fn result_never_exceeds_budget() {
    for c in [
        Complex { re: 0, im: 0 },
        Complex { re: SCALE / 4, im: SCALE / 2 },
        Complex { re: 5 * SCALE, im: -5 * SCALE },
    ] {
        for budget in [0u32, 1, 7, 255] {
            assert!(escape_time(c, budget) <= budget);
        }
    }
}
