//! Fixed-point screen coordinates and their remapping to device space.
//!
//! Screen-space positions and sizes are carried as fixed-point numbers with
//! [`UNIT`] steps per pixel. Device space runs from `-1.0` to `1.0` on each
//! axis, represented as fixed-point numbers with [`UNIT`] steps per unit, so
//! the visible device range is `[-UNIT, UNIT]`. The remap sends the top-left
//! pixel `(0, 0)` to device `(-1, 1)` and the bottom-right pixel `(w, h)` to
//! device `(1, -1)`: the vertical axis is flipped (screen grows downwards,
//! device space grows upwards).

use vstd::arithmetic::div_mod::{lemma_div_is_ordered, lemma_div_multiples_vanish};
use vstd::arithmetic::mul::lemma_mul_inequality;
use vstd::prelude::*;

verus! {

/// Fixed-point scale: this many steps stand for 1.0 (one pixel in screen
/// space, the full half-extent of an axis in device space).
pub const UNIT: i64 = 65536;

/// Division rounding toward zero for a positive divisor, as Rust's `/` on
/// signed integers rounds.
pub open spec fn div_trunc(a: int, b: int) -> int
    recommends
        b >= 1,
{
    if a >= 0 {
        a / b
    } else {
        -((-a) / b)
    }
}

/// Truncating division of an `i64` by a positive `i64`.
pub fn div_trunc_i64(a: i64, b: i64) -> (r: i64)
    requires
        1 <= b,
        i64::MIN < a,
    ensures
        r == div_trunc(a as int, b as int),
{
    if a >= 0 {
        let q: u64 = (a as u64) / (b as u64);
        proof {
            lemma_div_is_ordered(a as int, i64::MAX as int, b as int);
            lemma_div_is_ordered(0, a as int, b as int);
        }
        q as i64
    } else {
        let m: i64 = -a;
        let q: u64 = (m as u64) / (b as u64);
        proof {
            lemma_div_is_ordered(m as int, i64::MAX as int, b as int);
            lemma_div_is_ordered(0, m as int, b as int);
        }
        -(q as i64)
    }
}

/// Where a horizontal screen position `x` lands in device space, on a screen
/// `w` wide (both in fixed point): `(x - w/2) / (w/2)`, rewritten without the
/// halving as `(2*x - w) * UNIT / w`, rounded toward zero.
pub open spec fn remap_x_spec(x: int, w: int) -> int
    recommends
        w >= 1,
{
    div_trunc((2 * x - w) * (UNIT as int), w)
}

/// Where a vertical screen position `y` lands in device space, on a screen
/// `h` tall (both in fixed point): `(y - h/2) / -(h/2)`, rewritten as
/// `(h - 2*y) * UNIT / h`, rounded toward zero. The sign flip turns the
/// downward screen axis into the upward device axis.
pub open spec fn remap_y_spec(y: int, h: int) -> int
    recommends
        h >= 1,
{
    div_trunc((h - 2 * y) * (UNIT as int), h)
}

/// Remaps a horizontal screen position to device space.
pub fn remap_x(x: i32, w: i32) -> (r: i64)
    requires
        w >= 1,
    ensures
        r == remap_x_spec(x as int, w as int),
{
    let num: i64 = 2 * (x as i64) - (w as i64);
    div_trunc_i64(num * UNIT, w as i64)
}

/// Remaps a vertical screen position to device space.
pub fn remap_y(y: i32, h: i32) -> (r: i64)
    requires
        h >= 1,
    ensures
        r == remap_y_spec(y as int, h as int),
{
    let num: i64 = (h as i64) - 2 * (y as i64);
    div_trunc_i64(num * UNIT, h as i64)
}

/// The remap sends the screen corners to the device corners and the screen
/// midpoint to the device origin: `(0, 0)` to `(-1, 1)`, `(w, h)` to
/// `(1, -1)`, and `(w/2, h/2)` to `(0, 0)` when `w` and `h` are even.
pub proof fn lemma_remap_corners(w: int, h: int)
    requires
        w >= 1,
        h >= 1,
    ensures
        remap_x_spec(0, w) == -UNIT,
        remap_x_spec(w, w) == UNIT,
        remap_y_spec(0, h) == UNIT,
        remap_y_spec(h, h) == -UNIT,
        w % 2 == 0 ==> remap_x_spec(w / 2, w) == 0,
        h % 2 == 0 ==> remap_y_spec(h / 2, h) == 0,
{
    let u: int = UNIT as int;
    assert((2 * 0 - w) * u == -(w * u)) by (nonlinear_arith);
    assert((2 * w - w) * u == w * u) by (nonlinear_arith);
    assert((h - 2 * 0) * u == h * u) by (nonlinear_arith);
    assert((h - 2 * h) * u == -(h * u)) by (nonlinear_arith);
    assert(w * u == u * w) by (nonlinear_arith);
    assert(h * u == u * h) by (nonlinear_arith);
    lemma_div_multiples_vanish(u, w);
    lemma_div_multiples_vanish(u, h);
    if w % 2 == 0 {
        assert((2 * (w / 2) - w) * u == 0) by (nonlinear_arith)
            requires
                w % 2 == 0,
                w >= 1,
        ;
    }
    if h % 2 == 0 {
        assert((h - 2 * (h / 2)) * u == 0) by (nonlinear_arith)
            requires
                h % 2 == 0,
                h >= 1,
        ;
    }
}

/// A screen position inside `[0, w]` on an axis lands inside `[-1, 1]` in
/// device space.
pub proof fn lemma_remap_x_in_range(x: int, w: int)
    requires
        w >= 1,
        0 <= x <= w,
    ensures
        -UNIT <= remap_x_spec(x, w) <= UNIT,
{
    let u: int = UNIT as int;
    let n: int = (2 * x - w) * u;
    lemma_mul_inequality(2 * x - w, w, u);
    lemma_mul_inequality(-w, 2 * x - w, u);
    assert(w * u == u * w) by (nonlinear_arith);
    assert((-w) * u == -(u * w)) by (nonlinear_arith);
    lemma_div_multiples_vanish(u, w);
    if n >= 0 {
        lemma_div_is_ordered(n, u * w, w);
        lemma_div_is_ordered(0, n, w);
    } else {
        lemma_div_is_ordered(-n, u * w, w);
        lemma_div_is_ordered(0, -n, w);
    }
}

/// A screen position inside `[0, h]` on the vertical axis lands inside
/// `[-1, 1]` in device space.
pub proof fn lemma_remap_y_in_range(y: int, h: int)
    requires
        h >= 1,
        0 <= y <= h,
    ensures
        -UNIT <= remap_y_spec(y, h) <= UNIT,
{
    let u: int = UNIT as int;
    let n: int = (h - 2 * y) * u;
    lemma_mul_inequality(h - 2 * y, h, u);
    lemma_mul_inequality(-h, h - 2 * y, u);
    assert(h * u == u * h) by (nonlinear_arith);
    assert((-h) * u == -(u * h)) by (nonlinear_arith);
    lemma_div_multiples_vanish(u, h);
    if n >= 0 {
        lemma_div_is_ordered(n, u * h, h);
        lemma_div_is_ordered(0, n, h);
    } else {
        lemma_div_is_ordered(-n, u * h, h);
        lemma_div_is_ordered(0, -n, h);
    }
}

} // verus!
