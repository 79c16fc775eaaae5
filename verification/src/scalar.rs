//! Fixed-point scalars.
//!
//! A scalar is an `i64` counting steps of `1 / SCALE` of a unit.  Products
//! of two scalars carry a factor `SCALE` too many; `div_trunc` removes it.
//! Division rounds towards zero, as Rust's integer division does; `tdiv`
//! is the specification-level account of that rounding.

use vstd::prelude::*;
use vstd::arithmetic::div_mod::lemma_div_is_ordered;
use vstd::arithmetic::div_mod::lemma_div_multiples_vanish;
use vstd::arithmetic::div_mod::lemma_div_nonincreasing;
use vstd::arithmetic::div_mod::lemma_div_pos_is_pos;
use vstd::arithmetic::div_mod::lemma_fundamental_div_mod;
use vstd::arithmetic::div_mod::lemma_fundamental_div_mod_converse;
use vstd::arithmetic::div_mod::lemma_mod_division_less_than_divisor;

verus! {

/// Number of fixed-point steps in one unit: the value `1.0` is stored as
/// `SCALE`, the value `0.1` as `SCALE / 10`, and so on.
pub const SCALE: i64 = 1_000_000;

/// Largest coordinate magnitude the geometry kernel accepts, in fixed-point
/// steps (one million units).  Keeping coordinates within this range keeps
/// every intermediate product of the kernel inside `i64`.
pub const COORD_LIMIT: i64 = 1_000_000_000_000;

/// Largest magnitude accepted for a relative coordinate (a fraction of the
/// frame extent), in fixed-point steps: one thousand units, far beyond the
/// nominal `[0, 1]` range.  The product of a relative coordinate and an
/// absolute extent must fit in `i64`.
pub const REL_LIMIT: i64 = 1_000_000_000;

/// Largest magnitude accepted for an absolute pixel coordinate or a frame
/// extent, in fixed-point steps: eight thousand pixels.
pub const ABS_LIMIT: i64 = 8_000_000_000;

/// Largest magnitude the renderer accepts for a relative coordinate, in
/// fixed-point steps: 250 frame extents.  Scaling such a value to absolute
/// pixels keeps the result inside the rotation kernel's accepted range.
pub const REL_DRAW_LIMIT: i64 = 250_000_000;

/// Largest magnitude a cursor position can reach once mapped into a shape's
/// relative space: a rotated in-range pixel coordinate, scaled up by
/// `SCALE` and divided by a frame extent of at least one step.
pub const SHAPE_SPACE_LIMIT: i64 = 5 * ABS_LIMIT * SCALE;

/// Largest magnitude a screen position can reach once mapped through the
/// scene's view transform: an in-range position less an in-range
/// translation, divided by the smallest allowed scale.
pub const SCENE_SPACE_LIMIT: i64 = 200_000_000_000;

/// Integer division rounding towards zero (the rounding of Rust's `/` on
/// signed integers), defined from the Euclidean `/` on `int`.
pub open spec fn tdiv(n: int, d: int) -> int {
    if n >= 0 {
        n / d
    } else {
        -((-n) / d)
    }
}

/// Rounding towards zero loses less than one divisor: the quotient times the
/// divisor lands within `d - 1` of the dividend, never crossing zero.
pub proof fn lemma_tdiv_remainder(n: int, d: int)
    requires
        1 <= d,
    ensures
        n - (d - 1) <= tdiv(n, d) * d <= n + (d - 1),
        n >= 0 ==> tdiv(n, d) * d <= n,
        n < 0 ==> n <= tdiv(n, d) * d,
{
    if n >= 0 {
        let q = n / d;
        lemma_fundamental_div_mod(n, d);
        lemma_mod_division_less_than_divisor(n, d);
        assert(q * d == d * q) by (nonlinear_arith);
    } else {
        let q = (-n) / d;
        lemma_fundamental_div_mod(-n, d);
        lemma_mod_division_less_than_divisor(-n, d);
        assert((-q) * d == -(d * q)) by (nonlinear_arith);
    }
}

/// The magnitude of a quotient never exceeds the magnitude of the dividend.
pub proof fn lemma_tdiv_bounded(n: int, d: int, b: int)
    requires
        1 <= d,
        -b <= n <= b,
    ensures
        -b <= tdiv(n, d) <= b,
        n >= 0 ==> 0 <= tdiv(n, d) <= n,
        n < 0 ==> n <= tdiv(n, d) <= 0,
{
    if n >= 0 {
        lemma_div_pos_is_pos(n, d);
        lemma_div_nonincreasing(n, d);
    } else {
        lemma_div_pos_is_pos(-n, d);
        lemma_div_nonincreasing(-n, d);
    }
}

/// A bound on the dividend that is a multiple of the divisor bounds the
/// quotient by the factor.
pub proof fn lemma_tdiv_bounded_by(n: int, d: int, b: int)
    requires
        1 <= d,
        0 <= b,
        -(b * d) <= n <= b * d,
    ensures
        -b <= tdiv(n, d) <= b,
{
    lemma_tdiv_remainder(n, d);
    let q = tdiv(n, d);
    if q > b {
        assert(q * d >= (b + 1) * d) by (nonlinear_arith)
            requires
                q >= b + 1,
                d >= 1,
        ;
        assert((b + 1) * d == b * d + d) by (nonlinear_arith);
    }
    if q < -b {
        assert(q * d <= (-b - 1) * d) by (nonlinear_arith)
            requires
                q <= -b - 1,
                d >= 1,
        ;
        assert((-b - 1) * d == -(b * d) - d) by (nonlinear_arith);
    }
}

/// A bound on the dividend that is a multiple of the divisor bounds the
/// rounded-down quotient by the factor.
pub proof fn lemma_fdiv_bounded_by(n: int, d: int, b: int)
    requires
        1 <= d,
        0 <= b,
        -(b * d) <= n <= b * d,
    ensures
        -b <= n / d <= b,
{
    lemma_div_is_ordered(-(b * d), n, d);
    lemma_div_is_ordered(n, b * d, d);
    lemma_div_multiples_vanish(-b, d);
    lemma_div_multiples_vanish(b, d);
    assert(d * (-b) == -(b * d)) by (nonlinear_arith);
    assert(d * b == b * d) by (nonlinear_arith);
}

/// Dividing an exact multiple recovers the factor.
pub proof fn lemma_tdiv_exact(k: int, d: int)
    requires
        1 <= d,
    ensures
        tdiv(k * d, d) == k,
{
    if k >= 0 {
        lemma_div_multiples_vanish(k, d);
        assert(k * d == d * k) by (nonlinear_arith);
    } else {
        lemma_div_multiples_vanish(-k, d);
        assert(-(k * d) == d * -k) by (nonlinear_arith);
    }
}

/// Rounding towards zero and rounding down agree on a nonnegative dividend;
/// on a negative one they differ by one step exactly when the division is
/// inexact.
pub proof fn lemma_tdiv_vs_floor(n: int, d: int)
    requires
        1 <= d,
    ensures
        n >= 0 ==> n / d == tdiv(n, d),
        n < 0 && tdiv(n, d) * d == n ==> n / d == tdiv(n, d),
        n < 0 && tdiv(n, d) * d != n ==> n / d == tdiv(n, d) - 1,
{
    if n >= 0 {
    } else {
        let q = (-n) / d;
        lemma_fundamental_div_mod(-n, d);
        lemma_mod_division_less_than_divisor(-n, d);
        let r = (-n) % d;
        if r == 0 {
            assert(n == (-q) * d + 0) by (nonlinear_arith)
                requires
                    -n == d * q,
            ;
            lemma_fundamental_div_mod_converse(n, d, -q, 0);
            assert(tdiv(n, d) * d == (-q) * d);
        } else {
            assert(n == (-q - 1) * d + (d - r)) by (nonlinear_arith)
                requires
                    -n == d * q + r,
            ;
            lemma_fundamental_div_mod_converse(n, d, -q - 1, d - r);
            assert(tdiv(n, d) * d == (-q) * d);
            assert((-q) * d == -(d * q)) by (nonlinear_arith);
        }
    }
}

/// Division rounding down (the rounding of the Euclidean `/` on `int`).
/// Never panics: the divisor is positive and the dividend leaves room for
/// the one-step correction.
pub fn div_floor(n: i64, d: i64) -> (q: i64)
    requires
        1 <= d,
        i64::MIN + d <= n,
        n <= i64::MAX - d,
    ensures
        q == n as int / d as int,
        n >= 0 ==> 0 <= q <= n,
        n < 0 ==> n - 1 <= q <= 0,
{
    proof {
        lemma_tdiv_bounded(n as int, d as int, i64::MAX as int);
        lemma_tdiv_remainder(n as int, d as int);
        lemma_tdiv_vs_floor(n as int, d as int);
    }
    let q0 = div_trunc(n, d);
    if n < 0 && q0 * d != n {
        q0 - 1
    } else {
        q0
    }
}

/// Division rounding towards zero.  Never panics: the divisor is positive.
pub fn div_trunc(n: i64, d: i64) -> (q: i64)
    requires
        1 <= d,
    ensures
        q == tdiv(n as int, d as int),
{
    proof {
        lemma_tdiv_bounded(n as int, d as int, i64::MAX as int + 1);
    }
    n.checked_div(d).unwrap()
}

} // verus!
