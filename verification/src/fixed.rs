//! Fixed-point arithmetic base: all geometry in this crate is carried out on
//! `i64` values holding real numbers scaled by `SCALE` (so `SCALE` itself is
//! 1.0, `HALF` is 0.5). Division truncates toward zero, like Rust's `/`.

use vstd::prelude::*;

verus! {

/// Number of fixed-point units per 1.0.
pub const SCALE: i64 = 65536;

/// Fixed-point representation of 0.5.
pub const HALF: i64 = 32768;

/// Largest coordinate magnitude (in fixed-point units, so 128.0) accepted by
/// the geometric functions; keeps every intermediate product inside `i64`.
pub const MAX_COORD: i64 = 0x0080_0000;

/// Largest window dimension, in whole pixels, accepted by the mapper.
pub const MAX_DIM: i64 = 0x0010_0000;

/// Bound on the coordinates a vertex may hold before rotation (16.0); chosen
/// so that every rotated coordinate provably stays within `MAX_COORD`.
pub const VERTEX_BOUND: i64 = 0x0010_0000;

/// Bound on a normalized device coordinate that the mapper accepts; wide
/// enough for any point a perspective divide can produce on admissible input.
pub const NDC_LIMIT: i64 = 0x0400_0000_0000;

/// Division truncated toward zero, the semantics of Rust's `/` on `i64`.
/// (Spec-mode `/` on `int` is Euclidean, which differs on negative dividends.)
pub open spec fn tdiv(n: int, d: int) -> int {
    if n >= 0 {
        n / d
    } else {
        -((-n) / d)
    }
}

/// Exact division: `(a * d) / d == a` under truncation, for positive `d`.
pub proof fn lemma_tdiv_exact(a: int, d: int)
    requires
        d > 0,
    ensures
        tdiv(a * d, d) == a,
{
    if a >= 0 {
        assert(a * d >= 0) by (nonlinear_arith)
            requires
                a >= 0 && d > 0,
        ;
        assert(a * d == d * a) by (nonlinear_arith);
        vstd::arithmetic::div_mod::lemma_div_multiples_vanish(a, d);
    } else {
        assert(a * d < 0) by (nonlinear_arith)
            requires
                a < 0 && d > 0,
        ;
        assert(-(a * d) == d * (-a)) by (nonlinear_arith);
        vstd::arithmetic::div_mod::lemma_div_multiples_vanish(-a, d);
    }
}

/// A product of two values bounded in magnitude is bounded by the product of
/// the bounds.
pub proof fn lemma_mul_fits(a: int, b: int, ab: int, bb: int)
    requires
        -ab <= a <= ab,
        -bb <= b <= bb,
        0 <= ab,
        0 <= bb,
    ensures
        -(ab * bb) <= a * b <= ab * bb,
{
    assert(-(ab * bb) <= a * b <= ab * bb) by (nonlinear_arith)
        requires
            -ab <= a <= ab && -bb <= b <= bb && 0 <= ab && 0 <= bb,
    ;
}

/// Truncated division of a value bounded by `k * d` yields a quotient bounded
/// by `k`.
pub proof fn lemma_tdiv_bound(n: int, d: int, k: int)
    requires
        d > 0,
        0 <= k,
        -(k * d) <= n <= k * d,
    ensures
        -k <= tdiv(n, d) <= k,
{
    lemma_tdiv_exact(k, d);
    if n >= 0 {
        vstd::arithmetic::div_mod::lemma_div_is_ordered(n, k * d, d);
        assert(n / d >= 0) by {
            vstd::arithmetic::div_mod::lemma_div_pos_is_pos(n, d);
        }
    } else {
        vstd::arithmetic::div_mod::lemma_div_is_ordered(-n, k * d, d);
        assert((-n) / d >= 0) by {
            vstd::arithmetic::div_mod::lemma_div_pos_is_pos(-n, d);
        }
    }
}

/// Truncated division is monotone in a nonnegative numerator.
pub proof fn lemma_tdiv_ordered(n1: int, n2: int, d: int)
    requires
        d > 0,
        0 <= n1 <= n2,
    ensures
        0 <= tdiv(n1, d) <= tdiv(n2, d),
{
    vstd::arithmetic::div_mod::lemma_div_is_ordered(n1, n2, d);
    vstd::arithmetic::div_mod::lemma_div_pos_is_pos(n1, d);
}

/// Truncated division commutes with taking absolute values of the numerator.
pub proof fn lemma_tdiv_abs(n: int, d: int)
    requires
        d > 0,
    ensures
        vstd::math::abs(tdiv(n, d)) == tdiv(vstd::math::abs(n) as int, d),
{
    if n >= 0 {
        vstd::arithmetic::div_mod::lemma_div_pos_is_pos(n, d);
    } else {
        vstd::arithmetic::div_mod::lemma_div_pos_is_pos(-n, d);
    }
}

} // verus!
