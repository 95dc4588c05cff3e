//! Fixed-point arithmetic for the control pipeline.
//!
//! Every physical quantity (rates in rad/s, normalized sticks, PID gains)
//! is stored as an `i64` count of millionths of its engineering unit.
//! Multiplication and division rescale with truncating (round-toward-zero)
//! division, exactly as specified by [`tdiv`].

use vstd::prelude::*;

verus! {

use vstd::arithmetic::div_mod::{
    lemma_div_is_ordered,
    lemma_div_multiples_vanish,
    lemma_div_nonincreasing,
    lemma_div_pos_is_pos,
};

/// Fixed-point fraction units per engineering unit: values are millionths.
pub const SCALE: i64 = 1_000_000;

/// Largest dividend magnitude [`fx_div`] accepts.
pub const OP_LIMIT: i64 = 2_000_000_000_000;

/// Truncating division (round toward zero), the division the machine's
/// signed divide performs. Spec-level `/` on `int` is Euclidean, so the
/// negative case is spelled out through the magnitude.
pub open spec fn tdiv(a: int, b: int) -> int
    recommends
        b >= 1,
{
    if a >= 0 {
        a / b
    } else {
        -((-a) / b)
    }
}

/// Product of two fixed-point values, scaled back down to fixed point.
pub open spec fn fx_mul_spec(a: int, b: int) -> int {
    tdiv(a * b, SCALE as int)
}

/// Quotient of two fixed-point values, scaled up to stay in fixed point.
pub open spec fn fx_div_spec(a: int, b: int) -> int
    recommends
        b >= 1,
{
    tdiv(a * (SCALE as int), b)
}

/// `x` forced into the interval `[lo, hi]`.
pub open spec fn clamp_spec(x: int, lo: int, hi: int) -> int {
    if x < lo {
        lo
    } else if x > hi {
        hi
    } else {
        x
    }
}

/// Truncating division never grows the magnitude and keeps the sign.
pub proof fn lemma_tdiv_bounds(a: int, b: int)
    requires
        b >= 1,
    ensures
        a >= 0 ==> 0 <= tdiv(a, b) <= a,
        a < 0 ==> a <= tdiv(a, b) <= 0,
{
    if a >= 0 {
        lemma_div_nonincreasing(a, b);
        lemma_div_pos_is_pos(a, b);
    } else {
        lemma_div_nonincreasing(-a, b);
        lemma_div_pos_is_pos(-a, b);
    }
}

/// A bound on the dividend gives the matching bound on the quotient.
pub proof fn lemma_tdiv_range(a: int, b: int, m: int)
    requires
        b >= 1,
        0 <= m,
        -m <= a <= m,
    ensures
        -(m / b) <= tdiv(a, b) <= m / b,
        -m <= tdiv(a, b) <= m,
{
    lemma_div_pos_is_pos(m, b);
    lemma_div_nonincreasing(m, b);
    if a >= 0 {
        lemma_div_is_ordered(a, m, b);
        lemma_div_pos_is_pos(a, b);
    } else {
        lemma_div_is_ordered(-a, m, b);
        lemma_div_pos_is_pos(-a, b);
    }
}

/// A multiple of the divisor divides exactly.
pub proof fn lemma_tdiv_exact(k: int, b: int)
    requires
        b >= 1,
    ensures
        tdiv(k * b, b) == k,
{
    if k >= 0 {
        lemma_div_multiples_vanish(k, b);
        assert(k * b == b * k) by (nonlinear_arith);
    } else {
        lemma_div_multiples_vanish(-k, b);
        assert(-(k * b) == b * (-k)) by (nonlinear_arith);
    }
}

/// Scaling by a factor in `[0, 1]` (fixed point `[0, SCALE]`) keeps the
/// result between zero and the operand.
pub proof fn lemma_fx_mul_frac(alpha: int, x: int)
    requires
        0 <= alpha <= SCALE as int,
    ensures
        x >= 0 ==> 0 <= fx_mul_spec(alpha, x) <= x,
        x < 0 ==> x <= fx_mul_spec(alpha, x) <= 0,
{
    let s = SCALE as int;
    if x >= 0 {
        assert(0 <= alpha * x <= s * x) by (nonlinear_arith)
            requires
                0 <= alpha <= s,
                x >= 0,
        ;
        lemma_div_is_ordered(alpha * x, s * x, s);
        lemma_div_multiples_vanish(x, s);
        lemma_div_pos_is_pos(alpha * x, s);
    } else {
        let y = -x;
        assert(alpha * x == -(alpha * y)) by (nonlinear_arith)
            requires
                y == -x,
        ;
        assert(0 <= alpha * y <= s * y) by (nonlinear_arith)
            requires
                0 <= alpha <= s,
                y >= 0,
        ;
        lemma_div_is_ordered(alpha * y, s * y, s);
        lemma_div_multiples_vanish(y, s);
        lemma_div_pos_is_pos(alpha * y, s);
        if alpha * x >= 0 {
            lemma_div_pos_is_pos(alpha * x, s);
            lemma_div_nonincreasing(alpha * x, s);
        }
    }
}

/// Bounds on both factors carry to the product and the scaled product.
pub proof fn lemma_fx_mul_bound(a: int, b: int, ma: int, mb: int)
    requires
        0 <= ma,
        0 <= mb,
        -ma <= a <= ma,
        -mb <= b <= mb,
    ensures
        -(ma * mb) <= a * b <= ma * mb,
        -((ma * mb) / (SCALE as int)) <= fx_mul_spec(a, b) <= (ma * mb) / (SCALE as int),
{
    assert(-(ma * mb) <= a * b <= ma * mb) by (nonlinear_arith)
        requires
            0 <= ma,
            0 <= mb,
            -ma <= a <= ma,
            -mb <= b <= mb,
    ;
    assert(0 <= ma * mb) by (nonlinear_arith)
        requires
            0 <= ma,
            0 <= mb,
    ;
    lemma_tdiv_range(a * b, SCALE as int, ma * mb);
}

/// Truncating division of an `i128` by a positive divisor.
fn tdiv_i128(a: i128, b: i128) -> (r: i128)
    requires
        1 <= b,
        i128::MIN < a,
    ensures
        r == tdiv(a as int, b as int),
{
    if a >= 0 {
        let q: u128 = (a as u128) / (b as u128);
        proof {
            lemma_div_nonincreasing(a as int, b as int);
            lemma_div_pos_is_pos(a as int, b as int);
        }
        q as i128
    } else {
        let m: u128 = (-a) as u128;
        let q: u128 = m / (b as u128);
        proof {
            lemma_div_nonincreasing(m as int, b as int);
            lemma_div_pos_is_pos(m as int, b as int);
        }
        -(q as i128)
    }
}

/// Truncating division of an `i64` by a positive divisor.
pub fn tdiv_i64(a: i64, b: i64) -> (r: i64)
    requires
        1 <= b,
        i64::MIN < a,
    ensures
        r == tdiv(a as int, b as int),
        a >= 0 ==> 0 <= r <= a,
        a < 0 ==> a <= r <= 0,
{
    proof {
        lemma_tdiv_bounds(a as int, b as int);
    }
    if a >= 0 {
        let q: u64 = (a as u64) / (b as u64);
        proof {
            lemma_div_nonincreasing(a as int, b as int);
            lemma_div_pos_is_pos(a as int, b as int);
        }
        q as i64
    } else {
        let m: u64 = (-a) as u64;
        let q: u64 = m / (b as u64);
        proof {
            lemma_div_nonincreasing(m as int, b as int);
            lemma_div_pos_is_pos(m as int, b as int);
        }
        -(q as i64)
    }
}

/// Fixed-point multiply: `(a * b) / SCALE`, truncated toward zero.
pub fn fx_mul(a: i64, b: i64) -> (r: i64)
    requires
        -4_000_000_000_000_000_000_000_000 <= (a as int) * (b as int)
            <= 4_000_000_000_000_000_000_000_000,
    ensures
        r == fx_mul_spec(a as int, b as int),
        -4_000_000_000_000_000_000 <= r <= 4_000_000_000_000_000_000,
{
    let p: i128 = (a as i128) * (b as i128);
    let q: i128 = tdiv_i128(p, 1_000_000);
    proof {
        lemma_tdiv_range(p as int, 1_000_000, 4_000_000_000_000_000_000_000_000);
        assert(4_000_000_000_000_000_000_000_000int / 1_000_000int
            == 4_000_000_000_000_000_000int);
    }
    q as i64
}

/// Fixed-point divide: `(a * SCALE) / b`, truncated toward zero.
pub fn fx_div(a: i64, b: i64) -> (r: i64)
    requires
        -OP_LIMIT <= a <= OP_LIMIT,
        1 <= b,
    ensures
        r == fx_div_spec(a as int, b as int),
        -2_000_000_000_000_000_000 <= r <= 2_000_000_000_000_000_000,
{
    let p: i128 = (a as i128) * 1_000_000;
    let q: i128 = tdiv_i128(p, b as i128);
    proof {
        lemma_tdiv_range(p as int, b as int, 2_000_000_000_000_000_000);
    }
    q as i64
}

/// `x` forced into the interval `[lo, hi]`.
pub fn clamp_i64(x: i64, lo: i64, hi: i64) -> (r: i64)
    requires
        lo <= hi,
    ensures
        r == clamp_spec(x as int, lo as int, hi as int),
{
    if x < lo {
        lo
    } else if x > hi {
        hi
    } else {
        x
    }
}

} // verus!
