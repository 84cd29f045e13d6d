//! Fixed-point scalar arithmetic: the number type of the whole pipeline.
//!
//! A scalar is an `i64` holding a real value scaled by `FX_ONE` (16 fractional
//! bits). Every operation saturates its result into the symmetric range
//! `[FX_MIN, FX_MAX]`, so all operations are total and negation is exact.
//! Division by zero saturates to the range bound of the numerator's sign (the
//! finite stand-in for an infinity) and `0 / 0` is `0`; degenerate geometry
//! therefore produces far-off-screen coordinates that the rasterizer's bounds
//! checks skip, rather than a panic.
use vstd::prelude::*;

verus! {

/// The fixed-point representation of 1: scalars carry 16 fractional bits.
pub const FX_ONE: i64 = 65536;

/// Upper saturation bound, `2^62`. Symmetric with `FX_MIN` so that
/// saturation commutes with negation.
pub const FX_MAX: i64 = 0x4000_0000_0000_0000;

/// Lower saturation bound, `-2^62`.
pub const FX_MIN: i64 = -0x4000_0000_0000_0000;

/// Truncating (round-toward-zero) division, the semantics of Rust's `/`:
/// the quotient of the magnitudes, negated when the signs differ.
pub open spec fn tdiv(a: int, b: int) -> int {
    if (a < 0) != (b < 0) {
        -((vstd::math::abs(a) as int) / (vstd::math::abs(b) as int))
    } else {
        (vstd::math::abs(a) as int) / (vstd::math::abs(b) as int)
    }
}

/// Truncating remainder, the semantics of Rust's `%`, written over the
/// Euclidean `%` of `int`.
pub open spec fn tmod(a: int, b: int) -> int {
    if a >= 0 {
        a % b
    } else {
        -((-a) % b)
    }
}

/// Clamp an unbounded integer into the scalar range.
pub open spec fn sat(v: int) -> int {
    if v > FX_MAX {
        FX_MAX as int
    } else if v < FX_MIN {
        FX_MIN as int
    } else {
        v
    }
}

/// Whether a scalar is inside the saturation range. Every operation's result
/// satisfies this.
pub open spec fn fx_in_range(a: i64) -> bool {
    FX_MIN <= a <= FX_MAX
}

/// Saturating sum.
pub open spec fn fx_add_s(a: i64, b: i64) -> i64 {
    sat(a + b) as i64
}

/// Saturating difference.
pub open spec fn fx_sub_s(a: i64, b: i64) -> i64 {
    sat(a - b) as i64
}

/// Saturating negation.
pub open spec fn fx_neg_s(a: i64) -> i64 {
    sat(-a) as i64
}

/// Saturating fixed-point product: the exact product carries 32 fractional
/// bits and is brought back to 16 by truncating division.
pub open spec fn fx_mul_s(a: i64, b: i64) -> i64 {
    sat(tdiv(a * b, FX_ONE as int)) as i64
}

/// Saturating fixed-point quotient. A zero divisor saturates to the range
/// bound of the numerator's sign; `0 / 0` is `0`.
pub open spec fn fx_div_s(a: i64, b: i64) -> i64 {
    if b == 0 {
        if a > 0 {
            FX_MAX
        } else if a < 0 {
            FX_MIN
        } else {
            0
        }
    } else {
        sat(tdiv(a * FX_ONE, b as int)) as i64
    }
}

/// Truncating division of a scalar by a plain integer count (used for
/// per-scanline interpolation steps).
pub open spec fn fx_idiv_s(a: i64, b: i64) -> i64 {
    if b == 0 {
        if a > 0 {
            FX_MAX
        } else if a < 0 {
            FX_MIN
        } else {
            0
        }
    } else {
        sat(tdiv(a as int, b as int)) as i64
    }
}

/// The integer part of a scalar, truncated toward zero (the pixel a
/// coordinate falls in).
pub open spec fn fx_trunc_s(a: i64) -> i64 {
    tdiv(a as int, FX_ONE as int) as i64
}

/// A plain integer as a scalar, saturated.
pub open spec fn fx_from_int_s(a: i64) -> i64 {
    sat(a * FX_ONE) as i64
}

/// Clamp `v` into `[lo, hi]`.
pub open spec fn clamp_s(v: i64, lo: i64, hi: i64) -> i64 {
    if v < lo {
        lo
    } else if v > hi {
        hi
    } else {
        v
    }
}

proof fn lemma_product_bound(a: int, b: int, m: int)
    by (nonlinear_arith)
    requires
        0 <= m,
        -m <= a <= m,
        -m <= b <= m,
    ensures
        -(m * m) <= a * b <= m * m,
{
}

fn tdiv_i128(p: i128, d: i128) -> (q: i128)
    requires
        d != 0,
        p != i128::MIN,
        d != i128::MIN,
    ensures
        q as int == tdiv(p as int, d as int),
{
    let pa: u128 = if p < 0 {
        (-p) as u128
    } else {
        p as u128
    };
    let da: u128 = if d < 0 {
        (-d) as u128
    } else {
        d as u128
    };
    let qm: u128 = pa / da;
    proof {
        vstd::arithmetic::div_mod::lemma_div_pos_is_pos(pa as int, da as int);
        vstd::arithmetic::div_mod::lemma_div_nonincreasing(pa as int, da as int);
    }
    let qi: i128 = qm as i128;
    if (p < 0) != (d < 0) {
        -qi
    } else {
        qi
    }
}

fn sat_i128(v: i128) -> (r: i64)
    ensures
        r as int == sat(v as int),
{
    if v > FX_MAX as i128 {
        FX_MAX
    } else if v < FX_MIN as i128 {
        FX_MIN
    } else {
        v as i64
    }
}

/// Saturating sum of two scalars.
pub fn fx_add(a: i64, b: i64) -> (r: i64)
    ensures
        r == fx_add_s(a, b),
{
    sat_i128(a as i128 + b as i128)
}

/// Saturating difference of two scalars.
pub fn fx_sub(a: i64, b: i64) -> (r: i64)
    ensures
        r == fx_sub_s(a, b),
{
    sat_i128(a as i128 - b as i128)
}

/// Saturating negation of a scalar.
pub fn fx_neg(a: i64) -> (r: i64)
    ensures
        r == fx_neg_s(a),
{
    sat_i128(-(a as i128))
}

/// Saturating fixed-point product.
pub fn fx_mul(a: i64, b: i64) -> (r: i64)
    ensures
        r == fx_mul_s(a, b),
{
    proof {
        lemma_product_bound(a as int, b as int, 0x8000_0000_0000_0000);
    }
    let p: i128 = (a as i128) * (b as i128);
    let q: i128 = tdiv_i128(p, FX_ONE as i128);
    sat_i128(q)
}

/// Saturating fixed-point quotient; a zero divisor yields the saturation
/// bound of the numerator's sign.
pub fn fx_div(a: i64, b: i64) -> (r: i64)
    ensures
        r == fx_div_s(a, b),
{
    if b == 0 {
        if a > 0 {
            FX_MAX
        } else if a < 0 {
            FX_MIN
        } else {
            0
        }
    } else {
        proof {
            lemma_product_bound(a as int, FX_ONE as int, 0x8000_0000_0000_0000);
        }
        let p: i128 = (a as i128) * (FX_ONE as i128);
        let q: i128 = tdiv_i128(p, b as i128);
        sat_i128(q)
    }
}

/// Truncating division of a scalar by a plain integer count.
pub fn fx_idiv(a: i64, b: i64) -> (r: i64)
    ensures
        r == fx_idiv_s(a, b),
{
    if b == 0 {
        if a > 0 {
            FX_MAX
        } else if a < 0 {
            FX_MIN
        } else {
            0
        }
    } else {
        let q: i128 = tdiv_i128(a as i128, b as i128);
        sat_i128(q)
    }
}

/// The integer part of a scalar, truncated toward zero. The result always
/// fits well inside `i64`: at most `2^47` in magnitude.
pub fn fx_trunc(a: i64) -> (r: i64)
    ensures
        r == fx_trunc_s(a),
        -0x8000_0000_0000 <= r <= 0x8000_0000_0000,
{
    let q: i128 = tdiv_i128(a as i128, FX_ONE as i128);
    proof {
        vstd::arithmetic::div_mod::lemma_div_pos_is_pos(
            vstd::math::abs(a as int) as int,
            FX_ONE as int,
        );
        vstd::arithmetic::div_mod::lemma_div_is_ordered(
            vstd::math::abs(a as int) as int,
            0x8000_0000_0000_0000,
            FX_ONE as int,
        );
    }
    q as i64
}

/// A plain integer as a scalar, saturated.
pub fn fx_from_int(a: i64) -> (r: i64)
    ensures
        r == fx_from_int_s(a),
{
    proof {
        lemma_product_bound(a as int, FX_ONE as int, 0x8000_0000_0000_0000);
    }
    sat_i128((a as i128) * (FX_ONE as i128))
}

/// Clamp a scalar into `[lo, hi]`.
pub fn fx_clamp(v: i64, lo: i64, hi: i64) -> (r: i64)
    ensures
        r == clamp_s(v, lo, hi),
{
    if v < lo {
        lo
    } else if v > hi {
        hi
    } else {
        v
    }
}

/// The integer square root of `n`: the greatest `r` with `r * r <= n`,
/// defined by counting up from zero.
pub open spec fn isqrt_spec(n: int) -> int
    decreases n,
{
    if n <= 0 {
        0
    } else {
        let p = isqrt_spec(n - 1);
        if (p + 1) * (p + 1) <= n {
            p + 1
        } else {
            p
        }
    }
}

pub proof fn lemma_isqrt_spec(n: int)
    requires
        0 <= n,
    ensures
        0 <= isqrt_spec(n),
        isqrt_spec(n) * isqrt_spec(n) <= n,
        n < (isqrt_spec(n) + 1) * (isqrt_spec(n) + 1),
    decreases n,
{
    if n > 0 {
        lemma_isqrt_spec(n - 1);
        let p = isqrt_spec(n - 1);
        assert(p * p <= n - 1 && n - 1 < (p + 1) * (p + 1));
        if (p + 1) * (p + 1) <= n {
            assert(isqrt_spec(n) == p + 1);
            assert((p + 1) * (p + 1) < (p + 2) * (p + 2)) by (nonlinear_arith)
                requires
                    p >= 0,
            ;
            assert(n < (p + 2) * (p + 2));
        } else {
            assert(isqrt_spec(n) == p);
        }
    }
}

proof fn lemma_isqrt_unique(n: int, r: int)
    by (nonlinear_arith)
    requires
        0 <= r,
        r * r <= n,
        n < (r + 1) * (r + 1),
        0 <= isqrt_spec(n),
        isqrt_spec(n) * isqrt_spec(n) <= n,
        n < (isqrt_spec(n) + 1) * (isqrt_spec(n) + 1),
    ensures
        r == isqrt_spec(n),
{
}

/// The integer square root is the unique value in its defining window.
pub proof fn lemma_isqrt_value(n: int, r: int)
    requires
        0 <= n,
        0 <= r,
        r * r <= n,
        n < (r + 1) * (r + 1),
    ensures
        isqrt_spec(n) == r,
{
    lemma_isqrt_spec(n);
    lemma_isqrt_unique(n, r);
}

fn isqrt_u128(n: u128) -> (r: u128)
    ensures
        r as int == isqrt_spec(n as int),
{
    let mut lo: u128 = 0;
    let mut hi: u128 = 0x1_0000_0000_0000_0000;
    proof {
        lemma_product_bound(hi as int, hi as int, 0x1_0000_0000_0000_0000);
    }
    while hi - lo > 1
        invariant
            lo < hi,
            hi <= 0x1_0000_0000_0000_0000,
            lo * lo <= n,
            (n as int) < (hi as int) * (hi as int),
        decreases hi - lo,
    {
        let mid: u128 = lo + (hi - lo) / 2;
        proof {
            lemma_product_bound(mid as int, mid as int, 0xFFFF_FFFF_FFFF_FFFF);
        }
        let sq: u128 = mid * mid;
        if sq <= n {
            lo = mid;
        } else {
            hi = mid;
        }
    }
    proof {
        lemma_isqrt_spec(n as int);
        lemma_isqrt_unique(n as int, lo as int);
    }
    lo
}

/// The fixed-point square root of a nonnegative scalar: since a scalar `d`
/// stands for `d / FX_ONE`, its root in the same representation is the
/// integer root of `d * FX_ONE`.
pub open spec fn fx_sqrt_s(d: i64) -> i64 {
    isqrt_spec(d * FX_ONE) as i64
}

/// Fixed-point square root of a nonnegative scalar.
pub fn fx_sqrt(d: i64) -> (r: i64)
    requires
        0 <= d,
    ensures
        r == fx_sqrt_s(d),
        0 <= r,
{
    proof {
        lemma_product_bound(d as int, FX_ONE as int, 0x8000_0000_0000_0000);
    }
    let n: u128 = (d as u128) * (FX_ONE as u128);
    let r: u128 = isqrt_u128(n);
    proof {
        lemma_isqrt_spec(n as int);
        lemma_root_bound(r as int, n as int, 0x100_0000_0000);
    }
    r as i64
}

proof fn lemma_root_bound(r: int, n: int, m: int)
    by (nonlinear_arith)
    requires
        0 <= r,
        r * r <= n,
        n < m * m,
        0 <= m,
    ensures
        r < m,
{
}

/// Pi in fixed point (truncated).
pub const FX_PI: i64 = 205887;

/// Two pi in fixed point (truncated).
pub const FX_TWO_PI: i64 = 411774;

/// Half pi in fixed point (truncated).
pub const FX_HALF_PI: i64 = 102943;

/// An angle reduced into `[0, FX_TWO_PI)`.
pub open spec fn reduce_angle_s(a: i64) -> i64 {
    let r = tmod(a as int, FX_TWO_PI as int);
    if r < 0 {
        (r + FX_TWO_PI) as i64
    } else {
        r as i64
    }
}

fn reduce_angle(a: i64) -> (r: i64)
    ensures
        r == reduce_angle_s(a),
        0 <= r < FX_TWO_PI,
{
    let m: i64 = a % FX_TWO_PI;
    if m < 0 {
        m + FX_TWO_PI
    } else {
        m
    }
}

/// Odd polynomial approximation of the sine on `[0, FX_HALF_PI]`:
/// `x - x^3/6 + x^5/120`, clamped into `[-FX_ONE, FX_ONE]`.
pub open spec fn sin_poly_s(x: i64) -> i64 {
    let x2 = fx_mul_s(x, x);
    let x3 = fx_mul_s(x2, x);
    let x5 = fx_mul_s(x3, x2);
    clamp_s(fx_add_s(fx_sub_s(x, fx_idiv_s(x3, 6)), fx_idiv_s(x5, 120)), (-FX_ONE) as i64, FX_ONE)
}

fn sin_poly(x: i64) -> (r: i64)
    ensures
        r == sin_poly_s(x),
{
    let x2: i64 = fx_mul(x, x);
    let x3: i64 = fx_mul(x2, x);
    let x5: i64 = fx_mul(x3, x2);
    fx_clamp(fx_add(fx_sub(x, fx_idiv(x3, 6)), fx_idiv(x5, 120)), -FX_ONE, FX_ONE)
}

/// The sine of a fixed-point angle in radians: quarter-wave symmetry over
/// the reduced angle, with `sin_poly_s` on the first quadrant.
pub open spec fn fx_sin_s(a: i64) -> i64 {
    let r = reduce_angle_s(a);
    if r < FX_HALF_PI {
        sin_poly_s(r)
    } else if r < FX_PI {
        sin_poly_s((FX_PI - r) as i64)
    } else if r < FX_PI + FX_HALF_PI {
        fx_neg_s(sin_poly_s((r - FX_PI) as i64))
    } else {
        fx_neg_s(sin_poly_s((FX_TWO_PI - r) as i64))
    }
}

/// The cosine, as the sine a quarter turn ahead.
pub open spec fn fx_cos_s(a: i64) -> i64 {
    fx_sin_s(fx_add_s(a, FX_HALF_PI))
}

/// Sine of a fixed-point angle in radians.
pub fn fx_sin(a: i64) -> (r: i64)
    ensures
        r == fx_sin_s(a),
{
    let red: i64 = reduce_angle(a);
    if red < FX_HALF_PI {
        sin_poly(red)
    } else if red < FX_PI {
        sin_poly(FX_PI - red)
    } else if red < FX_PI + FX_HALF_PI {
        fx_neg(sin_poly(red - FX_PI))
    } else {
        fx_neg(sin_poly(FX_TWO_PI - red))
    }
}

/// Cosine of a fixed-point angle in radians.
pub fn fx_cos(a: i64) -> (r: i64)
    ensures
        r == fx_cos_s(a),
{
    fx_sin(fx_add(a, FX_HALF_PI))
}


/// Truncating division is odd in its numerator (for a nonzero divisor).
pub proof fn lemma_tdiv_neg(a: int, b: int)
    requires
        b != 0,
    ensures
        tdiv(-a, b) == -tdiv(a, b),
{
    if a == 0 {
        vstd::arithmetic::div_mod::lemma_div_of0(vstd::math::abs(b) as int);
    }
}

/// Saturation is odd: the range is symmetric.
pub proof fn lemma_sat_neg(v: int)
    ensures
        sat(-v) == -sat(v),
{
}

/// The product is odd in its left factor (for factors inside the range,
/// where negation is exact).
pub proof fn lemma_fx_mul_neg_left(a: i64, b: i64)
    requires
        fx_in_range(a),
    ensures
        fx_mul_s(fx_neg_s(a), b) == fx_neg_s(fx_mul_s(a, b)),
{
    vstd::arithmetic::mul::lemma_mul_unary_negation(a as int, b as int);
    lemma_tdiv_neg(a * b, FX_ONE as int);
    lemma_sat_neg(tdiv(a * b, FX_ONE as int));
}

/// The product is symmetric in its factors.
pub proof fn lemma_fx_mul_comm(a: i64, b: i64)
    ensures
        fx_mul_s(a, b) == fx_mul_s(b, a),
{
    vstd::arithmetic::mul::lemma_mul_is_commutative(a as int, b as int);
}

/// Negating both factors changes nothing (for factors inside the range).
pub proof fn lemma_fx_mul_neg_neg(a: i64, b: i64)
    requires
        fx_in_range(a),
        fx_in_range(b),
    ensures
        fx_mul_s(fx_neg_s(a), fx_neg_s(b)) == fx_mul_s(a, b),
{
    vstd::arithmetic::mul::lemma_mul_cancels_negatives(a as int, b as int);
}

/// The quotient is odd in its numerator (for a numerator inside the range);
/// a zero divisor saturates symmetrically.
pub proof fn lemma_fx_div_neg_left(a: i64, b: i64)
    requires
        fx_in_range(a),
    ensures
        fx_div_s(fx_neg_s(a), b) == fx_neg_s(fx_div_s(a, b)),
{
    if b != 0 {
        lemma_tdiv_neg(a * FX_ONE, b as int);
        lemma_sat_neg(tdiv(a * FX_ONE, b as int));
    }
}

/// Multiplying by 1 is the identity inside the range.
pub proof fn lemma_fx_mul_one(a: i64)
    requires
        fx_in_range(a),
    ensures
        fx_mul_s(a, FX_ONE) == a,
        fx_mul_s(FX_ONE, a) == a,
{
    lemma_fx_mul_comm(a, FX_ONE);
    if a >= 0 {
        vstd::arithmetic::mul::lemma_mul_nonnegative(a as int, FX_ONE as int);
        vstd::arithmetic::mul::lemma_mul_is_commutative(a as int, FX_ONE as int);
        vstd::arithmetic::div_mod::lemma_div_multiples_vanish(a as int, FX_ONE as int);
    } else {
        vstd::arithmetic::mul::lemma_mul_unary_negation(a as int, FX_ONE as int);
        vstd::arithmetic::mul::lemma_mul_nonnegative(-a as int, FX_ONE as int);
        vstd::arithmetic::mul::lemma_mul_is_commutative(-a as int, FX_ONE as int);
        vstd::arithmetic::div_mod::lemma_div_multiples_vanish(-a as int, FX_ONE as int);
    }
}

/// Multiplying by 0 gives 0.
pub proof fn lemma_fx_mul_zero(a: i64)
    ensures
        fx_mul_s(a, 0) == 0,
        fx_mul_s(0, a) == 0,
{
    lemma_fx_mul_comm(a, 0);
    vstd::arithmetic::div_mod::lemma_div_of0(FX_ONE as int);
}

} // verus!
