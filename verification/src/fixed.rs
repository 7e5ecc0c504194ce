//! Fixed-point scalar arithmetic for the physics core.
//!
//! Physical quantities (positions, velocities, forces) are integers counted
//! in thousandths of a world unit, and dimensionless factors (damping,
//! inverse mass) are integers counted in thousandths of one.  Scaling a
//! quantity by a factor multiplies the two and divides by `SCALE`,
//! truncating toward zero.

use vstd::prelude::*;

verus! {

/// Number of fixed-point parts in one unit.
pub const SCALE: i64 = 1000;

/// Truncating division of a raw product by `SCALE`, rounding toward zero.
pub open spec fn scale_down(p: int) -> int {
    if p >= 0 {
        p / 1000
    } else {
        -((-p) / 1000)
    }
}

/// `v` scaled by the thousandths factor `f`, truncated toward zero.
pub open spec fn mul_milli(v: int, f: int) -> int {
    scale_down(v * f)
}

/// Clamping `v` into the closed interval `[lo, hi]`.
pub open spec fn clamp_spec(v: int, lo: int, hi: int) -> int {
    if v < lo {
        lo
    } else if v > hi {
        hi
    } else {
        v
    }
}

pub fn clamp_i64(v: i64, lo: i64, hi: i64) -> (r: i64)
    requires
        lo <= hi,
    ensures
        r == clamp_spec(v as int, lo as int, hi as int),
{
    if v < lo {
        lo
    } else if v > hi {
        hi
    } else {
        v
    }
}

/// Scaling by a factor of at most one never grows the magnitude.
pub proof fn lemma_mul_milli_bounded(v: int, f: int)
    requires
        0 <= f <= 1000,
    ensures
        v >= 0 ==> 0 <= mul_milli(v, f) <= v,
        v < 0 ==> v <= mul_milli(v, f) <= 0,
{
    if v >= 0 {
        assert(0 <= v * f <= v * 1000) by (nonlinear_arith)
            requires
                v >= 0 && 0 <= f <= 1000,
        ;
        assert(0 <= (v * f) / 1000 <= (v * 1000) / 1000) by {
            vstd::arithmetic::div_mod::lemma_div_is_ordered(0, v * f, 1000);
            vstd::arithmetic::div_mod::lemma_div_is_ordered(v * f, v * 1000, 1000);
        }
        assert((v * 1000) / 1000 == v) by (nonlinear_arith);
    } else {
        let m = -v;
        assert(-(v * f) == m * f) by (nonlinear_arith)
            requires
                m == -v,
        ;
        assert(0 <= m * f <= m * 1000) by (nonlinear_arith)
            requires
                m > 0 && 0 <= f <= 1000,
        ;
        assert(0 <= (m * f) / 1000 <= (m * 1000) / 1000) by {
            vstd::arithmetic::div_mod::lemma_div_is_ordered(0, m * f, 1000);
            vstd::arithmetic::div_mod::lemma_div_is_ordered(m * f, m * 1000, 1000);
        }
        assert((m * 1000) / 1000 == m) by (nonlinear_arith);
    }
}

/// Largest magnitude accepted by `scale_by_milli`; keeps the raw product
/// within 128 bits and the result within 64.
pub const FIXED_MAX: i64 = 4_000_000_000_000_000_000;

/// Largest magnitude of a simulated quantity (a position, velocity or
/// force component) accepted by the integrator.
pub const SIM_MAX: i64 = 1_000_000_000_000;

/// Largest dimensionless thousandths factor (an inverse mass).
pub const FACTOR_MAX: i64 = 1_000_000;

pub fn scale_by_milli(v: i64, f: i64) -> (r: i64)
    requires
        0 <= f <= 1000,
        -FIXED_MAX <= v <= FIXED_MAX,
    ensures
        r == mul_milli(v as int, f as int),
        v >= 0 ==> 0 <= r <= v,
        v < 0 ==> v <= r <= 0,
{
    proof {
        lemma_mul_milli_bounded(v as int, f as int);
    }
    if v >= 0 {
        let p: u128 = (v as u128) * (f as u128);
        let q: u128 = p / 1000;
        assert(q == (v * f) / 1000);
        q as i64
    } else {
        let m: i64 = -v;
        assert(m * f <= 4_000_000_000_000_000_000 * 1000) by (nonlinear_arith)
            requires
                0 < m <= 4_000_000_000_000_000_000 && 0 <= f <= 1000,
        ;
        let p: u128 = (m as u128) * (f as u128);
        let q: u128 = p / 1000;
        assert(q == (m * f) / 1000);
        assert(-(v * f) == m * f) by (nonlinear_arith)
            requires
                m == -v,
        ;
        -(q as i64)
    }
}

/// Scaling down keeps order against a bound.
pub proof fn lemma_scale_down_ordered(v: int, b: int)
    requires
        0 <= b,
        -b <= v <= b,
    ensures
        -(b / 1000) <= scale_down(v) <= b / 1000,
{
    if v >= 0 {
        vstd::arithmetic::div_mod::lemma_div_is_ordered(v, b, 1000);
        vstd::arithmetic::div_mod::lemma_div_pos_is_pos(v, 1000);
    } else {
        vstd::arithmetic::div_mod::lemma_div_is_ordered(-v, b, 1000);
        vstd::arithmetic::div_mod::lemma_div_pos_is_pos(-v, 1000);
    }
    vstd::arithmetic::div_mod::lemma_div_pos_is_pos(b, 1000);
}

/// Truncating division by `SCALE`, rounding toward zero.
pub fn div_scale(v: i64) -> (r: i64)
    requires
        -FIXED_MAX <= v <= FIXED_MAX,
    ensures
        r == scale_down(v as int),
        v >= 0 ==> 0 <= r <= v,
        v < 0 ==> v <= r <= 0,
{
    if v >= 0 {
        let q: u64 = (v as u64) / 1000;
        proof {
            vstd::arithmetic::div_mod::lemma_div_nonincreasing(v as int, 1000);
            vstd::arithmetic::div_mod::lemma_div_pos_is_pos(v as int, 1000);
        }
        q as i64
    } else {
        let m: i64 = -v;
        let q: u64 = (m as u64) / 1000;
        proof {
            vstd::arithmetic::div_mod::lemma_div_nonincreasing(m as int, 1000);
            vstd::arithmetic::div_mod::lemma_div_pos_is_pos(m as int, 1000);
        }
        -(q as i64)
    }
}

/// Scaling a simulated quantity by an inverse-mass factor keeps it within
/// a thousand times the quantity bound.
pub proof fn lemma_mul_factor_bounded(v: int, f: int)
    requires
        0 <= f <= 1_000_000,
        -1_000_000_000_000 <= v <= 1_000_000_000_000,
    ensures
        v >= 0 ==> 0 <= mul_milli(v, f) <= 1_000_000_000_000_000,
        v < 0 ==> -1_000_000_000_000_000 <= mul_milli(v, f) <= 0,
{
    if v >= 0 {
        assert(0 <= v * f <= 1_000_000_000_000 * 1_000_000) by (nonlinear_arith)
            requires
                0 <= v <= 1_000_000_000_000 && 0 <= f <= 1_000_000,
        ;
        assert(0 <= (v * f) / 1000 <= 1_000_000_000_000_000_000int / 1000) by {
            vstd::arithmetic::div_mod::lemma_div_is_ordered(0, v * f, 1000);
            vstd::arithmetic::div_mod::lemma_div_is_ordered(v * f, 1_000_000_000_000_000_000int, 1000);
        }
    } else {
        let m = -v;
        assert(-(v * f) == m * f) by (nonlinear_arith)
            requires
                m == -v,
        ;
        assert(0 <= m * f <= 1_000_000_000_000 * 1_000_000) by (nonlinear_arith)
            requires
                0 < m <= 1_000_000_000_000 && 0 <= f <= 1_000_000,
        ;
        assert(0 <= (m * f) / 1000 <= 1_000_000_000_000_000_000int / 1000) by {
            vstd::arithmetic::div_mod::lemma_div_is_ordered(0, m * f, 1000);
            vstd::arithmetic::div_mod::lemma_div_is_ordered(m * f, 1_000_000_000_000_000_000int, 1000);
        }
    }
}

/// `v` scaled by the thousandths factor `f`, for factors up to
/// [`FACTOR_MAX`] and quantities up to [`SIM_MAX`].
pub fn scale_by_factor(v: i64, f: i64) -> (r: i64)
    requires
        0 <= f <= FACTOR_MAX,
        -SIM_MAX <= v <= SIM_MAX,
    ensures
        r == mul_milli(v as int, f as int),
        -1_000_000_000_000_000 <= r <= 1_000_000_000_000_000,
{
    proof {
        lemma_mul_factor_bounded(v as int, f as int);
    }
    if v >= 0 {
        let p: u128 = (v as u128) * (f as u128);
        let q: u128 = p / 1000;
        assert(q == (v * f) / 1000);
        q as i64
    } else {
        let m: i64 = -v;
        assert(m * f <= 1_000_000_000_000 * 1_000_000) by (nonlinear_arith)
            requires
                0 < m <= 1_000_000_000_000 && 0 <= f <= 1_000_000,
        ;
        let p: u128 = (m as u128) * (f as u128);
        let q: u128 = p / 1000;
        assert(q == (m * f) / 1000);
        assert(-(v * f) == m * f) by (nonlinear_arith)
            requires
                m == -v,
        ;
        -(q as i64)
    }
}

/// The damping factor for `n` steps: the thousandths factor `d` raised to
/// the `n`th power, truncated toward zero after each multiplication.
pub open spec fn damp_pow(d: int, n: nat) -> int
    decreases n,
{
    if n == 0 {
        1000
    } else {
        damp_pow(d, (n - 1) as nat) * d / 1000
    }
}

pub proof fn lemma_damp_pow_bounded(d: int, n: nat)
    requires
        0 <= d <= 1000,
    ensures
        0 <= damp_pow(d, n) <= 1000,
    decreases n,
{
    if n > 0 {
        lemma_damp_pow_bounded(d, (n - 1) as nat);
        let p = damp_pow(d, (n - 1) as nat);
        assert(0 <= p * d <= 1000 * 1000) by (nonlinear_arith)
            requires
                0 <= p <= 1000 && 0 <= d <= 1000,
        ;
        assert(0 <= (p * d) / 1000 <= 1000) by {
            vstd::arithmetic::div_mod::lemma_div_is_ordered(0, p * d, 1000);
            vstd::arithmetic::div_mod::lemma_div_is_ordered(p * d, 1000int * 1000, 1000);
        }
    }
}

pub fn damp_factor(d: i64, n: u32) -> (r: i64)
    requires
        0 <= d <= 1000,
    ensures
        r == damp_pow(d as int, n as nat),
        0 <= r <= 1000,
{
    let mut f: i64 = 1000;
    let mut i: u32 = 0;
    while i < n
        invariant
            0 <= d <= 1000,
            i <= n,
            f == damp_pow(d as int, i as nat),
            0 <= f <= 1000,
        decreases n - i,
    {
        assert(f * d <= 1000 * 1000) by (nonlinear_arith)
            requires
                0 <= f <= 1000 && 0 <= d <= 1000,
        ;
        let p: u64 = (f as u64) * (d as u64);
        let q: u64 = p / 1000;
        proof {
            lemma_damp_pow_bounded(d as int, (i + 1) as nat);
        }
        f = q as i64;
        i = i + 1;
    }
    f
}

} // verus!
