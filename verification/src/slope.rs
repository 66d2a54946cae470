//! Exact evaluation of the sign of the expected-growth derivative.
//!
//! For parameters `p`, `k` and a stake bound `b`, the objective's derivative
//! at stake `x` is
//!
//! ```text
//! h = k - p - p*k
//! m = b + h*x
//! slope = -(b^2 + (k-1)*b*x - k*x^2) * h + ((k-1)*b - 2*k*x) * m
//! ```
//!
//! Writing the stake as a fraction of the bound, `x = b*t`, the whole
//! expression factors as `slope = b^2 * g(t)` with
//! `g(t) = -(1 + (k-1)t - k t^2) * h + ((k-1) - 2kt) * (1 + h t)`,
//! so for `b != 0` the sign of the slope at `x = b*t` is the sign of `g(t)`.
//! The library evaluates `g` exactly at the dyadic grid points `t = i/GRID`
//! with rational `p` and `k`: clearing the (positive) denominators
//! `k.den * GRID^2 * p.den * k.den` leaves the integer `slope_num` below,
//! which carries the sign of the true slope and fits in an `i128`.

use vstd::prelude::*;

use crate::frac::Frac;

verus! {

/// Number of grid cells the interval `[0, b]` is divided into: `2^32`.
///
/// A bisection bracket is a pair of grid indices in `[0, GRID]`; it can be
/// halved exactly 32 times before it closes to a single cell.
pub const GRID: u64 = 0x1_0000_0000;

/// Base-2 logarithm of `GRID`: the number of exact halvings of `[0, GRID]`.
pub const GRID_LOG: u64 = 32;

/// Numerator of the edge term `h = k - p - p*k` over the denominator
/// `p.den * k.den`.
pub open spec fn h_num(p: Frac, k: Frac) -> int {
    k.num * p.den - p.num * k.den - p.num * k.num
}

/// Denominator of the edge term `h`: positive for well-formed fractions.
pub open spec fn h_den(p: Frac, k: Frac) -> int {
    p.den * k.den
}

/// The quadratic factor `1 + (k-1)t - k t^2` at `t = i/GRID`, scaled by the
/// positive denominator `k.den * GRID^2`.
pub open spec fn quad_num(k: Frac, i: int) -> int {
    k.den * (GRID as int) * (GRID as int) + (k.num - k.den) * i * (GRID as int) - k.num * i * i
}

/// The linear factor `(k-1) - 2kt` at `t = i/GRID`, scaled by the positive
/// denominator `k.den * GRID`.
pub open spec fn lin_num(k: Frac, i: int) -> int {
    (k.num - k.den) * (GRID as int) - 2 * k.num * i
}

/// The auxiliary term `1 + h*t` at `t = i/GRID`, scaled by the positive
/// denominator `h_den * GRID`.
pub open spec fn m_num(p: Frac, k: Frac, i: int) -> int {
    h_den(p, k) * (GRID as int) + h_num(p, k) * i
}

/// Integer whose sign is the sign of the slope at stake `x = b * i / GRID`
/// for any bound `b != 0`: the slope there equals
/// `b^2 * slope_num / (k.den * GRID^2 * h_den)`, a positive denominator.
pub open spec fn slope_num(p: Frac, k: Frac, i: int) -> int {
    lin_num(k, i) * m_num(p, k, i) - quad_num(k, i) * h_num(p, k)
}

/// Numerator of the quadratic term `b^2 + (k-1)*b*x - k*x^2` of the slope
/// formula at the rational stake `x = xn/xd`, over the positive denominator
/// `b.den^2 * k.den * xd^2`.
pub open spec fn quad_frac_num(b: Frac, k: Frac, xn: int, xd: int) -> int {
    b.num * b.num * k.den * xd * xd + (k.num - k.den) * b.num * xn * b.den * xd - k.num * xn * xn
        * b.den * b.den
}

/// Numerator of the linear term `(k-1)*b - 2*k*x` at `x = xn/xd`, over the
/// positive denominator `k.den * b.den * xd`.
pub open spec fn lin_frac_num(b: Frac, k: Frac, xn: int, xd: int) -> int {
    (k.num - k.den) * b.num * xd - 2 * k.num * xn * b.den
}

/// Numerator of the auxiliary term `m = b + h*x` at `x = xn/xd`, over the
/// positive denominator `b.den * h_den * xd`.
pub open spec fn m_frac_num(b: Frac, p: Frac, k: Frac, xn: int, xd: int) -> int {
    b.num * h_den(p, k) * xd + h_num(p, k) * xn * b.den
}

/// Numerator of the full slope `-(b^2 + (k-1)*b*x - k*x^2)*h
/// + ((k-1)*b - 2*k*x)*m` at `x = xn/xd`, over the positive denominator
/// `b.den^2 * k.den^2 * p.den * xd^2`.
pub open spec fn slope_frac_num(b: Frac, p: Frac, k: Frac, xn: int, xd: int) -> int {
    lin_frac_num(b, k, xn, xd) * m_frac_num(b, p, k, xn, xd) - quad_frac_num(b, k, xn, xd) * h_num(
        p,
        k,
    )
}

/// The grid evaluator agrees with the full formula: at the grid point
/// `x = b * i / GRID` (numerator `b.num * i`, denominator `b.den * GRID`)
/// the formula's numerator is exactly `b.num^2 * b.den^2` times `slope_num`.
/// Since those denominators are positive and `b.num^2 > 0` for `b != 0`,
/// the sign of `slope_num` is the sign of the slope at `b * i / GRID`.
pub proof fn lemma_slope_factors(b: Frac, p: Frac, k: Frac, i: int)
    ensures
        slope_frac_num(b, p, k, b.num * i, b.den * (GRID as int)) == b.num * b.num * (b.den
            * b.den) * slope_num(p, k, i),
{
    let bn = b.num as int;
    let bd = b.den as int;
    let kn = k.num as int;
    let kd = k.den as int;
    let g = GRID as int;
    let hn = h_num(p, k);
    let hd = h_den(p, k);
    let xn = bn * i;
    let xd = bd * g;
    let e = bn * bd;
    let sq = bn * bn * (bd * bd);

    // Quadratic term: each monomial picks up the factor bn^2 * bd^2.
    assert(bn * bn * kd * xd * xd == sq * (kd * g * g)) by (nonlinear_arith)
        requires
            xd == bd * g,
            sq == bn * bn * (bd * bd),
    ;
    assert((kn - kd) * bn * xn * bd * xd == sq * ((kn - kd) * i * g)) by (nonlinear_arith)
        requires
            xn == bn * i,
            xd == bd * g,
            sq == bn * bn * (bd * bd),
    ;
    assert(kn * xn * xn * bd * bd == sq * (kn * i * i)) by (nonlinear_arith)
        requires
            xn == bn * i,
            sq == bn * bn * (bd * bd),
    ;
    assert(sq * (kd * g * g) + sq * ((kn - kd) * i * g) - sq * (kn * i * i) == sq * (kd * g * g + (
    kn - kd) * i * g - kn * i * i)) by (nonlinear_arith);
    assert(quad_frac_num(b, k, xn, xd) == sq * quad_num(k, i));

    // Linear term: factor bn * bd.
    assert((kn - kd) * bn * xd == e * ((kn - kd) * g)) by (nonlinear_arith)
        requires
            xd == bd * g,
            e == bn * bd,
    ;
    assert(2 * kn * xn * bd == e * (2 * kn * i)) by (nonlinear_arith)
        requires
            xn == bn * i,
            e == bn * bd,
    ;
    assert(e * ((kn - kd) * g) - e * (2 * kn * i) == e * ((kn - kd) * g - 2 * kn * i))
        by (nonlinear_arith);
    assert(lin_frac_num(b, k, xn, xd) == e * lin_num(k, i));

    // Auxiliary term: factor bn * bd.
    assert(bn * hd * xd == e * (hd * g)) by (nonlinear_arith)
        requires
            xd == bd * g,
            e == bn * bd,
    ;
    assert(hn * xn * bd == e * (hn * i)) by (nonlinear_arith)
        requires
            xn == bn * i,
            e == bn * bd,
    ;
    assert(e * (hd * g) + e * (hn * i) == e * (hd * g + hn * i)) by (nonlinear_arith);
    assert(m_frac_num(b, p, k, xn, xd) == e * m_num(p, k, i));

    // Whole slope: the two factors of bn * bd combine to bn^2 * bd^2.
    let ln = lin_num(k, i);
    let mn = m_num(p, k, i);
    let qn = quad_num(k, i);
    assert((e * ln) * (e * mn) == sq * (ln * mn)) by (nonlinear_arith)
        requires
            sq == bn * bn * (bd * bd),
            e == bn * bd,
    ;
    assert((sq * qn) * hn == sq * (qn * hn)) by (nonlinear_arith);
    assert(sq * (ln * mn) - sq * (qn * hn) == sq * (ln * mn - qn * hn)) by (nonlinear_arith);
    assert(slope_frac_num(b, p, k, xn, xd) == sq * slope_num(p, k, i));
}

/// For any nonzero bound, the full formula's numerator at the grid point
/// `b * i / GRID` and the grid evaluator `slope_num` have the same sign —
/// so every decision the search takes on `slope_num` is the decision the
/// formula itself dictates.
pub proof fn lemma_slope_sign_agrees(b: Frac, p: Frac, k: Frac, i: int)
    requires
        b.wf(),
        b.num != 0,
    ensures
        slope_frac_num(b, p, k, b.num * i, b.den * (GRID as int)) > 0 <==> slope_num(p, k, i) > 0,
        slope_frac_num(b, p, k, b.num * i, b.den * (GRID as int)) == 0 <==> slope_num(p, k, i)
            == 0,
        slope_frac_num(b, p, k, b.num * i, b.den * (GRID as int)) < 0 <==> slope_num(p, k, i) < 0,
{
    lemma_slope_factors(b, p, k, i);
    let c = b.num * b.num * (b.den * b.den);
    assert(c > 0) by (nonlinear_arith)
        requires
            b.num != 0,
            b.den >= 1,
            c == b.num * b.num * (b.den * b.den),
    ;
    let s = slope_num(p, k, i);
    assert((c * s > 0 <==> s > 0) && (c * s == 0 <==> s == 0) && (c * s < 0 <==> s < 0))
        by (nonlinear_arith)
        requires
            c > 0,
    ;
}

/// `|x| <= a` and `|y| <= b` bound the product: `|x * y| <= a * b`.
pub proof fn lemma_mul_bound(x: int, y: int, a: int, b: int)
    by (nonlinear_arith)
    requires
        -a <= x <= a,
        -b <= y <= b,
        0 <= a,
        0 <= b,
    ensures
        -(a * b) <= x * y <= a * b,
{
}

/// Evaluate `slope_num` exactly.
///
/// The result is the slope of the growth objective at stake `b * i / GRID`,
/// multiplied by the positive quantity `k.den * GRID^2 * h_den / b^2`
/// (for any `b != 0`), so its sign is the sign of the slope itself.
pub fn slope(p: Frac, k: Frac, i: u64) -> (s: i128)
    requires
        p.wf(),
        k.wf(),
        i <= GRID,
    ensures
        s == slope_num(p, k, i as int),
{
    let pn = p.num as i128;
    let pd = p.den as i128;
    let kn = k.num as i128;
    let kd = k.den as i128;
    let t = i as i128;
    let g = GRID as i128;

    proof {
        lemma_mul_bound(kn as int, pd as int, 65536, 65536);
        lemma_mul_bound(pn as int, kd as int, 65536, 65536);
        lemma_mul_bound(pn as int, kn as int, 65536, 65536);
        lemma_mul_bound(pd as int, kd as int, 65536, 65536);
    }
    let hn = kn * pd - pn * kd - pn * kn;
    let hd = pd * kd;

    proof {
        lemma_mul_bound((kn - kd) as int, t as int, 131072, 0x1_0000_0000);
    }
    let qa = (kn - kd) * t;
    proof {
        lemma_mul_bound(kn as int, t as int, 65536, 0x1_0000_0000);
    }
    let qb = kn * t;
    proof {
        lemma_mul_bound(kd as int, g as int, 65536, 0x1_0000_0000);
        lemma_mul_bound((kd * g) as int, g as int, 0x1_0000_0000_0000, 0x1_0000_0000);
        lemma_mul_bound(qa as int, g as int, 0x2_0000_0000_0000, 0x1_0000_0000);
        lemma_mul_bound(qb as int, t as int, 0x1_0000_0000_0000, 0x1_0000_0000);
    }
    let quad = kd * g * g + qa * g - qb * t;

    proof {
        lemma_mul_bound((kn - kd) as int, g as int, 131072, 0x1_0000_0000);
        lemma_mul_bound((2 * kn) as int, t as int, 131072, 0x1_0000_0000);
    }
    let lin = (kn - kd) * g - 2 * kn * t;

    proof {
        lemma_mul_bound(hd as int, g as int, 0x1_0000_0000, 0x1_0000_0000);
        lemma_mul_bound(hn as int, t as int, 0x3_0000_0000, 0x1_0000_0000);
    }
    let m = hd * g + hn * t;

    proof {
        lemma_mul_bound(quad as int, hn as int, 0x4_0000_0000_0000_0000_0000, 0x3_0000_0000);
        lemma_mul_bound(lin as int, m as int, 0x4_0000_0000_0000, 0x4_0000_0000_0000_0000);
    }
    lin * m - quad * hn
}

/// At the fair-odds point the edge vanishes (`h_num == 0`) and the slope
/// collapses to the linear factor alone: `slope` at `x = b*i/GRID` is then
/// `((k-1)b - 2kx) * b`, independent of `h`. In scaled form:
pub proof fn lemma_fair_odds_slope(p: Frac, k: Frac, i: int)
    requires
        h_num(p, k) == 0,
    ensures
        slope_num(p, k, i) == lin_num(k, i) * h_den(p, k) * (GRID as int),
{
    assert(h_num(p, k) * i == 0) by (nonlinear_arith)
        requires
            h_num(p, k) == 0,
    ;
    assert(quad_num(k, i) * h_num(p, k) == 0) by (nonlinear_arith)
        requires
            h_num(p, k) == 0,
    ;
    assert(m_num(p, k, i) == h_den(p, k) * (GRID as int));
    assert(lin_num(k, i) * (h_den(p, k) * (GRID as int)) == lin_num(k, i) * h_den(p, k) * (
    GRID as int)) by (nonlinear_arith);
}

} // verus!
