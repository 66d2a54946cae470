//! Bisection search for the zero crossing of the slope.
//!
//! The bracket is a pair of grid indices `lo <= hi` in `[0, GRID]`, standing
//! for the stakes `b*lo/GRID` and `b*hi/GRID`. Each round first applies the
//! two boundary shortcuts (a non-positive slope at the left edge ends the
//! search at `lo`; a non-negative slope at the right edge ends it at `hi`),
//! then halves the bracket toward the side where the slope changes sign. A
//! bracket of width at most one cell cannot be refined further: the guard
//! returns its midpoint. Starting from `[0, GRID]` the guard fires after at
//! most `GRID_LOG` halvings.

use vstd::arithmetic::power2::lemma2_to64;
use vstd::arithmetic::power2::lemma_pow2_unfold;
use vstd::arithmetic::power2::pow2;
use vstd::prelude::*;

use crate::frac::Frac;
use crate::slope::GRID;
use crate::slope::GRID_LOG;
use crate::slope::slope;
use crate::slope::slope_num;

verus! {

/// What the search promises of its answer `x` for the bracket `[l, r]`.
///
/// - `x` never leaves the bracket;
/// - a non-positive slope at `l` means the objective already falls there, so
///   the maximizer is the left edge itself;
/// - otherwise a non-negative slope at `r` means the objective still rises
///   there, so the maximizer is the right edge;
/// - otherwise the slope changes sign strictly inside, and `x` pins it down
///   to one grid cell: either the slope vanishes exactly at `x`, or it is
///   still positive at `x` and already negative one cell to the right.
pub open spec fn bracket_result(p: Frac, k: Frac, l: int, r: int, x: int) -> bool {
    &&& l <= x <= r
    &&& slope_num(p, k, l) <= 0 ==> x == l
    &&& (slope_num(p, k, l) > 0 && slope_num(p, k, r) >= 0) ==> x == r
    &&& (slope_num(p, k, l) > 0 && slope_num(p, k, r) < 0) ==> (slope_num(p, k, x) == 0 || (
    slope_num(p, k, x) > 0 && x < r && slope_num(p, k, x + 1) < 0))
}

/// Halving a bracket of width `w <= 2^e` leaves both halves within `2^(e-1)`.
proof fn lemma_halve_bracket(w: int, e: nat)
    requires
        2 <= w,
        w <= pow2(e),
    ensures
        1 <= e,
        w / 2 <= pow2((e - 1) as nat),
        w - w / 2 <= pow2((e - 1) as nat),
{
    if e == 0 {
        assert(pow2(0) == 1) by {
            lemma2_to64();
        }
    }
    lemma_pow2_unfold(e);
}

/// Bisection, also reporting how many times the bracket was halved.
///
/// The pair `(x, n)` holds the chosen index `x` and the number `n` of
/// halving steps taken before a shortcut or the width guard ended the
/// search; `n` never exceeds `GRID_LOG`, whatever the bracket.
pub fn search_steps(l: u64, r: u64, k: Frac, p: Frac) -> (res: (u64, u64))
    requires
        p.wf(),
        k.wf(),
        l <= r,
        r <= GRID,
    ensures
        bracket_result(p, k, l as int, r as int, res.0 as int),
        res.1 <= GRID_LOG,
{
    let mut lo = l;
    let mut hi = r;
    let mut steps: u64 = 0;
    proof {
        lemma2_to64();
    }
    loop
        invariant
            p.wf(),
            k.wf(),
            l <= lo <= hi <= r,
            r <= GRID,
            steps <= GRID_LOG,
            hi - lo <= pow2((GRID_LOG - steps) as nat),
            (lo == l && hi == r) || (slope_num(p, k, l as int) > 0 && slope_num(
                p,
                k,
                r as int,
            ) < 0 && slope_num(p, k, lo as int) >= 0 && slope_num(p, k, hi as int) < 0),
        decreases hi - lo,
    {
        let sl = slope(p, k, lo);
        if sl <= 0 {
            return (lo, steps);
        }
        let sr = slope(p, k, hi);
        if sr >= 0 {
            return (hi, steps);
        }
        let m = lo + (hi - lo) / 2;
        if hi - lo <= 1 {
            return (m, steps);
        }
        proof {
            lemma_halve_bracket((hi - lo) as int, (GRID_LOG - steps) as nat);
        }
        let sm = slope(p, k, m);
        if sm < 0 {
            hi = m;
        } else {
            lo = m;
        }
        steps = steps + 1;
    }
}

/// Locate the maximizer of the growth objective inside the bracket `[l, r]`
/// of grid indices: the result approximates the zero crossing of the slope,
/// with the boundary shortcuts and the one-cell guard of `bracket_result`.
pub fn search(l: u64, r: u64, k: Frac, p: Frac) -> (x: u64)
    requires
        p.wf(),
        k.wf(),
        l <= r,
        r <= GRID,
    ensures
        bracket_result(p, k, l as int, r as int, x as int),
{
    let res = search_steps(l, r, k, p);
    res.0
}

} // verus!
