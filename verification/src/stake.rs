//! The one operation the surrounding surfaces call: optimal stake selection.

use vstd::prelude::*;

use crate::frac::Frac;
use crate::search::bracket_result;
use crate::search::search;
use crate::slope::GRID;
use crate::slope::lemma_mul_bound;

verus! {

/// A stake `num / den`, the chosen grid point scaled back by the bound `b`.
///
/// Unlike `Frac` this carries products of a parameter with a grid index, so
/// its components run up to `FRAC_BOUND * GRID`.
#[derive(Clone, Copy, Debug, PartialEq, Eq, Structural)]
pub struct Stake {
    pub num: i64,
    pub den: i64,
}

/// The fraction of the bound to stake, as a grid index: the stake itself is
/// `b * i / GRID`.
///
/// This runs the bisection over the whole bracket `[0, GRID]`, so the
/// contract is `bracket_result` there: a non-positive slope at zero keeps
/// the stake at zero, a non-negative slope at the bound pushes it to the
/// bound, and otherwise the result brackets the slope's zero crossing within
/// one grid cell.
pub fn optimal_fraction(p: Frac, k: Frac) -> (i: u64)
    requires
        p.wf(),
        k.wf(),
    ensures
        bracket_result(p, k, 0, GRID as int, i as int),
        i <= GRID,
{
    search(0, GRID, k, p)
}

/// Optimal stake for probability `p`, payout ratio `k` and bound `b`: the
/// grid point chosen by `optimal_fraction`, scaled by `b` exactly.
pub fn find_optimal_stake(p: Frac, k: Frac, b: Frac) -> (s: Stake)
    requires
        p.wf(),
        k.wf(),
        b.wf(),
    ensures
        s.den == b.den * (GRID as int),
        exists|i: u64|
            #[trigger] bracket_result(p, k, 0, GRID as int, i as int) && s.num == b.num * (
            i as int),
{
    let i = optimal_fraction(p, k);
    proof {
        lemma_mul_bound(b.num as int, i as int, 65536, 0x1_0000_0000);
    }
    let s = Stake { num: b.num * (i as i64), den: b.den * (GRID as i64) };
    proof {
        assert(bracket_result(p, k, 0, GRID as int, i as int) && s.num == b.num * (i as int));
    }
    s
}

} // verus!
