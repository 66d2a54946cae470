//! Small signed rationals used as model parameters.

use vstd::prelude::*;

verus! {

/// Largest magnitude allowed for a numerator, and largest denominator.
///
/// Keeping both components this small lets every polynomial the library
/// evaluates over these fractions fit comfortably in an `i128`.
pub const FRAC_BOUND: i64 = 65536;

/// A signed rational `num / den` with bounded components.
///
/// The probability `p` and the payout ratio `k` are carried in this form.
/// Nothing here demands that a probability lie in `(0, 1)`: out-of-domain
/// parameters are deliberately accepted and flow through the formula
/// unvalidated.
#[derive(Clone, Copy, Debug, PartialEq, Eq, Structural)]
pub struct Frac {
    pub num: i64,
    pub den: i64,
}

impl Frac {
    /// Well-formed: positive denominator, both components within `FRAC_BOUND`.
    pub open spec fn wf(self) -> bool {
        &&& 1 <= self.den <= FRAC_BOUND
        &&& -FRAC_BOUND <= self.num <= FRAC_BOUND
    }

    /// Build a fraction from its components.
    pub fn new(num: i64, den: i64) -> (f: Frac)
        requires
            1 <= den <= FRAC_BOUND,
            -FRAC_BOUND <= num <= FRAC_BOUND,
        ensures
            f.num == num,
            f.den == den,
            f.wf(),
    {
        Frac { num, den }
    }
}

} // verus!
