use vstd::prelude::*;

use crate::natural::Natural;

verus! {

/// A rational value: an ordered pair of natural-number values. Scaffolding
/// only — no relation is defined over ratios, and no invariant (a nonzero
/// denominator, a reduced form) is enforced yet.
pub struct Ratio {
    pub numerator: Natural,
    pub denominator: Natural,
}

impl Ratio {
    /// Forms the ratio of the two given values.
    pub fn new(numerator: Natural, denominator: Natural) -> (r: Ratio)
        ensures
            r.numerator == numerator,
            r.denominator == denominator,
    {
        Ratio { numerator, denominator }
    }
}

} // verus!
