//! Accumulated CO2 emission, counted in hundredths of a tonne of CO2
//! equivalent.

use vstd::prelude::*;

use crate::math::{sat_add, saturating_add_i64};

verus! {

/// Emission ceiling whose breach ends the game, in hundredths of a unit
/// (twenty units).
pub const CATASTROPHIC_POLLUTION_THRESHOLD: i64 = 2000;

/// A signed emission amount in hundredths of a unit. Positive values
/// pollute, negative values stand for a reduction.
#[derive(Clone, Copy, Debug, PartialEq, Eq, Structural)]
pub struct Co2Emission(pub i64);

impl Co2Emission {
    /// Sum of two emission amounts, saturating at the `i64` range.
    pub fn add(self, rhs: Co2Emission) -> (r: Co2Emission)
        ensures
            r.0 as int == sat_add(self.0 as int, rhs.0 as int),
    {
        Co2Emission(saturating_add_i64(self.0, rhs.0))
    }
}

impl Default for Co2Emission {
    /// No emission at all.
    fn default() -> (r: Self)
        ensures
            r.0 == 0,
    {
        Co2Emission(0)
    }
}

} // verus!
