//! Monetary quantities and the finance aggregate: the running capital and
//! the expense threshold the capital must cover after each round.

use vstd::prelude::*;

use crate::math::{sat_add, sat_sub, saturating_add_i64, saturating_sub_i64};

verus! {

/// Capital every playthrough starts with, in hundredths of the currency
/// unit (five units).
pub const STARTING_PROFIT_AMOUNT: i64 = 500;

/// Capital below this amount means bankruptcy.
pub const BANKRUPTCY_THRESHOLD: i64 = 0;

/// A signed monetary amount in hundredths of the currency unit.
#[derive(Clone, Copy, Debug, PartialEq, Eq, Structural)]
pub struct Money(pub i64);

impl Money {
    /// Sum of two amounts, saturating at the `i64` range.
    pub fn add(self, rhs: Money) -> (r: Money)
        ensures
            r.0 as int == sat_add(self.0 as int, rhs.0 as int),
    {
        Money(saturating_add_i64(self.0, rhs.0))
    }

    /// Difference of two amounts, saturating at the `i64` range.
    pub fn sub(self, rhs: Money) -> (r: Money)
        ensures
            r.0 as int == sat_sub(self.0 as int, rhs.0 as int),
    {
        Money(saturating_sub_i64(self.0, rhs.0))
    }
}

impl Default for Money {
    /// The identity amount.
    fn default() -> (r: Self)
        ensures
            r.0 == 0,
    {
        Money(0)
    }
}

/// The player's finances: the current balance and the survival threshold
/// it must stay at or above after each round.
#[derive(Clone, Copy, Debug, PartialEq, Eq, Structural)]
pub struct Finance {
    pub capital: Money,
    pub expenses: Money,
}

impl Default for Finance {
    /// The starting balance, with no expenses due yet.
    fn default() -> (r: Self)
        ensures
            r.capital.0 == STARTING_PROFIT_AMOUNT,
            r.expenses.0 == 0,
    {
        Finance { capital: Money(STARTING_PROFIT_AMOUNT), expenses: Money(0) }
    }
}

} // verus!
