//! Saturating fixed-point arithmetic and the compound-growth curve used for
//! the round economics.

use vstd::prelude::*;

verus! {

/// Clips a mathematical integer to the range of an `i64`.
pub open spec fn clip_to_i64(v: int) -> int {
    if v > i64::MAX {
        i64::MAX as int
    } else if v < i64::MIN {
        i64::MIN as int
    } else {
        v
    }
}

/// Sum of two amounts, clipped to the `i64` range.
pub open spec fn sat_add(a: int, b: int) -> int {
    clip_to_i64(a + b)
}

/// Difference of two amounts, clipped to the `i64` range.
pub open spec fn sat_sub(a: int, b: int) -> int {
    clip_to_i64(a - b)
}

/// Adds two amounts, saturating at the `i64` range instead of overflowing.
pub fn saturating_add_i64(a: i64, b: i64) -> (r: i64)
    ensures
        r as int == sat_add(a as int, b as int),
{
    let wide: i128 = (a as i128) + (b as i128);
    if wide > i64::MAX as i128 {
        i64::MAX
    } else if wide < i64::MIN as i128 {
        i64::MIN
    } else {
        wide as i64
    }
}

/// Subtracts two amounts, saturating at the `i64` range instead of overflowing.
pub fn saturating_sub_i64(a: i64, b: i64) -> (r: i64)
    ensures
        r as int == sat_sub(a as int, b as int),
{
    let wide: i128 = (a as i128) - (b as i128);
    if wide > i64::MAX as i128 {
        i64::MAX
    } else if wide < i64::MIN as i128 {
        i64::MIN
    } else {
        wide as i64
    }
}

/// One compounding step of the growth curve: raises `value` by
/// `rate` percent, rounding the increase down, and clips to the
/// `i64` range.
pub open spec fn growth_step(value: int, rate: int) -> int {
    clip_to_i64(value + (value * rate) / 100)
}

/// `initial_value` raised by `rate` percent, compounded `time` times.
/// Every intermediate amount is clipped to the `i64` range, so the curve
/// is total; each step rounds down to a whole number of hundredths.
pub open spec fn spec_exponential_curve(initial_value: int, rate: int, time: nat) -> int
    decreases time,
{
    if time == 0 {
        initial_value
    } else {
        growth_step(spec_exponential_curve(initial_value, rate, (time - 1) as nat), rate)
    }
}

/// Every point of the curve of a nonnegative starting amount lies in the
/// nonnegative `i64` range.
pub proof fn lemma_curve_in_i64_range(initial_value: int, rate: int, time: nat)
    requires
        0 <= initial_value <= i64::MAX,
        0 <= rate,
    ensures
        0 <= spec_exponential_curve(initial_value, rate, time) <= i64::MAX,
    decreases time,
{
    if time > 0 {
        lemma_curve_in_i64_range(initial_value, rate, (time - 1) as nat);
        let v = spec_exponential_curve(initial_value, rate, (time - 1) as nat);
        assert(0 <= v * rate) by (nonlinear_arith)
            requires
                0 <= v,
                0 <= rate,
        ;
        vstd::arithmetic::div_mod::lemma_div_pos_is_pos(v * rate, 100);
    }
}

/// The curve never falls: with a nonnegative starting amount and rate,
/// compounding for more steps never yields a smaller amount.
pub proof fn lemma_curve_is_nondecreasing(initial_value: int, rate: int, earlier: nat, later: nat)
    requires
        0 <= initial_value <= i64::MAX,
        0 <= rate,
        earlier <= later,
    ensures
        spec_exponential_curve(initial_value, rate, earlier)
            <= spec_exponential_curve(initial_value, rate, later),
    decreases later - earlier,
{
    if earlier < later {
        lemma_curve_is_nondecreasing(initial_value, rate, earlier, (later - 1) as nat);
        lemma_curve_in_i64_range(initial_value, rate, (later - 1) as nat);
        let v = spec_exponential_curve(initial_value, rate, (later - 1) as nat);
        assert(0 <= v * rate) by (nonlinear_arith)
            requires
                0 <= v,
                0 <= rate,
        ;
        vstd::arithmetic::div_mod::lemma_div_pos_is_pos(v * rate, 100);
    }
}

/// Once one compounding step leaves the amount unchanged, every later
/// point of the curve equals that amount.
proof fn lemma_curve_fixpoint(initial_value: int, rate: int, reached: nat, time: nat)
    requires
        reached <= time,
        growth_step(spec_exponential_curve(initial_value, rate, reached), rate)
            == spec_exponential_curve(initial_value, rate, reached),
    ensures
        spec_exponential_curve(initial_value, rate, time)
            == spec_exponential_curve(initial_value, rate, reached),
    decreases time - reached,
{
    if reached < time {
        lemma_curve_fixpoint(initial_value, rate, reached, (time - 1) as nat);
    }
}

/// Compound growth of a nonnegative amount: `initial_value` raised by
/// `rate` percent, `time` times over, saturating at the `i64` range.
/// The loop stops early once a step no longer changes the amount, which
/// happens both when the increase rounds down to zero and when the
/// amount has saturated.
pub fn exponential_curve(initial_value: i64, rate: u32, time: u32) -> (r: i64)
    requires
        initial_value >= 0,
    ensures
        r as int == spec_exponential_curve(initial_value as int, rate as int, time as nat),
{
    let mut value = initial_value;
    let mut elapsed: u32 = 0;
    while elapsed < time
        invariant
            elapsed <= time,
            0 <= value,
            value as int == spec_exponential_curve(initial_value as int, rate as int, elapsed as nat),
        decreases time - elapsed,
    {
        proof {
            assert((value as int) * (rate as int) <= (i64::MAX as int) * (u32::MAX as int))
                by (nonlinear_arith)
                requires
                    0 <= value as int <= i64::MAX as int,
                    0 <= rate as int <= u32::MAX as int,
            ;
        }
        let increase: u128 = ((value as u128) * (rate as u128)) / 100;
        let grown: u128 = (value as u128) + increase;
        let next: i64 = if grown > i64::MAX as u128 {
            i64::MAX
        } else {
            grown as i64
        };
        if next == value {
            proof {
                lemma_curve_fixpoint(initial_value as int, rate as int, elapsed as nat, time as nat);
            }
            return value;
        }
        value = next;
        elapsed = elapsed + 1;
    }
    value
}

} // verus!
