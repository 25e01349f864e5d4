//! A country's figures for one day, and the share of the population that
//! they make.

use vstd::arithmetic::div_mod::{lemma_div_is_ordered, lemma_fundamental_div_mod, lemma_mod_bound};
use vstd::prelude::*;

verus! {

/// The largest day-over-day change, up or down, that a share is computed of:
/// no difference of two numerals that can be read lies further from zero.
pub const DIFF_LIMIT: i64 = 0x1_FFFF_FFFE;

/// The share that `value` makes of `population`, in hundredths of a percent
/// and rounded to the nearest of them, a half away from zero. A negative
/// value has the share of its magnitude, negated.
pub open spec fn percent_hundredths(value: int, population: int) -> int {
    if value < 0 {
        -((-value * 20_000 + population) / (2 * population))
    } else {
        (value * 20_000 + population) / (2 * population)
    }
}

/// The share lies within half a hundredth of a percent of the exact
/// quotient: for a value that is not negative,
/// `share - 1/2 <= value * 10000 / population < share + 1/2`,
/// and the mirror image for a negative one.
pub proof fn lemma_percent_is_nearest(value: int, population: int)
    requires
        population > 0,
    ensures
        value >= 0 ==> -population <= 20_000 * value - 2 * population * percent_hundredths(
            value,
            population,
        ) < population,
        value < 0 ==> -population < 20_000 * value - 2 * population * percent_hundredths(
            value,
            population,
        ) <= population,
{
    let divisor = 2 * population;
    let dividend = if value < 0 {
        -value * 20_000 + population
    } else {
        value * 20_000 + population
    };
    lemma_fundamental_div_mod(dividend, divisor);
    lemma_mod_bound(dividend, divisor);
    let quotient = dividend / divisor;
    assert(divisor * quotient == 2 * population * quotient) by (nonlinear_arith)
        requires
            divisor == 2 * population,
    ;
    assert(2 * population * (-quotient) == -(2 * population * quotient)) by (nonlinear_arith);
}

/// A larger value never makes a smaller share of the same population.
pub proof fn lemma_percent_monotonic(lower: int, upper: int, population: int)
    requires
        lower <= upper,
        population > 0,
    ensures
        percent_hundredths(lower, population) <= percent_hundredths(upper, population),
{
    let p = population;
    if lower >= 0 {
        lemma_div_is_ordered(lower * 20_000 + p, upper * 20_000 + p, 2 * p);
    } else if upper < 0 {
        lemma_div_is_ordered(-upper * 20_000 + p, -lower * 20_000 + p, 2 * p);
    } else {
        lemma_div_is_ordered(0, -lower * 20_000 + p, 2 * p);
        lemma_div_is_ordered(0, upper * 20_000 + p, 2 * p);
    }
}

/// The share that `value` makes of `population`, in hundredths of a percent.
pub fn percent_of(value: i64, population: u32) -> (share: i64)
    requires
        population > 0,
        -DIFF_LIMIT <= value <= DIFF_LIMIT,
    ensures
        share == percent_hundredths(value as int, population as int),
{
    let people: i64 = population as i64;
    if value < 0 {
        -((-value * 20_000 + people) / (2 * people))
    } else {
        (value * 20_000 + people) / (2 * people)
    }
}

/// A running total with its change since the day before, each with the share
/// of the population that it makes, in hundredths of a percent.
#[derive(Clone, Copy, Debug, PartialEq, Eq, Structural)]
pub struct VaccedCount {
    pub count: u32,
    pub count_prcnt: u64,
    pub diff: i64,
    pub diff_prcnt: i64,
}

impl VaccedCount {
    /// The figures that a total and its change make of a population.
    pub open spec fn of(count: int, diff: int, population: int) -> VaccedCount {
        VaccedCount {
            count: count as u32,
            count_prcnt: percent_hundredths(count, population) as u64,
            diff: diff as i64,
            diff_prcnt: percent_hundredths(diff, population) as i64,
        }
    }

    /// Puts a total and its change beside the shares that they make of
    /// `population`.
    pub fn new(count: u32, diff: i64, population: u32) -> (figures: VaccedCount)
        requires
            population > 0,
            -DIFF_LIMIT <= diff <= DIFF_LIMIT,
        ensures
            figures == VaccedCount::of(count as int, diff as int, population as int),
            figures.count == count,
            figures.diff == diff,
            figures.count_prcnt == percent_hundredths(count as int, population as int),
            figures.diff_prcnt == percent_hundredths(diff as int, population as int),
    {
        VaccedCount {
            count,
            count_prcnt: percent_of(count as i64, population) as u64,
            diff,
            diff_prcnt: percent_of(diff, population),
        }
    }
}

/// What a country reports on one day: the people with a first dose, the
/// people completely vaccinated, and the day that the record is of.
#[derive(Clone, Debug, PartialEq, Eq)]
pub struct VaccDayData {
    pub first: VaccedCount,
    pub full: VaccedCount,
    pub date: String,
}

/// A `VaccDayData` with its date as a sequence of characters.
pub struct DayView {
    pub first: VaccedCount,
    pub full: VaccedCount,
    pub date: Seq<char>,
}

impl View for VaccDayData {
    type V = DayView;

    open spec fn view(&self) -> DayView {
        DayView { first: self.first, full: self.full, date: self.date@ }
    }
}

} // verus!
