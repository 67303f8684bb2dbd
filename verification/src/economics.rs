//! Pure yield and economics formulas: annual yield, self-consumption split,
//! combined yearly benefit, payback period, and the compound-interest value
//! of an alternative fixed-deposit investment.

use crate::components::Money;
use vstd::prelude::*;

verus! {

/// Annual yield in Wh: rated power (Wp) times specific yield (kWh per kWp
/// per year) times the per-mille efficiency factor.
pub open spec fn spec_annual_yield_wh(energy_wp: int, specific_yield: int, efficiency_pm: int) -> int {
    energy_wp * specific_yield * efficiency_pm / 1000
}

/// The energy a plant with `energy_sum_wp` of rated power harvests per
/// year, in Wh, derated by the per-mille efficiency factor.
pub fn annual_yield_wh(energy_sum_wp: u64, yield_kwh_kwp: u64, efficiency_pm: u64) -> (r: u64)
    requires
        efficiency_pm <= 1000,
        energy_sum_wp * yield_kwh_kwp * 1000 <= u64::MAX,
    ensures
        r == spec_annual_yield_wh(energy_sum_wp as int, yield_kwh_kwp as int, efficiency_pm as int),
{
    proof {
        assert(energy_sum_wp * yield_kwh_kwp <= energy_sum_wp * yield_kwh_kwp * 1000
            && energy_sum_wp * yield_kwh_kwp * efficiency_pm
                <= energy_sum_wp * yield_kwh_kwp * 1000) by (nonlinear_arith)
            requires
                efficiency_pm <= 1000,
                energy_sum_wp >= 0,
                yield_kwh_kwp >= 0;
    }
    let base = energy_sum_wp * yield_kwh_kwp;
    base * efficiency_pm / 1000
}

/// The share of a year's yield consumed on-site: yield, capped by
/// consumption.
pub open spec fn spec_consumed_wh(yield_wh: int, consumption_wh: int) -> int {
    if yield_wh <= consumption_wh {
        yield_wh
    } else {
        consumption_wh
    }
}

/// The surplus share of a year's yield, exported to the grid.
pub open spec fn spec_exported_wh(yield_wh: int, consumption_wh: int) -> int {
    yield_wh - spec_consumed_wh(yield_wh, consumption_wh)
}

/// Splits a year's yield (Wh) into the consumed share and the exported
/// surplus.
pub fn self_consumption_split(annual_yield_wh: u64, annual_consumption_wh: u64) -> (split: (
    u64,
    u64,
))
    ensures
        split.0 == spec_consumed_wh(annual_yield_wh as int, annual_consumption_wh as int),
        split.1 == spec_exported_wh(annual_yield_wh as int, annual_consumption_wh as int),
{
    if annual_yield_wh <= annual_consumption_wh {
        (annual_yield_wh, 0)
    } else {
        (annual_consumption_wh, annual_yield_wh - annual_consumption_wh)
    }
}

/// The split is lossless and never books more than the consumption as
/// consumed: the consumed share stays within the consumption, the exported
/// share is nonnegative, and the two add up exactly to the yield.
pub proof fn lemma_split_conserves_yield(yield_wh: int, consumption_wh: int)
    requires
        yield_wh >= 0,
        consumption_wh >= 0,
    ensures
        spec_consumed_wh(yield_wh, consumption_wh) <= consumption_wh,
        spec_exported_wh(yield_wh, consumption_wh) >= 0,
        spec_consumed_wh(yield_wh, consumption_wh) + spec_exported_wh(yield_wh, consumption_wh)
            == yield_wh,
{
}

/// A year's monetary benefit: consumed energy saves the buy price, exported
/// energy earns the sell price; both prices are per kWh, the shares in Wh.
pub open spec fn spec_combined_benefit(
    consumed_wh: int,
    exported_wh: int,
    price_kwh_buy: int,
    price_kwh_sell: int,
) -> int {
    consumed_wh * price_kwh_buy / 1000 + exported_wh * price_kwh_sell / 1000
}

/// The money a year of operation saves and earns.
pub fn combined_benefit(
    consumed_wh: u64,
    exported_wh: u64,
    price_kwh_buy: Money,
    price_kwh_sell: Money,
) -> (r: Money)
    requires
        consumed_wh * price_kwh_buy <= u64::MAX,
        exported_wh * price_kwh_sell <= u64::MAX,
        spec_combined_benefit(
            consumed_wh as int,
            exported_wh as int,
            price_kwh_buy as int,
            price_kwh_sell as int,
        ) <= u64::MAX,
    ensures
        r == spec_combined_benefit(
            consumed_wh as int,
            exported_wh as int,
            price_kwh_buy as int,
            price_kwh_sell as int,
        ),
{
    consumed_wh * price_kwh_buy / 1000 + exported_wh * price_kwh_sell / 1000
}

/// The payback period, in hundredths of a year, or `None` when the yearly
/// benefit is zero: no payback is achievable then, and the division is
/// never performed.
pub fn payback_centiyears(total_cost: Money, annual_benefit: Money) -> (r: Option<u64>)
    requires
        total_cost * 100 <= u64::MAX,
    ensures
        r is None <==> annual_benefit == 0,
        (r matches Some(y) ==> y == total_cost * 100 / (annual_benefit as int)),
{
    if annual_benefit == 0 {
        None
    } else {
        Some(total_cost * 100 / annual_benefit)
    }
}

/// The capital after compounding for a whole number of years, rounding the
/// balance down to a whole money unit every year; the rate is in basis
/// points.
pub open spec fn spec_compound(principal: int, rate_bp: int, years: nat) -> int
    decreases years,
{
    if years == 0 {
        principal
    } else {
        spec_compound(principal, rate_bp, (years - 1) as nat) * (10000 + rate_bp) / 10000
    }
}

/// Whether compounding leaves `u64` at some point during those years.
pub open spec fn spec_compound_overflows(principal: int, rate_bp: int, years: nat) -> bool
    decreases years,
{
    if years == 0 {
        false
    } else {
        spec_compound_overflows(principal, rate_bp, (years - 1) as nat)
            || spec_compound(principal, rate_bp, (years - 1) as nat) * (10000 + rate_bp)
                > u64::MAX
    }
}

/// Once compounding has overflowed it stays overflowed for every longer
/// horizon.
proof fn lemma_overflow_monotone(principal: int, rate_bp: int, y1: nat, y2: nat)
    requires
        y1 <= y2,
        spec_compound_overflows(principal, rate_bp, y1),
    ensures
        spec_compound_overflows(principal, rate_bp, y2),
    decreases y2,
{
    if y1 < y2 {
        lemma_overflow_monotone(principal, rate_bp, y1, (y2 - 1) as nat);
    }
}

/// The value of investing `start_capital` at `interest_rate_bp` (basis
/// points per year) for `years` years instead, or `None` when the running
/// balance leaves `u64`.
pub fn compound_interest(start_capital: Money, interest_rate_bp: u64, years: u64) -> (r: Option<
    Money,
>)
    requires
        interest_rate_bp <= u64::MAX - 10000,
    ensures
        r is None <==> spec_compound_overflows(
            start_capital as int,
            interest_rate_bp as int,
            years as nat,
        ),
        (r matches Some(v) ==> v == spec_compound(
            start_capital as int,
            interest_rate_bp as int,
            years as nat,
        )),
{
    let factor = 10000 + interest_rate_bp;
    let mut capital = start_capital;
    let mut y: u64 = 0;
    while y < years
        invariant
            y <= years,
            factor == 10000 + interest_rate_bp,
            capital == spec_compound(start_capital as int, interest_rate_bp as int, y as nat),
            !spec_compound_overflows(start_capital as int, interest_rate_bp as int, y as nat),
        decreases years - y,
    {
        capital = match capital.checked_mul(factor) {
            Some(v) => v / 10000,
            None => {
                proof {
                    assert(spec_compound_overflows(
                        start_capital as int,
                        interest_rate_bp as int,
                        (y + 1) as nat,
                    ));
                    lemma_overflow_monotone(
                        start_capital as int,
                        interest_rate_bp as int,
                        (y + 1) as nat,
                        years as nat,
                    );
                }
                return None;
            },
        };
        proof {
            assert(capital == spec_compound(
                start_capital as int,
                interest_rate_bp as int,
                (y + 1) as nat,
            ));
        }
        y += 1;
    }
    Some(capital)
}

/// A zero interest rate is a no-op: the capital after any number of years
/// is the starting capital.
pub proof fn lemma_compound_zero_rate(principal: int, years: nat)
    requires
        principal >= 0,
    ensures
        spec_compound(principal, 0, years) == principal,
    decreases years,
{
    if years > 0 {
        lemma_compound_zero_rate(principal, (years - 1) as nat);
        vstd::arithmetic::div_mod::lemma_div_by_multiple(principal, 10000);
    }
}

/// With a zero rate the balance never grows, so compounding any capital
/// whose yearly product fits in `u64` never overflows.
pub proof fn lemma_compound_zero_rate_fits(principal: int, years: nat)
    requires
        0 <= principal,
        principal * 10000 <= u64::MAX,
    ensures
        !spec_compound_overflows(principal, 0, years),
    decreases years,
{
    if years > 0 {
        lemma_compound_zero_rate_fits(principal, (years - 1) as nat);
        lemma_compound_zero_rate(principal, (years - 1) as nat);
    }
}

} // verus!
