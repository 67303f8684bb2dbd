use pvcalc::economics::{
    annual_yield_wh, combined_benefit, compound_interest, payback_centiyears,
    self_consumption_split,
};

#[test]
fn yield_scales_with_power_and_efficiency() {
    assert_eq!(annual_yield_wh(350, 1000, 1000), 350_000);
    assert_eq!(annual_yield_wh(350, 1000, 500), 175_000);
    assert_eq!(annual_yield_wh(0, 1000, 1000), 0);
    assert_eq!(annual_yield_wh(1000, 150, 860), 129_000);
}

#[test]
fn split_when_yield_stays_below_consumption() {
    let (consumed, exported) = self_consumption_split(350_000, 2_500_000);
    assert_eq!(consumed, 350_000);
    assert_eq!(exported, 0);
    assert_eq!(consumed + exported, 350_000);
}

#[test]
fn split_when_yield_exceeds_consumption() {
    let (consumed, exported) = self_consumption_split(3_000_000, 2_500_000);
    assert_eq!(consumed, 2_500_000);
    assert_eq!(exported, 500_000);
    assert_eq!(consumed + exported, 3_000_000);
}

#[test]
fn split_at_exactly_the_consumption() {
    let (consumed, exported) = self_consumption_split(2_500_000, 2_500_000);
    assert_eq!(consumed, 2_500_000);
    assert_eq!(exported, 0);
}

#[test]
fn split_of_zero_yield() {
    let (consumed, exported) = self_consumption_split(0, 2_500_000);
    assert_eq!(consumed, 0);
    assert_eq!(exported, 0);
}

#[test]
fn benefit_prices_both_shares() {
    // 350 kWh consumed at 0.42 EUR/kWh, nothing exported.
    assert_eq!(combined_benefit(350_000, 0, 4200, 800), 1_470_000);
    // 2500 kWh consumed at 0.42, 500 kWh exported at 0.08.
    assert_eq!(
        combined_benefit(2_500_000, 500_000, 4200, 800),
        2_500_000 / 1000 * 4200 + 500_000 / 1000 * 800
    );
    assert_eq!(combined_benefit(0, 0, 4200, 800), 0);
}

#[test]
fn payback_of_the_single_panel_scenario() {
    // 200 EUR cost, 147 EUR yearly benefit: 1.36 years.
    assert_eq!(payback_centiyears(2_000_000, 1_470_000), Some(136));
}

#[test]
fn payback_with_zero_benefit_is_none() {
    assert_eq!(payback_centiyears(2_000_000, 0), None);
    assert_eq!(payback_centiyears(0, 0), None);
}

#[test]
fn payback_of_zero_cost_is_immediate() {
    assert_eq!(payback_centiyears(0, 1_470_000), Some(0));
}

#[test]
fn zero_interest_rate_is_a_no_op() {
    assert_eq!(compound_interest(12_345, 0, 7), Some(12_345));
    assert_eq!(compound_interest(10_000_000, 0, 0), Some(10_000_000));
    assert_eq!(compound_interest(10_000_000, 0, 100), Some(10_000_000));
}

#[test]
fn compounding_1000_eur_at_5_percent_for_10_years() {
    // 1000 * 1.05^10 = 1628.894..., with the balance rounded down to a
    // whole money unit each year: 1628.8942 EUR.
    let v = compound_interest(10_000_000, 500, 10).expect("fits in u64");
    assert_eq!(v, 16_288_942);
    // Within a tenth of a cent per euro of the real-valued result.
    assert!(16_288_846 <= v && v <= 16_289_046);
}

#[test]
fn compounding_for_zero_years_returns_the_capital() {
    assert_eq!(compound_interest(2_000_000, 420, 0), Some(2_000_000));
}

#[test]
fn compound_interest_reports_overflow_as_none() {
    assert_eq!(compound_interest(u64::MAX, 10_000, 1), None);
    assert_eq!(compound_interest(1_000_000, 10_000, 64), None);
}
