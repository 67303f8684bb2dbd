//! The whole derivation a caller displays for a project: aggregate, derate,
//! split, price, and compare against the alternative investment.

use crate::components::{
    panels_area_sum, panels_energy_sum, project_price_sum, sum_fits, Library, Money, Project,
    ProjectResult,
};
use crate::economics::{
    annual_yield_wh, combined_benefit, compound_interest, payback_centiyears,
    self_consumption_split, spec_annual_yield_wh, spec_combined_benefit, spec_compound,
    spec_compound_overflows, spec_consumed_wh, spec_exported_wh,
};
use crate::orientation::{efficiency, spec_efficiency};
use vstd::prelude::*;

verus! {

/// Every figure derived from a project and a catalog.
#[derive(Debug)]
pub struct Analysis {
    /// Summed rated power, cost and panel area of the selected equipment.
    pub result: ProjectResult,
    /// The orientation/tilt derating factor, in per mille.
    pub efficiency_pm: u64,
    /// The derated annual yield, in Wh.
    pub annual_yield_wh: u64,
    /// What a year of consumption costs from the grid alone.
    pub regular_cost: Money,
    /// The share of the yield consumed on-site, in Wh.
    pub consumed_wh: u64,
    /// The surplus share of the yield, sold to the grid, in Wh.
    pub exported_wh: u64,
    /// The money a year of operation saves and earns.
    pub combined_benefit: Money,
    /// The payback period in hundredths of a year; `None` when the benefit
    /// is zero and no payback is achievable.
    pub payback_centiyears: Option<u64>,
    /// The plant's cost compounded at the deposit rate over the payback
    /// period rounded to whole years; `None` when there is no payback or
    /// the balance leaves `u64`.
    pub alternative_investment: Option<Money>,
}

/// A year's consumption in Wh.
pub open spec fn spec_consumption_wh(proj: Project) -> int {
    proj.consumption_kwh * 1000
}

/// The project's derating factor.
pub open spec fn spec_plant_efficiency(proj: Project) -> int {
    spec_efficiency(proj.panel_orientation as int, proj.panel_angle_deg as int)
}

/// The project's derated annual yield, in Wh.
pub open spec fn spec_plant_yield_wh(proj: Project, lib: Library) -> int {
    spec_annual_yield_wh(
        panels_energy_sum(proj.panels@, lib.panels@),
        proj.yield_kwh_kwp as int,
        spec_plant_efficiency(proj),
    )
}

/// The share of the project's yield consumed on-site, in Wh.
pub open spec fn spec_plant_consumed_wh(proj: Project, lib: Library) -> int {
    spec_consumed_wh(spec_plant_yield_wh(proj, lib), spec_consumption_wh(proj))
}

/// The surplus share of the project's yield, in Wh.
pub open spec fn spec_plant_exported_wh(proj: Project, lib: Library) -> int {
    spec_exported_wh(spec_plant_yield_wh(proj, lib), spec_consumption_wh(proj))
}

/// The project's yearly benefit.
pub open spec fn spec_plant_benefit(proj: Project, lib: Library) -> int {
    spec_combined_benefit(
        spec_plant_consumed_wh(proj, lib),
        spec_plant_exported_wh(proj, lib),
        proj.price_kwh_buy as int,
        proj.price_kwh_sell as int,
    )
}

/// A period in hundredths of a year, rounded to the nearest whole year.
pub open spec fn spec_round_years(centiyears: int) -> int {
    (centiyears + 50) / 100
}

/// Every intermediate value of the analysis stays within `u64`.
pub open spec fn analysis_fits(proj: Project, lib: Library) -> bool {
    &&& sum_fits(proj, lib)
    &&& panels_energy_sum(proj.panels@, lib.panels@) * proj.yield_kwh_kwp * 1000 <= u64::MAX
    &&& proj.consumption_kwh * 1000 <= u64::MAX
    &&& spec_plant_consumed_wh(proj, lib) * proj.price_kwh_buy <= u64::MAX
    &&& spec_plant_exported_wh(proj, lib) * proj.price_kwh_sell <= u64::MAX
    &&& spec_plant_benefit(proj, lib) <= u64::MAX
    &&& proj.consumption_kwh * proj.price_kwh_buy <= u64::MAX
    &&& project_price_sum(proj, lib) * 100 <= u64::MAX
}

/// Rounds a period in hundredths of a year to the nearest whole year.
pub fn round_centiyears(centiyears: u64) -> (y: u64)
    ensures
        y == spec_round_years(centiyears as int),
{
    let q = centiyears / 100;
    let r = centiyears % 100;
    proof {
        vstd::arithmetic::div_mod::lemma_fundamental_div_mod(centiyears as int, 100);
        if r >= 50 {
            vstd::arithmetic::div_mod::lemma_div_multiples_vanish_fancy(
                q as int + 1,
                r as int - 50,
                100,
            );
            assert(centiyears + 50 == 100 * (q as int + 1) + (r - 50));
        } else {
            vstd::arithmetic::div_mod::lemma_div_multiples_vanish_fancy(
                q as int,
                r as int + 50,
                100,
            );
            assert(centiyears + 50 == 100 * (q as int) + (r + 50));
        }
    }
    if r >= 50 {
        q + 1
    } else {
        q
    }
}

/// Derives every displayed figure of a project against a catalog, or
/// `None` when an intermediate value leaves `u64`.
pub fn analyze(project: &Project, library: &Library) -> (r: Option<Analysis>)
    requires
        project.angles_valid(),
        project.interest_rate_deposit <= u64::MAX - 10000,
    ensures
        r is Some <==> analysis_fits(*project, *library),
        (r matches Some(an) ==> {
            &&& an.result.energy_sum_wp == panels_energy_sum(project.panels@, library.panels@)
            &&& an.result.area_sum == panels_area_sum(project.panels@, library.panels@)
            &&& an.result.price_sum == project_price_sum(*project, *library)
            &&& an.efficiency_pm == spec_plant_efficiency(*project)
            &&& an.annual_yield_wh == spec_plant_yield_wh(*project, *library)
            &&& an.regular_cost == project.consumption_kwh * project.price_kwh_buy
            &&& an.consumed_wh == spec_plant_consumed_wh(*project, *library)
            &&& an.exported_wh == spec_plant_exported_wh(*project, *library)
            &&& an.combined_benefit == spec_plant_benefit(*project, *library)
            &&& (an.payback_centiyears is None <==> spec_plant_benefit(*project, *library) == 0)
            &&& (an.payback_centiyears matches Some(cy) ==> cy == project_price_sum(
                *project,
                *library,
            ) * 100 / spec_plant_benefit(*project, *library))
            &&& (an.payback_centiyears is None ==> an.alternative_investment is None)
            &&& (an.payback_centiyears matches Some(cy) ==> {
                let years = spec_round_years(cy as int);
                &&& (an.alternative_investment is None <==> spec_compound_overflows(
                    an.result.price_sum as int,
                    project.interest_rate_deposit as int,
                    years as nat,
                ))
                &&& (an.alternative_investment matches Some(v) ==> v == spec_compound(
                    an.result.price_sum as int,
                    project.interest_rate_deposit as int,
                    years as nat,
                ))
            })
        }),
{
    let result = match project.try_sum(library) {
        Some(res) => res,
        None => {
            return None;
        },
    };
    let eff = efficiency(project.panel_orientation, project.panel_angle_deg);

    let ghost e = panels_energy_sum(project.panels@, library.panels@) as int;
    let base = match result.energy_sum_wp.checked_mul(project.yield_kwh_kwp) {
        Some(v) => v,
        None => {
            proof {
                assert(e * project.yield_kwh_kwp * 1000 > u64::MAX) by (nonlinear_arith)
                    requires
                        e * project.yield_kwh_kwp > u64::MAX,
                        e >= 0;
            }
            return None;
        },
    };
    if base.checked_mul(1000).is_none() {
        return None;
    }
    let yield_wh = annual_yield_wh(result.energy_sum_wp, project.yield_kwh_kwp, eff);

    let consumption_wh = match project.consumption_kwh.checked_mul(1000) {
        Some(v) => v,
        None => {
            return None;
        },
    };
    let (consumed_wh, exported_wh) = self_consumption_split(yield_wh, consumption_wh);

    if consumed_wh.checked_mul(project.price_kwh_buy).is_none() {
        return None;
    }
    if exported_wh.checked_mul(project.price_kwh_sell).is_none() {
        return None;
    }
    let q_buy = consumed_wh * project.price_kwh_buy / 1000;
    let q_sell = exported_wh * project.price_kwh_sell / 1000;
    if q_buy.checked_add(q_sell).is_none() {
        return None;
    }
    let benefit = combined_benefit(
        consumed_wh,
        exported_wh,
        project.price_kwh_buy,
        project.price_kwh_sell,
    );

    let regular_cost = match project.consumption_kwh.checked_mul(project.price_kwh_buy) {
        Some(v) => v,
        None => {
            return None;
        },
    };

    if result.price_sum.checked_mul(100).is_none() {
        return None;
    }
    let payback = payback_centiyears(result.price_sum, benefit);

    let alternative = match payback {
        Some(cy) => {
            let years = round_centiyears(cy);
            compound_interest(result.price_sum, project.interest_rate_deposit, years)
        },
        None => None,
    };

    Some(
        Analysis {
            result,
            efficiency_pm: eff,
            annual_yield_wh: yield_wh,
            regular_cost,
            consumed_wh,
            exported_wh,
            combined_benefit: benefit,
            payback_centiyears: payback,
            alternative_investment: alternative,
        },
    )
}

} // verus!
