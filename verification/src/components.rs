//! The equipment catalog, the user's selection, and the aggregation of the
//! selected equipment into summed power, cost and area.
//!
//! A selection refers to catalog entries by position.  An index with no
//! matching entry contributes nothing: it is skipped, not an error.

use vstd::prelude::*;

verus! {

/// Monetary amounts, in ten-thousandths of a euro (1 EUR = 10 000).
pub type Money = u64;

/// A photovoltaic panel for sale.  Dimensions are centimeters; `u32` keeps
/// every panel's area within `u64`.
#[derive(Debug, Clone, PartialEq)]
pub struct Panel {
    pub brand: String,
    pub model: String,
    pub width_cm: u32,
    pub height_cm: u32,
    pub price: Money,
    pub energy_wp: u64,
}

/// A battery for sale.  It contributes cost only; capacity is amp-hours and
/// voltage is volts.
#[derive(Debug, Clone, PartialEq)]
pub struct Battery {
    pub brand: String,
    pub model: String,
    pub price: Money,
    pub energy_ahr: u64,
    pub voltage: u64,
}

/// An inverter for sale.  It contributes cost only; both power figures are
/// watts.
#[derive(Debug, Clone, PartialEq)]
pub struct Inverter {
    pub brand: String,
    pub model: String,
    pub price: Money,
    pub max_power_w: u64,
    pub power_out_w: u64,
}

impl Default for Panel {
    /// A blank catalog entry, as an editing front end creates it before the
    /// user fills it in.
    fn default() -> (p: Self)
        ensures
            p.brand@.len() == 0,
            p.model@.len() == 0,
            p.width_cm == 0,
            p.height_cm == 0,
            p.price == 0,
            p.energy_wp == 0,
    {
        Panel {
            brand: String::new(),
            model: String::new(),
            width_cm: 0,
            height_cm: 0,
            price: 0,
            energy_wp: 0,
        }
    }
}

impl Default for Battery {
    /// A blank catalog entry.
    fn default() -> (b: Self)
        ensures
            b.brand@.len() == 0,
            b.model@.len() == 0,
            b.price == 0,
            b.energy_ahr == 0,
            b.voltage == 0,
    {
        Battery { brand: String::new(), model: String::new(), price: 0, energy_ahr: 0, voltage: 0 }
    }
}

impl Default for Inverter {
    /// A blank catalog entry.
    fn default() -> (v: Self)
        ensures
            v.brand@.len() == 0,
            v.model@.len() == 0,
            v.price == 0,
            v.max_power_w == 0,
            v.power_out_w == 0,
    {
        Inverter {
            brand: String::new(),
            model: String::new(),
            price: 0,
            max_power_w: 0,
            power_out_w: 0,
        }
    }
}

/// The catalog of everything that a project can select.
#[derive(Debug)]
pub struct Library {
    pub panels: Vec<Panel>,
    pub batteries: Vec<Battery>,
    pub inverters: Vec<Inverter>,
}

impl Default for Library {
    /// An empty catalog; entries are added one by one or restored by the
    /// caller from persisted state.
    fn default() -> (l: Self)
        ensures
            l.panels@.len() == 0,
            l.batteries@.len() == 0,
            l.inverters@.len() == 0,
    {
        Library { panels: Vec::new(), batteries: Vec::new(), inverters: Vec::new() }
    }
}

/// The user's selection of catalog entries, by position, with the market,
/// financial and physical parameters of the planned installation.
#[derive(Debug)]
pub struct Project {
    /// Positions into the catalog's panels; duplicates allowed.
    pub panels: Vec<usize>,
    /// Positions into the catalog's batteries.
    pub batteries: Vec<usize>,
    /// Positions into the catalog's inverters.
    pub inverters: Vec<usize>,
    /// Specific yield, in kWh per kWp per year.
    pub yield_kwh_kwp: u64,
    /// Annual consumption, in kWh.
    pub consumption_kwh: u64,
    /// Price paid per kWh bought from the grid.
    pub price_kwh_buy: Money,
    /// Price received per kWh sold to the grid.
    pub price_kwh_sell: Money,
    /// Panel tilt from horizontal, in degrees (0..=90).
    pub panel_angle_deg: u64,
    /// Azimuth deviation from due south, in degrees (0..=180).
    pub panel_orientation: u64,
    /// Yearly rate of the alternative fixed-deposit investment, in basis
    /// points (1/10 000).
    pub interest_rate_deposit: u64,
    /// Flat fee for mounting the panels.
    pub price_installation_panels: Money,
    /// Flat fee for the electrical installation.
    pub price_installation_electricity: Money,
}

impl Project {
    /// Both angles lie in the documented domain.
    pub open spec fn angles_valid(self) -> bool {
        self.panel_orientation <= 180 && self.panel_angle_deg <= 90
    }
}

impl Default for Project {
    /// An empty selection with the documented default parameters.
    fn default() -> (p: Self)
        ensures
            p.panels@.len() == 0,
            p.batteries@.len() == 0,
            p.inverters@.len() == 0,
            p.yield_kwh_kwp == 1000,
            p.consumption_kwh == 2500,
            p.price_kwh_buy == 4229,
            p.price_kwh_sell == 820,
            p.panel_angle_deg == 0,
            p.panel_orientation == 0,
            p.interest_rate_deposit == 420,
            p.price_installation_panels == 20000000,
            p.price_installation_electricity == 30000000,
            p.angles_valid(),
    {
        Project {
            panels: Vec::new(),
            batteries: Vec::new(),
            inverters: Vec::new(),
            yield_kwh_kwp: 1000,
            consumption_kwh: 2500,
            price_kwh_buy: 4229,
            price_kwh_sell: 820,
            panel_angle_deg: 0,
            panel_orientation: 0,
            interest_rate_deposit: 420,
            price_installation_panels: 20000000,
            price_installation_electricity: 30000000,
        }
    }
}

/// The derived snapshot of a selection against a catalog: summed rated
/// power (watt-peak), summed cost, and summed panel area (square
/// centimeters).
#[derive(Debug, Clone, PartialEq, Eq, Structural)]
pub struct ProjectResult {
    pub energy_sum_wp: u64,
    pub price_sum: Money,
    pub area_sum: u64,
}

/// A panel's footprint in square centimeters.
pub open spec fn panel_area(p: Panel) -> int {
    p.width_cm * p.height_cm
}

/// The panels that a selection resolves to, in selection order; positions
/// with no catalog entry are skipped.
pub open spec fn resolved_panels(sel: Seq<usize>, cat: Seq<Panel>) -> Seq<Panel>
    decreases sel.len(),
{
    if sel.len() == 0 {
        Seq::empty()
    } else {
        let rest = resolved_panels(sel.drop_last(), cat);
        if (sel.last() as int) < cat.len() {
            rest.push(cat[sel.last() as int])
        } else {
            rest
        }
    }
}

/// The batteries that a selection resolves to.
pub open spec fn resolved_batteries(sel: Seq<usize>, cat: Seq<Battery>) -> Seq<Battery>
    decreases sel.len(),
{
    if sel.len() == 0 {
        Seq::empty()
    } else {
        let rest = resolved_batteries(sel.drop_last(), cat);
        if (sel.last() as int) < cat.len() {
            rest.push(cat[sel.last() as int])
        } else {
            rest
        }
    }
}

/// The inverters that a selection resolves to.
pub open spec fn resolved_inverters(sel: Seq<usize>, cat: Seq<Inverter>) -> Seq<Inverter>
    decreases sel.len(),
{
    if sel.len() == 0 {
        Seq::empty()
    } else {
        let rest = resolved_inverters(sel.drop_last(), cat);
        if (sel.last() as int) < cat.len() {
            rest.push(cat[sel.last() as int])
        } else {
            rest
        }
    }
}

/// Total rated power of a sequence of panels.
pub open spec fn panels_energy_total(ps: Seq<Panel>) -> int
    decreases ps.len(),
{
    if ps.len() == 0 {
        0
    } else {
        panels_energy_total(ps.drop_last()) + ps.last().energy_wp
    }
}

/// Total price of a sequence of panels.
pub open spec fn panels_price_total(ps: Seq<Panel>) -> int
    decreases ps.len(),
{
    if ps.len() == 0 {
        0
    } else {
        panels_price_total(ps.drop_last()) + ps.last().price
    }
}

/// Total area of a sequence of panels.
pub open spec fn panels_area_total(ps: Seq<Panel>) -> int
    decreases ps.len(),
{
    if ps.len() == 0 {
        0
    } else {
        panels_area_total(ps.drop_last()) + panel_area(ps.last())
    }
}

/// Total price of a sequence of batteries.
pub open spec fn batteries_price_total(bs: Seq<Battery>) -> int
    decreases bs.len(),
{
    if bs.len() == 0 {
        0
    } else {
        batteries_price_total(bs.drop_last()) + bs.last().price
    }
}

/// Total price of a sequence of inverters.
pub open spec fn inverters_price_total(is: Seq<Inverter>) -> int
    decreases is.len(),
{
    if is.len() == 0 {
        0
    } else {
        inverters_price_total(is.drop_last()) + is.last().price
    }
}

/// Summed rated power of the panels a selection resolves to.
pub open spec fn panels_energy_sum(sel: Seq<usize>, cat: Seq<Panel>) -> int {
    panels_energy_total(resolved_panels(sel, cat))
}

/// Summed price of the panels a selection resolves to.
pub open spec fn panels_price_sum(sel: Seq<usize>, cat: Seq<Panel>) -> int {
    panels_price_total(resolved_panels(sel, cat))
}

/// Summed area of the panels a selection resolves to.
pub open spec fn panels_area_sum(sel: Seq<usize>, cat: Seq<Panel>) -> int {
    panels_area_total(resolved_panels(sel, cat))
}

/// Summed price of the batteries a selection resolves to.
pub open spec fn batteries_price_sum(sel: Seq<usize>, cat: Seq<Battery>) -> int {
    batteries_price_total(resolved_batteries(sel, cat))
}

/// Summed price of the inverters a selection resolves to.
pub open spec fn inverters_price_sum(sel: Seq<usize>, cat: Seq<Inverter>) -> int {
    inverters_price_total(resolved_inverters(sel, cat))
}

/// The whole cost of a project: all resolved equipment plus both flat
/// installation fees.
pub open spec fn project_price_sum(proj: Project, lib: Library) -> int {
    panels_price_sum(proj.panels@, lib.panels@)
        + batteries_price_sum(proj.batteries@, lib.batteries@)
        + inverters_price_sum(proj.inverters@, lib.inverters@)
        + proj.price_installation_panels
        + proj.price_installation_electricity
}

/// All three aggregates of a project stay within `u64`.
pub open spec fn sum_fits(proj: Project, lib: Library) -> bool {
    &&& panels_energy_sum(proj.panels@, lib.panels@) <= u64::MAX
    &&& panels_area_sum(proj.panels@, lib.panels@) <= u64::MAX
    &&& project_price_sum(proj, lib) <= u64::MAX
}

proof fn lemma_batteries_price_total_nonneg(bs: Seq<Battery>)
    ensures
        batteries_price_total(bs) >= 0,
    decreases bs.len(),
{
    if bs.len() > 0 {
        lemma_batteries_price_total_nonneg(bs.drop_last());
    }
}

proof fn lemma_inverters_price_total_nonneg(is: Seq<Inverter>)
    ensures
        inverters_price_total(is) >= 0,
    decreases is.len(),
{
    if is.len() > 0 {
        lemma_inverters_price_total_nonneg(is.drop_last());
    }
}

/// Appending one panel adds exactly its contributions to the totals.
proof fn lemma_panels_totals_push(ps: Seq<Panel>, p: Panel)
    ensures
        panels_energy_total(ps.push(p)) == panels_energy_total(ps) + p.energy_wp,
        panels_price_total(ps.push(p)) == panels_price_total(ps) + p.price,
        panels_area_total(ps.push(p)) == panels_area_total(ps) + panel_area(p),
{
    assert(ps.push(p).drop_last() =~= ps);
    assert(ps.push(p).last() == p);
}

proof fn lemma_batteries_total_push(bs: Seq<Battery>, b: Battery)
    ensures
        batteries_price_total(bs.push(b)) == batteries_price_total(bs) + b.price,
{
    assert(bs.push(b).drop_last() =~= bs);
    assert(bs.push(b).last() == b);
}

proof fn lemma_inverters_total_push(is: Seq<Inverter>, v: Inverter)
    ensures
        inverters_price_total(is.push(v)) == inverters_price_total(is) + v.price,
{
    assert(is.push(v).drop_last() =~= is);
    assert(is.push(v).last() == v);
}

/// Extending the considered prefix of a selection by one position adds that
/// position's contributions: those of the catalog entry it resolves to, or
/// nothing when it resolves to none.
proof fn lemma_panels_sums_step(sel: Seq<usize>, cat: Seq<Panel>, i: int)
    requires
        0 <= i < sel.len(),
    ensures
        panels_energy_sum(sel.take(i + 1), cat) == panels_energy_sum(sel.take(i), cat)
            + (if (sel[i] as int) < cat.len() { cat[sel[i] as int].energy_wp as int } else { 0 }),
        panels_price_sum(sel.take(i + 1), cat) == panels_price_sum(sel.take(i), cat)
            + (if (sel[i] as int) < cat.len() { cat[sel[i] as int].price as int } else { 0 }),
        panels_area_sum(sel.take(i + 1), cat) == panels_area_sum(sel.take(i), cat)
            + (if (sel[i] as int) < cat.len() { panel_area(cat[sel[i] as int]) } else { 0 }),
{
    assert(sel.take(i + 1).drop_last() =~= sel.take(i));
    assert(sel.take(i + 1).last() == sel[i]);
    if (sel[i] as int) < cat.len() {
        lemma_panels_totals_push(resolved_panels(sel.take(i), cat), cat[sel[i] as int]);
    }
}

proof fn lemma_batteries_sum_step(sel: Seq<usize>, cat: Seq<Battery>, i: int)
    requires
        0 <= i < sel.len(),
    ensures
        batteries_price_sum(sel.take(i + 1), cat) == batteries_price_sum(sel.take(i), cat)
            + (if (sel[i] as int) < cat.len() { cat[sel[i] as int].price as int } else { 0 }),
{
    assert(sel.take(i + 1).drop_last() =~= sel.take(i));
    assert(sel.take(i + 1).last() == sel[i]);
    if (sel[i] as int) < cat.len() {
        lemma_batteries_total_push(resolved_batteries(sel.take(i), cat), cat[sel[i] as int]);
    }
}

proof fn lemma_inverters_sum_step(sel: Seq<usize>, cat: Seq<Inverter>, i: int)
    requires
        0 <= i < sel.len(),
    ensures
        inverters_price_sum(sel.take(i + 1), cat) == inverters_price_sum(sel.take(i), cat)
            + (if (sel[i] as int) < cat.len() { cat[sel[i] as int].price as int } else { 0 }),
{
    assert(sel.take(i + 1).drop_last() =~= sel.take(i));
    assert(sel.take(i + 1).last() == sel[i]);
    if (sel[i] as int) < cat.len() {
        lemma_inverters_total_push(resolved_inverters(sel.take(i), cat), cat[sel[i] as int]);
    }
}

/// The totals over a prefix of a selection never exceed the totals over the
/// whole selection.
proof fn lemma_panels_prefix_totals(sel: Seq<usize>, cat: Seq<Panel>, i: int)
    requires
        0 <= i <= sel.len(),
    ensures
        panels_energy_sum(sel.take(i), cat) <= panels_energy_sum(sel, cat),
        panels_price_sum(sel.take(i), cat) <= panels_price_sum(sel, cat),
        panels_area_sum(sel.take(i), cat) <= panels_area_sum(sel, cat),
    decreases sel.len() - i,
{
    if i == sel.len() {
        assert(sel.take(i) =~= sel);
    } else {
        lemma_panels_sums_step(sel, cat, i);
        if (sel[i] as int) < cat.len() {
            assert(panel_area(cat[sel[i] as int]) >= 0) by (nonlinear_arith);
        }
        lemma_panels_prefix_totals(sel, cat, i + 1);
    }
}

proof fn lemma_batteries_prefix_total(sel: Seq<usize>, cat: Seq<Battery>, i: int)
    requires
        0 <= i <= sel.len(),
    ensures
        batteries_price_sum(sel.take(i), cat) <= batteries_price_sum(sel, cat),
    decreases sel.len() - i,
{
    if i == sel.len() {
        assert(sel.take(i) =~= sel);
    } else {
        lemma_batteries_sum_step(sel, cat, i);
        lemma_batteries_prefix_total(sel, cat, i + 1);
    }
}

proof fn lemma_inverters_prefix_total(sel: Seq<usize>, cat: Seq<Inverter>, i: int)
    requires
        0 <= i <= sel.len(),
    ensures
        inverters_price_sum(sel.take(i), cat) <= inverters_price_sum(sel, cat),
    decreases sel.len() - i,
{
    if i == sel.len() {
        assert(sel.take(i) =~= sel);
    } else {
        lemma_inverters_sum_step(sel, cat, i);
        lemma_inverters_prefix_total(sel, cat, i + 1);
    }
}

/// A project that selects nothing and carries no installation fees
/// aggregates to all zero, whatever the catalog holds.
pub proof fn lemma_empty_selection_zero(proj: Project, lib: Library)
    requires
        proj.panels@.len() == 0,
        proj.batteries@.len() == 0,
        proj.inverters@.len() == 0,
        proj.price_installation_panels == 0,
        proj.price_installation_electricity == 0,
    ensures
        panels_energy_sum(proj.panels@, lib.panels@) == 0,
        panels_area_sum(proj.panels@, lib.panels@) == 0,
        project_price_sum(proj, lib) == 0,
{
}

/// A panel reference that resolves to no catalog entry contributes
/// nothing: the selection aggregates exactly as if the reference were
/// omitted.
pub proof fn lemma_oob_panel_ref_skipped(sel: Seq<usize>, cat: Seq<Panel>, k: int)
    requires
        0 <= k < sel.len(),
        cat.len() <= sel[k],
    ensures
        resolved_panels(sel.remove(k), cat) == resolved_panels(sel, cat),
        panels_energy_sum(sel.remove(k), cat) == panels_energy_sum(sel, cat),
        panels_price_sum(sel.remove(k), cat) == panels_price_sum(sel, cat),
        panels_area_sum(sel.remove(k), cat) == panels_area_sum(sel, cat),
    decreases sel.len(),
{
    if k == sel.len() - 1 {
        assert(sel.remove(k) =~= sel.drop_last());
    } else {
        assert(sel.remove(k).drop_last() =~= sel.drop_last().remove(k));
        assert(sel.remove(k).last() == sel.last());
        lemma_oob_panel_ref_skipped(sel.drop_last(), cat, k);
    }
}

/// The battery counterpart of `lemma_oob_panel_ref_skipped`.
pub proof fn lemma_oob_battery_ref_skipped(sel: Seq<usize>, cat: Seq<Battery>, k: int)
    requires
        0 <= k < sel.len(),
        cat.len() <= sel[k],
    ensures
        resolved_batteries(sel.remove(k), cat) == resolved_batteries(sel, cat),
        batteries_price_sum(sel.remove(k), cat) == batteries_price_sum(sel, cat),
    decreases sel.len(),
{
    if k == sel.len() - 1 {
        assert(sel.remove(k) =~= sel.drop_last());
    } else {
        assert(sel.remove(k).drop_last() =~= sel.drop_last().remove(k));
        assert(sel.remove(k).last() == sel.last());
        lemma_oob_battery_ref_skipped(sel.drop_last(), cat, k);
    }
}

/// The inverter counterpart of `lemma_oob_panel_ref_skipped`.
pub proof fn lemma_oob_inverter_ref_skipped(sel: Seq<usize>, cat: Seq<Inverter>, k: int)
    requires
        0 <= k < sel.len(),
        cat.len() <= sel[k],
    ensures
        resolved_inverters(sel.remove(k), cat) == resolved_inverters(sel, cat),
        inverters_price_sum(sel.remove(k), cat) == inverters_price_sum(sel, cat),
    decreases sel.len(),
{
    if k == sel.len() - 1 {
        assert(sel.remove(k) =~= sel.drop_last());
    } else {
        assert(sel.remove(k).drop_last() =~= sel.drop_last().remove(k));
        assert(sel.remove(k).last() == sel.last());
        lemma_oob_inverter_ref_skipped(sel.drop_last(), cat, k);
    }
}

impl Project {
    /// Aggregates the selected equipment, or `None` when one of the three
    /// running totals would exceed `u64`.
    pub fn try_sum(&self, library: &Library) -> (r: Option<ProjectResult>)
        ensures
            r is Some <==> sum_fits(*self, *library),
            (r matches Some(res) ==> {
                &&& res.energy_sum_wp == panels_energy_sum(self.panels@, library.panels@)
                &&& res.area_sum == panels_area_sum(self.panels@, library.panels@)
                &&& res.price_sum == project_price_sum(*self, *library)
            }),
    {
        let ghost sel_panels = self.panels@;
        let ghost sel_batteries = self.batteries@;
        let ghost sel_inverters = self.inverters@;
        let ghost cat_panels = library.panels@;
        let ghost cat_batteries = library.batteries@;
        let ghost cat_inverters = library.inverters@;

        let mut energy: u64 = 0;
        let mut price: u64 = 0;
        let mut area: u64 = 0;

        let mut i: usize = 0;
        while i < self.panels.len()
            invariant
                0 <= i <= sel_panels.len(),
                self.panels@ == sel_panels,
                self.batteries@ == sel_batteries,
                self.inverters@ == sel_inverters,
                library.panels@ == cat_panels,
                library.batteries@ == cat_batteries,
                library.inverters@ == cat_inverters,
                energy == panels_energy_sum(sel_panels.take(i as int), cat_panels),
                price == panels_price_sum(sel_panels.take(i as int), cat_panels),
                area == panels_area_sum(sel_panels.take(i as int), cat_panels),
            decreases sel_panels.len() - i,
        {
            let idx = self.panels[i];
            proof {
                lemma_panels_sums_step(sel_panels, cat_panels, i as int);
            }
            if idx < library.panels.len() {
                let p = &library.panels[idx];
                proof {
                    assert(p.width_cm * p.height_cm <= u64::MAX) by (nonlinear_arith)
                        requires p.width_cm < 0x1_0000_0000 && p.height_cm < 0x1_0000_0000;
                }
                let panel_area_cm2: u64 = (p.width_cm as u64) * (p.height_cm as u64);
                let new_energy = match energy.checked_add(p.energy_wp) {
                    Some(v) => v,
                    None => {
                        proof {
                            assert(panels_energy_sum(sel_panels.take(i as int + 1), cat_panels)
                                > u64::MAX);
                            lemma_panels_prefix_totals(sel_panels, cat_panels, i + 1);
                        }
                        return None;
                    },
                };
                let new_price = match price.checked_add(p.price) {
                    Some(v) => v,
                    None => {
                        proof {
                            assert(panels_price_sum(sel_panels.take(i as int + 1), cat_panels)
                                > u64::MAX);
                            lemma_panels_prefix_totals(sel_panels, cat_panels, i + 1);
                            lemma_batteries_price_total_nonneg(
                                resolved_batteries(sel_batteries, cat_batteries),
                            );
                            lemma_inverters_price_total_nonneg(
                                resolved_inverters(sel_inverters, cat_inverters),
                            );
                        }
                        return None;
                    },
                };
                let new_area = match area.checked_add(panel_area_cm2) {
                    Some(v) => v,
                    None => {
                        proof {
                            assert(panels_area_sum(sel_panels.take(i as int + 1), cat_panels)
                                > u64::MAX);
                            lemma_panels_prefix_totals(sel_panels, cat_panels, i + 1);
                        }
                        return None;
                    },
                };
                energy = new_energy;
                price = new_price;
                area = new_area;
            }
            i += 1;
        }
        proof {
            assert(sel_panels.take(sel_panels.len() as int) =~= sel_panels);
        }

        let mut j: usize = 0;
        while j < self.batteries.len()
            invariant
                0 <= j <= sel_batteries.len(),
                self.panels@ == sel_panels,
                self.batteries@ == sel_batteries,
                self.inverters@ == sel_inverters,
                library.panels@ == cat_panels,
                library.batteries@ == cat_batteries,
                library.inverters@ == cat_inverters,
                energy == panels_energy_sum(sel_panels, cat_panels),
                area == panels_area_sum(sel_panels, cat_panels),
                price == panels_price_sum(sel_panels, cat_panels)
                    + batteries_price_sum(sel_batteries.take(j as int), cat_batteries),
            decreases sel_batteries.len() - j,
        {
            let idx = self.batteries[j];
            proof {
                lemma_batteries_sum_step(sel_batteries, cat_batteries, j as int);
            }
            if idx < library.batteries.len() {
                let b = &library.batteries[idx];
                price = match price.checked_add(b.price) {
                    Some(v) => v,
                    None => {
                        proof {
                            assert(panels_price_sum(sel_panels, cat_panels)
                                + batteries_price_sum(sel_batteries.take(j as int + 1), cat_batteries)
                                > u64::MAX);
                            lemma_batteries_prefix_total(sel_batteries, cat_batteries, j + 1);
                            lemma_inverters_price_total_nonneg(
                                resolved_inverters(sel_inverters, cat_inverters),
                            );
                        }
                        return None;
                    },
                };
            }
            j += 1;
        }
        proof {
            assert(sel_batteries.take(sel_batteries.len() as int) =~= sel_batteries);
        }

        let mut k: usize = 0;
        while k < self.inverters.len()
            invariant
                0 <= k <= sel_inverters.len(),
                self.panels@ == sel_panels,
                self.batteries@ == sel_batteries,
                self.inverters@ == sel_inverters,
                library.panels@ == cat_panels,
                library.batteries@ == cat_batteries,
                library.inverters@ == cat_inverters,
                energy == panels_energy_sum(sel_panels, cat_panels),
                area == panels_area_sum(sel_panels, cat_panels),
                price == panels_price_sum(sel_panels, cat_panels)
                    + batteries_price_sum(sel_batteries, cat_batteries)
                    + inverters_price_sum(sel_inverters.take(k as int), cat_inverters),
            decreases sel_inverters.len() - k,
        {
            let idx = self.inverters[k];
            proof {
                lemma_inverters_sum_step(sel_inverters, cat_inverters, k as int);
            }
            if idx < library.inverters.len() {
                let v = &library.inverters[idx];
                price = match price.checked_add(v.price) {
                    Some(p) => p,
                    None => {
                        proof {
                            assert(panels_price_sum(sel_panels, cat_panels)
                                + batteries_price_sum(sel_batteries, cat_batteries)
                                + inverters_price_sum(sel_inverters.take(k as int + 1), cat_inverters)
                                > u64::MAX);
                            lemma_inverters_prefix_total(sel_inverters, cat_inverters, k + 1);
                        }
                        return None;
                    },
                };
            }
            k += 1;
        }
        proof {
            assert(sel_inverters.take(sel_inverters.len() as int) =~= sel_inverters);
        }

        let price = match price.checked_add(self.price_installation_panels) {
            Some(p) => p,
            None => {
                return None;
            },
        };
        let price = match price.checked_add(self.price_installation_electricity) {
            Some(p) => p,
            None => {
                return None;
            },
        };
        Some(ProjectResult { energy_sum_wp: energy, price_sum: price, area_sum: area })
    }

    /// Aggregates the selected equipment: summed rated power, summed cost
    /// (equipment plus both installation fees), and summed panel area.
    /// Positions with no catalog entry are skipped.
    pub fn sum(&self, library: &Library) -> (r: ProjectResult)
        requires
            sum_fits(*self, *library),
        ensures
            r.energy_sum_wp == panels_energy_sum(self.panels@, library.panels@),
            r.area_sum == panels_area_sum(self.panels@, library.panels@),
            r.price_sum == project_price_sum(*self, *library),
    {
        match self.try_sum(library) {
            Some(r) => r,
            None => unreached(),
        }
    }
}

} // verus!
