use pvcalc::components::{Battery, Inverter, Library, Panel, Project};

fn panel(price: u64, energy_wp: u64, width_cm: u32, height_cm: u32) -> Panel {
    Panel {
        brand: String::from("Acme"),
        model: String::from("P"),
        width_cm,
        height_cm,
        price,
        energy_wp,
    }
}

fn battery(price: u64) -> Battery {
    Battery {
        brand: String::from("Acme"),
        model: String::from("B"),
        price,
        energy_ahr: 100,
        voltage: 48,
    }
}

fn inverter(price: u64) -> Inverter {
    Inverter {
        brand: String::from("Acme"),
        model: String::from("I"),
        price,
        max_power_w: 5000,
        power_out_w: 4600,
    }
}

fn catalog() -> Library {
    Library {
        panels: vec![panel(2_000_000, 350, 170, 100), panel(1_500_000, 300, 160, 100)],
        batteries: vec![battery(8_000_000)],
        inverters: vec![inverter(12_000_000)],
    }
}

#[test]
fn empty_selection_no_fees_is_all_zero() {
    let lib = catalog();
    let mut project = Project::default();
    project.price_installation_panels = 0;
    project.price_installation_electricity = 0;
    let res = project.sum(&lib);
    assert_eq!(res.energy_sum_wp, 0);
    assert_eq!(res.price_sum, 0);
    assert_eq!(res.area_sum, 0);
}

#[test]
fn empty_selection_costs_exactly_the_fees() {
    let lib = catalog();
    let project = Project::default();
    let res = project.sum(&lib);
    assert_eq!(res.energy_sum_wp, 0);
    assert_eq!(res.area_sum, 0);
    assert_eq!(res.price_sum, 20_000_000 + 30_000_000);
}

#[test]
fn single_panel_scenario() {
    let lib = catalog();
    let mut project = Project::default();
    project.panels = vec![0];
    project.price_installation_panels = 0;
    project.price_installation_electricity = 0;
    let res = project.sum(&lib);
    assert_eq!(res.energy_sum_wp, 350);
    assert_eq!(res.price_sum, 2_000_000);
    assert_eq!(res.area_sum, 170 * 100);
}

#[test]
fn duplicates_count_twice() {
    let lib = catalog();
    let mut project = Project::default();
    project.panels = vec![0, 0, 1];
    project.price_installation_panels = 0;
    project.price_installation_electricity = 0;
    let res = project.sum(&lib);
    assert_eq!(res.energy_sum_wp, 350 + 350 + 300);
    assert_eq!(res.price_sum, 2_000_000 + 2_000_000 + 1_500_000);
    assert_eq!(res.area_sum, 17_000 + 17_000 + 16_000);
}

#[test]
fn out_of_bounds_references_are_skipped() {
    let lib = catalog();
    let mut with_oob = Project::default();
    with_oob.panels = vec![0, 7, 1, 99];
    with_oob.batteries = vec![5];
    with_oob.inverters = vec![0, 3];
    let mut without = Project::default();
    without.panels = vec![0, 1];
    without.batteries = vec![];
    without.inverters = vec![0];
    let res_with = with_oob.sum(&lib);
    let res_without = without.sum(&lib);
    assert_eq!(res_with, res_without);
}

#[test]
fn batteries_and_inverters_add_cost_only() {
    let lib = catalog();
    let mut project = Project::default();
    project.panels = vec![1];
    project.batteries = vec![0];
    project.inverters = vec![0];
    project.price_installation_panels = 1_000_000;
    project.price_installation_electricity = 500_000;
    let res = project.sum(&lib);
    assert_eq!(res.energy_sum_wp, 300);
    assert_eq!(res.area_sum, 16_000);
    assert_eq!(res.price_sum, 1_500_000 + 8_000_000 + 12_000_000 + 1_000_000 + 500_000);
}

#[test]
fn a_freshly_added_blank_panel_contributes_nothing() {
    let mut lib = catalog();
    lib.panels.push(Panel::default());
    let mut project = Project::default();
    project.panels = vec![2];
    project.price_installation_panels = 0;
    project.price_installation_electricity = 0;
    let res = project.sum(&lib);
    assert_eq!(res.energy_sum_wp, 0);
    assert_eq!(res.price_sum, 0);
    assert_eq!(res.area_sum, 0);
}

#[test]
fn try_sum_reports_overflow_as_none() {
    let lib = Library {
        panels: vec![panel(u64::MAX, 1, 1, 1), panel(u64::MAX, 1, 1, 1)],
        batteries: vec![],
        inverters: vec![],
    };
    let mut project = Project::default();
    project.panels = vec![0, 1];
    assert!(project.try_sum(&lib).is_none());
}

#[test]
fn try_sum_agrees_with_sum_when_it_fits() {
    let lib = catalog();
    let mut project = Project::default();
    project.panels = vec![0, 1];
    project.batteries = vec![0];
    let res = project.try_sum(&lib).expect("fits comfortably");
    assert_eq!(res, project.sum(&lib));
}
