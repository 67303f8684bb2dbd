use pvcalc::catalog::retarget_selection;
use pvcalc::components::{Battery, Inverter, Library, Panel, Project};

fn panel(name: &str, price: u64, energy_wp: u64) -> Panel {
    Panel {
        brand: String::from("Acme"),
        model: String::from(name),
        width_cm: 100,
        height_cm: 100,
        price,
        energy_wp,
    }
}

fn three_panel_catalog() -> Library {
    Library {
        panels: vec![panel("a", 1_000_000, 100), panel("b", 2_000_000, 200), panel(
            "c",
            3_000_000,
            300,
        )],
        batteries: vec![
            Battery {
                brand: String::from("Acme"),
                model: String::from("x"),
                price: 4_000_000,
                energy_ahr: 100,
                voltage: 48,
            },
            Battery {
                brand: String::from("Acme"),
                model: String::from("y"),
                price: 5_000_000,
                energy_ahr: 200,
                voltage: 48,
            },
        ],
        inverters: vec![
            Inverter {
                brand: String::from("Acme"),
                model: String::from("u"),
                price: 6_000_000,
                max_power_w: 5000,
                power_out_w: 4600,
            },
            Inverter {
                brand: String::from("Acme"),
                model: String::from("v"),
                price: 7_000_000,
                max_power_w: 8000,
                power_out_w: 7400,
            },
        ],
    }
}

#[test]
fn retargeting_drops_and_shifts_references() {
    let mut sel: Vec<usize> = vec![0, 1, 2, 2, 1, 0];
    retarget_selection(&mut sel, 1);
    assert_eq!(sel, vec![0, 1, 1, 0]);
}

#[test]
fn retargeting_an_unreferenced_position_only_shifts() {
    let mut sel: Vec<usize> = vec![0, 2];
    retarget_selection(&mut sel, 1);
    assert_eq!(sel, vec![0, 1]);
}

#[test]
fn removal_with_retargeting_preserves_later_references() {
    let mut lib = three_panel_catalog();
    let mut project = Project::default();
    project.panels = vec![0, 2];
    project.price_installation_panels = 0;
    project.price_installation_electricity = 0;
    let before = project.sum(&lib);
    assert_eq!(before.energy_sum_wp, 100 + 300);

    let removed = lib.remove_panel(1);
    assert_eq!(removed.model, "b");
    retarget_selection(&mut project.panels, 1);
    assert_eq!(project.panels, vec![0, 1]);

    // Both remaining references still resolve to the panels they named.
    let after = project.sum(&lib);
    assert_eq!(after.energy_sum_wp, 100 + 300);
    assert_eq!(after.price_sum, 1_000_000 + 3_000_000);
}

#[test]
fn removal_drops_references_to_the_removed_panel() {
    let mut lib = three_panel_catalog();
    let mut project = Project::default();
    project.panels = vec![1, 2, 1];
    project.price_installation_panels = 0;
    project.price_installation_electricity = 0;

    lib.remove_panel(1);
    retarget_selection(&mut project.panels, 1);
    assert_eq!(project.panels, vec![1]);
    let res = project.sum(&lib);
    assert_eq!(res.energy_sum_wp, 300);
    assert_eq!(res.price_sum, 3_000_000);
}

#[test]
fn battery_removal_keeps_other_kinds_intact() {
    let mut lib = three_panel_catalog();
    let mut project = Project::default();
    project.panels = vec![0];
    project.batteries = vec![0, 1];
    project.inverters = vec![1];
    project.price_installation_panels = 0;
    project.price_installation_electricity = 0;

    let removed = lib.remove_battery(0);
    assert_eq!(removed.model, "x");
    retarget_selection(&mut project.batteries, 0);
    assert_eq!(project.batteries, vec![0]);

    let res = project.sum(&lib);
    assert_eq!(res.energy_sum_wp, 100);
    assert_eq!(res.price_sum, 1_000_000 + 5_000_000 + 7_000_000);
}

#[test]
fn inverter_removal_retargets_references() {
    let mut lib = three_panel_catalog();
    let mut project = Project::default();
    project.inverters = vec![0, 1];
    project.price_installation_panels = 0;
    project.price_installation_electricity = 0;

    lib.remove_inverter(0);
    retarget_selection(&mut project.inverters, 0);
    assert_eq!(project.inverters, vec![0]);

    let res = project.sum(&lib);
    assert_eq!(res.price_sum, 7_000_000);
}
