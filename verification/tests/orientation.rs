use pvcalc::orientation::{efficiency, IDEAL_TILT_DEG};

#[test]
fn ideal_orientation_and_tilt_give_full_efficiency() {
    assert_eq!(IDEAL_TILT_DEG, 35);
    assert_eq!(efficiency(0, 35), 1000);
}

#[test]
fn exact_curve_values() {
    assert_eq!(efficiency(0, 0), 860);
    assert_eq!(efficiency(0, 90), 780);
    assert_eq!(efficiency(90, 35), 775);
    assert_eq!(efficiency(180, 35), 550);
    assert_eq!(efficiency(45, 20), 834);
}

#[test]
fn worst_case_stays_within_bounds() {
    let worst = efficiency(180, 90);
    assert_eq!(worst, 429);
    assert!(worst <= 1000);
}

#[test]
fn factor_degrades_away_from_south() {
    let mut previous = efficiency(0, 35);
    for orientation in 1..=180 {
        let current = efficiency(orientation, 35);
        assert!(current <= previous);
        previous = current;
    }
}

#[test]
fn factor_degrades_away_from_the_ideal_tilt() {
    for step in 1..=35 {
        assert!(efficiency(0, 35 - step) <= efficiency(0, 35 - step + 1));
    }
    for step in 1..=55 {
        assert!(efficiency(0, 35 + step) <= efficiency(0, 35 + step - 1));
    }
}
