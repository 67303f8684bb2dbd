//! Derating of a panel's yield by its orientation and tilt.
//!
//! The curve is a design choice of this crate: a linear falloff in the
//! azimuth deviation from due south, times a linear falloff in the tilt's
//! distance from an ideal angle, both in per-mille.  The factor peaks at
//! 1000 (no derating) for a panel facing due south at the ideal tilt, it
//! degrades monotonically away from that point, and it always stays within
//! 0..=1000.

use vstd::prelude::*;

verus! {

/// Tilt from horizontal, in degrees, at which the curve peaks.
pub const IDEAL_TILT_DEG: u64 = 35;

/// Azimuth derating in per mille: 1000 when facing due south, falling
/// linearly to 550 when facing due north.
pub open spec fn spec_orientation_factor(orientation_deg: int) -> int {
    1000 - orientation_deg * 5 / 2
}

/// How far a tilt is from the ideal tilt, in degrees.
pub open spec fn spec_tilt_distance(tilt_deg: int) -> int {
    if tilt_deg >= IDEAL_TILT_DEG {
        tilt_deg - IDEAL_TILT_DEG
    } else {
        IDEAL_TILT_DEG - tilt_deg
    }
}

/// Tilt derating in per mille: 1000 at the ideal tilt, falling linearly by
/// 4 per degree of distance from it.
pub open spec fn spec_tilt_factor(tilt_deg: int) -> int {
    1000 - 4 * spec_tilt_distance(tilt_deg)
}

/// The combined multiplicative derating factor, in per mille.
pub open spec fn spec_efficiency(orientation_deg: int, tilt_deg: int) -> int {
    spec_orientation_factor(orientation_deg) * spec_tilt_factor(tilt_deg) / 1000
}

/// The derating factor for a panel deviating `orientation_deg` degrees from
/// due south and tilted `tilt_deg` degrees from horizontal, in per mille.
pub fn efficiency(orientation_deg: u64, tilt_deg: u64) -> (factor: u64)
    requires
        orientation_deg <= 180,
        tilt_deg <= 90,
    ensures
        factor == spec_efficiency(orientation_deg as int, tilt_deg as int),
        factor <= 1000,
{
    let orientation_factor: u64 = 1000 - orientation_deg * 5 / 2;
    let distance: u64 = if tilt_deg >= IDEAL_TILT_DEG {
        tilt_deg - IDEAL_TILT_DEG
    } else {
        IDEAL_TILT_DEG - tilt_deg
    };
    let tilt_factor: u64 = 1000 - 4 * distance;
    proof {
        lemma_factor_bounds(orientation_deg as int, tilt_deg as int);
        assert(orientation_factor * tilt_factor <= 1000 * 1000) by (nonlinear_arith)
            requires
                orientation_factor <= 1000,
                tilt_factor <= 1000;
        vstd::arithmetic::div_mod::lemma_div_is_ordered(
            orientation_factor * tilt_factor,
            1000000,
            1000,
        );
    }
    orientation_factor * tilt_factor / 1000
}

/// Both partial factors stay within 0..=1000 on the documented domain.
proof fn lemma_factor_bounds(orientation_deg: int, tilt_deg: int)
    requires
        0 <= orientation_deg <= 180,
        0 <= tilt_deg <= 90,
    ensures
        550 <= spec_orientation_factor(orientation_deg) <= 1000,
        780 <= spec_tilt_factor(tilt_deg) <= 1000,
{
    assert(0 <= orientation_deg * 5 / 2 <= 450) by (nonlinear_arith)
        requires 0 <= orientation_deg <= 180;
}

/// The combined factor is a derating: it never leaves 0..=1000.
pub proof fn lemma_efficiency_bounded(orientation_deg: int, tilt_deg: int)
    requires
        0 <= orientation_deg <= 180,
        0 <= tilt_deg <= 90,
    ensures
        0 <= spec_efficiency(orientation_deg, tilt_deg) <= 1000,
{
    lemma_factor_bounds(orientation_deg, tilt_deg);
    assert(0 <= spec_orientation_factor(orientation_deg) * spec_tilt_factor(tilt_deg)
        <= 1000 * 1000) by (nonlinear_arith)
        requires
            550 <= spec_orientation_factor(orientation_deg) <= 1000,
            780 <= spec_tilt_factor(tilt_deg) <= 1000;
}

/// Turning further away from due south never improves the factor.
pub proof fn lemma_efficiency_orientation_monotone(o1: int, o2: int, tilt_deg: int)
    requires
        0 <= o1 <= o2 <= 180,
        0 <= tilt_deg <= 90,
    ensures
        spec_efficiency(o2, tilt_deg) <= spec_efficiency(o1, tilt_deg),
{
    lemma_factor_bounds(o1, tilt_deg);
    lemma_factor_bounds(o2, tilt_deg);
    let tf = spec_tilt_factor(tilt_deg);
    assert(spec_orientation_factor(o2) <= spec_orientation_factor(o1)) by (nonlinear_arith)
        requires 0 <= o1 <= o2;
    assert(spec_orientation_factor(o2) * tf <= spec_orientation_factor(o1) * tf)
        by (nonlinear_arith)
        requires
            spec_orientation_factor(o2) <= spec_orientation_factor(o1),
            tf >= 0;
    vstd::arithmetic::div_mod::lemma_div_is_ordered(
        spec_orientation_factor(o2) * tf,
        spec_orientation_factor(o1) * tf,
        1000,
    );
}

/// Moving the tilt further from the ideal angle never improves the factor.
pub proof fn lemma_efficiency_tilt_monotone(orientation_deg: int, t1: int, t2: int)
    requires
        0 <= orientation_deg <= 180,
        0 <= t1 <= 90,
        0 <= t2 <= 90,
        spec_tilt_distance(t1) <= spec_tilt_distance(t2),
    ensures
        spec_efficiency(orientation_deg, t2) <= spec_efficiency(orientation_deg, t1),
{
    lemma_factor_bounds(orientation_deg, t1);
    lemma_factor_bounds(orientation_deg, t2);
    let of = spec_orientation_factor(orientation_deg);
    assert(of * spec_tilt_factor(t2) <= of * spec_tilt_factor(t1)) by (nonlinear_arith)
        requires
            spec_tilt_factor(t2) <= spec_tilt_factor(t1),
            of >= 0;
    vstd::arithmetic::div_mod::lemma_div_is_ordered(
        of * spec_tilt_factor(t2),
        of * spec_tilt_factor(t1),
        1000,
    );
}

} // verus!
