use popl::util::{
    fps_to_sps, mph_to_fps, row_feet_to_acres, rpm_to_seed_per_second, seed_per_ticks,
    sps_from_tickrate, sps_to_fps, sps_to_mph, sps_to_tickrate, ticks_per_pick, SCALE,
};

fn whole(x: u64) -> f64 {
    x as f64 / SCALE as f64
}

#[test]
fn test() {
    let x = sps_to_fps(10 * SCALE, 12 * SCALE);
    assert_eq!(x, 10 * SCALE);

    let x = sps_to_mph(10 * SCALE, 12 * SCALE);
    assert!((whole(x) - 6.8166327).abs() < 1e-4);

    assert_eq!(mph_to_fps(10 * SCALE), 14_670_000);

    assert!(sps_to_mph(10 * SCALE, 12 * SCALE) > sps_to_mph(10 * SCALE, 10 * SCALE));
}

#[test]
fn mph_to_fps_and_equal_spacing() {
    assert_eq!(mph_to_fps(10 * SCALE), 14_670_000);
    assert_eq!(fps_to_sps(14_670_000, 12 * SCALE), 14_670_000);
}

#[test]
fn sps_to_mph_close_to_float_value() {
    let r = sps_to_mph(10 * SCALE, 12 * SCALE);
    assert_eq!(r, 6_816_633);
    assert!((whole(r) - 6.8166327).abs() < 1e-4);
}

#[test]
fn seed_per_ticks_of_one_pick_is_one_seed() {
    assert_eq!(ticks_per_pick(), 14_166_667);
    assert_eq!(seed_per_ticks(ticks_per_pick()), SCALE);
}

#[test]
fn conversion_exact_values() {
    assert_eq!(row_feet_to_acres(14_520 * SCALE), SCALE);
    assert_eq!(row_feet_to_acres(7_260 * SCALE), SCALE / 2);
    assert_eq!(rpm_to_seed_per_second(24 * SCALE), 60 * SCALE);
    assert_eq!(sps_to_tickrate(SCALE), 14);
    assert_eq!(sps_to_tickrate(24 * SCALE), 340);
    assert_eq!(sps_from_tickrate(340), 24 * SCALE);
    assert_eq!(sps_from_tickrate(0), 0);
    assert_eq!(fps_to_sps(10 * SCALE, 10 * SCALE), 12 * SCALE);
    assert_eq!(sps_to_fps(12 * SCALE, 10 * SCALE), 10 * SCALE);
}

#[test]
fn conversions_round_to_nearest() {
    // 1 / 3 of a millionth-ft/s rounds down, 2 / 3 rounds up.
    assert_eq!(fps_to_sps(1, 36 * SCALE), 0);
    assert_eq!(fps_to_sps(2, 36 * SCALE), 1);
    // Halves round up.
    assert_eq!(rpm_to_seed_per_second(1), 3);
}

#[test]
fn conversions_saturate() {
    assert_eq!(mph_to_fps(u64::MAX), u64::MAX);
    assert_eq!(fps_to_sps(u64::MAX, 1), u64::MAX);
    assert_eq!(sps_to_tickrate(u64::MAX), u32::MAX);
    assert_eq!(sps_to_fps(0, u64::MAX), 0);
}
