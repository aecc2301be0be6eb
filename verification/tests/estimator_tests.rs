use solar_panel_sim::clock::UtcTime;
use solar_panel_sim::estimator::estimate;

const ONE: i64 = 1_000_000;

fn turin(hour: u32, month: u32, day: u32) -> UtcTime {
    UtcTime { year: 2025, month, day, hour, minute: 0, second: 0 }
}

#[test]
fn test_summer_noon_italy() {
    // Turin, Italy - summer solstice noon local clock (09:00 UTC)
    let t = turin(9, 6, 21);
    let r = estimate(45_070_000, 7_330_000, 1000 * ONE, &t);
    assert!(
        r.solar_elevation_deg > 60 * ONE,
        "Elevation should be >60 deg at summer noon, got {}",
        r.solar_elevation_deg
    );
    assert!(r.ghi_w_m2 > 400 * ONE, "GHI should be significant, got {}", r.ghi_w_m2);
    assert!(r.power_kw > 200 * ONE, "Power should be significant, got {}", r.power_kw);
}

#[test]
fn test_midnight_zero() {
    // Power at midnight must be 0
    let t = turin(22, 6, 21);
    let r = estimate(45_070_000, 7_330_000, 1000 * ONE, &t);
    assert_eq!(r.power_kw, 0, "Power at night must be 0");
}

#[test]
fn test_winter_solstice() {
    // Turin, winter solstice near solar noon
    let t = turin(11, 12, 21);
    let r = estimate(45_070_000, 7_330_000, 1000 * ONE, &t);
    assert!(
        r.solar_elevation_deg > 15 * ONE && r.solar_elevation_deg < 35 * ONE,
        "Winter elevation should be 15-35 deg, got {}",
        r.solar_elevation_deg
    );
}

#[test]
fn estimate_is_deterministic() {
    let t = turin(10, 3, 15);
    let a = estimate(45_070_000, 7_330_000, 500 * ONE, &t);
    let b = estimate(45_070_000, 7_330_000, 500 * ONE, &t);
    assert_eq!(a, b);
}

#[test]
fn night_means_no_power_and_no_day_flag() {
    let t = turin(1, 6, 21);
    let r = estimate(45_070_000, 7_330_000, 1000 * ONE, &t);
    assert!(r.solar_elevation_deg <= 0);
    assert_eq!(r.power_kw, 0);
    assert!(!r.is_day);
}

#[test]
fn estimate_outputs_stay_in_their_bands() {
    for (lat, lon) in [
        (45_070_000i64, 7_330_000i64),
        (-33_860_000, 151_200_000),
        (0, 0),
        (68_000_000, 20_000_000),
    ] {
        for hour in [0u32, 6, 12, 18] {
            let t = turin(hour, 4, 10);
            let r = estimate(lat, lon, 250 * ONE, &t);
            assert!(r.cloud_factor >= 50_000 && r.cloud_factor <= ONE);
            assert!(r.wind_speed_m_s >= 300_000 && r.wind_speed_m_s <= 18 * ONE);
            assert!(r.relative_humidity_pct >= 15 * ONE && r.relative_humidity_pct <= 98 * ONE);
            assert!(r.soiling_factor >= 850_000 && r.soiling_factor <= ONE);
            assert!(r.power_kw >= 0);
            assert!(r.ghi_w_m2 >= 0);
        }
    }
}

#[test]
fn southern_hemisphere_winter_is_northern_summer() {
    // Sydney in late June sits low; in late December it sits high.
    let june = turin(2, 6, 21);
    let december = turin(2, 12, 21);
    let sydney_june = estimate(-33_860_000, 151_200_000, 1000 * ONE, &june);
    let sydney_december = estimate(-33_860_000, 151_200_000, 1000 * ONE, &december);
    assert!(sydney_december.solar_elevation_deg > sydney_june.solar_elevation_deg);
}
