//! Irradiance-source conversions.
//!
//! The online weather source hands back shortwave radiation, an ambient
//! temperature, a weather code and a day flag; this module turns those
//! plain readings into the same estimate shape the offline pipeline
//! produces, using the NOCT cell-temperature shortcut and the standard
//! temperature-derated power rule.  Fetching itself is I/O and happens
//! outside the library; on any fetch failure the caller falls back to the
//! offline estimator.

use vstd::prelude::*;

use crate::estimator::OfflineEstimate;
use crate::fp::ONE;
use crate::fp::in_range;
use crate::fp::fadd_s;
use crate::fp::fsub_s;
use crate::fp::fmul_s;
use crate::fp::fdivi_s;
use crate::fp::fmuldiv_s;
use crate::fp::fmax_s;
use crate::fp::fmin_s;
use crate::fp::fadd;
use crate::fp::fsub;
use crate::fp::fmul;
use crate::fp::fdivi;
use crate::fp::fmuldiv;
use crate::fp::fmax;
use crate::fp::fmin;

verus! {

/// P = P_nom (G / 1000) (1 - 0.004 (T_cell - 25)), floored at zero.
pub open spec fn power_from_radiation_s(g: int, pnom: int, cell: int) -> int {
    fmax_s(
        fmul_s(
            fmul_s(pnom, fdivi_s(g, 1_000)),
            fsub_s(ONE as int, fmuldiv_s(4, fsub_s(cell, 25_000_000), 1_000)),
        ),
        0,
    )
}

/// DC power from plane irradiance with the temperature derating.
pub fn estimate_power_kw_from_radiation(g_w_m2: i64, nominal_power_kw: i64, cell_temp_c: i64) -> (
    p: i64)
    requires
        in_range(g_w_m2 as int),
        in_range(nominal_power_kw as int),
        in_range(cell_temp_c as int),
    ensures
        p == power_from_radiation_s(g_w_m2 as int, nominal_power_kw as int, cell_temp_c as int),
        p >= 0,
        in_range(p as int),
{
    fmax(
        fmul(
            fmul(nominal_power_kw, fdivi(g_w_m2, 1_000)),
            fsub(ONE, fmuldiv(4, fsub(cell_temp_c, 25_000_000), 1_000)),
        ),
        0,
    )
}

/// T_cell = T_ambient + (NOCT - 20) G / 800 with NOCT = 45 C.
pub open spec fn cell_temperature_s(amb: int, g: int) -> int {
    fadd_s(amb, fmuldiv_s(25, g, 800))
}

/// NOCT cell-temperature shortcut.
pub fn estimate_cell_temperature(ambient_temp_c: i64, g_w_m2: i64) -> (t: i64)
    requires
        in_range(ambient_temp_c as int),
        in_range(g_w_m2 as int),
    ensures
        t == cell_temperature_s(ambient_temp_c as int, g_w_m2 as int),
        in_range(t as int),
{
    fadd(ambient_temp_c, fmuldiv(25, g_w_m2, 800))
}

/// Build an estimate out of one online weather reading: the cell
/// temperature through the NOCT shortcut, the power through the derated
/// irradiance rule, a zero elevation, and the cloud factor approximated
/// as min(1, G / 1000); wind, humidity and soiling sit at their neutral
/// values.
pub fn online_estimate(
    g_w_m2: i64,
    ambient_temp_c: i64,
    weather_code: u16,
    is_day: bool,
    nominal_power_kw: i64,
) -> (r: OfflineEstimate)
    requires
        0 <= g_w_m2 <= 2_000_000_000,
        -100_000_000 <= ambient_temp_c <= 100_000_000,
        0 < nominal_power_kw <= 100_000_000_000,
    ensures
        r.cell_temp_c == cell_temperature_s(ambient_temp_c as int, g_w_m2 as int),
        r.power_kw == power_from_radiation_s(
            g_w_m2 as int,
            nominal_power_kw as int,
            r.cell_temp_c as int,
        ),
        r.power_kw >= 0,
        r.ghi_w_m2 == g_w_m2,
        r.ambient_temp_c == ambient_temp_c,
        r.weather_code == weather_code,
        r.is_day == is_day,
        r.solar_elevation_deg == 0,
        r.cloud_factor as int == fmax_s(
            fmin_s(ONE as int, fdivi_s(g_w_m2 as int, 1_000)),
            50_000,
        ),
        50_000 <= r.cloud_factor <= ONE,
        300_000 <= r.wind_speed_m_s <= 18_000_000,
        15_000_000 <= r.relative_humidity_pct <= 98_000_000,
        850_000 <= r.soiling_factor <= ONE,
        in_range(r.power_kw as int),
        in_range(r.ghi_w_m2 as int),
        in_range(r.cell_temp_c as int),
        in_range(r.ambient_temp_c as int),
        in_range(r.solar_elevation_deg as int),
{
    let cell = estimate_cell_temperature(ambient_temp_c, g_w_m2);
    let power = estimate_power_kw_from_radiation(g_w_m2, nominal_power_kw, cell);
    let cf = fmax(fmin(ONE, fdivi(g_w_m2, 1_000)), 50_000);
    OfflineEstimate {
        power_kw: power,
        ghi_w_m2: g_w_m2,
        cell_temp_c: cell,
        ambient_temp_c,
        weather_code,
        is_day,
        cloud_factor: cf,
        solar_elevation_deg: 0,
        wind_speed_m_s: 2_000_000,
        relative_humidity_pct: 50_000_000,
        soiling_factor: ONE,
    }
}

} // verus!
