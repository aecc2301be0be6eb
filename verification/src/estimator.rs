//! Offline solar irradiance and power estimation.
//!
//! The pipeline runs solar geometry (Spencer declination and equation of
//! time, hour angle, elevation, azimuth), a simplified Bird & Hulstrom
//! clear-sky model with Kasten-Young air mass, fixed-tilt transposition,
//! climatological cloud, temperature, wind, humidity and soiling models,
//! and the Faiman cell-temperature and power laws.  Everything is computed
//! in micro-units, so the estimate is a pure function of its inputs: the
//! same place, rating and instant give bit-identical output on any
//! machine.  The fleet's civil clock is modelled as the longitude's
//! standard-meridian time plus two hours (a central-European summer
//! clock), which places solar noon near 14:00 on that clock.

use vstd::prelude::*;

use crate::fp::ONE;
use crate::fp::PI_FP;
use crate::fp::TWO_PI_FP;
use crate::fp::in_range;
use crate::fp::fadd_s;
use crate::fp::fsub_s;
use crate::fp::fmul_s;
use crate::fp::fdiv_s;
use crate::fp::fdivi_s;
use crate::fp::fscale_s;
use crate::fp::fmuldiv_s;
use crate::fp::fmin_s;
use crate::fp::fmax_s;
use crate::fp::fabs_s;
use crate::fp::fclamp_s;
use crate::fp::round_div_s;
use crate::fp::emod_s;
use crate::fp::fadd;
use crate::fp::fsub;
use crate::fp::fmul;
use crate::fp::fdiv;
use crate::fp::fdivi;
use crate::fp::fscale;
use crate::fp::fmuldiv;
use crate::fp::fmin;
use crate::fp::fmax;
use crate::fp::fabs;
use crate::fp::fclamp;
use crate::fp::round_div;
use crate::fp::emod;
use crate::trig::sin_s;
use crate::trig::cos_s;
use crate::trig::asin_s;
use crate::trig::acos_s;
use crate::trig::sin_fp;
use crate::trig::cos_fp;
use crate::trig::asin_fp;
use crate::trig::acos_fp;
use crate::explog::exp_s;
use crate::explog::ln_s;
use crate::explog::powf_s;
use crate::explog::exp_fp;
use crate::explog::ln_fp;
use crate::explog::powf_fp;
use crate::noise::seed3_s;
use crate::noise::noise_unit_s;
use crate::noise::seed3;
use crate::noise::noise_unit;
use crate::noise::signed_of_s;
use crate::noise::signed_of;
use crate::clock::UtcTime;
use crate::clock::valid_time_s;
use crate::clock::day_of_year_s;
use crate::clock::micro_hour_s;
use crate::clock::day_of_year;
use crate::clock::micro_hour;

verus! {

/// Mixing multiplier for the daily turbidity noise.
pub const TURB_MIX: u64 = 0x517cc1b727220a95;

/// Mixing multiplier for the five-minute cloud transient.
pub const TRANS_MIX: u64 = 0x9e3779b97f4a7c15;

/// Mixing multiplier for the daily synoptic wind factor.
pub const WIND_MIX: u64 = 0x6c62272e07bb0142;

/// One estimator output, all telemetry in micro-units.
#[derive(Clone, Copy, Debug, PartialEq, Eq, Structural)]
pub struct OfflineEstimate {
    /// DC power the array would feed into the inverter (micro-kW).
    pub power_kw: i64,
    /// Realised plane-of-array irradiance (micro-W/m2).
    pub ghi_w_m2: i64,
    /// Cell temperature (micro-degC).
    pub cell_temp_c: i64,
    /// Ambient temperature (micro-degC).
    pub ambient_temp_c: i64,
    /// WMO-style weather code.
    pub weather_code: u16,
    pub is_day: bool,
    /// Cloud attenuation factor (micro, 0.05 to 1).
    pub cloud_factor: i64,
    /// Solar elevation (micro-degrees).
    pub solar_elevation_deg: i64,
    /// Wind speed at 10 m (micro-m/s, 0.3 to 18).
    pub wind_speed_m_s: i64,
    /// Relative humidity (micro-percent, 15 to 98).
    pub relative_humidity_pct: i64,
    /// Panel soiling factor (micro, 0.85 to 1).
    pub soiling_factor: i64,
}

pub open spec fn valid_lat_s(lat: int) -> bool {
    -90_000_000 <= lat <= 90_000_000
}

pub open spec fn valid_lon_s(lon: int) -> bool {
    -180_000_000 <= lon <= 180_000_000
}

/// Truncated remainder of the signed seed value modulo 1000, mapped to a
/// micro-unit value in (-1, 1), then scaled to the +/-12 percent band.
pub open spec fn daily_cloud_noise_s(seed: int) -> int {
    let sv = signed_of_s(seed);
    let rem = sv - crate::fp::tdiv_s(sv, 1000) * 1000;
    let unit = fscale_s(2, fsub_s(fmuldiv_s(rem, ONE as int, 1000), 500_000));
    fmuldiv_s(12, unit, 100)
}

/// Seasonal clearness phase: cosine over the year, peaking mid-June in the
/// northern hemisphere and inverted south of the equator.
pub open spec fn season_phase_s(lat: int, doy: int) -> int {
    if lat >= 0 {
        cos_s(fmuldiv_s(TWO_PI_FP as int, (doy - 180) * ONE as int, 365_000_000))
    } else {
        cos_s(fmuldiv_s(TWO_PI_FP as int, (doy - 365) * ONE as int, 365_000_000))
    }
}

/// Latitude-band clearness baseline with its seasonal swing.
pub open spec fn lat_cloud_base_s(lat: int, doy: int) -> int {
    let sp = season_phase_s(lat, doy);
    let al = fabs_s(lat);
    if al < 15_000_000 {
        fadd_s(550_000, fmuldiv_s(50_000, sp, ONE as int))
    } else if al < 35_000_000 {
        fadd_s(700_000, fmuldiv_s(100_000, sp, ONE as int))
    } else if al < 55_000_000 {
        fadd_s(620_000, fmuldiv_s(120_000, sp, ONE as int))
    } else if al < 65_000_000 {
        fadd_s(520_000, fmuldiv_s(100_000, sp, ONE as int))
    } else {
        fadd_s(450_000, fmuldiv_s(100_000, sp, ONE as int))
    }
}

pub open spec fn cloud_seed_s(lat: int, lon: int, doy: int) -> int {
    seed3_s(fdivi_s(lat, 10_000), 397, fdivi_s(lon, 10_000), 631, doy, 1013)
}

/// Average fraction of clear-sky irradiance that reaches the panel for the
/// given place, day and hour.
pub open spec fn cloud_attenuation_s(lat: int, doy: int, lst_h: int, lon: int) -> int {
    let lf = lat_cloud_base_s(lat, doy);
    let dv = daily_cloud_noise_s(cloud_seed_s(lat, lon, doy));
    let intraday = if 6_000_000 <= lst_h <= 20_000_000 {
        fmuldiv_s(-5, fdiv_s(fsub_s(lst_h, 13_000_000), 7_000_000), 100)
    } else {
        0
    };
    fclamp_s(fadd_s(fadd_s(lf, dv), intraday), 150_000, ONE as int)
}

/// Ambient 2 m temperature from latitude, season and hour of day.
pub open spec fn ambient_temperature_s(lat: int, doy: int, lst_h: int) -> int {
    let al = fabs_s(lat);
    let tmean = if al < 10_000_000 {
        27_000_000int
    } else if al < 25_000_000 {
        22_000_000int
    } else if al < 40_000_000 {
        15_000_000int
    } else if al < 55_000_000 {
        8_000_000int
    } else if al < 66_500_000 {
        1_000_000int
    } else {
        -10_000_000int
    };
    let tamp = if al < 10_000_000 {
        2_000_000int
    } else if al < 25_000_000 {
        7_000_000int
    } else if al < 40_000_000 {
        12_000_000int
    } else if al < 55_000_000 {
        14_000_000int
    } else {
        12_000_000int
    };
    let sa = if lat >= 0 {
        fmuldiv_s(TWO_PI_FP as int, (doy - 200) * ONE as int, 365_000_000)
    } else {
        fmuldiv_s(TWO_PI_FP as int, (doy - 20) * ONE as int, 365_000_000)
    };
    let ts = fadd_s(tmean, fmul_s(tamp, cos_s(sa)));
    let td = fscale_s(5, cos_s(fmuldiv_s(TWO_PI_FP as int, fsub_s(lst_h, 14_000_000), 24_000_000)));
    fadd_s(ts, td)
}

/// Near-surface wind speed at 10 m, clamped to [0.3, 18] m/s.
pub open spec fn wind_speed_model_s(lat: int, lon: int, doy: int, lst_h: int) -> int {
    let al = fabs_s(lat);
    let base = if al < 10_000_000 {
        2_200_000int
    } else if al < 25_000_000 {
        3_000_000int
    } else if al < 40_000_000 {
        3_800_000int
    } else if al < 55_000_000 {
        4_500_000int
    } else {
        5_500_000int
    };
    let diurnal = fmul_s(
        fmuldiv_s(35, base, 100),
        fabs_s(cos_s(fmuldiv_s(TWO_PI_FP as int, fsub_s(lst_h, 14_000_000), 24_000_000))),
    );
    let samp = fmuldiv_s(25, base, 100);
    let season = if lat >= 0 {
        fmul_s(samp, -cos_s(fmuldiv_s(TWO_PI_FP as int, (doy - 200) * ONE as int, 365_000_000)))
    } else {
        fmul_s(samp, cos_s(fmuldiv_s(TWO_PI_FP as int, (doy - 20) * ONE as int, 365_000_000)))
    };
    let seed = seed3_s(
        fmuldiv_s(73, lat, ONE as int),
        701,
        fmuldiv_s(73, lon, ONE as int),
        449,
        doy,
        983,
    );
    let daily_factor = fadd_s(
        600_000,
        fmuldiv_s(800_000, fadd_s(500_000, noise_unit_s(seed, WIND_MIX as int)), ONE as int),
    );
    let night_damp = if lst_h < 5_500_000 || lst_h > 21_500_000 {
        450_000int
    } else {
        ONE as int
    };
    fclamp_s(
        fmul_s(fmul_s(fadd_s(fadd_s(base, diurnal), season), daily_factor), night_damp),
        300_000,
        18_000_000,
    )
}

/// Surface relative humidity, clamped to [15, 98] percent.
pub open spec fn relative_humidity_model_s(lat: int, doy: int, lst_h: int) -> int {
    let al = fabs_s(lat);
    let base = if al < 10_000_000 {
        78_000_000int
    } else if al < 25_000_000 {
        58_000_000int
    } else if al < 40_000_000 {
        62_000_000int
    } else if al < 55_000_000 {
        70_000_000int
    } else {
        72_000_000int
    };
    let diurnal = fscale_s(
        14,
        cos_s(fmuldiv_s(TWO_PI_FP as int, fsub_s(lst_h, 5_000_000), 24_000_000)),
    );
    let seasonal = if lat >= 0 {
        fscale_s(8, cos_s(fmuldiv_s(TWO_PI_FP as int, (doy - 200) * ONE as int, 365_000_000)))
    } else {
        fscale_s(8, cos_s(fmuldiv_s(TWO_PI_FP as int, (doy - 20) * ONE as int, 365_000_000)))
    };
    fclamp_s(fadd_s(fadd_s(base, diurnal), seasonal), 15_000_000, 98_000_000)
}

/// Reconstructed noon cloud factor of a past day, used by the soiling
/// model to find the last rainy day: the live cloud baseline applied to
/// the reconstructed day, without the intra-day term.
pub open spec fn past_day_cloud_s(lat: int, lon: int, past_doy: int) -> int {
    let lf = lat_cloud_base_s(lat, past_doy);
    let dv = daily_cloud_noise_s(cloud_seed_s(lat, lon, past_doy));
    fclamp_s(fadd_s(lf, dv), 150_000, ONE as int)
}

/// Consecutive dry days counted from `back` days ago, stopping at the
/// first rainy day or after the thirty-day window.
pub open spec fn dry_days_from_s(lat: int, lon: int, doy: int, back: int) -> int
    decreases 31 - back,
{
    if back > 30 || back < 1 {
        0
    } else if past_day_cloud_s(lat, lon, emod_s(doy - back, 365) + 1) < 420_000 {
        0
    } else {
        1 + dry_days_from_s(lat, lon, doy, back + 1)
    }
}

/// Panel soiling factor: dust accumulates 0.3 percent per dry day since
/// the last rain, floored at 0.85.
pub open spec fn panel_soiling_factor_s(lat: int, lon: int, doy: int) -> int {
    fclamp_s(
        fsub_s(ONE as int, fscale_s(3000, dry_days_from_s(lat, lon, doy, 1))),
        850_000,
        ONE as int,
    )
}

/// Back-scatter coefficient of the Bird diffuse term.
pub open spec fn ba_scatter_coeff_s(ta: int) -> int {
    fdivi_s(
        fmin_s(fmax_s(fsub_s(920_000, fdivi_s(fabs_s(ln_s(ta)), 10)), 200_000), 500_000),
        2,
    )
}

/// WMO-style weather code from cloud factor, elevation and snow season.
pub open spec fn synthetic_weather_code_s(cf: int, alpha_deg: int, doy: int, lat: int) -> int {
    if alpha_deg <= 0 {
        0
    } else {
        let winter = if lat >= 0 {
            doy < 60 || doy > 330
        } else {
            150 < doy < 270
        };
        let snow = fabs_s(lat) > 40_000_000 && winter;
        if cf > 850_000 {
            0
        } else if cf > 750_000 {
            1
        } else if cf > 600_000 {
            2
        } else if cf > 450_000 {
            3
        } else if cf > 350_000 {
            if snow {
                71
            } else {
                61
            }
        } else if cf > 250_000 {
            if snow {
                73
            } else {
                63
            }
        } else {
            if snow {
                75
            } else {
                65
            }
        }
    }
}

pub fn daily_cloud_noise(seed: u64) -> (r: i64)
    ensures
        r == daily_cloud_noise_s(seed as int),
        in_range(r as int),
{
    let sv = signed_of(seed);
    let q = crate::fp::tdiv128(sv as i128, 1000);
    let rem128: i128 = (sv as i128) - q * 1000;
    proof {
        vstd::arithmetic::div_mod::lemma_fundamental_div_mod(sv as int, 1000);
        vstd::arithmetic::div_mod::lemma_fundamental_div_mod(-(sv as int), 1000);
        assert(-1000 < (sv as int) - crate::fp::tdiv_s(sv as int, 1000) * 1000 < 1000)
            by (nonlinear_arith)
            requires
                crate::fp::tdiv_s(sv as int, 1000) == (if sv as int >= 0 {
                    (sv as int) / 1000
                } else {
                    -((-(sv as int)) / 1000)
                }),
        ;
    }
    let rem: i64 = rem128 as i64;
    let unit = fscale(2, fsub(fmuldiv(rem, ONE, 1000), 500_000));
    fmuldiv(12, unit, 100)
}

pub fn season_phase(lat: i64, doy: i64) -> (r: i64)
    requires
        valid_lat_s(lat as int),
        1 <= doy <= 366,
    ensures
        r == season_phase_s(lat as int, doy as int),
        in_range(r as int),
{
    if lat >= 0 {
        cos_fp(fmuldiv(TWO_PI_FP, (doy - 180) * ONE, 365_000_000))
    } else {
        cos_fp(fmuldiv(TWO_PI_FP, (doy - 365) * ONE, 365_000_000))
    }
}

pub fn lat_cloud_base(lat: i64, doy: i64) -> (r: i64)
    requires
        valid_lat_s(lat as int),
        1 <= doy <= 366,
    ensures
        r == lat_cloud_base_s(lat as int, doy as int),
        in_range(r as int),
{
    let sp = season_phase(lat, doy);
    let al = fabs(lat);
    if al < 15_000_000 {
        fadd(550_000, fmuldiv(50_000, sp, ONE))
    } else if al < 35_000_000 {
        fadd(700_000, fmuldiv(100_000, sp, ONE))
    } else if al < 55_000_000 {
        fadd(620_000, fmuldiv(120_000, sp, ONE))
    } else if al < 65_000_000 {
        fadd(520_000, fmuldiv(100_000, sp, ONE))
    } else {
        fadd(450_000, fmuldiv(100_000, sp, ONE))
    }
}

/// Climatological cloud attenuation for one instant.
pub fn cloud_attenuation(lat: i64, doy: i64, lst_h: i64, lon: i64) -> (r: i64)
    requires
        valid_lat_s(lat as int),
        valid_lon_s(lon as int),
        1 <= doy <= 366,
        in_range(lst_h as int),
    ensures
        r == cloud_attenuation_s(lat as int, doy as int, lst_h as int, lon as int),
        150_000 <= r <= ONE,
{
    let lf = lat_cloud_base(lat, doy);
    let seed = seed3(fdivi(lat, 10_000), 397, fdivi(lon, 10_000), 631, doy, 1013);
    let dv = daily_cloud_noise(seed);
    let intraday = if 6_000_000 <= lst_h && lst_h <= 20_000_000 {
        fmuldiv(-5, fdiv(fsub(lst_h, 13_000_000), 7_000_000), 100)
    } else {
        0
    };
    fclamp(fadd(fadd(lf, dv), intraday), 150_000, ONE)
}

/// Ambient temperature model.
pub fn ambient_temperature(lat: i64, doy: i64, lst_h: i64) -> (r: i64)
    requires
        valid_lat_s(lat as int),
        1 <= doy <= 366,
        in_range(lst_h as int),
    ensures
        r == ambient_temperature_s(lat as int, doy as int, lst_h as int),
        in_range(r as int),
{
    let al = fabs(lat);
    let tmean: i64 = if al < 10_000_000 {
        27_000_000
    } else if al < 25_000_000 {
        22_000_000
    } else if al < 40_000_000 {
        15_000_000
    } else if al < 55_000_000 {
        8_000_000
    } else if al < 66_500_000 {
        1_000_000
    } else {
        -10_000_000
    };
    let tamp: i64 = if al < 10_000_000 {
        2_000_000
    } else if al < 25_000_000 {
        7_000_000
    } else if al < 40_000_000 {
        12_000_000
    } else if al < 55_000_000 {
        14_000_000
    } else {
        12_000_000
    };
    let sa = if lat >= 0 {
        fmuldiv(TWO_PI_FP, (doy - 200) * ONE, 365_000_000)
    } else {
        fmuldiv(TWO_PI_FP, (doy - 20) * ONE, 365_000_000)
    };
    let ts = fadd(tmean, fmul(tamp, cos_fp(sa)));
    let td = fscale(5, cos_fp(fmuldiv(TWO_PI_FP, fsub(lst_h, 14_000_000), 24_000_000)));
    fadd(ts, td)
}

/// Wind speed model.
pub fn wind_speed_model(lat: i64, lon: i64, doy: i64, lst_h: i64) -> (r: i64)
    requires
        valid_lat_s(lat as int),
        valid_lon_s(lon as int),
        1 <= doy <= 366,
        in_range(lst_h as int),
    ensures
        r == wind_speed_model_s(lat as int, lon as int, doy as int, lst_h as int),
        300_000 <= r <= 18_000_000,
{
    let al = fabs(lat);
    let base: i64 = if al < 10_000_000 {
        2_200_000
    } else if al < 25_000_000 {
        3_000_000
    } else if al < 40_000_000 {
        3_800_000
    } else if al < 55_000_000 {
        4_500_000
    } else {
        5_500_000
    };
    let diurnal = fmul(
        fmuldiv(35, base, 100),
        fabs(cos_fp(fmuldiv(TWO_PI_FP, fsub(lst_h, 14_000_000), 24_000_000))),
    );
    let samp = fmuldiv(25, base, 100);
    let season = if lat >= 0 {
        fmul(samp, -cos_fp(fmuldiv(TWO_PI_FP, (doy - 200) * ONE, 365_000_000)))
    } else {
        fmul(samp, cos_fp(fmuldiv(TWO_PI_FP, (doy - 20) * ONE, 365_000_000)))
    };
    let seed = seed3(fmuldiv(73, lat, ONE), 701, fmuldiv(73, lon, ONE), 449, doy, 983);
    let daily_factor = fadd(600_000, fmuldiv(800_000, fadd(500_000, noise_unit(seed, WIND_MIX)), ONE));
    let night_damp: i64 = if lst_h < 5_500_000 || lst_h > 21_500_000 {
        450_000
    } else {
        ONE
    };
    fclamp(
        fmul(fmul(fadd(fadd(base, diurnal), season), daily_factor), night_damp),
        300_000,
        18_000_000,
    )
}

/// Relative humidity model.
pub fn relative_humidity_model(lat: i64, doy: i64, lst_h: i64) -> (r: i64)
    requires
        valid_lat_s(lat as int),
        1 <= doy <= 366,
        in_range(lst_h as int),
    ensures
        r == relative_humidity_model_s(lat as int, doy as int, lst_h as int),
        15_000_000 <= r <= 98_000_000,
{
    let al = fabs(lat);
    let base: i64 = if al < 10_000_000 {
        78_000_000
    } else if al < 25_000_000 {
        58_000_000
    } else if al < 40_000_000 {
        62_000_000
    } else if al < 55_000_000 {
        70_000_000
    } else {
        72_000_000
    };
    let diurnal = fscale(14, cos_fp(fmuldiv(TWO_PI_FP, fsub(lst_h, 5_000_000), 24_000_000)));
    let seasonal = if lat >= 0 {
        fscale(8, cos_fp(fmuldiv(TWO_PI_FP, (doy - 200) * ONE, 365_000_000)))
    } else {
        fscale(8, cos_fp(fmuldiv(TWO_PI_FP, (doy - 20) * ONE, 365_000_000)))
    };
    fclamp(fadd(fadd(base, diurnal), seasonal), 15_000_000, 98_000_000)
}

fn past_day_cloud(lat: i64, lon: i64, past_doy: i64) -> (r: i64)
    requires
        valid_lat_s(lat as int),
        valid_lon_s(lon as int),
        1 <= past_doy <= 366,
    ensures
        r == past_day_cloud_s(lat as int, lon as int, past_doy as int),
{
    let lf = lat_cloud_base(lat, past_doy);
    let seed = seed3(fdivi(lat, 10_000), 397, fdivi(lon, 10_000), 631, past_doy, 1013);
    let dv = daily_cloud_noise(seed);
    fclamp(fadd(lf, dv), 150_000, ONE)
}

/// Soiling factor: walk back up to thirty days to the last rain.
pub fn panel_soiling_factor(lat: i64, lon: i64, doy: i64) -> (r: i64)
    requires
        valid_lat_s(lat as int),
        valid_lon_s(lon as int),
        1 <= doy <= 366,
    ensures
        r == panel_soiling_factor_s(lat as int, lon as int, doy as int),
        850_000 <= r <= ONE,
{
    let mut dry: i64 = 0;
    let mut back: i64 = 1;
    let mut done: bool = false;
    while back <= 30 && !done
        invariant
            valid_lat_s(lat as int),
            valid_lon_s(lon as int),
            1 <= doy <= 366,
            1 <= back <= 31,
            0 <= dry <= 30,
            done ==> dry == dry_days_from_s(lat as int, lon as int, doy as int, 1),
            !done ==> dry == back - 1 && dry_days_from_s(lat as int, lon as int, doy as int, 1)
                == dry + dry_days_from_s(lat as int, lon as int, doy as int, back as int),
        decreases 31 - back + (if done {
            0int
        } else {
            1int
        }),
    {
        let past_doy = emod(doy - back, 365) + 1;
        if past_day_cloud(lat, lon, past_doy) < 420_000 {
            done = true;
        } else {
            dry = dry + 1;
            back = back + 1;
        }
    }
    fclamp(fsub(ONE, fscale(3000, dry)), 850_000, ONE)
}

/// Back-scatter coefficient for the Bird diffuse term.
pub fn ba_scatter_coeff(ta: i64) -> (r: i64)
    requires
        in_range(ta as int),
    ensures
        r == ba_scatter_coeff_s(ta as int),
        in_range(r as int),
{
    fdivi(fmin(fmax(fsub(920_000, fdivi(fabs(ln_fp(ta)), 10)), 200_000), 500_000), 2)
}

/// WMO-style weather code.
pub fn synthetic_weather_code(cf: i64, alpha_deg: i64, doy: i64, lat: i64) -> (wc: u16)
    requires
        valid_lat_s(lat as int),
        in_range(cf as int),
        in_range(alpha_deg as int),
        1 <= doy <= 366,
    ensures
        wc as int == synthetic_weather_code_s(cf as int, alpha_deg as int, doy as int, lat as int),
{
    if alpha_deg <= 0 {
        return 0;
    }
    let winter = if lat >= 0 {
        doy < 60 || doy > 330
    } else {
        150 < doy && doy < 270
    };
    let snow = fabs(lat) > 40_000_000 && winter;
    if cf > 850_000 {
        0
    } else if cf > 750_000 {
        1
    } else if cf > 600_000 {
        2
    } else if cf > 450_000 {
        3
    } else if cf > 350_000 {
        if snow {
            71
        } else {
            61
        }
    } else if cf > 250_000 {
        if snow {
            73
        } else {
            63
        }
    } else {
        if snow {
            75
        } else {
            65
        }
    }
}

/// Solar position for one instant, micro-units (ghost image).
pub ghost struct SolarPosG {
    pub lst_h: int,
    pub omega_deg: int,
    pub sin_alpha: int,
    pub alpha_rad: int,
    pub alpha_deg: int,
    pub azimuth_deg: int,
}

/// Solar position for one instant, micro-units.
pub struct SolarPos {
    pub lst_h: i64,
    pub omega_deg: i64,
    pub sin_alpha: i64,
    pub alpha_rad: i64,
    pub alpha_deg: i64,
    pub azimuth_deg: i64,
}

pub open spec fn pos_view(p: SolarPos) -> SolarPosG {
    SolarPosG {
        lst_h: p.lst_h as int,
        omega_deg: p.omega_deg as int,
        sin_alpha: p.sin_alpha as int,
        alpha_rad: p.alpha_rad as int,
        alpha_deg: p.alpha_deg as int,
        azimuth_deg: p.azimuth_deg as int,
    }
}

/// Spencer's fractional-year angle in micro-radians.
pub open spec fn b_angle_s(doy: int) -> int {
    fmuldiv_s(TWO_PI_FP as int, (doy - 1) * ONE as int, 365_000_000)
}

/// Spencer declination in micro-radians.
pub open spec fn declination_s(doy: int) -> int {
    let b = b_angle_s(doy);
    let dsum = fadd_s(
        fadd_s(
            fadd_s(
                fsub_s(6_918, fmuldiv_s(399_912, cos_s(b), ONE as int)),
                fmuldiv_s(70_257, sin_s(b), ONE as int),
            ),
            fadd_s(
                -fmuldiv_s(6_758, cos_s(fscale_s(2, b)), ONE as int),
                fmuldiv_s(907, sin_s(fscale_s(2, b)), ONE as int),
            ),
        ),
        fadd_s(
            -fmuldiv_s(2_697, cos_s(fscale_s(3, b)), ONE as int),
            fmuldiv_s(1_480, sin_s(fscale_s(3, b)), ONE as int),
        ),
    );
    let decl_deg = fmuldiv_s(180_000_000, dsum, PI_FP as int);
    fmuldiv_s(3_141_593, decl_deg, 180_000_000)
}

/// Equation of time in micro-minutes.
pub open spec fn eot_s(doy: int) -> int {
    let b = b_angle_s(doy);
    let esum = fadd_s(
        fadd_s(
            fadd_s(75, fmuldiv_s(1_868, cos_s(b), ONE as int)),
            -fmuldiv_s(32_077, sin_s(b), ONE as int),
        ),
        fadd_s(
            -fmuldiv_s(14_615, cos_s(fscale_s(2, b)), ONE as int),
            -fmuldiv_s(40_890, sin_s(fscale_s(2, b)), ONE as int),
        ),
    );
    fmuldiv_s(229_180_000, esum, 1_000_000_000_000)
}

/// Eccentricity-corrected extraterrestrial irradiance, micro-W/m2.
pub open spec fn e0_s(doy: int) -> int {
    let b = b_angle_s(doy);
    let f = fadd_s(
        fadd_s(
            fadd_s(1_000_110, fmuldiv_s(34_221, cos_s(b), ONE as int)),
            fmuldiv_s(1_280, sin_s(b), ONE as int),
        ),
        fadd_s(
            fmuldiv_s(719, cos_s(fscale_s(2, b)), ONE as int),
            fmuldiv_s(77, sin_s(fscale_s(2, b)), ONE as int),
        ),
    );
    fmuldiv_s(1_361_000_000, f, ONE as int)
}

/// Solar geometry: local solar time, hour angle, elevation and azimuth.
pub open spec fn solar_position_s(lat: int, lon: int, doy: int, ut_h: int) -> SolarPosG {
    let decl = declination_s(doy);
    let rd = round_div_s(lon, 15_000_000);
    let lstm = fscale_s(15_000_000, rd);
    let tc = fadd_s(fscale_s(4, fsub_s(lon, lstm)), eot_s(doy));
    let lc = emod_s(fadd_s(ut_h, fscale_s(ONE as int, rd + 2)), 24_000_000);
    let lst_h = fadd_s(lc, fdivi_s(tc, 60));
    let omega_deg = fscale_s(15, fsub_s(lst_h, 12_000_000));
    let omega = fmuldiv_s(3_141_593, omega_deg, 180_000_000);
    let latr = fmuldiv_s(3_141_593, lat, 180_000_000);
    let sin_alpha = fadd_s(
        fmul_s(sin_s(latr), sin_s(decl)),
        fmul_s(fmul_s(cos_s(latr), cos_s(decl)), cos_s(omega)),
    );
    let alpha_rad = asin_s(sin_alpha);
    let alpha_deg = fmuldiv_s(180_000_000, alpha_rad, PI_FP as int);
    let cos_alpha = cos_s(alpha_rad);
    let cos_az = if fabs_s(cos_alpha) > 0 {
        fdiv_s(
            fsub_s(sin_s(decl), fmul_s(sin_alpha, sin_s(latr))),
            fmul_s(cos_alpha, cos_s(latr)),
        )
    } else {
        0
    };
    let az_abs = fmuldiv_s(
        180_000_000,
        acos_s(fclamp_s(cos_az, -(ONE as int), ONE as int)),
        PI_FP as int,
    );
    let azimuth_deg = if omega_deg > 0 {
        fsub_s(360_000_000, az_abs)
    } else {
        az_abs
    };
    SolarPosG { lst_h, omega_deg, sin_alpha, alpha_rad, alpha_deg, azimuth_deg }
}

/// Clear-sky global and direct irradiance (Bird & Hulstrom, simplified);
/// zero below 0.1 degrees of elevation.
pub open spec fn clear_sky_s(lat: int, lon: int, doy: int, sin_alpha: int, alpha_deg: int) -> (
    int,
    int,
) {
    if alpha_deg > 100_000 {
        let am = fmax_s(
            fdiv_s(
                ONE as int,
                fadd_s(
                    sin_alpha,
                    fmul_s(505_720, powf_s(fadd_s(alpha_deg, 6_079_950), -1_636_400)),
                ),
            ),
            ONE as int,
        );
        let tr = exp_s(
            fmul_s(
                fmul_s(-90_300, powf_s(am, 840_000)),
                fsub_s(fadd_s(ONE as int, am), powf_s(am, 1_010_000)),
            ),
        );
        let to = fsub_s(ONE as int, fmuldiv_s(1_300, am, ONE as int));
        let st = if lat >= 0 {
            fadd_s(
                2_500_000,
                fmuldiv_s(
                    800_000,
                    -cos_s(fmuldiv_s(TWO_PI_FP as int, (doy - 200) * ONE as int, 365_000_000)),
                    ONE as int,
                ),
            )
        } else {
            fadd_s(
                2_500_000,
                fmuldiv_s(
                    800_000,
                    cos_s(fmuldiv_s(TWO_PI_FP as int, (doy - 20) * ONE as int, 365_000_000)),
                    ONE as int,
                ),
            )
        };
        let tseed = seed3_s(fdivi_s(lat, 20_000), 503, fdivi_s(lon, 20_000), 719, doy, 1_237);
        let tnoise = noise_unit_s(tseed, TURB_MIX as int);
        let tk = fclamp_s(
            fadd_s(st, fmuldiv_s(14, fsub_s(tnoise, 500_000), 10)),
            1_500_000,
            6_500_000,
        );
        let ta = exp_s(fmul_s(fmul_s(-90_000, powf_s(tk, 978_000)), powf_s(am, 945_500)));
        let tw = fsub_s(ONE as int, fmuldiv_s(7_500, powf_s(am, 650_000), ONE as int));
        let tt = fmul_s(fmul_s(fmul_s(tr, to), ta), tw);
        let e0 = e0_s(doy);
        let dni = fmul_s(976_200, fmul_s(e0, tt));
        let dhi = fdiv_s(
            fmul_s(
                fmul_s(fmul_s(790_000, fmul_s(e0, sin_alpha)), fsub_s(ONE as int, tt)),
                fadd_s(fdivi_s(fsub_s(ONE as int, tr), 2), ba_scatter_coeff_s(ta)),
            ),
            fadd_s(fsub_s(ONE as int, am), powf_s(am, 1_020_000)),
        );
        let ghi = fmax_s(fadd_s(fmul_s(dni, sin_alpha), dhi), 0);
        (ghi, dni)
    } else {
        (0, 0)
    }
}

/// Plane-of-array clear-sky irradiance on the fixed-tilt surface.
pub open spec fn poa_clear_s(lat: int, p: SolarPosG, ghi: int, dni: int) -> int {
    let tilt_deg = fmin_s(fabs_s(lat), 60_000_000);
    let tilt = fmuldiv_s(3_141_593, tilt_deg, 180_000_000);
    let surf_az = if lat >= 0 {
        180_000_000int
    } else {
        0int
    };
    let az_diff = fmuldiv_s(3_141_593, fsub_s(p.azimuth_deg, surf_az), 180_000_000);
    let cos_th = if p.alpha_deg > 100_000 {
        fmax_s(
            fadd_s(
                fmul_s(sin_s(p.alpha_rad), cos_s(tilt)),
                fmul_s(fmul_s(cos_s(p.alpha_rad), sin_s(tilt)), cos_s(az_diff)),
            ),
            0,
        )
    } else {
        0
    };
    let beam = fmul_s(dni, cos_th);
    let dhi2 = fmax_s(fsub_s(ghi, fmul_s(dni, fmax_s(p.sin_alpha, 0))), 0);
    let diff_poa = fdivi_s(fmul_s(dhi2, fadd_s(ONE as int, cos_s(tilt))), 2);
    let refl = fdivi_s(fmul_s(fmul_s(ghi, 200_000), fsub_s(ONE as int, cos_s(tilt))), 2);
    fmax_s(fadd_s(fadd_s(beam, diff_poa), refl), 0)
}

/// Ghost image of a full estimate.
pub ghost struct OfflineEstimateG {
    pub power_kw: int,
    pub ghi_w_m2: int,
    pub cell_temp_c: int,
    pub ambient_temp_c: int,
    pub weather_code: int,
    pub is_day: bool,
    pub cloud_factor: int,
    pub solar_elevation_deg: int,
    pub wind_speed_m_s: int,
    pub relative_humidity_pct: int,
    pub soiling_factor: int,
}

pub open spec fn est_view(e: OfflineEstimate) -> OfflineEstimateG {
    OfflineEstimateG {
        power_kw: e.power_kw as int,
        ghi_w_m2: e.ghi_w_m2 as int,
        cell_temp_c: e.cell_temp_c as int,
        ambient_temp_c: e.ambient_temp_c as int,
        weather_code: e.weather_code as int,
        is_day: e.is_day,
        cloud_factor: e.cloud_factor as int,
        solar_elevation_deg: e.solar_elevation_deg as int,
        wind_speed_m_s: e.wind_speed_m_s as int,
        relative_humidity_pct: e.relative_humidity_pct as int,
        soiling_factor: e.soiling_factor as int,
    }
}

/// The whole estimator pipeline as one mathematical function.
pub open spec fn estimate_s(lat: int, lon: int, nominal_power_kw: int, t: UtcTime)
    -> OfflineEstimateG {
    let doy = day_of_year_s(t);
    let ut_h = micro_hour_s(t);
    let p = solar_position_s(lat, lon, doy, ut_h);
    let cs = clear_sky_s(lat, lon, doy, p.sin_alpha, p.alpha_deg);
    let poa_cs = poa_clear_s(lat, p, cs.0, cs.1);
    let cfb = cloud_attenuation_s(lat, doy, ut_h, lon);
    let slot = fmuldiv_s(12, ut_h, ONE as int);
    let tseed = seed3_s(
        fdivi_s(lat, 10_000),
        853,
        fdivi_s(lon, 10_000),
        619,
        doy * 300 + slot,
        1_031,
    );
    let tval = noise_unit_s(tseed, TRANS_MIX as int);
    let transient = fmuldiv_s(18, fsub_s(fscale_s(2, tval), ONE as int), 100);
    let cf = fclamp_s(fadd_s(cfb, transient), 50_000, ONE as int);
    let poa = fmul_s(poa_cs, cf);
    let amb = ambient_temperature_s(lat, doy, p.lst_h);
    let wind = wind_speed_model_s(lat, lon, doy, p.lst_h);
    let rh = relative_humidity_model_s(lat, doy, p.lst_h);
    let cell = fadd_s(amb, fdiv_s(poa, fadd_s(25_000_000, fmuldiv_s(6_840_000, wind, ONE as int))));
    let soil = panel_soiling_factor_s(lat, lon, doy);
    let tf = fsub_s(ONE as int, fmuldiv_s(4_000, fsub_s(cell, 25_000_000), ONE as int));
    let eff_g = fmul_s(poa, soil);
    let power = fmax_s(fmul_s(fmul_s(nominal_power_kw, fdivi_s(eff_g, 1_000)), tf), 0);
    let wc = synthetic_weather_code_s(cf, p.alpha_deg, doy, lat);
    let is_day = p.alpha_deg > 0 && poa > 500_000;
    OfflineEstimateG {
        power_kw: power,
        ghi_w_m2: poa,
        cell_temp_c: cell,
        ambient_temp_c: amb,
        weather_code: wc,
        is_day: is_day,
        cloud_factor: cf,
        solar_elevation_deg: p.alpha_deg,
        wind_speed_m_s: wind,
        relative_humidity_pct: rh,
        soiling_factor: soil,
    }
}

/// Solar position for one instant.
pub fn solar_position(lat: i64, lon: i64, doy: i64, ut_h: i64) -> (p: SolarPos)
    requires
        valid_lat_s(lat as int),
        valid_lon_s(lon as int),
        1 <= doy <= 366,
        0 <= ut_h < 24_000_000,
    ensures
        pos_view(p) == solar_position_s(lat as int, lon as int, doy as int, ut_h as int),
        in_range(p.lst_h as int),
        in_range(p.omega_deg as int),
        in_range(p.sin_alpha as int),
        in_range(p.alpha_rad as int),
        in_range(p.alpha_deg as int),
        in_range(p.azimuth_deg as int),
{
    let b = fmuldiv(TWO_PI_FP, (doy - 1) * ONE, 365_000_000);
    let sb = sin_fp(b);
    let cb = cos_fp(b);
    let s2b = sin_fp(fscale(2, b));
    let c2b = cos_fp(fscale(2, b));
    let s3b = sin_fp(fscale(3, b));
    let c3b = cos_fp(fscale(3, b));
    let dsum = fadd(
        fadd(
            fadd(fsub(6_918, fmuldiv(399_912, cb, ONE)), fmuldiv(70_257, sb, ONE)),
            fadd(-fmuldiv(6_758, c2b, ONE), fmuldiv(907, s2b, ONE)),
        ),
        fadd(-fmuldiv(2_697, c3b, ONE), fmuldiv(1_480, s3b, ONE)),
    );
    let decl_deg = fmuldiv(180_000_000, dsum, PI_FP);
    let decl = fmuldiv(3_141_593, decl_deg, 180_000_000);
    let esum = fadd(
        fadd(fadd(75, fmuldiv(1_868, cb, ONE)), -fmuldiv(32_077, sb, ONE)),
        fadd(-fmuldiv(14_615, c2b, ONE), -fmuldiv(40_890, s2b, ONE)),
    );
    let eot = fmuldiv(229_180_000, esum, 1_000_000_000_000);
    let rd = round_div(lon, 15_000_000);
    let lstm = fscale(15_000_000, rd);
    let tc = fadd(fscale(4, fsub(lon, lstm)), eot);
    proof {
        assert(fabs_s(round_div_s(lon as int, 15_000_000)) <= 13);
    }
    let lc = emod(fadd(ut_h, fscale(ONE, rd + 2)), 24_000_000);
    let lst_h = fadd(lc, fdivi(tc, 60));
    let omega_deg = fscale(15, fsub(lst_h, 12_000_000));
    let omega = fmuldiv(3_141_593, omega_deg, 180_000_000);
    let latr = fmuldiv(3_141_593, lat, 180_000_000);
    let sin_alpha = fadd(
        fmul(sin_fp(latr), sin_fp(decl)),
        fmul(fmul(cos_fp(latr), cos_fp(decl)), cos_fp(omega)),
    );
    let alpha_rad = asin_fp(sin_alpha);
    let alpha_deg = fmuldiv(180_000_000, alpha_rad, PI_FP);
    let cos_alpha = cos_fp(alpha_rad);
    let cos_az = if fabs(cos_alpha) > 0 {
        fdiv(fsub(sin_fp(decl), fmul(sin_alpha, sin_fp(latr))), fmul(cos_alpha, cos_fp(latr)))
    } else {
        0
    };
    let az_abs = fmuldiv(180_000_000, acos_fp(fclamp(cos_az, -ONE, ONE)), PI_FP);
    let azimuth_deg = if omega_deg > 0 {
        fsub(360_000_000, az_abs)
    } else {
        az_abs
    };
    SolarPos { lst_h, omega_deg, sin_alpha, alpha_rad, alpha_deg, azimuth_deg }
}

/// Clear-sky global and direct irradiance.
pub fn clear_sky(lat: i64, lon: i64, doy: i64, sin_alpha: i64, alpha_deg: i64) -> (r: (i64, i64))
    requires
        valid_lat_s(lat as int),
        valid_lon_s(lon as int),
        1 <= doy <= 366,
        in_range(sin_alpha as int),
        in_range(alpha_deg as int),
    ensures
        (r.0 as int, r.1 as int) == clear_sky_s(
            lat as int,
            lon as int,
            doy as int,
            sin_alpha as int,
            alpha_deg as int,
        ),
        in_range(r.0 as int),
        in_range(r.1 as int),
        alpha_deg <= 100_000 ==> r.0 == 0 && r.1 == 0,
{
    if alpha_deg > 100_000 {
        let am = fmax(
            fdiv(ONE, fadd(sin_alpha, fmul(505_720, powf_fp(fadd(alpha_deg, 6_079_950), -1_636_400)))),
            ONE,
        );
        let tr = exp_fp(
            fmul(fmul(-90_300, powf_fp(am, 840_000)), fsub(fadd(ONE, am), powf_fp(am, 1_010_000))),
        );
        let to = fsub(ONE, fmuldiv(1_300, am, ONE));
        let st = if lat >= 0 {
            fadd(
                2_500_000,
                fmuldiv(800_000, -cos_fp(fmuldiv(TWO_PI_FP, (doy - 200) * ONE, 365_000_000)), ONE),
            )
        } else {
            fadd(
                2_500_000,
                fmuldiv(800_000, cos_fp(fmuldiv(TWO_PI_FP, (doy - 20) * ONE, 365_000_000)), ONE),
            )
        };
        let tseed = seed3(fdivi(lat, 20_000), 503, fdivi(lon, 20_000), 719, doy, 1_237);
        let tnoise = noise_unit(tseed, TURB_MIX);
        let tk = fclamp(fadd(st, fmuldiv(14, fsub(tnoise, 500_000), 10)), 1_500_000, 6_500_000);
        let ta = exp_fp(fmul(fmul(-90_000, powf_fp(tk, 978_000)), powf_fp(am, 945_500)));
        let tw = fsub(ONE, fmuldiv(7_500, powf_fp(am, 650_000), ONE));
        let tt = fmul(fmul(fmul(tr, to), ta), tw);
        let e0f = fadd(
            fadd(fadd(1_000_110, fmuldiv(34_221, cos_fp(b_of(doy)), ONE)), fmuldiv(
                1_280,
                sin_fp(b_of(doy)),
                ONE,
            )),
            fadd(fmuldiv(719, cos_fp(fscale(2, b_of(doy))), ONE), fmuldiv(
                77,
                sin_fp(fscale(2, b_of(doy))),
                ONE,
            )),
        );
        let e0 = fmuldiv(1_361_000_000, e0f, ONE);
        let dni = fmul(976_200, fmul(e0, tt));
        let dhi = fdiv(
            fmul(
                fmul(fmul(790_000, fmul(e0, sin_alpha)), fsub(ONE, tt)),
                fadd(fdivi(fsub(ONE, tr), 2), ba_scatter_coeff(ta)),
            ),
            fadd(fsub(ONE, am), powf_fp(am, 1_020_000)),
        );
        let ghi = fmax(fadd(fmul(dni, sin_alpha), dhi), 0);
        (ghi, dni)
    } else {
        (0, 0)
    }
}

/// Spencer's fractional-year angle.
pub fn b_of(doy: i64) -> (b: i64)
    requires
        1 <= doy <= 366,
    ensures
        b == b_angle_s(doy as int),
        in_range(b as int),
{
    fmuldiv(TWO_PI_FP, (doy - 1) * ONE, 365_000_000)
}

/// Plane-of-array clear-sky irradiance.
pub fn poa_clear(lat: i64, p: &SolarPos, ghi: i64, dni: i64) -> (r: i64)
    requires
        valid_lat_s(lat as int),
        in_range(p.lst_h as int),
        in_range(p.omega_deg as int),
        in_range(p.sin_alpha as int),
        in_range(p.alpha_rad as int),
        in_range(p.alpha_deg as int),
        in_range(p.azimuth_deg as int),
        in_range(ghi as int),
        in_range(dni as int),
    ensures
        r == poa_clear_s(lat as int, pos_view(*p), ghi as int, dni as int),
        in_range(r as int),
        r >= 0,
        ghi == 0 && dni == 0 ==> r == 0,
{
    let tilt_deg = fmin(fabs(lat), 60_000_000);
    let tilt = fmuldiv(3_141_593, tilt_deg, 180_000_000);
    let surf_az: i64 = if lat >= 0 {
        180_000_000
    } else {
        0
    };
    let az_diff = fmuldiv(3_141_593, fsub(p.azimuth_deg, surf_az), 180_000_000);
    let cos_th = if p.alpha_deg > 100_000 {
        fmax(
            fadd(
                fmul(sin_fp(p.alpha_rad), cos_fp(tilt)),
                fmul(fmul(cos_fp(p.alpha_rad), sin_fp(tilt)), cos_fp(az_diff)),
            ),
            0,
        )
    } else {
        0
    };
    let beam = fmul(dni, cos_th);
    let dhi2 = fmax(fsub(ghi, fmul(dni, fmax(p.sin_alpha, 0))), 0);
    let diff_poa = fdivi(fmul(dhi2, fadd(ONE, cos_fp(tilt))), 2);
    let refl = fdivi(fmul(fmul(ghi, 200_000), fsub(ONE, cos_fp(tilt))), 2);
    let res = fmax(fadd(fadd(beam, diff_poa), refl), 0);
    proof {
        if ghi == 0 && dni == 0 {
            crate::fp::lemma_fmul_zero(cos_th as int);
            crate::fp::lemma_fmul_zero(fmax_s(p.sin_alpha as int, 0));
            crate::fp::lemma_fmul_zero(fadd_s(ONE as int, cos_s(tilt as int)));
            crate::fp::lemma_fmul_zero(200_000);
            crate::fp::lemma_fmul_zero(fsub_s(ONE as int, cos_s(tilt as int)));
            crate::fp::lemma_fdivi_zero(2);
        }
    }
    res
}

/// Determinism of the estimator: any two results produced for the same
/// place, rating and instant are identical, because `estimate` equals one
/// mathematical function of its arguments.
pub proof fn lemma_estimate_deterministic(
    lat: int,
    lon: int,
    nominal_power_kw: int,
    t: UtcTime,
    r1: OfflineEstimate,
    r2: OfflineEstimate,
)
    requires
        est_view(r1) == estimate_s(lat, lon, nominal_power_kw, t),
        est_view(r2) == estimate_s(lat, lon, nominal_power_kw, t),
    ensures
        r1 == r2,
{
    assert(est_view(r1) == est_view(r2));
    assert(r1.power_kw == r2.power_kw);
    assert(r1.ghi_w_m2 == r2.ghi_w_m2);
    assert(r1.cell_temp_c == r2.cell_temp_c);
    assert(r1.ambient_temp_c == r2.ambient_temp_c);
    assert(r1.weather_code == r2.weather_code);
    assert(r1.cloud_factor == r2.cloud_factor);
    assert(r1.solar_elevation_deg == r2.solar_elevation_deg);
    assert(r1.wind_speed_m_s == r2.wind_speed_m_s);
    assert(r1.relative_humidity_pct == r2.relative_humidity_pct);
    assert(r1.soiling_factor == r2.soiling_factor);
}

/// Full telemetry estimate for one plant and one instant: solar geometry,
/// clear sky, transposition, cloud, weather and the resulting DC power.
///
/// The result is a pure function of the arguments, and a non-positive
/// solar elevation forces zero power and night.
pub fn estimate(lat: i64, lon: i64, nominal_power_kw: i64, t: &UtcTime) -> (r: OfflineEstimate)
    requires
        valid_lat_s(lat as int),
        valid_lon_s(lon as int),
        0 < nominal_power_kw <= 100_000_000_000,
        valid_time_s(*t),
    ensures
        est_view(r) == estimate_s(lat as int, lon as int, nominal_power_kw as int, *t),
        r.solar_elevation_deg <= 0 ==> r.power_kw == 0 && !r.is_day,
        r.power_kw >= 0,
        r.ghi_w_m2 >= 0,
        50_000 <= r.cloud_factor <= ONE,
        300_000 <= r.wind_speed_m_s <= 18_000_000,
        15_000_000 <= r.relative_humidity_pct <= 98_000_000,
        850_000 <= r.soiling_factor <= ONE,
        in_range(r.power_kw as int),
        in_range(r.cell_temp_c as int),
        in_range(r.ambient_temp_c as int),
        in_range(r.ghi_w_m2 as int),
        in_range(r.solar_elevation_deg as int),
{
    let doy_u = day_of_year(t);
    let doy: i64 = doy_u as i64;
    let ut_h = micro_hour(t);
    let p = solar_position(lat, lon, doy, ut_h);
    let cs = clear_sky(lat, lon, doy, p.sin_alpha, p.alpha_deg);
    let poa_cs = poa_clear(lat, &p, cs.0, cs.1);
    let cfb = cloud_attenuation(lat, doy, ut_h, lon);
    let slot = fmuldiv(12, ut_h, ONE);
    let tseed = seed3(fdivi(lat, 10_000), 853, fdivi(lon, 10_000), 619, doy * 300 + slot, 1_031);
    let tval = noise_unit(tseed, TRANS_MIX);
    let transient = fmuldiv(18, fsub(fscale(2, tval), ONE), 100);
    let cf = fclamp(fadd(cfb, transient), 50_000, ONE);
    let poa = fmul(poa_cs, cf);
    let amb = ambient_temperature(lat, doy, p.lst_h);
    let wind = wind_speed_model(lat, lon, doy, p.lst_h);
    let rh = relative_humidity_model(lat, doy, p.lst_h);
    let cell = fadd(amb, fdiv(poa, fadd(25_000_000, fmuldiv(6_840_000, wind, ONE))));
    let soil = panel_soiling_factor(lat, lon, doy);
    let tf = fsub(ONE, fmuldiv(4_000, fsub(cell, 25_000_000), ONE));
    let eff_g = fmul(poa, soil);
    let power = fmax(fmul(fmul(nominal_power_kw, fdivi(eff_g, 1_000)), tf), 0);
    let wc = synthetic_weather_code(cf, p.alpha_deg, doy, lat);
    let is_day = p.alpha_deg > 0 && poa > 500_000;
    proof {
        if p.alpha_deg as int <= 100_000 {
            crate::fp::lemma_fmul_zero(cf as int);
            crate::fp::lemma_fmul_zero(soil as int);
            crate::fp::lemma_fmul_zero(tf as int);
            crate::fp::lemma_fmul_zero(nominal_power_kw as int);
            crate::fp::lemma_fdivi_zero(1_000);
        }
    }
    OfflineEstimate {
        power_kw: power,
        ghi_w_m2: poa,
        cell_temp_c: cell,
        ambient_temp_c: amb,
        weather_code: wc,
        is_day,
        cloud_factor: cf,
        solar_elevation_deg: p.alpha_deg,
        wind_speed_m_s: wind,
        relative_humidity_pct: rh,
        soiling_factor: soil,
    }
}

} // verus!
