use crate::units::{div_floor, floor_div, lemma_floor_div_bound};
use crate::weather::MAX_READING;
use vstd::prelude::*;

verus! {

/// Largest magnitude that a formula of this module returns on readings within
/// `MAX_READING`, in thousandths.
pub const MAX_DERIVED: i64 = 250_000_000_000_000_000;

/// Whether a reading is within `MAX_READING`.
pub open spec fn in_reading_range(v: int) -> bool {
    -MAX_READING <= v <= MAX_READING
}

/// Whether `r` is the integer part of the square root of `n`.
pub open spec fn is_sqrt_floor(n: int, r: int) -> bool {
    r >= 0 && r * r <= n < (r + 1) * (r + 1)
}

/// The integer part of the square root of `n`.
pub open spec fn sqrt_floor(n: int) -> int {
    choose|r: int| is_sqrt_floor(n, r)
}

/// A number has at most one integer square root.
pub proof fn lemma_sqrt_floor_unique(n: int, r: int, s: int)
    requires
        is_sqrt_floor(n, r),
        is_sqrt_floor(n, s),
    ensures
        r == s,
{
    if r < s {
        assert((r + 1) * (r + 1) <= s * s) by (nonlinear_arith)
            requires
                0 <= r + 1 <= s,
        ;
    } else if s < r {
        assert((s + 1) * (s + 1) <= r * r) by (nonlinear_arith)
            requires
                0 <= s + 1 <= r,
        ;
    }
}

/// The integer part of the square root of a number up to one million.
pub fn integer_sqrt(n: u32) -> (r: u32)
    requires
        n <= 1_000_000,
    ensures
        is_sqrt_floor(n as int, r as int),
        r == sqrt_floor(n as int),
        r <= 1000,
{
    let mut r: u32 = 0;
    let mut next_square: u32 = 1;
    while next_square <= n
        invariant
            r <= 1000,
            r * r <= n,
            next_square == (r + 1) * (r + 1),
            n <= 1_000_000,
        decreases 1001 - r,
    {
        assert(r < 1000) by (nonlinear_arith)
            requires
                (r + 1) * (r + 1) <= n,
                n <= 1_000_000,
        ;
        assert((r + 2) * (r + 2) == (r + 1) * (r + 1) + 2 * r + 3) by (nonlinear_arith);
        assert((r + 1) * (r + 1) <= 1_000_000);
        r = r + 1;
        next_square = next_square + 2 * r + 1;
    }
    proof {
        lemma_sqrt_floor_unique(n as int, r as int, sqrt_floor(n as int));
    }
    r
}

/// The simplified heat index, used under 80 degrees: half of
/// `t + 61 + 1.2 (t - 68) + 0.094 rh`, on thousandths.
pub open spec fn simple_heat_index(temp_f: int, rh_pct: int) -> int {
    floor_div(2200 * temp_f + 94 * rh_pct - 20_600_000, 2000)
}

/// The numerator of the regression polynomial of the heat index over the
/// denominator ten to the seventeenth, on thousandths.
pub open spec fn regression_numerator(t: int, rh: int) -> int {
    -4_237_900_000_000_000_000_000 + 204_901_523_000_000_000 * t + 1_014_333_127_000_000_000 * rh
        - 22_475_541_000_000 * (t * rh) - 683_783_000_000 * (t * t) - 5_481_717_000_000 * (rh
        * rh) + 122_874_000 * (t * t * rh) + 85_282_000 * (t * rh * rh) - 199 * (t * t * rh * rh)
}

/// The regression polynomial of the heat index:
/// `-42.379 + 2.04901523 t + 10.14333127 rh - 0.22475541 t rh - 0.00683783 t^2
/// - 0.05481717 rh^2 + 0.00122874 t^2 rh + 0.00085282 t rh^2 - 0.00000199 t^2 rh^2`.
pub open spec fn regression_heat_index(t: int, rh: int) -> int {
    floor_div(regression_numerator(t, rh), 100_000_000_000_000_000)
}

/// The correction for dry air, taken off the regression where the humidity is
/// under 13 percent between 80 and 112 degrees:
/// `(13 - rh) / 4` times the square root of `(17 - |t - 95|) / 17`.
pub open spec fn dry_adjustment(t: int, rh: int) -> int {
    let spread = if t >= 95_000 {
        t - 95_000
    } else {
        95_000 - t
    };
    floor_div((13_000 - rh) * sqrt_floor(floor_div((17_000 - spread) * 1000, 17)), 4000)
}

/// The correction for humid air, added to the regression where the humidity
/// is over 85 percent between 80 and 87 degrees:
/// `(rh - 85) / 10` times `(87 - t) / 5`.
pub open spec fn humid_adjustment(t: int, rh: int) -> int {
    floor_div((rh - 85_000) * (87_000 - t), 50_000)
}

/// The heat index of a temperature in degrees Fahrenheit and a relative
/// humidity in percent, both in thousandths.
pub open spec fn heat_index(temp_f: int, rh_pct: int) -> int {
    if temp_f < 80_000 {
        simple_heat_index(temp_f, rh_pct)
    } else if rh_pct < 13_000 && temp_f <= 112_000 {
        regression_heat_index(temp_f, rh_pct) - dry_adjustment(temp_f, rh_pct)
    } else if rh_pct > 85_000 && temp_f <= 87_000 {
        regression_heat_index(temp_f, rh_pct) + humid_adjustment(temp_f, rh_pct)
    } else {
        regression_heat_index(temp_f, rh_pct)
    }
}

/// Whether wind chill applies: at or under 50 degrees in wind over 3 miles
/// per hour.
pub open spec fn chills(temp_f: int, wind_mph: int) -> bool {
    temp_f <= 50_000 && wind_mph > 3000
}

/// The wind chill polynomial `35.74 + 0.6215 t - 35.75 p + 0.4275 t p`, where
/// `p` is the wind speed raised to the power 0.16.
pub open spec fn chill_polynomial(temp_f: int, wind_power: int) -> int {
    floor_div(
        357_400_000_000 + 6_215_000 * temp_f - 357_500_000 * wind_power + 4275 * (temp_f
            * wind_power),
        10_000_000,
    )
}

/// The wind chill: the temperature itself over 50 degrees or in wind of at
/// most 3 miles per hour, else the polynomial.
pub open spec fn wind_chill(temp_f: int, wind_mph: int, wind_power: int) -> int {
    if chills(temp_f, wind_mph) {
        chill_polynomial(temp_f, wind_power)
    } else {
        temp_f
    }
}

/// The apparent temperature: the wind chill where it applies, the heat index
/// from 80 degrees on, and the temperature itself in between.
pub open spec fn apparent_temperature(
    temp_f: int,
    rh_pct: int,
    wind_mph: int,
    wind_power: int,
) -> int {
    if chills(temp_f, wind_mph) {
        wind_chill(temp_f, wind_mph, wind_power)
    } else if temp_f >= 80_000 {
        heat_index(temp_f, rh_pct)
    } else {
        temp_f
    }
}

proof fn lemma_product_bound(a: int, b: int, x: int, y: int)
    requires
        -x <= a <= x,
        -y <= b <= y,
    ensures
        -(x * y) <= a * b <= x * y,
{
    assert(-(x * y) <= a * b <= x * y) by (nonlinear_arith)
        requires
            -x <= a <= x,
            -y <= b <= y,
    ;
}

/// The regression polynomial on machine integers.
fn regression(temp_f: i64, rh_pct: i64) -> (value: i64)
    requires
        in_reading_range(temp_f as int),
        in_reading_range(rh_pct as int),
    ensures
        value == regression_heat_index(temp_f as int, rh_pct as int),
        -210_000_000_000_000_000 <= value <= 210_000_000_000_000_000,
{
    let t: i128 = temp_f as i128;
    let rh: i128 = rh_pct as i128;
    let ghost m: int = 100_000_000;
    proof {
        lemma_product_bound(t as int, rh as int, m, m);
        lemma_product_bound(t as int, t as int, m, m);
        lemma_product_bound(rh as int, rh as int, m, m);
    }
    let t_rh: i128 = t * rh;
    let t_t: i128 = t * t;
    let rh_rh: i128 = rh * rh;
    proof {
        lemma_product_bound(t_t as int, rh as int, m * m, m);
        lemma_product_bound(t_rh as int, rh as int, m * m, m);
        lemma_product_bound(t_t as int, rh_rh as int, m * m, m * m);
        assert(t * t * rh * rh == (t * t) * (rh * rh)) by (nonlinear_arith);
        assert(t * rh * rh == (t * rh) * rh) by (nonlinear_arith);
    }
    let t_t_rh: i128 = t_t * rh;
    let t_rh_rh: i128 = t_rh * rh;
    let t_t_rh_rh: i128 = t_t * rh_rh;
    let numerator: i128 = -4_237_900_000_000_000_000_000 + 204_901_523_000_000_000 * t
        + 1_014_333_127_000_000_000 * rh - 22_475_541_000_000 * t_rh - 683_783_000_000 * t_t
        - 5_481_717_000_000 * rh_rh + 122_874_000 * t_t_rh + 85_282_000 * t_rh_rh - 199
        * t_t_rh_rh;
    assert(numerator == regression_numerator(temp_f as int, rh_pct as int));
    proof {
        lemma_floor_div_bound(
            numerator as int,
            100_000_000_000_000_000,
            210_000_000_000_000_000,
        );
    }
    let value: i128 = div_floor(numerator, 100_000_000_000_000_000);
    value as i64
}

/// The heat index by the formula of the National Weather Service, on
/// thousandths of a degree Fahrenheit and of a percent.
pub fn calculate_heat_index(temp_f: i64, rh_pct: i64) -> (index: i64)
    requires
        in_reading_range(temp_f as int),
        in_reading_range(rh_pct as int),
    ensures
        index == heat_index(temp_f as int, rh_pct as int),
        -MAX_DERIVED <= index <= MAX_DERIVED,
{
    if temp_f < 80_000 {
        let numerator: i128 = 2200 * (temp_f as i128) + 94 * (rh_pct as i128) - 20_600_000;
        proof {
            lemma_floor_div_bound(numerator as int, 2000, 200_000_000);
        }
        let value: i128 = div_floor(numerator, 2000);
        return value as i64;
    }
    let base: i64 = regression(temp_f, rh_pct);
    if rh_pct < 13_000 && temp_f <= 112_000 {
        let spread: i64 = if temp_f >= 95_000 {
            temp_f - 95_000
        } else {
            95_000 - temp_f
        };
        let ratio: i128 = div_floor(((17_000 - spread) * 1000) as i128, 17);
        proof {
            vstd::arithmetic::div_mod::lemma_fundamental_div_mod((17_000 - spread) * 1000, 17);
            vstd::arithmetic::div_mod::lemma_mod_bound((17_000 - spread) * 1000, 17);
        }
        let root: u32 = integer_sqrt(ratio as u32);
        proof {
            lemma_product_bound(13_000 - rh_pct as int, root as int, 100_013_000, 1000);
            lemma_floor_div_bound((13_000 - rh_pct) * root, 4000, 100_013_000_000);
        }
        let numerator: i128 = (13_000 - rh_pct as i128) * (root as i128);
        let adjustment: i128 = div_floor(numerator, 4000);
        (base as i128 - adjustment) as i64
    } else if rh_pct > 85_000 && temp_f <= 87_000 {
        proof {
            lemma_product_bound(rh_pct - 85_000, 87_000 - temp_f, 100_000_000, 7000);
            lemma_floor_div_bound((rh_pct - 85_000) * (87_000 - temp_f), 50_000, 700_000_000_000);
        }
        let numerator: i128 = (rh_pct as i128 - 85_000) * (87_000 - temp_f as i128);
        let adjustment: i128 = div_floor(numerator, 50_000);
        (base as i128 + adjustment) as i64
    } else {
        base
    }
}

/// The wind chill by the formula of the National Weather Service.
/// `wind_power` is the wind speed raised to the power 0.16, which the caller
/// evaluates; it is read only where wind chill applies.
pub fn calculate_wind_chill(temp_f: i64, wind_mph: i64, wind_power: i64) -> (chill: i64)
    requires
        in_reading_range(temp_f as int),
        in_reading_range(wind_power as int),
    ensures
        chill == wind_chill(temp_f as int, wind_mph as int, wind_power as int),
        -MAX_DERIVED <= chill <= MAX_DERIVED,
{
    if temp_f > 50_000 || wind_mph <= 3000 {
        return temp_f;
    }
    let t: i128 = temp_f as i128;
    let p: i128 = wind_power as i128;
    proof {
        lemma_product_bound(t as int, p as int, 100_000_000, 100_000_000);
    }
    let t_p: i128 = t * p;
    let numerator: i128 = 357_400_000_000 + 6_215_000 * t - 357_500_000 * p + 4275 * t_p;
    proof {
        lemma_floor_div_bound(numerator as int, 10_000_000, 5_000_000_000_000);
    }
    let value: i128 = div_floor(numerator, 10_000_000);
    value as i64
}

/// The apparent temperature: wind chill in the cold, heat index in the heat,
/// the temperature itself in between.
pub fn calculate_apparent_temperature(
    temp_f: i64,
    rh_pct: i64,
    wind_mph: i64,
    wind_power: i64,
) -> (apparent: i64)
    requires
        in_reading_range(temp_f as int),
        in_reading_range(rh_pct as int),
        in_reading_range(wind_power as int),
    ensures
        apparent == apparent_temperature(
            temp_f as int,
            rh_pct as int,
            wind_mph as int,
            wind_power as int,
        ),
        -MAX_DERIVED <= apparent <= MAX_DERIVED,
{
    if temp_f <= 50_000 && wind_mph > 3000 {
        calculate_wind_chill(temp_f, wind_mph, wind_power)
    } else if temp_f >= 80_000 {
        calculate_heat_index(temp_f, rh_pct)
    } else {
        temp_f
    }
}

/// Which of the two rules made an apparent temperature differ from the
/// temperature.
#[derive(Debug, Clone, Copy, PartialEq, Eq, Structural)]
pub enum ApparentNote {
    WindChill,
    HeatIndex,
}

/// The note that goes with an apparent temperature: wind chill where it is
/// under a temperature of at most 50 degrees, heat index where it is over a
/// temperature of at least 80 degrees, and none otherwise.
pub open spec fn note_of(temp_f: int, feels_like: int) -> Option<ApparentNote> {
    if feels_like < temp_f && temp_f <= 50_000 {
        Some(ApparentNote::WindChill)
    } else if feels_like > temp_f && temp_f >= 80_000 {
        Some(ApparentNote::HeatIndex)
    } else {
        None
    }
}

/// Says which rule made an apparent temperature differ from the temperature.
pub fn apparent_note(temp_f: i64, feels_like: i64) -> (note: Option<ApparentNote>)
    ensures
        note == note_of(temp_f as int, feels_like as int),
{
    if feels_like < temp_f && temp_f <= 50_000 {
        Some(ApparentNote::WindChill)
    } else if feels_like > temp_f && temp_f >= 80_000 {
        Some(ApparentNote::HeatIndex)
    } else {
        None
    }
}

/// Wind chill leaves the temperature as it is over 50 degrees and in wind of
/// at most 3 miles per hour.
pub proof fn lemma_wind_chill_identity(temp_f: int, wind_mph: int, wind_power: int)
    requires
        temp_f > 50_000 || wind_mph <= 3000,
    ensures
        wind_chill(temp_f, wind_mph, wind_power) == temp_f,
{
}

/// Where wind chill applies and the power term is that of a wind over 3
/// miles per hour, which is at least 1.192, the wind chill is under the
/// temperature.
pub proof fn lemma_wind_chill_cools(temp_f: int, wind_mph: int, wind_power: int)
    requires
        chills(temp_f, wind_mph),
        wind_power >= 1192,
    ensures
        wind_chill(temp_f, wind_mph, wind_power) < temp_f,
{
    let gain = 4275 * wind_power - 3_785_000;
    let numerator = 357_400_000_000 + 6_215_000 * temp_f - 357_500_000 * wind_power + 4275 * (
    temp_f * wind_power);
    assert(temp_f * gain <= 50_000 * gain) by (nonlinear_arith)
        requires
            temp_f <= 50_000,
            gain > 0,
    ;
    assert(temp_f * gain == 4275 * (temp_f * wind_power) - 3_785_000 * temp_f)
        by (nonlinear_arith)
        requires
            gain == 4275 * wind_power - 3_785_000,
    ;
    assert(numerator < 10_000_000 * temp_f);
    vstd::arithmetic::div_mod::lemma_fundamental_div_mod(numerator, 10_000_000);
    vstd::arithmetic::div_mod::lemma_mod_bound(numerator, 10_000_000);
}

/// The apparent temperature meets its two neighbours at the borders of the
/// mild band: at 50 degrees in wind over 3 miles per hour it is the wind
/// chill, and at 80 degrees it is the heat index.
pub proof fn lemma_apparent_temperature_borders(rh_pct: int, wind_mph: int, wind_power: int)
    ensures
        wind_mph > 3000 ==> apparent_temperature(50_000, rh_pct, wind_mph, wind_power)
            == wind_chill(50_000, wind_mph, wind_power),
        apparent_temperature(80_000, rh_pct, wind_mph, wind_power) == heat_index(80_000, rh_pct),
{
}

/// The three rules of the apparent temperature exclude one another, and in
/// the band between them the temperature passes through.
pub proof fn lemma_apparent_temperature_rules(
    temp_f: int,
    rh_pct: int,
    wind_mph: int,
    wind_power: int,
)
    ensures
        !(chills(temp_f, wind_mph) && temp_f >= 80_000),
        chills(temp_f, wind_mph) ==> apparent_temperature(temp_f, rh_pct, wind_mph, wind_power)
            == chill_polynomial(temp_f, wind_power),
        temp_f >= 80_000 ==> apparent_temperature(temp_f, rh_pct, wind_mph, wind_power)
            == heat_index(temp_f, rh_pct),
        !chills(temp_f, wind_mph) && temp_f < 80_000 ==> apparent_temperature(
            temp_f,
            rh_pct,
            wind_mph,
            wind_power,
        ) == temp_f,
{
}

} // verus!
