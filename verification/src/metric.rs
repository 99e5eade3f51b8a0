use crate::derived::{
    apparent_temperature, calculate_heat_index, calculate_wind_chill, chill_polynomial, chills,
    heat_index, MAX_DERIVED,
};
use crate::precip::{precipitation_for, precipitation_probability};
use crate::units::{div_floor, floor_div, lemma_floor_div_bound};
use crate::weather::{
    rows_wf, DerivedTerms, ForecastInstant, ForecastPrecip, ObservationInstant, WeatherDataPoint,
};
use vstd::prelude::*;

verus! {

/// The quantities that the chart can plot.
#[derive(Debug, Clone, Copy, PartialEq, Eq, Structural)]
pub enum WeatherElement {
    Temperature,
    ApparentTemperature,
    WBGT,
    WindSpeed,
    Pressure,
    Humidity,
    Dewpoint,
    CloudCover,
    Visibility,
    SolarFlux,
    ThunderstormProbability,
    CAPE,
    PrecipitationProbability,
}

/// Relative humidity assumed where a record gives no way to know it: 50
/// percent.
pub const DEFAULT_HUMIDITY: i64 = 50_000;

/// A tenth of a specific humidity in decigrams per kilogram, read as a
/// relative humidity in percent.
pub open spec fn humidity_of_specific(specific: int) -> int {
    floor_div(specific, 10)
}

/// Metres in miles: a visibility in metres divided by 1609.34.
pub open spec fn miles_of_metres(metres: int) -> int {
    floor_div(metres * 100, 160_934)
}

/// The relative humidity of an observation: a tenth of its specific humidity
/// where it has one, else the Magnus term where it has dewpoint and
/// temperature, else nothing.
pub open spec fn observed_humidity(obs: ObservationInstant) -> Option<i64> {
    if obs.specific_humidity_2m_dg_kg is Some {
        Some(humidity_of_specific(obs.specific_humidity_2m_dg_kg.unwrap() as int) as i64)
    } else if obs.dewpoint_2m_f is Some && obs.temperature_2m_f is Some {
        obs.derived.humidity_from_dewpoint
    } else {
        None
    }
}

/// The relative humidity of a forecast: the Magnus term where it has dewpoint
/// and temperature, else nothing.
pub open spec fn forecast_humidity(fc: ForecastInstant) -> Option<i64> {
    if fc.dewpoint_2m_f is Some && fc.temperature_2m_f is Some {
        fc.derived.humidity_from_dewpoint
    } else {
        None
    }
}

/// The dewpoint of an observation: its own where it has one, else the inverse
/// Magnus term where it has specific humidity and temperature, else nothing.
pub open spec fn observed_dewpoint(obs: ObservationInstant) -> Option<i64> {
    if obs.dewpoint_2m_f is Some {
        obs.dewpoint_2m_f
    } else if obs.specific_humidity_2m_dg_kg is Some && obs.temperature_2m_f is Some {
        obs.derived.dewpoint_from_humidity
    } else {
        None
    }
}

/// The relative humidity that goes into the apparent temperature of a point:
/// a tenth of the specific humidity where the point has one, else the Magnus
/// term where it has a dewpoint, else 50 percent. It is absent only where the
/// dewpoint is present and its Magnus term is not.
pub open spec fn humidity_for_apparent(point: WeatherDataPoint) -> Option<i64> {
    match point {
        WeatherDataPoint::Observation(obs) => if obs.specific_humidity_2m_dg_kg is Some {
            Some(humidity_of_specific(obs.specific_humidity_2m_dg_kg.unwrap() as int) as i64)
        } else if obs.dewpoint_2m_f is Some {
            obs.derived.humidity_from_dewpoint
        } else {
            Some(DEFAULT_HUMIDITY)
        },
        WeatherDataPoint::Forecast(fc) => if fc.dewpoint_2m_f is Some {
            fc.derived.humidity_from_dewpoint
        } else {
            Some(DEFAULT_HUMIDITY)
        },
    }
}

/// The wind speed that goes into the apparent temperature of a point: its
/// own, or calm where it has none.
pub open spec fn wind_for_apparent(point: WeatherDataPoint) -> i64 {
    let wind = match point {
        WeatherDataPoint::Observation(obs) => obs.wind_spd_10m_mph,
        WeatherDataPoint::Forecast(fc) => fc.wind_spd_10m_mph,
    };
    match wind {
        Some(w) => w,
        None => 0,
    }
}

/// The apparent temperature of a point. It needs the temperature; where wind
/// chill applies it also needs the wind power term, and from 80 degrees on
/// the humidity.
pub open spec fn apparent_of(point: WeatherDataPoint) -> Option<i64> {
    match point.temperature_value() {
        None => None,
        Some(t) => {
            let wind = wind_for_apparent(point);
            if chills(t as int, wind as int) {
                match point.derived_terms().wind_power {
                    Some(p) => Some(chill_polynomial(t as int, p as int) as i64),
                    None => None,
                }
            } else if t >= 80_000 {
                match humidity_for_apparent(point) {
                    Some(h) => Some(heat_index(t as int, h as int) as i64),
                    None => None,
                }
            } else {
                Some(t)
            }
        },
    }
}

/// Where a point has its temperature, its wind power term and a humidity,
/// its apparent temperature is the formula's, on that humidity and on its
/// wind speed or calm.
pub proof fn lemma_apparent_of_whole_point(point: WeatherDataPoint)
    requires
        point.temperature_value() is Some,
        point.derived_terms().wind_power is Some,
        humidity_for_apparent(point) is Some,
    ensures
        apparent_of(point) == Some(
            apparent_temperature(
                point.temperature_value().unwrap() as int,
                humidity_for_apparent(point).unwrap() as int,
                wind_for_apparent(point) as int,
                point.derived_terms().wind_power.unwrap() as int,
            ) as i64,
        ),
{
}

/// What a point says of an element; nothing where it has no data for it. One
/// table serves the scales and the plot alike.
pub open spec fn metric(
    point: WeatherDataPoint,
    element: WeatherElement,
    precip_1hr: Seq<ForecastPrecip>,
    precip_6hr: Seq<ForecastPrecip>,
) -> Option<i64> {
    match element {
        WeatherElement::Temperature => point.temperature_value(),
        WeatherElement::ApparentTemperature => apparent_of(point),
        WeatherElement::WBGT => match point {
            WeatherDataPoint::Observation(_) => None,
            WeatherDataPoint::Forecast(fc) => fc.wbg_temp_2m_f,
        },
        WeatherElement::WindSpeed => match point {
            WeatherDataPoint::Observation(obs) => obs.wind_spd_10m_mph,
            WeatherDataPoint::Forecast(fc) => fc.wind_spd_10m_mph,
        },
        WeatherElement::Pressure => match point {
            WeatherDataPoint::Observation(obs) => obs.pressure_h_pa,
            WeatherDataPoint::Forecast(_) => None,
        },
        WeatherElement::Humidity => match point {
            WeatherDataPoint::Observation(obs) => observed_humidity(obs),
            WeatherDataPoint::Forecast(fc) => forecast_humidity(fc),
        },
        WeatherElement::Dewpoint => match point {
            WeatherDataPoint::Observation(obs) => observed_dewpoint(obs),
            WeatherDataPoint::Forecast(fc) => fc.dewpoint_2m_f,
        },
        WeatherElement::CloudCover => match point {
            WeatherDataPoint::Observation(obs) => obs.cloud_cover_pct,
            WeatherDataPoint::Forecast(fc) => fc.cloud_cover_pct,
        },
        WeatherElement::Visibility => {
            let metres = match point {
                WeatherDataPoint::Observation(obs) => obs.visibility_m,
                WeatherDataPoint::Forecast(fc) => fc.visibility_m,
            };
            match metres {
                Some(m) => Some(miles_of_metres(m as int) as i64),
                None => None,
            }
        },
        WeatherElement::SolarFlux => match point {
            WeatherDataPoint::Observation(obs) => obs.solar_flux_w_m2,
            WeatherDataPoint::Forecast(fc) => fc.solar_flux_w_m2,
        },
        WeatherElement::ThunderstormProbability => match point {
            WeatherDataPoint::Observation(_) => None,
            WeatherDataPoint::Forecast(fc) => fc.prob_thunderstorm_pct,
        },
        WeatherElement::CAPE => match point {
            WeatherDataPoint::Observation(_) => None,
            WeatherDataPoint::Forecast(fc) => fc.cape_surface_j_kg,
        },
        WeatherElement::PrecipitationProbability => precipitation_for(
            point.date_text(),
            precip_1hr,
            precip_6hr,
        ),
    }
}

/// Whether an optional value is absent or within `MAX_DERIVED`.
pub open spec fn value_ok(value: Option<i64>) -> bool {
    match value {
        Some(v) => -MAX_DERIVED <= v <= MAX_DERIVED,
        None => true,
    }
}

fn tenth(specific: i64) -> (humidity: i64)
    requires
        -100_000_000 <= specific <= 100_000_000,
    ensures
        humidity == humidity_of_specific(specific as int),
        -100_000_000 <= humidity <= 100_000_000,
{
    proof {
        lemma_floor_div_bound(specific as int, 10, 100_000_000);
    }
    let q: i128 = div_floor(specific as i128, 10);
    q as i64
}

fn miles(metres: i64) -> (distance: i64)
    requires
        -100_000_000 <= metres <= 100_000_000,
    ensures
        distance == miles_of_metres(metres as int),
        -100_000_000 <= distance <= 100_000_000,
{
    proof {
        lemma_floor_div_bound(metres as int * 100, 160_934, 100_000_000);
    }
    let q: i128 = div_floor(metres as i128 * 100, 160_934);
    q as i64
}

fn derived_of(point: &WeatherDataPoint) -> (terms: &DerivedTerms)
    ensures
        *terms == point.derived_terms(),
{
    match point {
        WeatherDataPoint::Observation(obs) => &obs.derived,
        WeatherDataPoint::Forecast(fc) => &fc.derived,
    }
}

fn apparent_humidity(point: &WeatherDataPoint) -> (humidity: Option<i64>)
    requires
        point.wf(),
    ensures
        humidity == humidity_for_apparent(*point),
        humidity is Some ==> -100_000_000 <= humidity.unwrap() <= 100_000_000,
{
    match point {
        WeatherDataPoint::Observation(obs) => match obs.specific_humidity_2m_dg_kg {
            Some(h) => Some(tenth(h)),
            None => match obs.dewpoint_2m_f {
                Some(_) => obs.derived.humidity_from_dewpoint,
                None => Some(DEFAULT_HUMIDITY),
            },
        },
        WeatherDataPoint::Forecast(fc) => match fc.dewpoint_2m_f {
            Some(_) => fc.derived.humidity_from_dewpoint,
            None => Some(DEFAULT_HUMIDITY),
        },
    }
}

fn apparent_value(point: &WeatherDataPoint) -> (value: Option<i64>)
    requires
        point.wf(),
    ensures
        value == apparent_of(*point),
        value_ok(value),
{
    let temp: i64 = match point.temperature() {
        Some(t) => t,
        None => {
            return None;
        },
    };
    let wind: i64 = match point {
        WeatherDataPoint::Observation(obs) => match obs.wind_spd_10m_mph {
            Some(w) => w,
            None => 0,
        },
        WeatherDataPoint::Forecast(fc) => match fc.wind_spd_10m_mph {
            Some(w) => w,
            None => 0,
        },
    };
    if temp <= 50_000 && wind > 3000 {
        match derived_of(point).wind_power {
            Some(power) => Some(calculate_wind_chill(temp, wind, power)),
            None => None,
        }
    } else if temp >= 80_000 {
        match apparent_humidity(point) {
            Some(humidity) => Some(calculate_heat_index(temp, humidity)),
            None => None,
        }
    } else {
        Some(temp)
    }
}

/// Reads the value of an element off a point.
pub fn metric_value(
    point: &WeatherDataPoint,
    element: WeatherElement,
    precip_1hr: &Vec<ForecastPrecip>,
    precip_6hr: &Vec<ForecastPrecip>,
) -> (value: Option<i64>)
    requires
        point.wf(),
        rows_wf(precip_1hr@),
        rows_wf(precip_6hr@),
    ensures
        value == metric(*point, element, precip_1hr@, precip_6hr@),
        value_ok(value),
{
    match element {
        WeatherElement::Temperature => point.temperature(),
        WeatherElement::ApparentTemperature => apparent_value(point),
        WeatherElement::WBGT => match point {
            WeatherDataPoint::Observation(_) => None,
            WeatherDataPoint::Forecast(fc) => fc.wbg_temp_2m_f,
        },
        WeatherElement::WindSpeed => match point {
            WeatherDataPoint::Observation(obs) => obs.wind_spd_10m_mph,
            WeatherDataPoint::Forecast(fc) => fc.wind_spd_10m_mph,
        },
        WeatherElement::Pressure => match point {
            WeatherDataPoint::Observation(obs) => obs.pressure_h_pa,
            WeatherDataPoint::Forecast(_) => None,
        },
        WeatherElement::Humidity => match point {
            WeatherDataPoint::Observation(obs) => match obs.specific_humidity_2m_dg_kg {
                Some(h) => Some(tenth(h)),
                None => if obs.dewpoint_2m_f.is_some() && obs.temperature_2m_f.is_some() {
                    obs.derived.humidity_from_dewpoint
                } else {
                    None
                },
            },
            WeatherDataPoint::Forecast(fc) => if fc.dewpoint_2m_f.is_some()
                && fc.temperature_2m_f.is_some() {
                fc.derived.humidity_from_dewpoint
            } else {
                None
            },
        },
        WeatherElement::Dewpoint => match point {
            WeatherDataPoint::Observation(obs) => match obs.dewpoint_2m_f {
                Some(d) => Some(d),
                None => if obs.specific_humidity_2m_dg_kg.is_some()
                    && obs.temperature_2m_f.is_some() {
                    obs.derived.dewpoint_from_humidity
                } else {
                    None
                },
            },
            WeatherDataPoint::Forecast(fc) => fc.dewpoint_2m_f,
        },
        WeatherElement::CloudCover => match point {
            WeatherDataPoint::Observation(obs) => obs.cloud_cover_pct,
            WeatherDataPoint::Forecast(fc) => fc.cloud_cover_pct,
        },
        WeatherElement::Visibility => {
            let metres: Option<i64> = match point {
                WeatherDataPoint::Observation(obs) => obs.visibility_m,
                WeatherDataPoint::Forecast(fc) => fc.visibility_m,
            };
            match metres {
                Some(m) => Some(miles(m)),
                None => None,
            }
        },
        WeatherElement::SolarFlux => match point {
            WeatherDataPoint::Observation(obs) => obs.solar_flux_w_m2,
            WeatherDataPoint::Forecast(fc) => fc.solar_flux_w_m2,
        },
        WeatherElement::ThunderstormProbability => match point {
            WeatherDataPoint::Observation(_) => None,
            WeatherDataPoint::Forecast(fc) => fc.prob_thunderstorm_pct,
        },
        WeatherElement::CAPE => match point {
            WeatherDataPoint::Observation(_) => None,
            WeatherDataPoint::Forecast(fc) => fc.cape_surface_j_kg,
        },
        WeatherElement::PrecipitationProbability => {
            let found: Option<i64> = precipitation_probability(
                point.valid_date(),
                precip_1hr,
                precip_6hr,
            );
            proof {
                crate::precip::lemma_precipitation_is_a_row(
                    point.date_text(),
                    precip_1hr@,
                    precip_6hr@,
                );
            }
            found
        },
    }
}

/// The values of an element along a sequence of points.
pub open spec fn metrics_of(
    points: Seq<WeatherDataPoint>,
    element: WeatherElement,
    precip_1hr: Seq<ForecastPrecip>,
    precip_6hr: Seq<ForecastPrecip>,
) -> Seq<Option<i64>> {
    Seq::new(points.len(), |i: int| metric(points[i], element, precip_1hr, precip_6hr))
}

/// Whether every value of a sequence is absent or within `MAX_DERIVED`.
pub open spec fn values_ok(values: Seq<Option<i64>>) -> bool {
    forall|i: int| 0 <= i < values.len() ==> value_ok(#[trigger] values[i])
}

/// Reads the value of an element off every point of a timeline.
pub fn metric_values(
    timeline: &Vec<WeatherDataPoint>,
    element: WeatherElement,
    precip_1hr: &Vec<ForecastPrecip>,
    precip_6hr: &Vec<ForecastPrecip>,
) -> (values: Vec<Option<i64>>)
    requires
        crate::weather::all_wf(timeline@),
        rows_wf(precip_1hr@),
        rows_wf(precip_6hr@),
    ensures
        values@ == metrics_of(timeline@, element, precip_1hr@, precip_6hr@),
        values_ok(values@),
{
    let mut values: Vec<Option<i64>> = Vec::new();
    let mut i: usize = 0;
    while i < timeline.len()
        invariant
            i <= timeline.len(),
            crate::weather::all_wf(timeline@),
            rows_wf(precip_1hr@),
            rows_wf(precip_6hr@),
            values.len() == i,
            values_ok(values@),
            forall|j: int|
                0 <= j < i ==> values[j] == metric(timeline[j], element, precip_1hr@, precip_6hr@),
        decreases timeline.len() - i,
    {
        let value: Option<i64> = metric_value(&timeline[i], element, precip_1hr, precip_6hr);
        values.push(value);
        i = i + 1;
    }
    assert(values@ =~= metrics_of(timeline@, element, precip_1hr@, precip_6hr@));
    values
}

} // verus!
