use crate::clock::rfc3339_seconds;
use vstd::prelude::*;

verus! {

/// Largest magnitude a reading may have, in thousandths: one hundred
/// thousand units. Readings beyond it are not physical, and the bound keeps
/// every formula of this crate inside machine integers.
pub const MAX_READING: i64 = 100_000_000;

/// Whether an optional reading is absent or within `MAX_READING`.
pub open spec fn reading_ok(reading: Option<i64>) -> bool {
    match reading {
        Some(v) => -MAX_READING <= v <= MAX_READING,
        None => true,
    }
}

/// Tells whether an optional reading is absent or within `MAX_READING`.
pub fn is_reading(reading: Option<i64>) -> (ok: bool)
    ensures
        ok == reading_ok(reading),
{
    match reading {
        Some(v) => -MAX_READING <= v && v <= MAX_READING,
        None => true,
    }
}

/// Values of the transcendental formulas for one record. Integer arithmetic
/// cannot evaluate them, so whoever builds a record supplies them, each in
/// thousandths, or leaves them absent.
#[derive(Debug, PartialEq, Eq)]
pub struct DerivedTerms {
    /// Relative humidity in percent by the Magnus formula, from the record's
    /// dewpoint and temperature.
    pub humidity_from_dewpoint: Option<i64>,
    /// Dewpoint in degrees Fahrenheit by the inverse Magnus formula, from a
    /// tenth of the record's specific humidity and its temperature.
    pub dewpoint_from_humidity: Option<i64>,
    /// The record's wind speed in miles per hour raised to the power 0.16.
    pub wind_power: Option<i64>,
}

impl DerivedTerms {
    pub open spec fn wf(&self) -> bool {
        &&& reading_ok(self.humidity_from_dewpoint)
        &&& reading_ok(self.dewpoint_from_humidity)
        &&& reading_ok(self.wind_power)
    }

    /// Tells whether the terms are well formed.
    pub fn is_well_formed(&self) -> (ok: bool)
        ensures
            ok == self.wf(),
    {
        is_reading(self.humidity_from_dewpoint) && is_reading(self.dewpoint_from_humidity)
            && is_reading(self.wind_power)
    }

    /// A record for which no formula was evaluated.
    pub fn none() -> (terms: Self)
        ensures
            terms.humidity_from_dewpoint is None,
            terms.dewpoint_from_humidity is None,
            terms.wind_power is None,
            terms.wf(),
    {
        DerivedTerms {
            humidity_from_dewpoint: None,
            dewpoint_from_humidity: None,
            wind_power: None,
        }
    }
}

impl Clone for DerivedTerms {
    fn clone(&self) -> (copy: Self)
        ensures
            copy == *self,
    {
        DerivedTerms {
            humidity_from_dewpoint: self.humidity_from_dewpoint,
            dewpoint_from_humidity: self.dewpoint_from_humidity,
            wind_power: self.wind_power,
        }
    }
}

/// The climatological normal temperature of one day.
#[derive(Debug, PartialEq, Eq)]
pub struct NormalTemperature {
    pub valid_date: String,
    pub temperature_2m_f: i64,
}

/// A past measurement. Every field but the timestamp may be absent; a present
/// field is in thousandths of its unit.
#[derive(Debug, PartialEq, Eq)]
pub struct ObservationInstant {
    pub valid_date: String,
    pub temperature_2m_f: Option<i64>,
    pub dewpoint_2m_f: Option<i64>,
    pub specific_humidity_2m_dg_kg: Option<i64>,
    pub cloud_cover_pct: Option<i64>,
    pub cloud_ceiling_m: Option<i64>,
    pub visibility_m: Option<i64>,
    pub pressure_h_pa: Option<i64>,
    pub wind_dir_10m_deg_fm_n: Option<i64>,
    pub wind_spd_10m_mph: Option<i64>,
    pub wind_gust_10m_mph: Option<i64>,
    pub solar_flux_w_m2: Option<i64>,
    pub derived: DerivedTerms,
}

impl ObservationInstant {
    pub open spec fn wf(&self) -> bool {
        &&& reading_ok(self.temperature_2m_f)
        &&& reading_ok(self.dewpoint_2m_f)
        &&& reading_ok(self.specific_humidity_2m_dg_kg)
        &&& reading_ok(self.cloud_cover_pct)
        &&& reading_ok(self.cloud_ceiling_m)
        &&& reading_ok(self.visibility_m)
        &&& reading_ok(self.pressure_h_pa)
        &&& reading_ok(self.wind_dir_10m_deg_fm_n)
        &&& reading_ok(self.wind_spd_10m_mph)
        &&& reading_ok(self.wind_gust_10m_mph)
        &&& reading_ok(self.solar_flux_w_m2)
        &&& self.derived.wf()
    }

    /// The record's time as a Unix timestamp, where its text parses.
    pub open spec fn time(&self) -> Option<i64> {
        rfc3339_seconds(self.valid_date@)
    }

    /// Tells whether the record is well formed.
    pub fn is_well_formed(&self) -> (ok: bool)
        ensures
            ok == self.wf(),
    {
        is_reading(self.temperature_2m_f) && is_reading(self.dewpoint_2m_f) && is_reading(
            self.specific_humidity_2m_dg_kg,
        ) && is_reading(self.cloud_cover_pct) && is_reading(self.cloud_ceiling_m) && is_reading(
            self.visibility_m,
        ) && is_reading(self.pressure_h_pa) && is_reading(self.wind_dir_10m_deg_fm_n)
            && is_reading(self.wind_spd_10m_mph) && is_reading(self.wind_gust_10m_mph)
            && is_reading(self.solar_flux_w_m2) && self.derived.is_well_formed()
    }
}

impl Clone for ObservationInstant {
    fn clone(&self) -> (copy: Self)
        ensures
            copy == *self,
    {
        ObservationInstant {
            valid_date: self.valid_date.clone(),
            temperature_2m_f: self.temperature_2m_f,
            dewpoint_2m_f: self.dewpoint_2m_f,
            specific_humidity_2m_dg_kg: self.specific_humidity_2m_dg_kg,
            cloud_cover_pct: self.cloud_cover_pct,
            cloud_ceiling_m: self.cloud_ceiling_m,
            visibility_m: self.visibility_m,
            pressure_h_pa: self.pressure_h_pa,
            wind_dir_10m_deg_fm_n: self.wind_dir_10m_deg_fm_n,
            wind_spd_10m_mph: self.wind_spd_10m_mph,
            wind_gust_10m_mph: self.wind_gust_10m_mph,
            solar_flux_w_m2: self.solar_flux_w_m2,
            derived: self.derived.clone(),
        }
    }
}

/// A predicted measurement, tagged with the time of the forecast run that
/// produced it. A present field is in thousandths of its unit.
#[derive(Debug, PartialEq, Eq)]
pub struct ForecastInstant {
    pub valid_date: String,
    pub cycle_date: String,
    pub temperature_2m_f: Option<i64>,
    pub dewpoint_2m_f: Option<i64>,
    pub wbg_temp_2m_f: Option<i64>,
    pub cloud_ceiling_m: Option<i64>,
    pub cloud_cover_pct: Option<i64>,
    pub visibility_m: Option<i64>,
    pub cape_surface_j_kg: Option<i64>,
    pub prob_thunderstorm_pct: Option<i64>,
    pub wind_dir_10m_deg_fm_n: Option<i64>,
    pub wind_spd_10m_mph: Option<i64>,
    pub wind_gust_10m_mph: Option<i64>,
    pub solar_flux_w_m2: Option<i64>,
    pub derived: DerivedTerms,
}

impl ForecastInstant {
    pub open spec fn wf(&self) -> bool {
        &&& reading_ok(self.temperature_2m_f)
        &&& reading_ok(self.dewpoint_2m_f)
        &&& reading_ok(self.wbg_temp_2m_f)
        &&& reading_ok(self.cloud_ceiling_m)
        &&& reading_ok(self.cloud_cover_pct)
        &&& reading_ok(self.visibility_m)
        &&& reading_ok(self.cape_surface_j_kg)
        &&& reading_ok(self.prob_thunderstorm_pct)
        &&& reading_ok(self.wind_dir_10m_deg_fm_n)
        &&& reading_ok(self.wind_spd_10m_mph)
        &&& reading_ok(self.wind_gust_10m_mph)
        &&& reading_ok(self.solar_flux_w_m2)
        &&& self.derived.wf()
    }

    /// The record's time as a Unix timestamp, where its text parses.
    pub open spec fn time(&self) -> Option<i64> {
        rfc3339_seconds(self.valid_date@)
    }

    /// Tells whether the record is well formed.
    pub fn is_well_formed(&self) -> (ok: bool)
        ensures
            ok == self.wf(),
    {
        is_reading(self.temperature_2m_f) && is_reading(self.dewpoint_2m_f) && is_reading(
            self.wbg_temp_2m_f,
        ) && is_reading(self.cloud_ceiling_m) && is_reading(self.cloud_cover_pct) && is_reading(
            self.visibility_m,
        ) && is_reading(self.cape_surface_j_kg) && is_reading(self.prob_thunderstorm_pct)
            && is_reading(self.wind_dir_10m_deg_fm_n) && is_reading(self.wind_spd_10m_mph)
            && is_reading(self.wind_gust_10m_mph) && is_reading(self.solar_flux_w_m2)
            && self.derived.is_well_formed()
    }
}

impl Clone for ForecastInstant {
    fn clone(&self) -> (copy: Self)
        ensures
            copy == *self,
    {
        ForecastInstant {
            valid_date: self.valid_date.clone(),
            cycle_date: self.cycle_date.clone(),
            temperature_2m_f: self.temperature_2m_f,
            dewpoint_2m_f: self.dewpoint_2m_f,
            wbg_temp_2m_f: self.wbg_temp_2m_f,
            cloud_ceiling_m: self.cloud_ceiling_m,
            cloud_cover_pct: self.cloud_cover_pct,
            visibility_m: self.visibility_m,
            cape_surface_j_kg: self.cape_surface_j_kg,
            prob_thunderstorm_pct: self.prob_thunderstorm_pct,
            wind_dir_10m_deg_fm_n: self.wind_dir_10m_deg_fm_n,
            wind_spd_10m_mph: self.wind_spd_10m_mph,
            wind_gust_10m_mph: self.wind_gust_10m_mph,
            solar_flux_w_m2: self.solar_flux_w_m2,
            derived: self.derived.clone(),
        }
    }
}

/// The probability of precipitation, in thousandths of a percent, over the
/// period that ends at `valid_date`.
#[derive(Debug, PartialEq, Eq)]
pub struct ForecastPrecip {
    pub valid_date: String,
    pub prob_precip_pct: i64,
}

impl ForecastPrecip {
    pub open spec fn wf(&self) -> bool {
        -MAX_READING <= self.prob_precip_pct <= MAX_READING
    }

    /// The end of the period as a Unix timestamp, where the text parses.
    pub open spec fn time(&self) -> Option<i64> {
        rfc3339_seconds(self.valid_date@)
    }

    /// Tells whether the row is well formed.
    pub fn is_well_formed(&self) -> (ok: bool)
        ensures
            ok == self.wf(),
    {
        -MAX_READING <= self.prob_precip_pct && self.prob_precip_pct <= MAX_READING
    }
}

/// Whether every row of a precipitation table is well formed.
pub open spec fn rows_wf(rows: Seq<ForecastPrecip>) -> bool {
    forall|i: int| 0 <= i < rows.len() ==> (#[trigger] rows[i]).wf()
}

/// Tells whether every row of a precipitation table is well formed.
pub fn rows_are_well_formed(rows: &Vec<ForecastPrecip>) -> (ok: bool)
    ensures
        ok == rows_wf(rows@),
{
    let mut i: usize = 0;
    while i < rows.len()
        invariant
            i <= rows.len(),
            forall|j: int| 0 <= j < i ==> (#[trigger] rows[j]).wf(),
        decreases rows.len() - i,
    {
        if !rows[i].is_well_formed() {
            return false;
        }
        i = i + 1;
    }
    true
}

impl Clone for ForecastPrecip {
    fn clone(&self) -> (copy: Self)
        ensures
            copy == *self,
    {
        ForecastPrecip { valid_date: self.valid_date.clone(), prob_precip_pct: self.prob_precip_pct }
    }
}

/// What the weather service answers for one place. Latitude and longitude
/// are in millionths of a degree.
#[derive(Debug, PartialEq, Eq)]
pub struct ApiWeatherData {
    pub latitude: i64,
    pub longitude: i64,
    pub grid_id: Option<i32>,
    pub normal_temperatures: Vec<NormalTemperature>,
    pub observations_instant: Vec<ObservationInstant>,
    pub forecasts_instant: Vec<ForecastInstant>,
    pub forecasts_precip_1hr: Vec<ForecastPrecip>,
    pub forecasts_precip_6hr: Vec<ForecastPrecip>,
}

impl ApiWeatherData {
    /// Every record of the answer is well formed.
    pub open spec fn wf(&self) -> bool {
        &&& forall|i: int|
            0 <= i < self.observations_instant.len() ==> (
            #[trigger] self.observations_instant[i]).wf()
        &&& forall|i: int|
            0 <= i < self.forecasts_instant.len() ==> (#[trigger] self.forecasts_instant[i]).wf()
        &&& rows_wf(self.forecasts_precip_1hr@)
        &&& rows_wf(self.forecasts_precip_6hr@)
    }

    /// Tells whether every record of the answer is well formed.
    pub fn is_well_formed(&self) -> (ok: bool)
        ensures
            ok == self.wf(),
    {
        let mut i: usize = 0;
        while i < self.observations_instant.len()
            invariant
                i <= self.observations_instant.len(),
                forall|j: int| 0 <= j < i ==> (#[trigger] self.observations_instant[j]).wf(),
            decreases self.observations_instant.len() - i,
        {
            if !self.observations_instant[i].is_well_formed() {
                return false;
            }
            i = i + 1;
        }
        let mut k: usize = 0;
        while k < self.forecasts_instant.len()
            invariant
                k <= self.forecasts_instant.len(),
                forall|j: int| 0 <= j < k ==> (#[trigger] self.forecasts_instant[j]).wf(),
            decreases self.forecasts_instant.len() - k,
        {
            if !self.forecasts_instant[k].is_well_formed() {
                return false;
            }
            k = k + 1;
        }
        rows_are_well_formed(&self.forecasts_precip_1hr) && rows_are_well_formed(
            &self.forecasts_precip_6hr,
        )
    }
}

/// One point of the chart: an observation or a forecast.
#[derive(Debug, PartialEq, Eq)]
pub enum WeatherDataPoint {
    Observation(ObservationInstant),
    Forecast(ForecastInstant),
}

impl WeatherDataPoint {
    pub open spec fn wf(&self) -> bool {
        match self {
            WeatherDataPoint::Observation(obs) => obs.wf(),
            WeatherDataPoint::Forecast(fc) => fc.wf(),
        }
    }

    /// The timestamp text of the record.
    pub open spec fn date_text(&self) -> Seq<char> {
        match self {
            WeatherDataPoint::Observation(obs) => obs.valid_date@,
            WeatherDataPoint::Forecast(fc) => fc.valid_date@,
        }
    }

    /// The record's time as a Unix timestamp, where its text parses.
    pub open spec fn time(&self) -> Option<i64> {
        rfc3339_seconds(self.date_text())
    }

    /// The record's air temperature.
    pub open spec fn temperature_value(&self) -> Option<i64> {
        match self {
            WeatherDataPoint::Observation(obs) => obs.temperature_2m_f,
            WeatherDataPoint::Forecast(fc) => fc.temperature_2m_f,
        }
    }

    /// The derived terms that came with the record.
    pub open spec fn derived_terms(&self) -> DerivedTerms {
        match self {
            WeatherDataPoint::Observation(obs) => obs.derived,
            WeatherDataPoint::Forecast(fc) => fc.derived,
        }
    }

    /// Tells whether the record is well formed.
    pub fn is_well_formed(&self) -> (ok: bool)
        ensures
            ok == self.wf(),
    {
        match self {
            WeatherDataPoint::Observation(obs) => obs.is_well_formed(),
            WeatherDataPoint::Forecast(fc) => fc.is_well_formed(),
        }
    }

    pub fn valid_date(&self) -> (text: &str)
        ensures
            text@ == self.date_text(),
    {
        match self {
            WeatherDataPoint::Observation(obs) => obs.valid_date.as_str(),
            WeatherDataPoint::Forecast(fc) => fc.valid_date.as_str(),
        }
    }

    pub fn temperature(&self) -> (value: Option<i64>)
        ensures
            value == self.temperature_value(),
    {
        match self {
            WeatherDataPoint::Observation(obs) => obs.temperature_2m_f,
            WeatherDataPoint::Forecast(fc) => fc.temperature_2m_f,
        }
    }
}

impl Clone for WeatherDataPoint {
    fn clone(&self) -> (copy: Self)
        ensures
            copy == *self,
    {
        match self {
            WeatherDataPoint::Observation(obs) => WeatherDataPoint::Observation(obs.clone()),
            WeatherDataPoint::Forecast(fc) => WeatherDataPoint::Forecast(fc.clone()),
        }
    }
}

/// The times of a sequence of points, each where its text parses.
pub open spec fn times_of(points: Seq<WeatherDataPoint>) -> Seq<Option<i64>> {
    Seq::new(points.len(), |i: int| points[i].time())
}

/// Whether every point of a sequence is well formed.
pub open spec fn all_wf(points: Seq<WeatherDataPoint>) -> bool {
    forall|i: int| 0 <= i < points.len() ==> (#[trigger] points[i]).wf()
}

/// Tells whether every point of a timeline is well formed.
pub fn points_are_well_formed(timeline: &Vec<WeatherDataPoint>) -> (ok: bool)
    ensures
        ok == all_wf(timeline@),
{
    let mut i: usize = 0;
    while i < timeline.len()
        invariant
            i <= timeline.len(),
            forall|j: int| 0 <= j < i ==> (#[trigger] timeline[j]).wf(),
        decreases timeline.len() - i,
    {
        if !timeline[i].is_well_formed() {
            return false;
        }
        i = i + 1;
    }
    true
}

} // verus!
