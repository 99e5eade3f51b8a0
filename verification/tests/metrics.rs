use meteogram::metric::{metric_value, metric_values, WeatherElement};
use meteogram::weather::{
    points_are_well_formed, rows_are_well_formed, DerivedTerms, ForecastInstant, ForecastPrecip,
    ObservationInstant, WeatherDataPoint,
};

fn bare_observation() -> ObservationInstant {
    ObservationInstant {
        valid_date: "2024-03-10T12:00:00Z".to_string(),
        temperature_2m_f: None,
        dewpoint_2m_f: None,
        specific_humidity_2m_dg_kg: None,
        cloud_cover_pct: None,
        cloud_ceiling_m: None,
        visibility_m: None,
        pressure_h_pa: None,
        wind_dir_10m_deg_fm_n: None,
        wind_spd_10m_mph: None,
        wind_gust_10m_mph: None,
        solar_flux_w_m2: None,
        derived: DerivedTerms::none(),
    }
}

fn bare_forecast() -> ForecastInstant {
    ForecastInstant {
        valid_date: "2024-03-10T12:00:00Z".to_string(),
        cycle_date: "2024-03-10T00:00:00Z".to_string(),
        temperature_2m_f: None,
        dewpoint_2m_f: None,
        wbg_temp_2m_f: None,
        cloud_ceiling_m: None,
        cloud_cover_pct: None,
        visibility_m: None,
        cape_surface_j_kg: None,
        prob_thunderstorm_pct: None,
        wind_dir_10m_deg_fm_n: None,
        wind_spd_10m_mph: None,
        wind_gust_10m_mph: None,
        solar_flux_w_m2: None,
        derived: DerivedTerms::none(),
    }
}

fn value(point: &WeatherDataPoint, element: WeatherElement) -> Option<i64> {
    metric_value(point, element, &Vec::new(), &Vec::new())
}

const ALL: [WeatherElement; 13] = [
    WeatherElement::Temperature,
    WeatherElement::ApparentTemperature,
    WeatherElement::WBGT,
    WeatherElement::WindSpeed,
    WeatherElement::Pressure,
    WeatherElement::Humidity,
    WeatherElement::Dewpoint,
    WeatherElement::CloudCover,
    WeatherElement::Visibility,
    WeatherElement::SolarFlux,
    WeatherElement::ThunderstormProbability,
    WeatherElement::CAPE,
    WeatherElement::PrecipitationProbability,
];

#[test]
fn a_bare_record_has_no_value_for_any_element() {
    let obs = WeatherDataPoint::Observation(bare_observation());
    let fc = WeatherDataPoint::Forecast(bare_forecast());
    for element in ALL {
        assert_eq!(value(&obs, element), None);
        assert_eq!(value(&fc, element), None);
    }
}

#[test]
fn fields_read_straight_off_an_observation() {
    let mut obs = bare_observation();
    obs.temperature_2m_f = Some(61_500);
    obs.wind_spd_10m_mph = Some(7_250);
    obs.pressure_h_pa = Some(1_009_300);
    obs.cloud_cover_pct = Some(0);
    obs.solar_flux_w_m2 = Some(812_000);
    obs.visibility_m = Some(16_093_400);
    let point = WeatherDataPoint::Observation(obs);
    assert_eq!(value(&point, WeatherElement::Temperature), Some(61_500));
    assert_eq!(value(&point, WeatherElement::WindSpeed), Some(7_250));
    assert_eq!(value(&point, WeatherElement::Pressure), Some(1_009_300));
    assert_eq!(value(&point, WeatherElement::CloudCover), Some(0));
    assert_eq!(value(&point, WeatherElement::SolarFlux), Some(812_000));
    assert_eq!(value(&point, WeatherElement::Visibility), Some(10_000));
    assert_eq!(value(&point, WeatherElement::WBGT), None);
    assert_eq!(value(&point, WeatherElement::ThunderstormProbability), None);
    assert_eq!(value(&point, WeatherElement::CAPE), None);
}

#[test]
fn fields_read_straight_off_a_forecast() {
    let mut fc = bare_forecast();
    fc.temperature_2m_f = Some(55_000);
    fc.wbg_temp_2m_f = Some(51_200);
    fc.dewpoint_2m_f = Some(44_000);
    fc.cape_surface_j_kg = Some(1_250_000);
    fc.prob_thunderstorm_pct = Some(15_000);
    fc.wind_spd_10m_mph = Some(2_000);
    fc.cloud_cover_pct = Some(88_000);
    fc.solar_flux_w_m2 = Some(0);
    fc.visibility_m = Some(1_000_000);
    let point = WeatherDataPoint::Forecast(fc);
    assert_eq!(value(&point, WeatherElement::Temperature), Some(55_000));
    assert_eq!(value(&point, WeatherElement::WBGT), Some(51_200));
    assert_eq!(value(&point, WeatherElement::Dewpoint), Some(44_000));
    assert_eq!(value(&point, WeatherElement::CAPE), Some(1_250_000));
    assert_eq!(value(&point, WeatherElement::ThunderstormProbability), Some(15_000));
    assert_eq!(value(&point, WeatherElement::WindSpeed), Some(2_000));
    assert_eq!(value(&point, WeatherElement::CloudCover), Some(88_000));
    assert_eq!(value(&point, WeatherElement::SolarFlux), Some(0));
    assert_eq!(value(&point, WeatherElement::Visibility), Some(621));
    assert_eq!(value(&point, WeatherElement::Pressure), None);
    assert_eq!(value(&point, WeatherElement::ApparentTemperature), Some(55_000));
}

#[test]
fn humidity_prefers_the_specific_humidity() {
    let mut obs = bare_observation();
    obs.specific_humidity_2m_dg_kg = Some(455_000);
    obs.dewpoint_2m_f = Some(40_000);
    obs.temperature_2m_f = Some(60_000);
    obs.derived.humidity_from_dewpoint = Some(47_700);
    let point = WeatherDataPoint::Observation(obs.clone());
    assert_eq!(value(&point, WeatherElement::Humidity), Some(45_500));
    obs.specific_humidity_2m_dg_kg = None;
    let point = WeatherDataPoint::Observation(obs.clone());
    assert_eq!(value(&point, WeatherElement::Humidity), Some(47_700));
    obs.temperature_2m_f = None;
    let point = WeatherDataPoint::Observation(obs.clone());
    assert_eq!(value(&point, WeatherElement::Humidity), None);
    obs.specific_humidity_2m_dg_kg = Some(-15);
    let point = WeatherDataPoint::Observation(obs);
    assert_eq!(value(&point, WeatherElement::Humidity), Some(-2));
}

#[test]
fn humidity_of_a_forecast_needs_dewpoint_and_temperature() {
    let mut fc = bare_forecast();
    fc.derived.humidity_from_dewpoint = Some(52_000);
    fc.dewpoint_2m_f = Some(40_000);
    let point = WeatherDataPoint::Forecast(fc.clone());
    assert_eq!(value(&point, WeatherElement::Humidity), None);
    fc.temperature_2m_f = Some(58_000);
    let point = WeatherDataPoint::Forecast(fc.clone());
    assert_eq!(value(&point, WeatherElement::Humidity), Some(52_000));
    fc.derived.humidity_from_dewpoint = None;
    let point = WeatherDataPoint::Forecast(fc);
    assert_eq!(value(&point, WeatherElement::Humidity), None);
}

#[test]
fn dewpoint_prefers_the_measured_dewpoint() {
    let mut obs = bare_observation();
    obs.dewpoint_2m_f = Some(41_000);
    obs.specific_humidity_2m_dg_kg = Some(500_000);
    obs.temperature_2m_f = Some(60_000);
    obs.derived.dewpoint_from_humidity = Some(41_300);
    let point = WeatherDataPoint::Observation(obs.clone());
    assert_eq!(value(&point, WeatherElement::Dewpoint), Some(41_000));
    obs.dewpoint_2m_f = None;
    let point = WeatherDataPoint::Observation(obs.clone());
    assert_eq!(value(&point, WeatherElement::Dewpoint), Some(41_300));
    obs.temperature_2m_f = None;
    let point = WeatherDataPoint::Observation(obs);
    assert_eq!(value(&point, WeatherElement::Dewpoint), None);
}

#[test]
fn apparent_temperature_needs_the_temperature() {
    let mut obs = bare_observation();
    obs.wind_spd_10m_mph = Some(20_000);
    obs.derived.wind_power = Some(1_615);
    let point = WeatherDataPoint::Observation(obs);
    assert_eq!(value(&point, WeatherElement::ApparentTemperature), None);
}

#[test]
fn apparent_temperature_in_cold_wind_is_the_wind_chill() {
    let mut obs = bare_observation();
    obs.temperature_2m_f = Some(30_000);
    obs.wind_spd_10m_mph = Some(10_000);
    obs.derived.wind_power = Some(1_445);
    let point = WeatherDataPoint::Observation(obs.clone());
    assert_eq!(value(&point, WeatherElement::ApparentTemperature), Some(21_258));
    obs.derived.wind_power = None;
    let point = WeatherDataPoint::Observation(obs.clone());
    assert_eq!(value(&point, WeatherElement::ApparentTemperature), None);
    obs.wind_spd_10m_mph = None;
    let point = WeatherDataPoint::Observation(obs);
    assert_eq!(value(&point, WeatherElement::ApparentTemperature), Some(30_000));
}

#[test]
fn apparent_temperature_in_the_heat_follows_the_humidity_chain() {
    let mut obs = bare_observation();
    obs.temperature_2m_f = Some(90_000);
    let point = WeatherDataPoint::Observation(obs.clone());
    // No humidity at all: 50 percent is assumed.
    assert_eq!(value(&point, WeatherElement::ApparentTemperature), Some(94_596));
    obs.dewpoint_2m_f = Some(60_000);
    obs.derived.humidity_from_dewpoint = Some(40_000);
    let point = WeatherDataPoint::Observation(obs.clone());
    assert_eq!(value(&point, WeatherElement::ApparentTemperature), Some(90_679));
    obs.specific_humidity_2m_dg_kg = Some(100_000);
    let point = WeatherDataPoint::Observation(obs.clone());
    assert_eq!(value(&point, WeatherElement::ApparentTemperature), Some(85_279));
    obs.specific_humidity_2m_dg_kg = None;
    obs.derived.humidity_from_dewpoint = None;
    let point = WeatherDataPoint::Observation(obs);
    assert_eq!(value(&point, WeatherElement::ApparentTemperature), None);

    let mut fc = bare_forecast();
    fc.temperature_2m_f = Some(90_000);
    let point = WeatherDataPoint::Forecast(fc.clone());
    assert_eq!(value(&point, WeatherElement::ApparentTemperature), Some(94_596));
    fc.dewpoint_2m_f = Some(60_000);
    fc.derived.humidity_from_dewpoint = Some(40_000);
    let point = WeatherDataPoint::Forecast(fc);
    assert_eq!(value(&point, WeatherElement::ApparentTemperature), Some(90_679));
}

#[test]
fn precipitation_is_resolved_at_the_time_of_the_point() {
    let hourly = vec![ForecastPrecip {
        valid_date: "2024-03-10T12:00:00Z".to_string(),
        prob_precip_pct: 40_000,
    }];
    let six = vec![ForecastPrecip {
        valid_date: "2024-03-10T18:00:00Z".to_string(),
        prob_precip_pct: 65_000,
    }];
    let mut fc = bare_forecast();
    let at_noon = WeatherDataPoint::Forecast(fc.clone());
    fc.valid_date = "2024-03-10T13:00:00Z".to_string();
    let after_noon = WeatherDataPoint::Forecast(fc.clone());
    fc.valid_date = "2024-03-10T19:00:00Z".to_string();
    let at_night = WeatherDataPoint::Forecast(fc.clone());
    fc.valid_date = "noon".to_string();
    let undated = WeatherDataPoint::Forecast(fc);
    let element = WeatherElement::PrecipitationProbability;
    assert_eq!(metric_value(&at_noon, element, &hourly, &six), Some(40_000));
    assert_eq!(metric_value(&after_noon, element, &hourly, &six), Some(65_000));
    assert_eq!(metric_value(&at_night, element, &hourly, &six), None);
    assert_eq!(metric_value(&undated, element, &hourly, &six), None);
    let timeline = vec![at_noon, after_noon, at_night, undated];
    assert_eq!(
        metric_values(&timeline, element, &hourly, &six),
        vec![Some(40_000), Some(65_000), None, None]
    );
}

#[test]
fn readings_out_of_range_are_told_apart() {
    let mut obs = bare_observation();
    assert!(obs.is_well_formed());
    obs.temperature_2m_f = Some(100_000_000);
    obs.visibility_m = Some(-100_000_000);
    assert!(obs.is_well_formed());
    obs.pressure_h_pa = Some(100_000_001);
    assert!(!obs.is_well_formed());
    obs.pressure_h_pa = None;
    obs.derived.wind_power = Some(-100_000_001);
    assert!(!obs.is_well_formed());
    assert!(!WeatherDataPoint::Observation(obs).is_well_formed());

    let mut fc = bare_forecast();
    assert!(fc.is_well_formed());
    fc.cape_surface_j_kg = Some(i64::MAX);
    assert!(!fc.is_well_formed());
    let timeline = vec![
        WeatherDataPoint::Forecast(bare_forecast()),
        WeatherDataPoint::Forecast(fc),
    ];
    assert!(!points_are_well_formed(&timeline));
    assert!(points_are_well_formed(&timeline[..1].to_vec()));
    assert!(points_are_well_formed(&Vec::new()));

    let row = ForecastPrecip { valid_date: String::new(), prob_precip_pct: 100_000_000 };
    assert!(rows_are_well_formed(&vec![row.clone()]));
    let bad = ForecastPrecip { valid_date: String::new(), prob_precip_pct: 100_000_001 };
    assert!(!rows_are_well_formed(&vec![row, bad]));
}
