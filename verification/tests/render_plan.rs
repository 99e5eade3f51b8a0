use meteogram::clock::LocalStamp;
use meteogram::label::Label;
use meteogram::chart::Meteogram;
use meteogram::metric::WeatherElement;
use meteogram::plan::{Color, Primitive};
use meteogram::scale::ValueRange;
use meteogram::weather::{DerivedTerms, ForecastInstant, ForecastPrecip, WeatherDataPoint};

const BASE: i64 = 1_710_028_800;
const WIDTH: i64 = 115_000;
const HEIGHT: i64 = 230_000;

fn forecast(seconds: i64, temperature: Option<i64>, wind: Option<i64>) -> WeatherDataPoint {
    let instant = chrono::DateTime::from_timestamp(BASE + seconds, 0).unwrap();
    WeatherDataPoint::Forecast(ForecastInstant {
        valid_date: instant.to_rfc3339(),
        cycle_date: "2024-03-10T00:00:00Z".to_string(),
        temperature_2m_f: temperature,
        dewpoint_2m_f: None,
        wbg_temp_2m_f: temperature.map(|t| t - 5_000),
        cloud_ceiling_m: None,
        cloud_cover_pct: None,
        visibility_m: None,
        cape_surface_j_kg: None,
        prob_thunderstorm_pct: None,
        wind_dir_10m_deg_fm_n: None,
        wind_spd_10m_mph: wind,
        wind_gust_10m_mph: None,
        solar_flux_w_m2: None,
        derived: DerivedTerms::none(),
    })
}

// What a clock set to universal time shows, from the tenth of March 2024 on, a Sunday.
fn stamp(seconds: i64) -> Option<LocalStamp> {
    let day = seconds.div_euclid(86_400);
    Some(LocalStamp {
        ordinal: (70 + day) as u32,
        hour: (seconds.rem_euclid(86_400) / 3_600) as u32,
        weekday: ((6 + day) % 7) as u32,
        month: 3,
        day: (10 + day) as u32,
        noon: Some(BASE + day * 86_400 + 43_200),
    })
}

fn chart(
    timeline: Vec<WeatherDataPoint>,
    selected_index: usize,
    element: WeatherElement,
    range: Option<ValueRange>,
) -> Meteogram {
    Meteogram::new(timeline, selected_index, element, Vec::new(), Vec::new(), range)
}

fn background() -> Primitive {
    Primitive::Rectangle { x: 0, y: 0, width: 115_000, height: 230_000, color: Color::Background }
}

fn late_evening() -> Vec<WeatherDataPoint> {
    vec![
        forecast(22 * 3_600, Some(40_000), None),
        forecast(23 * 3_600, Some(50_000), None),
        forecast(24 * 3_600, Some(60_000), None),
    ]
}

fn late_evening_stamps() -> Vec<Option<LocalStamp>> {
    vec![stamp(22 * 3_600), stamp(23 * 3_600), stamp(24 * 3_600)]
}

#[test]
fn the_whole_plan_from_back_to_front() {
    let range = ValueRange { min: 30_000, max: 70_000 };
    let chart = chart(late_evening(), 1, WeatherElement::Temperature, Some(range));
    let plan = chart.render_plan(WIDTH, HEIGHT, BASE + 80_000, &late_evening_stamps());

    let mut expected = vec![
        background(),
        Primitive::Rectangle {
            x: 105_000,
            y: 0,
            width: 115_000,
            height: 230_000,
            color: Color::OddDay,
        },
    ];
    for piece in 0..10 {
        expected.push(Primitive::Line {
            x1: 5_000 + 5_000 * piece,
            y1: 175_000 - 4_500 * piece,
            x2: 5_000 + 5_000 * (piece + 1),
            y2: 175_000 - 4_500 * (piece + 1),
            color: Color::Cold,
            stroke: 4_000,
        });
    }
    for piece in 0..10 {
        expected.push(Primitive::Line {
            x1: 55_000 + 5_000 * piece,
            y1: 130_000 - 4_500 * piece,
            x2: 55_000 + 5_000 * (piece + 1),
            y2: 130_000 - 4_500 * (piece + 1),
            color: Color::Cool,
            stroke: 4_000,
        });
    }
    expected.push(Primitive::Text {
        label: Label::Hour(22),
        x: 5_000,
        y: 18_000,
        size: 12_000,
        color: Color::HourLabel,
    });
    expected.push(Primitive::Line {
        x1: 5_000,
        y1: 40_000,
        x2: 5_000,
        y2: 210_000,
        color: Color::Marker,
        stroke: 2_000,
    });
    expected.push(Primitive::Circle { x: 55_000, y: 130_000, radius: 4_000, color: Color::Marker });
    assert_eq!(plan, expected);
}

#[test]
fn only_the_background_without_a_mapper() {
    let range = Some(ValueRange { min: 30_000, max: 70_000 });
    let empty = chart(Vec::new(), 0, WeatherElement::Temperature, range);
    assert_eq!(empty.render_plan(WIDTH, HEIGHT, BASE, &Vec::new()), vec![background()]);
    let single = chart(vec![forecast(0, Some(50_000), None)], 0, WeatherElement::Temperature, range);
    assert_eq!(single.render_plan(WIDTH, HEIGHT, BASE, &vec![stamp(0)]), vec![background()]);
    let narrow = chart(late_evening(), 0, WeatherElement::Temperature, range);
    assert_eq!(
        narrow.render_plan(15_000, HEIGHT, BASE, &late_evening_stamps()),
        vec![Primitive::Rectangle {
            x: 0,
            y: 0,
            width: 15_000,
            height: 230_000,
            color: Color::Background
        }]
    );
}

#[test]
fn only_background_and_bands_without_a_shared_range() {
    let chart = chart(late_evening(), 1, WeatherElement::WindSpeed, None);
    let plan = chart.render_plan(WIDTH, HEIGHT, BASE, &late_evening_stamps());
    assert_eq!(
        plan,
        vec![
            background(),
            Primitive::Rectangle {
                x: 105_000,
                y: 0,
                width: 115_000,
                height: 230_000,
                color: Color::OddDay
            },
        ]
    );
}

fn a_day_of_wind() -> Vec<WeatherDataPoint> {
    vec![
        forecast(0, None, Some(5_000)),
        forecast(6 * 3_600, None, None),
        forecast(12 * 3_600, None, Some(15_000)),
        forecast(18 * 3_600, None, Some(10_000)),
        forecast(24 * 3_600, None, Some(5_000)),
    ]
}

fn a_day_of_stamps() -> Vec<Option<LocalStamp>> {
    vec![stamp(0), stamp(6 * 3_600), stamp(12 * 3_600), stamp(18 * 3_600), stamp(24 * 3_600)]
}

fn muted(x1: i128, y1: i128, x2: i128, y2: i128) -> Primitive {
    Primitive::Line { x1, y1, x2, y2, color: Color::Muted, stroke: 2_000 }
}

fn hour(hour: u32, x: i128) -> Primitive {
    Primitive::Text { label: Label::Hour(hour), x, y: 18_000, size: 12_000, color: Color::HourLabel }
}

#[test]
fn the_selected_element_labels_and_markers() {
    let range = ValueRange { min: 0, max: 100_000 };
    let chart = chart(a_day_of_wind(), 2, WeatherElement::WindSpeed, Some(range));
    let plan = chart.render_plan(WIDTH, HEIGHT, BASE + 60_000, &a_day_of_stamps());
    let expected = vec![
        background(),
        Primitive::Rectangle {
            x: 105_000,
            y: 0,
            width: 115_000,
            height: 230_000,
            color: Color::OddDay,
        },
        muted(5_000, 205_000, 55_000, 55_000),
        muted(55_000, 55_000, 80_000, 130_000),
        muted(80_000, 130_000, 105_000, 205_000),
        Primitive::Text {
            label: Label::Day { weekday: 6, month: 3, day: 10 },
            x: 55_000,
            y: 2_000,
            size: 14_000,
            color: Color::DayLabel,
        },
        hour(0, 5_000),
        hour(6, 30_000),
        hour(12, 55_000),
        hour(18, 80_000),
        hour(0, 105_000),
        Primitive::Line {
            x1: 80_000,
            y1: 40_000,
            x2: 80_000,
            y2: 210_000,
            color: Color::Marker,
            stroke: 2_000,
        },
    ];
    assert_eq!(plan, expected);
}

#[test]
fn wet_bulb_globe_temperature_is_drawn_on_the_shared_scale() {
    let timeline = vec![
        forecast(0, Some(40_000), None),
        forecast(3_600, Some(60_000), None),
        forecast(7_200, Some(50_000), None),
    ];
    let stamps = vec![stamp(0), stamp(3_600), stamp(7_200)];
    let range = ValueRange { min: 30_000, max: 70_000 };
    let chart = chart(timeline, 5, WeatherElement::WBGT, Some(range));
    let plan = chart.render_plan(WIDTH, HEIGHT, BASE, &stamps);
    // The wet-bulb-globe temperatures are 35, 55 and 45 degrees.
    assert_eq!(plan[0], background());
    assert_eq!(plan[1], muted(5_000, 197_500, 55_000, 107_500));
    assert_eq!(plan[2], muted(55_000, 107_500, 105_000, 152_500));
    assert_eq!(plan.len(), 1 + 2 + 20 + 1 + 1);
    assert_eq!(
        plan[3],
        Primitive::Line {
            x1: 5_000,
            y1: 175_000,
            x2: 10_000,
            y2: 166_000,
            color: Color::Cold,
            stroke: 4_000
        }
    );
    assert_eq!(plan[23], hour(0, 5_000));
    assert!(matches!(plan[24], Primitive::Line { x1: 5_000, color: Color::Marker, .. }));
}

#[test]
fn an_element_with_a_scale_of_its_own_ignores_the_shared_range() {
    let range = ValueRange { min: -1_000_000, max: 1_000_000 };
    let chart = chart(a_day_of_wind(), 0, WeatherElement::WindSpeed, Some(range));
    let plan = chart.render_plan(WIDTH, HEIGHT, BASE, &a_day_of_stamps());
    assert_eq!(plan[2], muted(5_000, 205_000, 55_000, 55_000));
}

#[test]
fn the_temperature_line_changes_color_with_the_temperature() {
    let timeline = vec![forecast(0, Some(25_000), None), forecast(3_600, Some(105_000), None)];
    let stamps = vec![stamp(0), stamp(3_600)];
    let range = ValueRange { min: 20_000, max: 110_000 };
    let chart = chart(timeline, 9, WeatherElement::Temperature, Some(range));
    let plan = chart.render_plan(WIDTH, HEIGHT, BASE, &stamps);
    let colors: Vec<Color> = plan
        .iter()
        .filter_map(|primitive| match primitive {
            Primitive::Line { color, stroke: 4_000, .. } => Some(*color),
            _ => None,
        })
        .collect();
    // Midpoints at 29, 37, 45, 53, 61, 69, 77, 85, 93 and 101 degrees.
    assert_eq!(
        colors,
        vec![
            Color::Freezing,
            Color::Cold,
            Color::Cold,
            Color::Cool,
            Color::Cool,
            Color::Comfortable,
            Color::Warm,
            Color::Hot,
            Color::Hot,
            Color::VeryHot,
        ]
    );
}

#[test]
fn a_gap_in_the_temperatures_breaks_the_line() {
    let timeline = vec![
        forecast(0, Some(50_000), None),
        forecast(3_600, None, None),
        forecast(7_200, Some(50_000), None),
        forecast(10_800, Some(50_000), None),
    ];
    let stamps = vec![None, None, None, None];
    let range = ValueRange { min: 40_000, max: 60_000 };
    let chart = chart(timeline, 1, WeatherElement::Temperature, Some(range));
    let plan = chart.render_plan(WIDTH, HEIGHT, BASE + 7_000, &stamps);
    // Background, ten pieces between the last two points, and the line of the present.
    assert_eq!(plan.len(), 12);
    assert_eq!(
        plan[1],
        Primitive::Line {
            x1: 71_666,
            y1: 130_000,
            x2: 74_999,
            y2: 130_000,
            color: Color::Cool,
            stroke: 4_000
        }
    );
    assert!(matches!(plan[11], Primitive::Line { x1: 71_666, x2: 71_666, stroke: 2_000, .. }));
}

#[test]
fn hour_labels_keep_four_hours_apart() {
    let mut timeline = Vec::new();
    let mut stamps = Vec::new();
    for hour in 21..=30 {
        timeline.push(forecast(hour * 3_600, None, None));
        stamps.push(stamp(hour * 3_600));
    }
    let range = ValueRange { min: 0, max: 1_000 };
    let chart = chart(timeline, 0, WeatherElement::Temperature, Some(range));
    let plan = chart.render_plan(WIDTH, HEIGHT, BASE, &stamps);
    let labels: Vec<Label> = plan
        .iter()
        .filter_map(|primitive| match primitive {
            Primitive::Text { label: Label::Hour(hour), .. } => Some(Label::Hour(*hour)),
            _ => None,
        })
        .collect();
    assert_eq!(labels, vec![Label::Hour(21), Label::Hour(1), Label::Hour(5)]);
}

#[test]
fn each_day_is_labelled_once_over_its_noon() {
    let mut timeline = Vec::new();
    let mut stamps = Vec::new();
    for step in 0..=12 {
        timeline.push(forecast(step * 6 * 3_600, None, None));
        stamps.push(stamp(step * 6 * 3_600));
    }
    let range = ValueRange { min: 0, max: 1_000 };
    let chart = chart(timeline, 0, WeatherElement::Temperature, Some(range));
    let plan = chart.render_plan(315_000, HEIGHT, BASE, &stamps);
    let days: Vec<(Label, i128)> = plan
        .iter()
        .filter_map(|primitive| match primitive {
            Primitive::Text { label: Label::Day { weekday, month, day }, x, y: 2_000, .. } => {
                Some((Label::Day { weekday: *weekday, month: *month, day: *day }, *x))
            }
            _ => None,
        })
        .collect();
    // Three full days on a plot 300 pixels wide; the fourth day has only its midnight.
    assert_eq!(
        days,
        vec![
            (Label::Day { weekday: 6, month: 3, day: 10 }, 55_000),
            (Label::Day { weekday: 0, month: 3, day: 11 }, 155_000),
            (Label::Day { weekday: 1, month: 3, day: 12 }, 255_000),
        ]
    );
    let bands: Vec<(i128, Color)> = plan
        .iter()
        .skip(1)
        .filter_map(|primitive| match primitive {
            Primitive::Rectangle { x, color, .. } => Some((*x, *color)),
            _ => None,
        })
        .collect();
    assert_eq!(
        bands,
        vec![(105_000, Color::OddDay), (205_000, Color::EvenDay), (305_000, Color::OddDay)]
    );
}

#[test]
fn points_without_a_stamp_get_no_band_and_no_label() {
    let range = ValueRange { min: 0, max: 100_000 };
    let chart = chart(a_day_of_wind(), 0, WeatherElement::Temperature, Some(range));
    let plan = chart.render_plan(WIDTH, HEIGHT, BASE, &Vec::new());
    assert_eq!(plan.len(), 2);
    assert_eq!(plan[0], background());
    assert!(matches!(plan[1], Primitive::Line { x1: 5_000, x2: 5_000, stroke: 2_000, .. }));
}

#[test]
fn drawing_with_the_clock_of_the_machine() {
    let range = ValueRange { min: 30_000, max: 70_000 };
    let chart = chart(late_evening(), 2, WeatherElement::Temperature, Some(range));
    let plan = chart.draw(WIDTH, HEIGHT, BASE + 90_000);
    assert_eq!(plan[0], background());
    let pieces = plan
        .iter()
        .filter(|primitive| matches!(primitive, Primitive::Line { stroke: 4_000, .. }))
        .count();
    assert_eq!(pieces, 20);
    let hours = plan
        .iter()
        .filter(|primitive| matches!(primitive, Primitive::Text { label: Label::Hour(_), .. }))
        .count();
    assert_eq!(hours, 1);
    assert_eq!(
        plan[plan.len() - 2],
        Primitive::Line {
            x1: 105_000,
            y1: 40_000,
            x2: 105_000,
            y2: 210_000,
            color: Color::Marker,
            stroke: 2_000
        }
    );
    assert_eq!(
        plan[plan.len() - 1],
        Primitive::Circle { x: 105_000, y: 85_000, radius: 4_000, color: Color::Marker }
    );
}

#[test]
fn a_press_selects_the_nearest_point() {
    let chart = chart(late_evening(), 0, WeatherElement::Temperature, None);
    assert_eq!(chart.update(5_000, WIDTH), Some(0));
    assert_eq!(chart.update(29_999, WIDTH), Some(0));
    assert_eq!(chart.update(30_000, WIDTH), Some(0));
    assert_eq!(chart.update(30_014, WIDTH), Some(1));
    assert_eq!(chart.update(55_000, WIDTH), Some(1));
    assert_eq!(chart.update(105_000, WIDTH), Some(2));
    assert_eq!(chart.update(105_001, WIDTH), None);
    assert_eq!(chart.update(4_999, WIDTH), None);
    assert_eq!(chart.update(50_000, 10_000), None);
    let single = Meteogram::new(
        vec![forecast(0, None, None)],
        0,
        WeatherElement::Temperature,
        Vec::new(),
        Vec::new(),
        None,
    );
    assert_eq!(single.update(50_000, WIDTH), None);
}

#[test]
fn the_chart_reads_values_with_its_own_tables() {
    let hourly = vec![ForecastPrecip {
        valid_date: "2024-03-10T23:00:00Z".to_string(),
        prob_precip_pct: 35_000,
    }];
    let chart = Meteogram::new(
        late_evening(),
        0,
        WeatherElement::PrecipitationProbability,
        hourly,
        Vec::new(),
        None,
    );
    assert_eq!(chart.get_precipitation_probability("2024-03-10T22:30:00Z"), Some(35_000));
    assert_eq!(chart.get_precipitation_probability("2024-03-10T22:00:00Z"), None);
    assert_eq!(chart.get_element_value(&chart.timeline[0]), None);
    assert_eq!(chart.get_element_value(&chart.timeline[1]), Some(35_000));
    assert_eq!(chart.get_element_value(&chart.timeline[2]), None);
}

#[test]
fn the_colors_of_the_chart() {
    assert_eq!(Color::Background.rgb(), (950, 950, 950));
    assert_eq!(Color::EvenDay.rgb(), (900, 900, 900));
    assert_eq!(Color::OddDay.rgb(), (950, 950, 950));
    assert_eq!(Color::Muted.rgb(), (500, 500, 500));
    assert_eq!(Color::Freezing.rgb(), (0, 0, 1000));
    assert_eq!(Color::Cold.rgb(), (0, 500, 1000));
    assert_eq!(Color::Cool.rgb(), (0, 800, 800));
    assert_eq!(Color::Comfortable.rgb(), (0, 1000, 0));
    assert_eq!(Color::Warm.rgb(), (1000, 1000, 0));
    assert_eq!(Color::Hot.rgb(), (1000, 500, 0));
    assert_eq!(Color::VeryHot.rgb(), (1000, 0, 0));
    assert_eq!(Color::DayLabel.rgb(), (200, 200, 200));
    assert_eq!(Color::HourLabel.rgb(), (0, 0, 0));
    assert_eq!(Color::Marker.rgb(), (0, 0, 1000));
}

#[test]
fn the_color_of_a_temperature_changes_at_the_borders() {
    assert_eq!(Color::of_temperature(-40_000), Color::Freezing);
    assert_eq!(Color::of_temperature(31_999), Color::Freezing);
    assert_eq!(Color::of_temperature(32_000), Color::Cold);
    assert_eq!(Color::of_temperature(49_999), Color::Cold);
    assert_eq!(Color::of_temperature(50_000), Color::Cool);
    assert_eq!(Color::of_temperature(64_999), Color::Cool);
    assert_eq!(Color::of_temperature(65_000), Color::Comfortable);
    assert_eq!(Color::of_temperature(74_999), Color::Comfortable);
    assert_eq!(Color::of_temperature(75_000), Color::Warm);
    assert_eq!(Color::of_temperature(84_999), Color::Warm);
    assert_eq!(Color::of_temperature(85_000), Color::Hot);
    assert_eq!(Color::of_temperature(94_999), Color::Hot);
    assert_eq!(Color::of_temperature(95_000), Color::VeryHot);
    assert_eq!(Color::of_temperature(130_000), Color::VeryHot);
}

#[test]
fn a_chart_with_an_empty_range_is_told_apart() {
    let good = chart(late_evening(), 0, WeatherElement::Temperature, None);
    assert!(good.is_well_formed());
    let ranged = chart(
        late_evening(),
        0,
        WeatherElement::Temperature,
        Some(ValueRange { min: 0, max: 1 }),
    );
    assert!(ranged.is_well_formed());
    let flat = chart(
        late_evening(),
        0,
        WeatherElement::Temperature,
        Some(ValueRange { min: 5, max: 5 }),
    );
    assert!(!flat.is_well_formed());
    let hot = chart(
        vec![forecast(0, Some(100_000_001), None)],
        0,
        WeatherElement::Temperature,
        None,
    );
    assert!(!hot.is_well_formed());
    assert!(Label::Hour(23).is_well_formed());
    assert!(!Label::Hour(24).is_well_formed());
    assert!(Label::Day { weekday: 6, month: 12, day: 31 }.is_well_formed());
    assert!(!Label::Day { weekday: 7, month: 12, day: 31 }.is_well_formed());
}
