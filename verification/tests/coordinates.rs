use meteogram::coords::{
    value_to_y, CoordinateMapper, CANVAS_WIDTH, LEFT_MARGIN, PLOT_HEIGHT, RIGHT_MARGIN,
    TOP_MARGIN, VIEWPORT_WIDTH,
};
use meteogram::scale::ValueRange;
use meteogram::weather::{DerivedTerms, ObservationInstant, WeatherDataPoint};

const BASE: i64 = 1_710_028_800;

fn point(valid_date: &str) -> WeatherDataPoint {
    WeatherDataPoint::Observation(ObservationInstant {
        valid_date: valid_date.to_string(),
        temperature_2m_f: None,
        dewpoint_2m_f: None,
        specific_humidity_2m_dg_kg: None,
        cloud_cover_pct: None,
        cloud_ceiling_m: None,
        visibility_m: None,
        pressure_h_pa: None,
        wind_dir_10m_deg_fm_n: None,
        wind_spd_10m_mph: None,
        wind_gust_10m_mph: None,
        solar_flux_w_m2: None,
        derived: DerivedTerms::none(),
    })
}

fn hourly(count: i64) -> Vec<WeatherDataPoint> {
    (0..count)
        .map(|hour| {
            let instant = chrono::DateTime::from_timestamp(BASE + hour * 3_600, 0).unwrap();
            point(&instant.to_rfc3339())
        })
        .collect()
}

#[test]
fn a_mapper_spans_the_first_to_the_last_point() {
    let timeline = hourly(25);
    let mapper = CoordinateMapper::new(&timeline, CANVAS_WIDTH).unwrap();
    assert_eq!(mapper, CoordinateMapper { start: BASE, end: BASE + 86_400, width: 4_000_000 });
}

#[test]
fn no_mapper_without_a_span() {
    assert_eq!(CoordinateMapper::new(&Vec::new(), CANVAS_WIDTH), None);
    assert_eq!(CoordinateMapper::new(&hourly(1), CANVAS_WIDTH), None);
    let same = vec![point("2024-03-10T00:00:00Z"), point("2024-03-09T17:00:00-07:00")];
    assert_eq!(CoordinateMapper::new(&same, CANVAS_WIDTH), None);
    let headless = vec![point("?"), point("2024-03-10T00:00:00Z"), point("2024-03-10T01:00:00Z")];
    assert_eq!(CoordinateMapper::new(&headless, CANVAS_WIDTH), None);
    let tailless = vec![point("2024-03-10T00:00:00Z"), point("2024-03-10T01:00:00Z"), point("?")];
    assert_eq!(CoordinateMapper::new(&tailless, CANVAS_WIDTH), None);
}

#[test]
fn no_mapper_without_room_between_the_margins() {
    let timeline = hourly(3);
    assert_eq!(CoordinateMapper::new(&timeline, 15_000), None);
    assert_eq!(CoordinateMapper::new(&timeline, 0), None);
    assert_eq!(CoordinateMapper::new(&timeline, -4_000_000), None);
    assert_eq!(CoordinateMapper::new(&timeline, 1_000_000_000_001), None);
    assert!(CoordinateMapper::new(&timeline, 15_001).is_some());
    assert!(CoordinateMapper::new(&timeline, 1_000_000_000_000).is_some());
}

#[test]
fn a_gap_in_the_middle_leaves_the_mapper_alone() {
    let timeline = vec![point("2024-03-10T00:00:00Z"), point("?"), point("2024-03-10T02:00:00Z")];
    let mapper = CoordinateMapper::new(&timeline, CANVAS_WIDTH).unwrap();
    assert_eq!(mapper.start, BASE);
    assert_eq!(mapper.end, BASE + 7_200);
}

#[test]
fn times_map_to_positions_in_proportion() {
    let mapper = CoordinateMapper { start: BASE, end: BASE + 86_400, width: 4_000_000 };
    assert_eq!(mapper.time_to_x(BASE), 5_000);
    assert_eq!(mapper.time_to_x(BASE + 86_400), 3_990_000);
    assert_eq!(mapper.time_to_x(BASE + 43_200), 1_997_500);
    assert_eq!(mapper.time_to_x(BASE + 3_600), 5_000 + 3_985_000 / 24);
    assert_eq!(mapper.time_to_x(BASE + 1), 5_046);
    assert_eq!(mapper.time_to_x(BASE - 1), 4_953);
    assert_eq!(mapper.time_to_x(BASE + 2 * 86_400), 7_975_000);
}

#[test]
fn a_timeline_that_runs_backwards_still_maps() {
    let mapper = CoordinateMapper { start: BASE + 100, end: BASE, width: 115_000 };
    assert_eq!(mapper.time_to_x(BASE + 100), 5_000);
    assert_eq!(mapper.time_to_x(BASE), 105_000);
    assert_eq!(mapper.time_to_x(BASE + 75), 30_000);
    assert_eq!(mapper.x_to_time(5_000), BASE + 100);
    assert_eq!(mapper.x_to_time(105_000), BASE);
    assert_eq!(mapper.x_to_time(30_000), BASE + 75);
}

#[test]
fn positions_map_back_to_times() {
    let mapper = CoordinateMapper { start: BASE, end: BASE + 86_400, width: 4_000_000 };
    assert_eq!(mapper.x_to_time(5_000), BASE);
    assert_eq!(mapper.x_to_time(3_990_000), BASE + 86_400);
    assert_eq!(mapper.x_to_time(1_997_500), BASE + 43_200);
    assert_eq!(mapper.x_to_time(5_046), BASE + 1);
    assert_eq!(mapper.x_to_time(5_047), BASE + 2);
    let mut time = BASE;
    while time <= BASE + 86_400 {
        let x = mapper.time_to_x(time);
        assert_eq!(mapper.x_to_time(x as i64), time);
        time += 977;
    }
}

#[test]
fn a_press_on_a_point_selects_it() {
    let timeline = hourly(49);
    let mapper = CoordinateMapper::new(&timeline, CANVAS_WIDTH).unwrap();
    for index in 0..timeline.len() {
        let x = mapper.time_to_x(BASE + index as i64 * 3_600) as i64;
        assert_eq!(mapper.x_to_nearest_index(x, &timeline), Some(index));
    }
}

#[test]
fn a_press_between_two_points_selects_the_nearer() {
    let timeline = hourly(25);
    let mapper = CoordinateMapper::new(&timeline, CANVAS_WIDTH).unwrap();
    let at = |seconds: i64| mapper.time_to_x(BASE + seconds) as i64;
    assert_eq!(mapper.x_to_nearest_index(at(3 * 3_600 + 1_000), &timeline), Some(3));
    assert_eq!(mapper.x_to_nearest_index(at(3 * 3_600 + 1_799), &timeline), Some(3));
    assert_eq!(mapper.x_to_nearest_index(at(3 * 3_600 + 1_800), &timeline), Some(3));
    assert_eq!(mapper.x_to_nearest_index(at(3 * 3_600 + 1_801), &timeline), Some(4));
    assert_eq!(mapper.x_to_nearest_index(at(3 * 3_600 + 3_000), &timeline), Some(4));
}

#[test]
fn a_press_on_a_margin_selects_nothing() {
    let timeline = hourly(25);
    let mapper = CoordinateMapper::new(&timeline, CANVAS_WIDTH).unwrap();
    assert_eq!(mapper.x_to_nearest_index(LEFT_MARGIN - 1, &timeline), None);
    assert_eq!(mapper.x_to_nearest_index(0, &timeline), None);
    assert_eq!(mapper.x_to_nearest_index(-1, &timeline), None);
    assert_eq!(mapper.x_to_nearest_index(CANVAS_WIDTH - RIGHT_MARGIN + 1, &timeline), None);
    assert_eq!(mapper.x_to_nearest_index(CANVAS_WIDTH, &timeline), None);
    assert_eq!(mapper.x_to_nearest_index(i64::MAX, &timeline), None);
    assert_eq!(mapper.x_to_nearest_index(i64::MIN, &timeline), None);
    assert_eq!(mapper.x_to_nearest_index(LEFT_MARGIN, &timeline), Some(0));
    assert_eq!(mapper.x_to_nearest_index(CANVAS_WIDTH - RIGHT_MARGIN, &timeline), Some(24));
}

#[test]
fn a_press_passes_over_points_without_a_time() {
    let timeline = vec![
        point("2024-03-10T00:00:00Z"),
        point("?"),
        point("2024-03-10T02:00:00Z"),
        point("2024-03-10T03:00:00Z"),
    ];
    let mapper = CoordinateMapper::new(&timeline, CANVAS_WIDTH).unwrap();
    let x = mapper.time_to_x(BASE + 3_600) as i64;
    assert_eq!(mapper.x_to_nearest_index(x, &timeline), Some(0));
    let x = mapper.time_to_x(BASE + 3_601) as i64;
    assert_eq!(mapper.x_to_nearest_index(x, &timeline), Some(2));
}

#[test]
fn values_map_to_heights_upside_down() {
    let range = ValueRange { min: -10_000, max: 110_000 };
    assert_eq!(value_to_y(110_000, &range), TOP_MARGIN as i128);
    assert_eq!(value_to_y(-10_000, &range), (TOP_MARGIN + PLOT_HEIGHT) as i128);
    assert_eq!(value_to_y(50_000, &range), 130_000);
    assert_eq!(value_to_y(0, &range), 205_000);
    assert_eq!(value_to_y(100_000, &range), 55_000);
    assert_eq!(value_to_y(1, &range), 204_999);
    assert_eq!(value_to_y(230_000, &range), -140_000);
}

#[test]
fn autoscroll_centres_the_point() {
    let timeline = hourly(25);
    let mapper = CoordinateMapper::new(&timeline, CANVAS_WIDTH).unwrap();
    assert_eq!(mapper.autoscroll_offset(&timeline, 12, VIEWPORT_WIDTH), Some(1_597_500));
    assert_eq!(mapper.autoscroll_offset(&timeline, 24, VIEWPORT_WIDTH), Some(3_590_000));
    assert_eq!(mapper.autoscroll_offset(&timeline, 12, 801), Some(1_997_100));
}

#[test]
fn autoscroll_never_goes_left_of_the_origin() {
    let timeline = hourly(25);
    let mapper = CoordinateMapper::new(&timeline, CANVAS_WIDTH).unwrap();
    assert_eq!(mapper.autoscroll_offset(&timeline, 0, VIEWPORT_WIDTH), Some(0));
    assert_eq!(mapper.autoscroll_offset(&timeline, 1, VIEWPORT_WIDTH), Some(0));
    assert_eq!(mapper.autoscroll_offset(&timeline, 2, VIEWPORT_WIDTH), Some(0));
    assert_eq!(mapper.autoscroll_offset(&timeline, 3, VIEWPORT_WIDTH), Some(103_125));
    for index in 0..timeline.len() {
        for viewport in [0, 1, 10_000, 800_000, 8_000_000, i64::MAX] {
            assert!(mapper.autoscroll_offset(&timeline, index, viewport).unwrap() >= 0);
        }
    }
    assert_eq!(mapper.autoscroll_offset(&timeline, 0, 10_000), Some(0));
    assert_eq!(mapper.autoscroll_offset(&timeline, 0, 9_998), Some(1));
}

#[test]
fn autoscroll_needs_a_point_with_a_time() {
    let timeline = vec![point("2024-03-10T00:00:00Z"), point("?"), point("2024-03-10T02:00:00Z")];
    let mapper = CoordinateMapper::new(&timeline, CANVAS_WIDTH).unwrap();
    assert_eq!(mapper.autoscroll_offset(&timeline, 1, VIEWPORT_WIDTH), None);
    assert_eq!(mapper.autoscroll_offset(&timeline, 3, VIEWPORT_WIDTH), None);
    assert_eq!(mapper.autoscroll_offset(&timeline, 2, VIEWPORT_WIDTH), Some(3_590_000));
}

#[test]
fn positions_far_off_the_canvas_are_still_exact() {
    let mapper = CoordinateMapper { start: i64::MIN, end: i64::MIN + 1, width: 1_000_000_000_000 };
    let far = mapper.time_to_x(i64::MAX);
    assert_eq!(far, 5_000 + (u64::MAX as i128) * 999_999_985_000);
    let mapper = CoordinateMapper { start: i64::MAX, end: i64::MIN, width: 4_000_000 };
    assert_eq!(mapper.time_to_x(i64::MAX), 5_000);
    assert_eq!(mapper.time_to_x(i64::MIN), 3_990_000);
    assert_eq!(mapper.x_to_time(5_000), i64::MAX);
    assert_eq!(mapper.x_to_time(3_990_000), i64::MIN);
    let range = ValueRange { min: i64::MIN, max: i64::MIN + 1 };
    assert_eq!(value_to_y(i64::MAX, &range), 220_000 - (u64::MAX as i128) * 180_000);
    let range = ValueRange { min: i64::MIN, max: i64::MAX };
    assert_eq!(value_to_y(i64::MAX, &range), 40_000);
    assert_eq!(value_to_y(i64::MIN, &range), 220_000);
}

#[test]
fn a_press_on_a_point_selects_it_on_a_coarse_plot() {
    // Two days on a plot of 100 pixels: each thousandth of a pixel stands for more than a
    // second, and the hours still lie far enough apart.
    let timeline = hourly(49);
    let mapper = CoordinateMapper::new(&timeline, 115_000).unwrap();
    for index in 0..timeline.len() {
        let time = BASE + index as i64 * 3_600;
        let x = mapper.time_to_x(time) as i64;
        let back = mapper.x_to_time(x);
        assert!(time - 1 <= back && back <= time);
        assert_eq!(mapper.x_to_nearest_index(x, &timeline), Some(index));
    }
    let between = mapper.time_to_x(BASE + 5 * 3_600 + 1_900) as i64;
    assert_eq!(mapper.x_to_nearest_index(between, &timeline), Some(6));
    let between = mapper.time_to_x(BASE + 5 * 3_600 + 1_700) as i64;
    assert_eq!(mapper.x_to_nearest_index(between, &timeline), Some(5));
}

#[test]
fn a_plot_too_coarse_for_its_points_merges_them() {
    // Points a second apart over a span of a thousand seconds, on a plot of a hundred steps.
    let timeline: Vec<WeatherDataPoint> = [0, 1, 1_000]
        .iter()
        .map(|&second| {
            point(&chrono::DateTime::from_timestamp(BASE + second, 0).unwrap().to_rfc3339())
        })
        .collect();
    let mapper = CoordinateMapper::new(&timeline, 15_100).unwrap();
    assert_eq!(mapper.time_to_x(BASE), mapper.time_to_x(BASE + 1));
    let x = mapper.time_to_x(BASE + 1) as i64;
    assert_eq!(mapper.x_to_nearest_index(x, &timeline), Some(0));
}
