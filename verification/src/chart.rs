use crate::clock::{local_stamp, parse_timestamp, LocalStamp};
use crate::coords::{
    lemma_press_on_point_selects_it, mapper_of, resolves, value_to_y, y_of, CoordinateMapper,
    LEFT_MARGIN, TOP_MARGIN,
};
use crate::metric::{metric, metric_value, metric_values, metrics_of, value_ok, WeatherElement};
use crate::plan::{
    background, day_bands, day_labels, element_line, hour_labels, push_day_bands,
    push_day_labels, push_element_line, push_hour_labels, push_temperature_line, stamps_wf,
    temperature_line, Color, Primitive, MARKER_RADIUS, MIDDAY, NOW_LINE_FOOT, NOW_LINE_WIDTH,
};
use crate::precip::{precipitation_for, precipitation_probability};
use crate::scale::{compute_range, range_of, ValueRange};
use crate::timeline::{is_nearest, lemma_nearest_unique, nearest_index, nearest_of};
use crate::weather::{
    all_wf, points_are_well_formed, rows_are_well_formed, rows_wf, times_of, ForecastPrecip,
    WeatherDataPoint,
};
use vstd::prelude::*;

verus! {

/// The chart: a timeline, what is selected on it, the two precipitation
/// tables, and the range that the temperature family shares.
pub struct Meteogram {
    pub timeline: Vec<WeatherDataPoint>,
    pub selected_index: usize,
    pub selected_element: WeatherElement,
    pub precip_1hr: Vec<ForecastPrecip>,
    pub precip_6hr: Vec<ForecastPrecip>,
    pub unified_range: Option<ValueRange>,
}

/// Whether `x` is the exact position of point `index` on a plot of the given
/// width that tells the points of the timeline apart.
pub open spec fn presses_point(times: Seq<Option<i64>>, width: int, x: int, index: int) -> bool {
    match mapper_of(times, width) {
        Some(mapper) => 0 <= index < times.len() && times[index] is Some && resolves(mapper, times)
            && x == mapper.x_of(times[index].unwrap() as int),
        None => false,
    }
}

/// The temperatures of a sequence of points.
pub open spec fn temperatures_of(points: Seq<WeatherDataPoint>) -> Seq<Option<i64>> {
    Seq::new(points.len(), |i: int| points[i].temperature_value())
}

/// The line that marks the present: a vertical stroke at the point nearest
/// to now, from the top of the plot to near the bottom of the canvas.
pub open spec fn now_marker(
    mapper: CoordinateMapper,
    times: Seq<Option<i64>>,
    now: int,
    height: int,
) -> Primitive {
    let index = nearest_of(times, now);
    let x = if 0 <= index < times.len() && times[index] is Some {
        mapper.x_of(times[index].unwrap() as int)
    } else {
        LEFT_MARGIN as int
    };
    Primitive::Line {
        x1: x as i128,
        y1: TOP_MARGIN as i128,
        x2: x as i128,
        y2: (height - NOW_LINE_FOOT) as i128,
        color: Color::Marker,
        stroke: NOW_LINE_WIDTH,
    }
}

/// The dot on the selected point, on the temperature scale; nothing where
/// the selection is off the timeline or its point lacks a time or a
/// temperature.
pub open spec fn selection_marker(
    mapper: CoordinateMapper,
    range: ValueRange,
    times: Seq<Option<i64>>,
    temps: Seq<Option<i64>>,
    selected: int,
) -> Seq<Primitive> {
    if 0 <= selected < times.len() && selected < temps.len() && times[selected] is Some
        && temps[selected] is Some {
        seq![
            Primitive::Circle {
                x: mapper.x_of(times[selected].unwrap() as int) as i128,
                y: y_of(temps[selected].unwrap() as int, range) as i128,
                radius: MARKER_RADIUS,
                color: Color::Marker,
            },
        ]
    } else {
        Seq::empty()
    }
}

fn parse_times(timeline: &Vec<WeatherDataPoint>) -> (times: Vec<Option<i64>>)
    ensures
        times@ == times_of(timeline@),
{
    let mut times: Vec<Option<i64>> = Vec::new();
    let mut i: usize = 0;
    while i < timeline.len()
        invariant
            i <= timeline.len(),
            times.len() == i,
            forall|j: int| 0 <= j < i ==> times[j] == timeline[j].time(),
        decreases timeline.len() - i,
    {
        times.push(parse_timestamp(timeline[i].valid_date()));
        i = i + 1;
    }
    assert(times@ =~= times_of(timeline@));
    times
}

fn temperatures(timeline: &Vec<WeatherDataPoint>) -> (temps: Vec<Option<i64>>)
    ensures
        temps@ == temperatures_of(timeline@),
{
    let mut temps: Vec<Option<i64>> = Vec::new();
    let mut i: usize = 0;
    while i < timeline.len()
        invariant
            i <= timeline.len(),
            temps.len() == i,
            forall|j: int| 0 <= j < i ==> temps[j] == timeline[j].temperature_value(),
        decreases timeline.len() - i,
    {
        temps.push(timeline[i].temperature());
        i = i + 1;
    }
    assert(temps@ =~= temperatures_of(timeline@));
    temps
}

/// Whether there is a stamp for exactly those points that have a time.
pub open spec fn stamps_match(
    stamps: Seq<Option<LocalStamp>>,
    points: Seq<WeatherDataPoint>,
) -> bool {
    &&& stamps.len() == points.len()
    &&& forall|i: int|
        0 <= i < points.len() ==> ((#[trigger] stamps[i]) is Some <==> points[i].time() is Some)
}

fn local_stamps(timeline: &Vec<WeatherDataPoint>) -> (stamps: Vec<Option<LocalStamp>>)
    ensures
        stamps_match(stamps@, timeline@),
        stamps_wf(stamps@),
{
    let mut stamps: Vec<Option<LocalStamp>> = Vec::new();
    let mut i: usize = 0;
    while i < timeline.len()
        invariant
            i <= timeline.len(),
            stamps.len() == i,
            stamps_wf(stamps@),
            forall|j: int| 0 <= j < i ==> ((#[trigger] stamps[j]) is Some <==> timeline[j].time() is Some),
        decreases timeline.len() - i,
    {
        stamps.push(local_stamp(timeline[i].valid_date(), MIDDAY));
        i = i + 1;
    }
    stamps
}

impl Meteogram {
    /// The records are well formed, and so is the shared range where there
    /// is one.
    pub open spec fn wf(&self) -> bool {
        &&& all_wf(self.timeline@)
        &&& rows_wf(self.precip_1hr@)
        &&& rows_wf(self.precip_6hr@)
        &&& self.unified_range is Some ==> self.unified_range.unwrap().min
            < self.unified_range.unwrap().max
    }

    /// The values of the selected element along the timeline.
    pub open spec fn element_values(&self) -> Seq<Option<i64>> {
        metrics_of(self.timeline@, self.selected_element, self.precip_1hr@, self.precip_6hr@)
    }

    /// The scale of the selected element: the shared range for the
    /// wet-bulb-globe and the apparent temperature, and for any other element
    /// the range of its own values, padded on its own.
    pub open spec fn element_scale(&self) -> Option<ValueRange> {
        if self.selected_element == WeatherElement::WBGT || self.selected_element
            == WeatherElement::ApparentTemperature {
            self.unified_range
        } else {
            range_of(self.element_values())
        }
    }

    /// The line of the selected element: nothing where the temperature is
    /// selected, which has its own line, or where the element has no scale.
    pub open spec fn element_layer(&self, mapper: CoordinateMapper) -> Seq<Primitive> {
        if self.selected_element == WeatherElement::Temperature {
            Seq::empty()
        } else {
            match self.element_scale() {
                Some(range) => element_line(
                    mapper,
                    range,
                    times_of(self.timeline@),
                    self.element_values(),
                ),
                None => Seq::empty(),
            }
        }
    }

    /// Everything that is drawn, from the back to the front: the background;
    /// the bands of the days; the line of the selected element; the
    /// temperature line; the day labels; the hour labels; the line that
    /// marks the present; the dot on the selected point. Without a mapper
    /// only the background is drawn, and without a shared range nothing
    /// above the bands.
    pub open spec fn plan_of(
        &self,
        width: int,
        height: int,
        now: int,
        stamps: Seq<Option<LocalStamp>>,
    ) -> Seq<Primitive> {
        let times = times_of(self.timeline@);
        let temps = temperatures_of(self.timeline@);
        let back = seq![background(width, height)];
        match mapper_of(times, width) {
            None => back,
            Some(mapper) => {
                let bands = day_bands(mapper, times, stamps, width, height, times.len() as int);
                match self.unified_range {
                    None => back + bands,
                    Some(range) => back + bands + self.element_layer(mapper) + temperature_line(
                        mapper,
                        range,
                        times,
                        temps,
                        times.len() - 1,
                    ) + day_labels(mapper, times, stamps, times.len() as int) + hour_labels(
                        mapper,
                        times,
                        stamps,
                        times.len() as int,
                    ) + seq![now_marker(mapper, times, now, height)] + selection_marker(
                        mapper,
                        range,
                        times,
                        temps,
                        self.selected_index as int,
                    ),
                }
            },
        }
    }

    /// Tells whether the chart is well formed.
    pub fn is_well_formed(&self) -> (ok: bool)
        ensures
            ok == self.wf(),
    {
        let range_ok: bool = match self.unified_range {
            Some(range) => range.min < range.max,
            None => true,
        };
        range_ok && points_are_well_formed(&self.timeline) && rows_are_well_formed(
            &self.precip_1hr,
        ) && rows_are_well_formed(&self.precip_6hr)
    }

    pub fn new(
        timeline: Vec<WeatherDataPoint>,
        selected_index: usize,
        selected_element: WeatherElement,
        precip_1hr: Vec<ForecastPrecip>,
        precip_6hr: Vec<ForecastPrecip>,
        unified_range: Option<ValueRange>,
    ) -> (chart: Self)
        ensures
            chart.timeline == timeline,
            chart.selected_index == selected_index,
            chart.selected_element == selected_element,
            chart.precip_1hr == precip_1hr,
            chart.precip_6hr == precip_6hr,
            chart.unified_range == unified_range,
    {
        Meteogram {
            timeline,
            selected_index,
            selected_element,
            precip_1hr,
            precip_6hr,
            unified_range,
        }
    }

    /// The probability of precipitation at the time that `target_time`
    /// spells.
    pub fn get_precipitation_probability(&self, target_time: &str) -> (probability: Option<i64>)
        ensures
            probability == precipitation_for(target_time@, self.precip_1hr@, self.precip_6hr@),
    {
        precipitation_probability(target_time, &self.precip_1hr, &self.precip_6hr)
    }

    /// What a point says of the selected element.
    pub fn get_element_value(&self, point: &WeatherDataPoint) -> (value: Option<i64>)
        requires
            point.wf(),
            rows_wf(self.precip_1hr@),
            rows_wf(self.precip_6hr@),
        ensures
            value == metric(*point, self.selected_element, self.precip_1hr@, self.precip_6hr@),
            value_ok(value),
    {
        metric_value(point, self.selected_element, &self.precip_1hr, &self.precip_6hr)
    }

    /// Handles a press at horizontal position `x` on a canvas of the given
    /// width: the index of the point nearest in time to the position.
    /// Nothing is selected without a mapper or off the plotted area. On a
    /// plot that tells the points apart, a press on the exact position of a
    /// point selects that point.
    pub fn update(&self, x: i64, width: i64) -> (selected: Option<usize>)
        ensures
            match mapper_of(times_of(self.timeline@), width as int) {
                Some(mapper) => if mapper.on_plot(x as int) {
                    selected is Some && is_nearest(
                        times_of(self.timeline@),
                        mapper.time_at(x as int),
                        selected.unwrap() as int,
                    )
                } else {
                    selected is None
                },
                None => selected is None,
            },
            forall|i: int|
                0 <= i < self.timeline.len() && (#[trigger] self.timeline[i].time()) is Some
                    && presses_point(times_of(self.timeline@), width as int, x as int, i)
                    ==> selected == Some(i as usize),
    {
        let ghost times = times_of(self.timeline@);
        match CoordinateMapper::new(&self.timeline, width) {
            Some(mapper) => {
                assert(times[0] is Some);
                let selected: Option<usize> = mapper.x_to_nearest_index(x, &self.timeline);
                proof {
                    assert forall|i: int|
                        0 <= i < self.timeline.len() && (#[trigger] self.timeline[i].time())
                            is Some && presses_point(times, width as int, x as int, i) implies selected
                        == Some(i as usize) by {
                        assert(times[i] == self.timeline[i].time());
                        lemma_press_on_point_selects_it(mapper, times, i);
                        lemma_nearest_unique(
                            times,
                            mapper.time_at(x as int),
                            i,
                            selected.unwrap() as int,
                        );
                    }
                }
                selected
            },
            None => None,
        }
    }

    fn push_element_layer(
        &self,
        out: &mut Vec<Primitive>,
        mapper: &CoordinateMapper,
        times: &Vec<Option<i64>>,
    )
        requires
            self.wf(),
            mapper.wf(),
            times@ == times_of(self.timeline@),
        ensures
            final(out)@ == old(out)@ + self.element_layer(*mapper),
    {
        let ghost before = out@;
        match self.selected_element {
            WeatherElement::Temperature => {
                assert(out@ =~= before + self.element_layer(*mapper));
            },
            _ => {
                let values: Vec<Option<i64>> = metric_values(
                    &self.timeline,
                    self.selected_element,
                    &self.precip_1hr,
                    &self.precip_6hr,
                );
                let scale: Option<ValueRange> = match self.selected_element {
                    WeatherElement::WBGT => self.unified_range,
                    WeatherElement::ApparentTemperature => self.unified_range,
                    _ => compute_range(&values),
                };
                assert(scale == self.element_scale());
                match scale {
                    Some(range) => {
                        push_element_line(out, mapper, &range, times, &values);
                    },
                    None => {
                        assert(out@ =~= before + self.element_layer(*mapper));
                    },
                }
            },
        }
    }

    /// Lays the chart out on a canvas, given for each point what the local
    /// calendar and clock show at its time.
    pub fn render_plan(
        &self,
        width: i64,
        height: i64,
        now: i64,
        stamps: &Vec<Option<LocalStamp>>,
    ) -> (plan: Vec<Primitive>)
        requires
            self.wf(),
            stamps_wf(stamps@),
        ensures
            plan@ == self.plan_of(width as int, height as int, now as int, stamps@),
    {
        let mut plan: Vec<Primitive> = Vec::new();
        plan.push(
            Primitive::Rectangle {
                x: 0,
                y: 0,
                width: width as i128,
                height: height as i128,
                color: Color::Background,
            },
        );
        let ghost back = seq![background(width as int, height as int)];
        assert(plan@ =~= back);
        let mapper: CoordinateMapper = match CoordinateMapper::new(&self.timeline, width) {
            Some(mapper) => mapper,
            None => {
                return plan;
            },
        };
        let times: Vec<Option<i64>> = parse_times(&self.timeline);
        let temps: Vec<Option<i64>> = temperatures(&self.timeline);
        push_day_bands(&mut plan, &mapper, &times, stamps, width, height);
        let range: ValueRange = match self.unified_range {
            Some(range) => range,
            None => {
                return plan;
            },
        };
        self.push_element_layer(&mut plan, &mapper, &times);
        push_temperature_line(&mut plan, &mapper, &range, &times, &temps);
        push_day_labels(&mut plan, &mapper, &times, stamps);
        push_hour_labels(&mut plan, &mapper, &times, stamps);
        let nearest: usize = nearest_index(&self.timeline, now);
        assert(times@[0] is Some);
        let now_x: i128 = match times[nearest] {
            Some(time) => mapper.time_to_x(time),
            None => LEFT_MARGIN as i128,
        };
        plan.push(
            Primitive::Line {
                x1: now_x,
                y1: TOP_MARGIN as i128,
                x2: now_x,
                y2: height as i128 - NOW_LINE_FOOT as i128,
                color: Color::Marker,
                stroke: NOW_LINE_WIDTH,
            },
        );
        if self.selected_index < times.len() {
            match (times[self.selected_index], temps[self.selected_index]) {
                (Some(time), Some(temp)) => {
                    let x: i128 = mapper.time_to_x(time);
                    let y: i128 = value_to_y(temp, &range);
                    plan.push(
                        Primitive::Circle { x, y, radius: MARKER_RADIUS, color: Color::Marker },
                    );
                },
                _ => {},
            }
        }
        assert(plan@ =~= self.plan_of(width as int, height as int, now as int, stamps@));
        plan
    }

    /// Lays the chart out on a canvas as the calendar and the clock of the
    /// machine show the times of its points: every point that has a time has
    /// its stamp, and the plan is the one that belongs to those stamps.
    pub fn draw(&self, width: i64, height: i64, now: i64) -> (plan: Vec<Primitive>)
        requires
            self.wf(),
        ensures
            exists|stamps: Seq<Option<LocalStamp>>|
                stamps_match(stamps, self.timeline@) && stamps_wf(stamps) && plan@
                    == #[trigger] self.plan_of(width as int, height as int, now as int, stamps),
    {
        let stamps: Vec<Option<LocalStamp>> = local_stamps(&self.timeline);
        self.render_plan(width, height, now, &stamps)
    }
}

} // verus!
