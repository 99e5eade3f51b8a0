use crate::clock::parse_timestamp;
use crate::scale::ValueRange;
use crate::timeline::{
    find_nearest, is_nearest, none_timed, spaced, strictly_chronological,
};
use crate::units::{ceil_div, distance, div_floor, floor_div, lemma_floor_div_bound};
use crate::weather::{times_of, WeatherDataPoint};
use vstd::prelude::*;

verus! {

/// Width of the virtual canvas: 4000 pixels, in thousandths of a pixel.
pub const CANVAS_WIDTH: i64 = 4_000_000;

/// Height of the virtual canvas: 230 pixels.
pub const CANVAS_HEIGHT: i64 = 230_000;

/// Width of the window through which the canvas is seen: 800 pixels.
pub const VIEWPORT_WIDTH: i64 = 800_000;

/// Unplotted strip at the left edge of the canvas: 5 pixels.
pub const LEFT_MARGIN: i64 = 5_000;

/// Unplotted strip at the right edge of the canvas: 10 pixels.
pub const RIGHT_MARGIN: i64 = 10_000;

/// Strip at the top of the canvas that holds the labels: 40 pixels.
pub const TOP_MARGIN: i64 = 40_000;

/// Height of the plotted area: 180 pixels.
pub const PLOT_HEIGHT: i64 = 180_000;

/// Widest canvas that a mapper accepts.
pub const MAX_WIDTH: i64 = 1_000_000_000_000;

/// Bound on the magnitude of every horizontal position that a mapper
/// computes.
pub open spec fn x_limit() -> int {
    20_000_000_000_000_000_000_000_000_000_000
}

/// Bound on the magnitude of every vertical position that a scale gives.
pub open spec fn y_limit() -> int {
    4_000_000_000_000_000_000_000_000
}

/// Quotient of `n` by a nonzero `d`, rounded towards negative infinity.
pub open spec fn floor_ratio(n: int, d: int) -> int
    recommends
        d != 0,
{
    if d > 0 {
        floor_div(n, d)
    } else {
        floor_div(-n, -d)
    }
}

/// The vertical position of a value on a scale: the top of the plot for the
/// maximum, its bottom for the minimum, and in proportion in between.
pub open spec fn y_of(value: int, range: ValueRange) -> int {
    TOP_MARGIN + PLOT_HEIGHT - floor_div(
        (value - range.min) * PLOT_HEIGHT,
        range.max - range.min,
    )
}

/// Maps times to horizontal positions on a canvas and back. The plotted
/// width, between the margins, stands for the span from the first point's
/// time to the last point's.
#[derive(Debug, Clone, Copy, PartialEq, Eq, Structural)]
pub struct CoordinateMapper {
    /// Time of the first point of the timeline.
    pub start: i64,
    /// Time of the last point of the timeline.
    pub end: i64,
    /// Width of the canvas.
    pub width: i64,
}

/// Whether a canvas of this width leaves room to plot on between the
/// margins.
pub open spec fn plottable(width: int) -> bool {
    LEFT_MARGIN + RIGHT_MARGIN < width <= MAX_WIDTH
}

/// The mapper of a timeline on a canvas. There is none where the timeline is
/// empty, where its first or its last point has no time, where the two times
/// are the same, or where the canvas has no room between its margins.
pub open spec fn mapper_of(times: Seq<Option<i64>>, width: int) -> Option<CoordinateMapper> {
    if times.len() > 0 && times.first() is Some && times.last() is Some && times.first()
        != times.last() && plottable(width) {
        Some(
            CoordinateMapper {
                start: times.first().unwrap(),
                end: times.last().unwrap(),
                width: width as i64,
            },
        )
    } else {
        None
    }
}

impl CoordinateMapper {
    pub open spec fn wf(&self) -> bool {
        self.start != self.end && plottable(self.width as int)
    }

    /// Width of the plotted area.
    pub open spec fn plot_width(&self) -> int {
        self.width - LEFT_MARGIN - RIGHT_MARGIN
    }

    /// Seconds from the first point to the last.
    pub open spec fn span(&self) -> int {
        self.end - self.start
    }

    /// The horizontal position of a time: the left margin, plus the plotted
    /// width in the proportion of the time's distance from the start to the
    /// whole span.
    pub open spec fn x_of(&self, time: int) -> int {
        LEFT_MARGIN + floor_ratio((time - self.start) * self.plot_width(), self.span())
    }

    /// Seconds by which the time read back off the position of a time may
    /// fall short of that time: none where the plot has a step for every
    /// second of the span, and one for each further plot width of seconds
    /// that the span holds.
    pub open spec fn slack(&self) -> int {
        floor_div(self.span() - 1, self.plot_width())
    }

    /// Whether a horizontal position lies on the plotted area.
    pub open spec fn on_plot(&self, x: int) -> bool {
        LEFT_MARGIN <= x <= self.width - RIGHT_MARGIN
    }

    /// The time that a horizontal position stands for: the start, plus the
    /// span in the proportion of the position's distance from the left margin
    /// to the plotted width, rounded up to a whole second.
    pub open spec fn time_at(&self, x: int) -> int {
        self.start + ceil_div((x - LEFT_MARGIN) * self.span(), self.plot_width())
    }

    /// The scroll offset that centres a position in a viewport, never left
    /// of the origin.
    pub open spec fn centred(x: int, viewport_width: int) -> int {
        let offset = x - floor_div(viewport_width, 2);
        if offset > 0 {
            offset
        } else {
            0
        }
    }

    /// Builds the mapper of a timeline on a canvas of the given width.
    pub fn new(timeline: &Vec<WeatherDataPoint>, width: i64) -> (mapper: Option<Self>)
        ensures
            mapper == mapper_of(times_of(timeline@), width as int),
            mapper is Some ==> mapper.unwrap().wf(),
    {
        if timeline.len() == 0 {
            return None;
        }
        if width <= LEFT_MARGIN + RIGHT_MARGIN || width > MAX_WIDTH {
            return None;
        }
        let first: Option<i64> = parse_timestamp(timeline[0].valid_date());
        let last: Option<i64> = parse_timestamp(timeline[timeline.len() - 1].valid_date());
        assert(times_of(timeline@).first() == first);
        assert(times_of(timeline@).last() == last);
        match (first, last) {
            (Some(start), Some(end)) => {
                if start == end {
                    None
                } else {
                    Some(CoordinateMapper { start, end, width })
                }
            },
            _ => None,
        }
    }

    /// The horizontal position of a time on the canvas.
    pub fn time_to_x(&self, time: i64) -> (x: i128)
        requires
            self.wf(),
        ensures
            x == self.x_of(time as int),
            -x_limit() <= x <= x_limit(),
    {
        let plot_width: i128 = (self.width - LEFT_MARGIN - RIGHT_MARGIN) as i128;
        let offset: i128 = time as i128 - self.start as i128;
        let span: i128 = self.end as i128 - self.start as i128;
        assert(-0x1_0000_0000_0000_0000 * 1_000_000_000_000 <= offset * plot_width
            <= 0x1_0000_0000_0000_0000 * 1_000_000_000_000) by (nonlinear_arith)
            requires
                -0x1_0000_0000_0000_0000 <= offset <= 0x1_0000_0000_0000_0000,
                0 < plot_width <= 1_000_000_000_000,
        ;
        let scaled: i128 = offset * plot_width;
        proof {
            let bound = 0x1_0000_0000_0000_0000int * 1_000_000_000_000;
            let size = if span > 0 {
                span as int
            } else {
                -span
            };
            assert(bound * size >= bound) by (nonlinear_arith)
                requires
                    size >= 1,
                    bound >= 0,
            ;
            lemma_floor_div_bound(
                if span > 0 {
                    scaled as int
                } else {
                    -scaled
                },
                size,
                bound,
            );
        }
        let share: i128 = if span > 0 {
            div_floor(scaled, span)
        } else {
            div_floor(-scaled, -span)
        };
        LEFT_MARGIN as i128 + share
    }

    /// The time that a position on the plotted area stands for.
    pub fn x_to_time(&self, x: i64) -> (time: i64)
        requires
            self.wf(),
            self.on_plot(x as int),
        ensures
            time == self.time_at(x as int),
            self.start <= self.end ==> self.start <= time <= self.end,
            self.end <= self.start ==> self.end <= time <= self.start,
    {
        let plot_width: i128 = (self.width - LEFT_MARGIN - RIGHT_MARGIN) as i128;
        let reach: i128 = (x - LEFT_MARGIN) as i128;
        let span: i128 = self.end as i128 - self.start as i128;
        proof {
            lemma_share_of_span(reach as int, span as int, plot_width as int);
        }
        assert(-1_000_000_000_000 * 0x1_0000_0000_0000_0000 <= reach * span
            <= 1_000_000_000_000 * 0x1_0000_0000_0000_0000) by (nonlinear_arith)
            requires
                -0x1_0000_0000_0000_0000 <= span <= 0x1_0000_0000_0000_0000,
                0 <= reach <= 1_000_000_000_000,
        ;
        let scaled: i128 = reach * span;
        let share: i128 = -div_floor(-scaled, plot_width);
        (self.start as i128 + share) as i64
    }

    /// The index of the point nearest in time to a horizontal position. A
    /// position off the plotted area selects nothing.
    pub fn x_to_nearest_index(&self, x: i64, timeline: &Vec<WeatherDataPoint>) -> (index: Option<
        usize,
    >)
        requires
            self.wf(),
        ensures
            !self.on_plot(x as int) ==> index is None,
            self.on_plot(x as int) ==> (index is None <==> none_timed(times_of(timeline@))),
            index is Some ==> is_nearest(
                times_of(timeline@),
                self.time_at(x as int),
                index.unwrap() as int,
            ),
    {
        if x < LEFT_MARGIN || x > self.width - RIGHT_MARGIN {
            return None;
        }
        let candidate: i64 = self.x_to_time(x);
        find_nearest(timeline, candidate)
    }

    /// The scroll offset that centres the point at `now_index` in a viewport.
    /// There is none where the index is off the timeline or its point has no
    /// time.
    pub fn autoscroll_offset(
        &self,
        timeline: &Vec<WeatherDataPoint>,
        now_index: usize,
        viewport_width: i64,
    ) -> (offset: Option<i128>)
        requires
            self.wf(),
        ensures
            offset == if now_index < timeline.len() && timeline[now_index as int].time() is Some {
                Some(
                    Self::centred(
                        self.x_of(timeline[now_index as int].time().unwrap() as int),
                        viewport_width as int,
                    ) as i128,
                )
            } else {
                None
            },
            offset is Some ==> offset.unwrap() >= 0,
    {
        if now_index >= timeline.len() {
            return None;
        }
        match parse_timestamp(timeline[now_index].valid_date()) {
            Some(time) => {
                let x: i128 = self.time_to_x(time);
                let half: i128 = div_floor(viewport_width as i128, 2);
                let offset: i128 = x - half;
                if offset > 0 {
                    Some(offset)
                } else {
                    Some(0)
                }
            },
            None => None,
        }
    }
}

/// The vertical position of a value on a scale.
pub fn value_to_y(value: i64, range: &ValueRange) -> (y: i128)
    requires
        range.min < range.max,
    ensures
        y == y_of(value as int, *range),
        -y_limit() <= y <= y_limit(),
{
    let rise: i128 = value as i128 - range.min as i128;
    let span: i128 = range.max as i128 - range.min as i128;
    let scaled: i128 = rise * 180_000;
    proof {
        let bound = 0x1_0000_0000_0000_0000int * 180_000;
        assert(bound * span >= bound) by (nonlinear_arith)
            requires
                span >= 1,
                bound >= 0,
        ;
        lemma_floor_div_bound(scaled as int, span as int, bound);
    }
    let share: i128 = div_floor(scaled, span);
    TOP_MARGIN as i128 + PLOT_HEIGHT as i128 - share
}

/// A share `reach` of `width` of a span lies between nothing and the span.
pub proof fn lemma_share_of_span(reach: int, span: int, width: int)
    requires
        0 <= reach <= width,
        width > 0,
    ensures
        span >= 0 ==> 0 <= ceil_div(reach * span, width) <= span,
        span <= 0 ==> span <= ceil_div(reach * span, width) <= 0,
{
    let n = -(reach * span);
    vstd::arithmetic::div_mod::lemma_fundamental_div_mod(n, width);
    vstd::arithmetic::div_mod::lemma_mod_bound(n, width);
    let q = n / width;
    if span >= 0 {
        assert(-span <= q <= 0) by (nonlinear_arith)
            requires
                n == width * q + n % width,
                0 <= n % width < width,
                n == -(reach * span),
                0 <= reach <= width,
                span >= 0,
        ;
    } else {
        assert(0 <= q <= -span) by (nonlinear_arith)
            requires
                n == width * q + n % width,
                0 <= n % width < width,
                n == -(reach * span),
                0 <= reach <= width,
                span <= 0,
        ;
    }
}

/// The position of a time stands for that time or for one earlier by at
/// most the slack of the plot.
pub proof fn lemma_time_at_x_of(mapper: CoordinateMapper, time: int)
    requires
        mapper.wf(),
        mapper.start < mapper.end,
    ensures
        mapper.slack() >= 0,
        time - mapper.slack() <= mapper.time_at(mapper.x_of(time)) <= time,
        mapper.span() <= mapper.plot_width() ==> mapper.slack() == 0,
{
    let w = mapper.plot_width();
    let r = mapper.span();
    let d = time - mapper.start;
    let q = (d * w) / r;
    let rest = (d * w) % r;
    vstd::arithmetic::div_mod::lemma_fundamental_div_mod(d * w, r);
    vstd::arithmetic::div_mod::lemma_mod_bound(d * w, r);
    assert(mapper.x_of(time) - LEFT_MARGIN == q);
    let over = rest / w;
    let under = rest % w;
    vstd::arithmetic::div_mod::lemma_fundamental_div_mod(rest, w);
    vstd::arithmetic::div_mod::lemma_mod_bound(rest, w);
    vstd::arithmetic::div_mod::lemma_div_pos_is_pos(rest, w);
    vstd::arithmetic::div_mod::lemma_div_is_ordered(rest, r - 1, w);
    vstd::arithmetic::div_mod::lemma_div_pos_is_pos(r - 1, w);
    assert(-(q * r) == w * (over - d) + under) by (nonlinear_arith)
        requires
            d * w == r * q + rest,
            rest == w * over + under,
    ;
    vstd::arithmetic::div_mod::lemma_fundamental_div_mod_converse(-(q * r), w, over - d, under);
    assert(floor_div(-(q * r), w) == over - d);
    assert(mapper.time_at(mapper.x_of(time)) == time - over);
    if r <= w {
        vstd::arithmetic::div_mod::lemma_basic_div(r - 1, w);
    }
}

/// Whether the plot tells the timed points apart: the span runs forward, and
/// each timed point lies more than twice the slack of the plot after the
/// timed points before it. On a plot with a step for every second that is
/// any timeline that advances strictly.
pub open spec fn resolves(mapper: CoordinateMapper, times: Seq<Option<i64>>) -> bool {
    mapper.start < mapper.end && spaced(times, 2 * mapper.slack())
}

/// A plot with at least one step for every second of its span tells the
/// points of every strictly advancing timeline apart.
pub proof fn lemma_fine_plot_resolves(mapper: CoordinateMapper, times: Seq<Option<i64>>)
    requires
        mapper.wf(),
        0 < mapper.span() <= mapper.plot_width(),
        strictly_chronological(times),
    ensures
        resolves(mapper, times),
{
    vstd::arithmetic::div_mod::lemma_basic_div(mapper.span() - 1, mapper.plot_width());
}

/// A time between the first and the last point is drawn on the plotted area.
pub proof fn lemma_x_of_on_plot(mapper: CoordinateMapper, time: int)
    requires
        mapper.wf(),
        mapper.start < mapper.end,
        mapper.start <= time <= mapper.end,
    ensures
        mapper.on_plot(mapper.x_of(time)),
        time == mapper.start ==> mapper.x_of(time) == LEFT_MARGIN,
        time == mapper.end ==> mapper.x_of(time) == mapper.width - RIGHT_MARGIN,
{
    let w = mapper.plot_width();
    let r = mapper.span();
    let d = time - mapper.start;
    vstd::arithmetic::div_mod::lemma_fundamental_div_mod(d * w, r);
    vstd::arithmetic::div_mod::lemma_mod_bound(d * w, r);
    let q = (d * w) / r;
    assert(0 <= q <= w) by (nonlinear_arith)
        requires
            d * w == r * q + (d * w) % r,
            0 <= (d * w) % r < r,
            0 <= d <= r,
            w > 0,
    ;
    if d == 0 {
        assert(d * w == 0) by (nonlinear_arith)
            requires
                d == 0,
        ;
    }
    if d == r {
        vstd::arithmetic::div_mod::lemma_div_multiples_vanish(w, r);
        assert(d * w == w * r) by (nonlinear_arith)
            requires
                d == r,
        ;
    }
}

/// A later time is drawn no further left than an earlier one.
pub proof fn lemma_x_of_ordered(mapper: CoordinateMapper, earlier: int, later: int)
    requires
        mapper.wf(),
        mapper.start < mapper.end,
        earlier <= later,
    ensures
        mapper.x_of(earlier) <= mapper.x_of(later),
{
    let w = mapper.plot_width();
    assert((earlier - mapper.start) * w <= (later - mapper.start) * w) by (nonlinear_arith)
        requires
            earlier <= later,
            w > 0,
    ;
    vstd::arithmetic::div_mod::lemma_div_is_ordered(
        (earlier - mapper.start) * w,
        (later - mapper.start) * w,
        mapper.span(),
    );
}

/// A value within the range of a scale is drawn within the plotted area, the
/// maximum at its top and the minimum at its bottom.
pub proof fn lemma_y_of_on_plot(value: int, range: ValueRange)
    requires
        range.min < range.max,
        range.min <= value <= range.max,
    ensures
        TOP_MARGIN <= y_of(value, range) <= TOP_MARGIN + PLOT_HEIGHT,
        value == range.max ==> y_of(value, range) == TOP_MARGIN,
        value == range.min ==> y_of(value, range) == TOP_MARGIN + PLOT_HEIGHT,
{
    let span = range.max - range.min;
    let rise = value - range.min;
    let n = rise * PLOT_HEIGHT;
    vstd::arithmetic::div_mod::lemma_fundamental_div_mod(n, span);
    vstd::arithmetic::div_mod::lemma_mod_bound(n, span);
    let q = n / span;
    assert(0 <= q <= PLOT_HEIGHT) by (nonlinear_arith)
        requires
            n == span * q + n % span,
            0 <= n % span < span,
            n == rise * PLOT_HEIGHT,
            0 <= rise <= span,
            PLOT_HEIGHT > 0,
    ;
    if rise == 0 {
        assert(n == 0) by (nonlinear_arith)
            requires
                n == rise * PLOT_HEIGHT,
                rise == 0,
        ;
    }
    if rise == span {
        vstd::arithmetic::div_mod::lemma_div_multiples_vanish(PLOT_HEIGHT as int, span);
        assert(n == PLOT_HEIGHT * span) by (nonlinear_arith)
            requires
                n == rise * PLOT_HEIGHT,
                rise == span,
        ;
    }
}

/// A position further right stands for no earlier a time.
pub proof fn lemma_time_at_ordered(mapper: CoordinateMapper, left: int, right: int)
    requires
        mapper.wf(),
        mapper.start < mapper.end,
        left <= right,
    ensures
        mapper.time_at(left) <= mapper.time_at(right),
{
    let r = mapper.span();
    assert(-((right - LEFT_MARGIN) * r) <= -((left - LEFT_MARGIN) * r)) by (nonlinear_arith)
        requires
            left <= right,
            r > 0,
    ;
    vstd::arithmetic::div_mod::lemma_div_is_ordered(
        -((right - LEFT_MARGIN) * r),
        -((left - LEFT_MARGIN) * r),
        mapper.plot_width(),
    );
}

/// A press between the positions of two neighbouring points selects the one
/// of the two that is nearer in time to the pressed position, and the left
/// one where both are equally near, on every plot that tells the points
/// apart.
pub proof fn lemma_press_between_points(
    mapper: CoordinateMapper,
    times: Seq<Option<i64>>,
    left: int,
    right: int,
    x: int,
    selected: int,
)
    requires
        mapper_of(times, mapper.width as int) == Some(mapper),
        resolves(mapper, times),
        0 <= left < right < times.len(),
        times[left] is Some,
        times[right] is Some,
        forall|j: int| left < j < right ==> (#[trigger] times[j]) is None,
        mapper.x_of(times[left].unwrap() as int) <= x <= mapper.x_of(times[right].unwrap() as int),
        is_nearest(times, mapper.time_at(x), selected),
    ensures
        mapper.on_plot(x),
        selected == left || selected == right,
        selected == right <==> distance(times[right].unwrap() as int, mapper.time_at(x))
            < distance(times[left].unwrap() as int, mapper.time_at(x)),
{
    lemma_resolved_span(mapper, times);
    let from = times[left].unwrap() as int;
    let to = times[right].unwrap() as int;
    lemma_resolved_point(mapper, times, left);
    lemma_resolved_point(mapper, times, right);
    lemma_x_of_on_plot(mapper, from);
    lemma_x_of_on_plot(mapper, to);
    lemma_time_at_x_of(mapper, from);
    lemma_time_at_x_of(mapper, to);
    lemma_time_at_ordered(mapper, mapper.x_of(from), x);
    lemma_time_at_ordered(mapper, x, mapper.x_of(to));
    crate::timeline::lemma_nearest_between(
        times,
        mapper.time_at(x),
        mapper.slack(),
        left,
        right,
        selected,
    );
}

/// A plot that tells the points of its timeline apart is well formed, and its
/// slack is not negative.
pub proof fn lemma_resolved_span(mapper: CoordinateMapper, times: Seq<Option<i64>>)
    requires
        mapper_of(times, mapper.width as int) == Some(mapper),
        resolves(mapper, times),
    ensures
        mapper.wf(),
        mapper.start < mapper.end,
        mapper.slack() >= 0,
{
    vstd::arithmetic::div_mod::lemma_div_pos_is_pos(mapper.span() - 1, mapper.plot_width());
}

/// On a plot that tells the points of its timeline apart, every timed point
/// lies between the first and the last.
pub proof fn lemma_resolved_point(mapper: CoordinateMapper, times: Seq<Option<i64>>, index: int)
    requires
        mapper_of(times, mapper.width as int) == Some(mapper),
        resolves(mapper, times),
        0 <= index < times.len(),
        times[index] is Some,
    ensures
        mapper.start <= times[index].unwrap() <= mapper.end,
{
    lemma_resolved_span(mapper, times);
    let last = times.len() - 1;
    assert(times[0] is Some && times[last] is Some);
    if index > 0 {
        assert(times[index].unwrap() - times[0].unwrap() > 2 * mapper.slack());
    }
    if index < last {
        assert(times[last].unwrap() - times[index].unwrap() > 2 * mapper.slack());
    }
}

/// A press on the exact position of a point selects that point, on every
/// plot that tells the points of its timeline apart: the point nearest to
/// the position of point `index` is point `index`.
pub proof fn lemma_press_on_point_selects_it(
    mapper: CoordinateMapper,
    times: Seq<Option<i64>>,
    index: int,
)
    requires
        mapper_of(times, mapper.width as int) == Some(mapper),
        resolves(mapper, times),
        0 <= index < times.len(),
        times[index] is Some,
    ensures
        mapper.on_plot(mapper.x_of(times[index].unwrap() as int)),
        is_nearest(
            times,
            mapper.time_at(mapper.x_of(times[index].unwrap() as int)),
            index,
        ),
{
    let time = times[index].unwrap() as int;
    lemma_resolved_span(mapper, times);
    lemma_resolved_point(mapper, times, index);
    lemma_x_of_on_plot(mapper, time);
    lemma_time_at_x_of(mapper, time);
    crate::timeline::lemma_nearest_within(
        times,
        index,
        mapper.time_at(mapper.x_of(time)),
        mapper.slack(),
    );
}

/// Centring never scrolls left of the origin, and a viewport at least twice
/// as wide as the left margin stays at the origin for the first point.
pub proof fn lemma_autoscroll_origin(mapper: CoordinateMapper, viewport_width: int)
    requires
        mapper.wf(),
    ensures
        forall|x: int| CoordinateMapper::centred(x, viewport_width) >= 0,
        viewport_width >= 2 * LEFT_MARGIN ==> CoordinateMapper::centred(
            mapper.x_of(mapper.start as int),
            viewport_width,
        ) == 0,
{
    assert((mapper.start - mapper.start) * mapper.plot_width() == 0);
    assert(mapper.x_of(mapper.start as int) == LEFT_MARGIN);
}

} // verus!
