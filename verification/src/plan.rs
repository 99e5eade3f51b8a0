use crate::clock::LocalStamp;
use crate::coords::{x_limit, y_limit, y_of, CoordinateMapper};
use crate::label::Label;
use crate::scale::ValueRange;
use crate::units::{div_floor, floor_div, lemma_floor_div_bound};
use std::collections::HashSet;
use vstd::prelude::*;

verus! {

/// Width of the line of the selected element: 2 pixels.
pub const ELEMENT_LINE_WIDTH: i64 = 2000;

/// Width of the temperature line: 4 pixels.
pub const TEMPERATURE_LINE_WIDTH: i64 = 4000;

/// Width of the line that marks the present: 2 pixels.
pub const NOW_LINE_WIDTH: i64 = 2000;

/// Distance from the bottom of the canvas at which the line that marks the
/// present ends: 20 pixels.
pub const NOW_LINE_FOOT: i64 = 20_000;

/// Radius of the dot on the selected point: 4 pixels.
pub const MARKER_RADIUS: i64 = 4000;

/// Top of the day labels: 2 pixels under the top of the canvas.
pub const DAY_LABEL_TOP: i64 = 2000;

/// Size of the day labels: 14 pixels.
pub const DAY_LABEL_SIZE: i64 = 14_000;

/// Top of the hour labels: 18 pixels under the top of the canvas.
pub const HOUR_LABEL_TOP: i64 = 18_000;

/// Size of the hour labels: 12 pixels.
pub const HOUR_LABEL_SIZE: i64 = 12_000;

/// Number of pieces that the temperature line is cut into between two
/// points, each piece with a color of its own.
pub const PIECES: i64 = 10;

/// Hour of the day over which the label of a day is centred: noon.
pub const MIDDAY: u32 = 12;

/// Hours that pass between one hour label and the next, at least.
pub const HOUR_LABEL_GAP: u32 = 4;

/// The colors of the chart.
#[derive(Debug, Clone, Copy, PartialEq, Eq, Structural)]
pub enum Color {
    Background,
    EvenDay,
    OddDay,
    Muted,
    Freezing,
    Cold,
    Cool,
    Comfortable,
    Warm,
    Hot,
    VeryHot,
    DayLabel,
    HourLabel,
    Marker,
}

/// The red, green and blue of a color, each in thousandths of full
/// intensity.
pub open spec fn rgb_of(color: Color) -> (u16, u16, u16) {
    match color {
        Color::Background => (950, 950, 950),
        Color::EvenDay => (900, 900, 900),
        Color::OddDay => (950, 950, 950),
        Color::Muted => (500, 500, 500),
        Color::Freezing => (0, 0, 1000),
        Color::Cold => (0, 500, 1000),
        Color::Cool => (0, 800, 800),
        Color::Comfortable => (0, 1000, 0),
        Color::Warm => (1000, 1000, 0),
        Color::Hot => (1000, 500, 0),
        Color::VeryHot => (1000, 0, 0),
        Color::DayLabel => (200, 200, 200),
        Color::HourLabel => (0, 0, 0),
        Color::Marker => (0, 0, 1000),
    }
}

/// The color of a temperature: blue under 32 degrees, then lighter blue
/// under 50, cyan under 65, green under 75, yellow under 85, orange under 95,
/// and red from there on.
pub open spec fn bucket_of(temp_f: int) -> Color {
    if temp_f < 32_000 {
        Color::Freezing
    } else if temp_f < 50_000 {
        Color::Cold
    } else if temp_f < 65_000 {
        Color::Cool
    } else if temp_f < 75_000 {
        Color::Comfortable
    } else if temp_f < 85_000 {
        Color::Warm
    } else if temp_f < 95_000 {
        Color::Hot
    } else {
        Color::VeryHot
    }
}

impl Color {
    /// The red, green and blue of the color.
    pub fn rgb(self) -> (parts: (u16, u16, u16))
        ensures
            parts == rgb_of(self),
    {
        match self {
            Color::Background => (950, 950, 950),
            Color::EvenDay => (900, 900, 900),
            Color::OddDay => (950, 950, 950),
            Color::Muted => (500, 500, 500),
            Color::Freezing => (0, 0, 1000),
            Color::Cold => (0, 500, 1000),
            Color::Cool => (0, 800, 800),
            Color::Comfortable => (0, 1000, 0),
            Color::Warm => (1000, 1000, 0),
            Color::Hot => (1000, 500, 0),
            Color::VeryHot => (1000, 0, 0),
            Color::DayLabel => (200, 200, 200),
            Color::HourLabel => (0, 0, 0),
            Color::Marker => (0, 0, 1000),
        }
    }

    /// The color in which a temperature is drawn.
    pub fn of_temperature(temp_f: i128) -> (color: Color)
        ensures
            color == bucket_of(temp_f as int),
    {
        if temp_f < 32_000 {
            Color::Freezing
        } else if temp_f < 50_000 {
            Color::Cold
        } else if temp_f < 65_000 {
            Color::Cool
        } else if temp_f < 75_000 {
            Color::Comfortable
        } else if temp_f < 85_000 {
            Color::Warm
        } else if temp_f < 95_000 {
            Color::Hot
        } else {
            Color::VeryHot
        }
    }
}

/// A shape for the drawing side to put on the canvas. Positions and sizes
/// are in thousandths of a pixel, from the top left corner.
#[derive(Debug, Clone, Copy, PartialEq, Eq, Structural)]
pub enum Primitive {
    /// A filled rectangle, given by its top left corner and its size.
    Rectangle { x: i128, y: i128, width: i128, height: i128, color: Color },
    /// A straight stroke from one point to another.
    Line { x1: i128, y1: i128, x2: i128, y2: i128, color: Color, stroke: i64 },
    /// A text, centred on `x`, with its top at `y`.
    Text { label: Label, x: i128, y: i128, size: i64, color: Color },
    /// A filled disc.
    Circle { x: i128, y: i128, radius: i64, color: Color },
}

/// The point a share `step` of `steps` along the way from `a` to `b`.
pub open spec fn lerp(a: int, b: int, step: int, steps: int) -> int {
    a + floor_div(step * (b - a), steps)
}

/// The stamp of point `i`, where the point has a time and a stamp.
pub open spec fn stamp_at(
    times: Seq<Option<i64>>,
    stamps: Seq<Option<LocalStamp>>,
    i: int,
) -> Option<LocalStamp> {
    if 0 <= i < times.len() && i < stamps.len() && times[i] is Some {
        stamps[i]
    } else {
        None
    }
}

/// Whether every stamp of the sequence is within the ranges of a calendar.
pub open spec fn stamps_wf(stamps: Seq<Option<LocalStamp>>) -> bool {
    forall|i: int|
        0 <= i < stamps.len() && (#[trigger] stamps[i]) is Some ==> stamps[i].unwrap().wf()
}

/// The fill that lies under everything else.
pub open spec fn background(width: int, height: int) -> Primitive {
    Primitive::Rectangle {
        x: 0,
        y: 0,
        width: width as i128,
        height: height as i128,
        color: Color::Background,
    }
}

/// The day of the year of the last stamped point among the first `n`.
pub open spec fn day_reached(
    times: Seq<Option<i64>>,
    stamps: Seq<Option<LocalStamp>>,
    n: int,
) -> Option<u32>
    decreases n,
{
    if n <= 0 {
        None
    } else {
        match stamp_at(times, stamps, n - 1) {
            Some(stamp) => Some(stamp.ordinal),
            None => day_reached(times, stamps, n - 1),
        }
    }
}

/// The band of a day: from the position of its first point to the right, as
/// large as the canvas, darker on even days of the year.
pub open spec fn band(
    mapper: CoordinateMapper,
    time: i64,
    ordinal: u32,
    width: int,
    height: int,
) -> Primitive {
    Primitive::Rectangle {
        x: mapper.x_of(time as int) as i128,
        y: 0,
        width: width as i128,
        height: height as i128,
        color: if ordinal % 2 == 0 {
            Color::EvenDay
        } else {
            Color::OddDay
        },
    }
}

/// The bands of the days that begin among the first `n` points: one at each
/// stamped point whose day differs from that of the stamped point before it.
pub open spec fn day_bands(
    mapper: CoordinateMapper,
    times: Seq<Option<i64>>,
    stamps: Seq<Option<LocalStamp>>,
    width: int,
    height: int,
    n: int,
) -> Seq<Primitive>
    decreases n,
{
    if n <= 0 {
        Seq::empty()
    } else {
        let before = day_bands(mapper, times, stamps, width, height, n - 1);
        match stamp_at(times, stamps, n - 1) {
            Some(stamp) => {
                let reached = day_reached(times, stamps, n - 1);
                if reached is Some && reached != Some(stamp.ordinal) {
                    before.push(band(mapper, times[n - 1].unwrap(), stamp.ordinal, width, height))
                } else {
                    before
                }
            },
            None => before,
        }
    }
}

fn stamp_of(times: &Vec<Option<i64>>, stamps: &Vec<Option<LocalStamp>>, i: usize) -> (found: Option<
    (i64, LocalStamp),
>)
    requires
        i < times.len(),
    ensures
        match found {
            Some((time, stamp)) => times[i as int] == Some(time) && stamp_at(
                times@,
                stamps@,
                i as int,
            ) == Some(stamp),
            None => stamp_at(times@, stamps@, i as int) is None,
        },
{
    if i >= stamps.len() {
        return None;
    }
    match (times[i], stamps[i]) {
        (Some(time), Some(stamp)) => Some((time, stamp)),
        _ => None,
    }
}

pub(crate) fn push_day_bands(
    out: &mut Vec<Primitive>,
    mapper: &CoordinateMapper,
    times: &Vec<Option<i64>>,
    stamps: &Vec<Option<LocalStamp>>,
    width: i64,
    height: i64,
)
    requires
        mapper.wf(),
    ensures
        final(out)@ == old(out)@ + day_bands(
            *mapper,
            times@,
            stamps@,
            width as int,
            height as int,
            times.len() as int,
        ),
{
    let ghost before = out@;
    let mut reached: Option<u32> = None;
    let mut i: usize = 0;
    while i < times.len()
        invariant
            i <= times.len(),
            mapper.wf(),
            reached == day_reached(times@, stamps@, i as int),
            out@ == before + day_bands(
                *mapper,
                times@,
                stamps@,
                width as int,
                height as int,
                i as int,
            ),
        decreases times.len() - i,
    {
        let ghost drawn = day_bands(*mapper, times@, stamps@, width as int, height as int, i as int);
        match stamp_of(times, stamps, i) {
            Some((time, stamp)) => {
                let starts: bool = match reached {
                    Some(day) => day != stamp.ordinal,
                    None => false,
                };
                if starts {
                    let x: i128 = mapper.time_to_x(time);
                    out.push(
                        Primitive::Rectangle {
                            x,
                            y: 0,
                            width: width as i128,
                            height: height as i128,
                            color: if stamp.ordinal % 2 == 0 {
                                Color::EvenDay
                            } else {
                                Color::OddDay
                            },
                        },
                    );
                    assert(out@ =~= before + drawn.push(
                        band(*mapper, time, stamp.ordinal, width as int, height as int),
                    ));
                }
                reached = Some(stamp.ordinal);
            },
            None => {},
        }
        i = i + 1;
    }
}

/// The positions of the first `n` points that have both a time and a value.
pub open spec fn plotted(
    mapper: CoordinateMapper,
    range: ValueRange,
    times: Seq<Option<i64>>,
    values: Seq<Option<i64>>,
    n: int,
) -> Seq<(int, int)>
    decreases n,
{
    if n <= 0 {
        Seq::empty()
    } else {
        let before = plotted(mapper, range, times, values, n - 1);
        if n <= times.len() && n <= values.len() && times[n - 1] is Some && values[n - 1]
            is Some {
            before.push(
                (
                    mapper.x_of(times[n - 1].unwrap() as int),
                    y_of(values[n - 1].unwrap() as int, range),
                ),
            )
        } else {
            before
        }
    }
}

/// The strokes that join each point of a sequence to the next.
pub open spec fn polyline(points: Seq<(int, int)>, color: Color, stroke: i64) -> Seq<Primitive> {
    Seq::new(
        if points.len() > 0 {
            (points.len() - 1) as nat
        } else {
            0
        },
        |i: int|
            Primitive::Line {
                x1: points[i].0 as i128,
                y1: points[i].1 as i128,
                x2: points[i + 1].0 as i128,
                y2: points[i + 1].1 as i128,
                color,
                stroke,
            },
    )
}

/// The line of the selected element: a muted stroke from each point that has
/// a time and a value to the next such point.
pub open spec fn element_line(
    mapper: CoordinateMapper,
    range: ValueRange,
    times: Seq<Option<i64>>,
    values: Seq<Option<i64>>,
) -> Seq<Primitive> {
    polyline(
        plotted(mapper, range, times, values, times.len() as int),
        Color::Muted,
        ELEMENT_LINE_WIDTH,
    )
}

pub(crate) fn push_element_line(
    out: &mut Vec<Primitive>,
    mapper: &CoordinateMapper,
    range: &ValueRange,
    times: &Vec<Option<i64>>,
    values: &Vec<Option<i64>>,
)
    requires
        mapper.wf(),
        range.min < range.max,
    ensures
        final(out)@ == old(out)@ + element_line(*mapper, *range, times@, values@),
{
    let ghost before = out@;
    let mut last: Option<(i128, i128)> = None;
    let mut i: usize = 0;
    while i < times.len()
        invariant
            i <= times.len(),
            mapper.wf(),
            range.min < range.max,
            match last {
                Some((x, y)) => {
                    let points = plotted(*mapper, *range, times@, values@, i as int);
                    points.len() > 0 && points.last() == (x as int, y as int)
                },
                None => plotted(*mapper, *range, times@, values@, i as int).len() == 0,
            },
            out@ == before + polyline(
                plotted(*mapper, *range, times@, values@, i as int),
                Color::Muted,
                ELEMENT_LINE_WIDTH,
            ),
        decreases times.len() - i,
    {
        let ghost points = plotted(*mapper, *range, times@, values@, i as int);
        if i < values.len() {
            match (times[i], values[i]) {
                (Some(time), Some(value)) => {
                    let x: i128 = mapper.time_to_x(time);
                    let y: i128 = crate::coords::value_to_y(value, range);
                    let ghost more = points.push((x as int, y as int));
                    match last {
                        Some((from_x, from_y)) => {
                            out.push(
                                Primitive::Line {
                                    x1: from_x,
                                    y1: from_y,
                                    x2: x,
                                    y2: y,
                                    color: Color::Muted,
                                    stroke: ELEMENT_LINE_WIDTH,
                                },
                            );
                        },
                        None => {},
                    }
                    assert(out@ =~= before + polyline(more, Color::Muted, ELEMENT_LINE_WIDTH));
                    last = Some((x, y));
                },
                _ => {},
            }
        }
        i = i + 1;
    }
}

/// Piece `piece` of the temperature line between two points: a stroke along
/// its tenth of the way, in the color of the temperature half way along it.
pub open spec fn piece_of(
    from: (int, int),
    to: (int, int),
    from_temp: int,
    to_temp: int,
    piece: int,
) -> Primitive {
    Primitive::Line {
        x1: lerp(from.0, to.0, piece, PIECES as int) as i128,
        y1: lerp(from.1, to.1, piece, PIECES as int) as i128,
        x2: lerp(from.0, to.0, piece + 1, PIECES as int) as i128,
        y2: lerp(from.1, to.1, piece + 1, PIECES as int) as i128,
        color: bucket_of(lerp(from_temp, to_temp, 2 * piece + 1, 2 * PIECES)),
        stroke: TEMPERATURE_LINE_WIDTH,
    }
}

/// The pieces of the temperature line between point `i` and the next; none
/// where either point lacks a time or a temperature.
pub open spec fn pieces_between(
    mapper: CoordinateMapper,
    range: ValueRange,
    times: Seq<Option<i64>>,
    temps: Seq<Option<i64>>,
    i: int,
) -> Seq<Primitive> {
    if 0 <= i && i + 1 < times.len() && i + 1 < temps.len() && times[i] is Some && times[i + 1]
        is Some && temps[i] is Some && temps[i + 1] is Some {
        Seq::new(
            PIECES as nat,
            |piece: int|
                piece_of(
                    (mapper.x_of(times[i].unwrap() as int), y_of(temps[i].unwrap() as int, range)),
                    (
                        mapper.x_of(times[i + 1].unwrap() as int),
                        y_of(temps[i + 1].unwrap() as int, range),
                    ),
                    temps[i].unwrap() as int,
                    temps[i + 1].unwrap() as int,
                    piece,
                ),
        )
    } else {
        Seq::empty()
    }
}

/// The temperature line over the first `n` pairs of neighbouring points.
pub open spec fn temperature_line(
    mapper: CoordinateMapper,
    range: ValueRange,
    times: Seq<Option<i64>>,
    temps: Seq<Option<i64>>,
    n: int,
) -> Seq<Primitive>
    decreases n,
{
    if n <= 0 {
        Seq::empty()
    } else {
        temperature_line(mapper, range, times, temps, n - 1) + pieces_between(
            mapper,
            range,
            times,
            temps,
            n - 1,
        )
    }
}

fn along(a: i128, b: i128, step: i64, steps: i64) -> (at: i128)
    requires
        -x_limit() <= a <= x_limit(),
        -x_limit() <= b <= x_limit(),
        0 <= step <= steps,
        0 < steps <= 20,
    ensures
        at == lerp(a as int, b as int, step as int, steps as int),
{
    let reach: i128 = b - a;
    assert(-20 * (2 * x_limit()) <= step * reach <= 20 * (2 * x_limit())) by (nonlinear_arith)
        requires
            0 <= step <= 20,
            -2 * x_limit() <= reach <= 2 * x_limit(),
    ;
    let scaled: i128 = (step as i128) * reach;
    proof {
        assert(40 * x_limit() * steps >= 40 * x_limit()) by (nonlinear_arith)
            requires
                steps >= 1,
                x_limit() >= 0,
        ;
        lemma_floor_div_bound(scaled as int, steps as int, 40 * x_limit());
    }
    a + div_floor(scaled, steps as i128)
}

fn push_pieces(
    out: &mut Vec<Primitive>,
    from: (i128, i128),
    to: (i128, i128),
    from_temp: i64,
    to_temp: i64,
)
    requires
        -x_limit() <= from.0 <= x_limit(),
        -x_limit() <= to.0 <= x_limit(),
        -y_limit() <= from.1 <= y_limit(),
        -y_limit() <= to.1 <= y_limit(),
    ensures
        final(out)@ == old(out)@ + Seq::new(
            PIECES as nat,
            |piece: int|
                piece_of(
                    (from.0 as int, from.1 as int),
                    (to.0 as int, to.1 as int),
                    from_temp as int,
                    to_temp as int,
                    piece,
                ),
        ),
{
    let ghost before = out@;
    let ghost pieces = Seq::new(
        PIECES as nat,
        |piece: int|
            piece_of(
                (from.0 as int, from.1 as int),
                (to.0 as int, to.1 as int),
                from_temp as int,
                to_temp as int,
                piece,
            ),
    );
    let mut piece: i64 = 0;
    while piece < PIECES
        invariant
            0 <= piece <= PIECES,
            -x_limit() <= from.0 <= x_limit(),
            -x_limit() <= to.0 <= x_limit(),
            -y_limit() <= from.1 <= y_limit(),
            -y_limit() <= to.1 <= y_limit(),
            pieces == Seq::new(
                PIECES as nat,
                |piece: int|
                    piece_of(
                        (from.0 as int, from.1 as int),
                        (to.0 as int, to.1 as int),
                        from_temp as int,
                        to_temp as int,
                        piece,
                    ),
            ),
            out@ == before + pieces.take(piece as int),
        decreases PIECES - piece,
    {
        let x1: i128 = along(from.0, to.0, piece, PIECES);
        let y1: i128 = along(from.1, to.1, piece, PIECES);
        let x2: i128 = along(from.0, to.0, piece + 1, PIECES);
        let y2: i128 = along(from.1, to.1, piece + 1, PIECES);
        let middle: i128 = along(from_temp as i128, to_temp as i128, 2 * piece + 1, 2 * PIECES);
        out.push(
            Primitive::Line {
                x1,
                y1,
                x2,
                y2,
                color: Color::of_temperature(middle),
                stroke: TEMPERATURE_LINE_WIDTH,
            },
        );
        assert(out@ =~= before + pieces.take(piece + 1));
        piece = piece + 1;
    }
    assert(pieces.take(PIECES as int) =~= pieces);
}

pub(crate) fn push_temperature_line(
    out: &mut Vec<Primitive>,
    mapper: &CoordinateMapper,
    range: &ValueRange,
    times: &Vec<Option<i64>>,
    temps: &Vec<Option<i64>>,
)
    requires
        mapper.wf(),
        range.min < range.max,
        times.len() == temps.len(),
    ensures
        final(out)@ == old(out)@ + temperature_line(
            *mapper,
            *range,
            times@,
            temps@,
            times.len() - 1,
        ),
{
    let ghost before = out@;
    if times.len() == 0 {
        assert(out@ =~= before + temperature_line(*mapper, *range, times@, temps@, -1));
        return ;
    }
    let mut i: usize = 0;
    assert(out@ =~= before + temperature_line(*mapper, *range, times@, temps@, 0));
    while i + 1 < times.len()
        invariant
            i + 1 <= times.len(),
            times.len() == temps.len(),
            mapper.wf(),
            range.min < range.max,
            out@ == before + temperature_line(*mapper, *range, times@, temps@, i as int),
        decreases times.len() - i,
    {
        let ghost drawn = temperature_line(*mapper, *range, times@, temps@, i as int);
        let ghost more = pieces_between(*mapper, *range, times@, temps@, i as int);
        match (times[i], times[i + 1], temps[i], temps[i + 1]) {
            (Some(from_time), Some(to_time), Some(from_temp), Some(to_temp)) => {
                let from: (i128, i128) = (
                    mapper.time_to_x(from_time),
                    crate::coords::value_to_y(from_temp, range),
                );
                let to: (i128, i128) = (
                    mapper.time_to_x(to_time),
                    crate::coords::value_to_y(to_temp, range),
                );
                push_pieces(out, from, to, from_temp, to_temp);
                assert(out@ =~= before + (drawn + more));
            },
            _ => {
                assert(out@ =~= before + (drawn + more));
            },
        }
        i = i + 1;
    }
}

/// Whether noon falls within the span of the plot, so that a day label has a
/// place.
pub open spec fn noon_on_plot(mapper: CoordinateMapper, noon: Option<i64>) -> bool {
    noon is Some && 0 <= noon.unwrap() - mapper.start <= mapper.span()
}

/// Whether point `i` gets a day label, given the days already labelled: it
/// is stamped, its day is not labelled yet, and its noon is on the plot.
pub open spec fn labels_day(
    mapper: CoordinateMapper,
    times: Seq<Option<i64>>,
    stamps: Seq<Option<LocalStamp>>,
    labelled: Set<u32>,
    i: int,
) -> bool {
    match stamp_at(times, stamps, i) {
        Some(stamp) => !labelled.contains(stamp.ordinal) && noon_on_plot(mapper, stamp.noon),
        None => false,
    }
}

/// The days of the year that have their label after the first `n` points.
pub open spec fn labelled_days(
    mapper: CoordinateMapper,
    times: Seq<Option<i64>>,
    stamps: Seq<Option<LocalStamp>>,
    n: int,
) -> Set<u32>
    decreases n,
{
    if n <= 0 {
        Set::empty()
    } else {
        let before = labelled_days(mapper, times, stamps, n - 1);
        if labels_day(mapper, times, stamps, before, n - 1) {
            before.insert(stamps[n - 1].unwrap().ordinal)
        } else {
            before
        }
    }
}

/// The label of a day, centred over its noon.
pub open spec fn day_label(mapper: CoordinateMapper, stamp: LocalStamp) -> Primitive {
    Primitive::Text {
        label: Label::Day { weekday: stamp.weekday, month: stamp.month, day: stamp.day },
        x: mapper.x_of(stamp.noon.unwrap() as int) as i128,
        y: DAY_LABEL_TOP as i128,
        size: DAY_LABEL_SIZE,
        color: Color::DayLabel,
    }
}

/// The day labels that the first `n` points call for: one for each day whose
/// noon is on the plot, at the first point of that day.
pub open spec fn day_labels(
    mapper: CoordinateMapper,
    times: Seq<Option<i64>>,
    stamps: Seq<Option<LocalStamp>>,
    n: int,
) -> Seq<Primitive>
    decreases n,
{
    if n <= 0 {
        Seq::empty()
    } else {
        let before = day_labels(mapper, times, stamps, n - 1);
        if labels_day(mapper, times, stamps, labelled_days(mapper, times, stamps, n - 1), n - 1) {
            before.push(day_label(mapper, stamps[n - 1].unwrap()))
        } else {
            before
        }
    }
}

pub(crate) fn push_day_labels(
    out: &mut Vec<Primitive>,
    mapper: &CoordinateMapper,
    times: &Vec<Option<i64>>,
    stamps: &Vec<Option<LocalStamp>>,
)
    requires
        mapper.wf(),
    ensures
        final(out)@ == old(out)@ + day_labels(*mapper, times@, stamps@, times.len() as int),
{
    broadcast use vstd::std_specs::hash::group_hash_axioms;

    let ghost before = out@;
    let mut labelled: HashSet<u32> = HashSet::new();
    let mut i: usize = 0;
    while i < times.len()
        invariant
            i <= times.len(),
            mapper.wf(),
            labelled@ == labelled_days(*mapper, times@, stamps@, i as int),
            out@ == before + day_labels(*mapper, times@, stamps@, i as int),
        decreases times.len() - i,
    {
        let ghost drawn = day_labels(*mapper, times@, stamps@, i as int);
        match stamp_of(times, stamps, i) {
            Some((_, stamp)) => {
                if !labelled.contains(&stamp.ordinal) {
                    match stamp.noon {
                        Some(noon) => {
                            let offset: i128 = noon as i128 - mapper.start as i128;
                            let span: i128 = mapper.end as i128 - mapper.start as i128;
                            if offset >= 0 && offset <= span {
                                let x: i128 = mapper.time_to_x(noon);
                                out.push(
                                    Primitive::Text {
                                        label: Label::Day {
                                            weekday: stamp.weekday,
                                            month: stamp.month,
                                            day: stamp.day,
                                        },
                                        x,
                                        y: DAY_LABEL_TOP as i128,
                                        size: DAY_LABEL_SIZE,
                                        color: Color::DayLabel,
                                    },
                                );
                                labelled.insert(stamp.ordinal);
                                assert(out@ =~= before + drawn.push(day_label(*mapper, stamp)));
                            }
                        },
                        None => {},
                    }
                }
            },
            None => {},
        }
        i = i + 1;
    }
}

/// Hours from one hour of the day to another, going forward round the clock.
pub open spec fn hours_apart(last: int, hour: int) -> int {
    if hour >= last {
        hour - last
    } else {
        24 - last + hour
    }
}

/// Whether an hour gets a label after the last labelled hour: always where
/// no hour is labelled yet, else where at least four hours lie between.
pub open spec fn shows_hour(last: Option<u32>, hour: u32) -> bool {
    match last {
        None => true,
        Some(last) => hours_apart(last as int, hour as int) >= HOUR_LABEL_GAP,
    }
}

/// The hour labelled last among the first `n` points.
pub open spec fn hour_reached(
    times: Seq<Option<i64>>,
    stamps: Seq<Option<LocalStamp>>,
    n: int,
) -> Option<u32>
    decreases n,
{
    if n <= 0 {
        None
    } else {
        let before = hour_reached(times, stamps, n - 1);
        match stamp_at(times, stamps, n - 1) {
            Some(stamp) => if shows_hour(before, stamp.hour) {
                Some(stamp.hour)
            } else {
                before
            },
            None => before,
        }
    }
}

/// The label of the hour of a point, centred over the point.
pub open spec fn hour_label(mapper: CoordinateMapper, time: i64, hour: u32) -> Primitive {
    Primitive::Text {
        label: Label::Hour(hour),
        x: mapper.x_of(time as int) as i128,
        y: HOUR_LABEL_TOP as i128,
        size: HOUR_LABEL_SIZE,
        color: Color::HourLabel,
    }
}

/// The hour labels that the first `n` points call for: one at the first
/// stamped point, and then one at each stamped point at least four hours on
/// the clock after the one labelled last.
pub open spec fn hour_labels(
    mapper: CoordinateMapper,
    times: Seq<Option<i64>>,
    stamps: Seq<Option<LocalStamp>>,
    n: int,
) -> Seq<Primitive>
    decreases n,
{
    if n <= 0 {
        Seq::empty()
    } else {
        let before = hour_labels(mapper, times, stamps, n - 1);
        match stamp_at(times, stamps, n - 1) {
            Some(stamp) => if shows_hour(hour_reached(times, stamps, n - 1), stamp.hour) {
                before.push(hour_label(mapper, times[n - 1].unwrap(), stamp.hour))
            } else {
                before
            },
            None => before,
        }
    }
}

pub(crate) fn push_hour_labels(
    out: &mut Vec<Primitive>,
    mapper: &CoordinateMapper,
    times: &Vec<Option<i64>>,
    stamps: &Vec<Option<LocalStamp>>,
)
    requires
        mapper.wf(),
        stamps_wf(stamps@),
    ensures
        final(out)@ == old(out)@ + hour_labels(*mapper, times@, stamps@, times.len() as int),
{
    let ghost before = out@;
    let mut reached: Option<u32> = None;
    let mut i: usize = 0;
    while i < times.len()
        invariant
            i <= times.len(),
            mapper.wf(),
            stamps_wf(stamps@),
            reached == hour_reached(times@, stamps@, i as int),
            reached is Some ==> reached.unwrap() <= 23,
            out@ == before + hour_labels(*mapper, times@, stamps@, i as int),
        decreases times.len() - i,
    {
        let ghost drawn = hour_labels(*mapper, times@, stamps@, i as int);
        match stamp_of(times, stamps, i) {
            Some((time, stamp)) => {
                assert(stamps[i as int].unwrap().wf());
                let shows: bool = match reached {
                    None => true,
                    Some(last) => {
                        let apart: u32 = if stamp.hour >= last {
                            stamp.hour - last
                        } else {
                            24 - last + stamp.hour
                        };
                        apart >= HOUR_LABEL_GAP
                    },
                };
                if shows {
                    let x: i128 = mapper.time_to_x(time);
                    out.push(
                        Primitive::Text {
                            label: Label::Hour(stamp.hour),
                            x,
                            y: HOUR_LABEL_TOP as i128,
                            size: HOUR_LABEL_SIZE,
                            color: Color::HourLabel,
                        },
                    );
                    reached = Some(stamp.hour);
                    assert(out@ =~= before + drawn.push(hour_label(*mapper, time, stamp.hour)));
                }
            },
            None => {},
        }
        i = i + 1;
    }
}

} // verus!
