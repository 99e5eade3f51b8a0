use crate::derived::MAX_DERIVED;
use crate::metric::{metric_values, metrics_of, value_ok, values_ok, WeatherElement};
use crate::units::{
    ceil_div, div_ceil, div_floor, floor_div, lemma_ceil_div, SCALE,
};
use crate::weather::{all_wf, rows_wf, ForecastPrecip, WeatherDataPoint};
use vstd::prelude::*;

verus! {

/// Padding put on each side of a range whose values are all equal: one unit.
pub const UNIT_PADDING: i64 = SCALE;

/// Number of intervals that the labels of a scale divide it into.
pub const TICK_INTERVALS: usize = 5;

/// The span of values that a scale shows, in thousandths.
#[derive(Debug, Clone, Copy, PartialEq, Eq, Structural)]
pub struct ValueRange {
    pub min: i64,
    pub max: i64,
}

impl ValueRange {
    /// A range has room between its bounds, which stay far from the ends of
    /// the machine integers.
    pub open spec fn wf(&self) -> bool {
        &&& self.min < self.max
        &&& -2 * MAX_DERIVED <= self.min
        &&& self.max <= 2 * MAX_DERIVED
    }
}

/// The smallest present value of a sequence.
pub open spec fn lowest(values: Seq<Option<i64>>) -> Option<i64>
    decreases values.len(),
{
    if values.len() == 0 {
        None
    } else {
        match (lowest(values.drop_last()), values.last()) {
            (Some(m), Some(v)) => Some(if v < m {
                v
            } else {
                m
            }),
            (Some(m), None) => Some(m),
            (None, last) => last,
        }
    }
}

/// The largest present value of a sequence.
pub open spec fn highest(values: Seq<Option<i64>>) -> Option<i64>
    decreases values.len(),
{
    if values.len() == 0 {
        None
    } else {
        match (highest(values.drop_last()), values.last()) {
            (Some(m), Some(v)) => Some(if v > m {
                v
            } else {
                m
            }),
            (Some(m), None) => Some(m),
            (None, last) => last,
        }
    }
}

/// Whether no value of the sequence is present.
pub open spec fn all_absent(values: Seq<Option<i64>>) -> bool {
    forall|i: int| 0 <= i < values.len() ==> (#[trigger] values[i]) is None
}

/// The room left on each side of a span: a tenth of it, rounded up to a
/// whole thousandth, so that no span is left without room.
pub open spec fn margin(span: int) -> int {
    ceil_div(span, 10)
}

/// The range from `low` to `high` with its padding: a tenth of the span on
/// each side, or one unit on each side where the span is zero.
pub open spec fn padded(low: int, high: int) -> (int, int) {
    if high > low {
        (low - margin(high - low), high + margin(high - low))
    } else {
        (low - UNIT_PADDING, high + UNIT_PADDING)
    }
}

/// The padded range of the present values of a sequence; none where no value
/// is present.
pub open spec fn range_of(values: Seq<Option<i64>>) -> Option<ValueRange> {
    match (lowest(values), highest(values)) {
        (Some(low), Some(high)) => Some(
            ValueRange {
                min: padded(low as int, high as int).0 as i64,
                max: padded(low as int, high as int).1 as i64,
            },
        ),
        _ => None,
    }
}

/// The lowest value is present in the sequence and no present value is under
/// it; the highest likewise; and both are absent exactly where every value
/// is.
pub proof fn lemma_extremes(values: Seq<Option<i64>>)
    ensures
        lowest(values) is None <==> all_absent(values),
        highest(values) is None <==> all_absent(values),
        lowest(values) is Some ==> {
            &&& exists|i: int| 0 <= i < values.len() && #[trigger] values[i] == lowest(values)
            &&& forall|i: int|
                0 <= i < values.len() && (#[trigger] values[i]) is Some ==> lowest(
                    values,
                ).unwrap() <= values[i].unwrap()
        },
        highest(values) is Some ==> {
            &&& exists|i: int| 0 <= i < values.len() && #[trigger] values[i] == highest(values)
            &&& forall|i: int|
                0 <= i < values.len() && (#[trigger] values[i]) is Some ==> highest(
                    values,
                ).unwrap() >= values[i].unwrap()
        },
    decreases values.len(),
{
    if values.len() > 0 {
        let front = values.drop_last();
        lemma_extremes(front);
        let n = values.len() - 1;
        assert(forall|i: int| 0 <= i < n ==> front[i] == values[i]);
        if all_absent(values) {
            assert forall|i: int| 0 <= i < front.len() implies (#[trigger] front[i]) is None by {
                assert(values[i] is None);
            }
            assert(values[n] is None);
        }
        if lowest(values) is Some {
            if lowest(values) == values[n] {
                assert(values[n] == lowest(values));
            } else {
                let i = choose|i: int| 0 <= i < front.len() && #[trigger] front[i] == lowest(front);
                assert(values[i] == lowest(values));
            }
        }
        if highest(values) is Some {
            if highest(values) == values[n] {
                assert(values[n] == highest(values));
            } else {
                let i = choose|i: int|
                    0 <= i < front.len() && #[trigger] front[i] == highest(front);
                assert(values[i] == highest(values));
            }
        }
        if lowest(values) is None {
            assert(lowest(front) is None && values[n] is None);
        }
        if highest(values) is None {
            assert(highest(front) is None && values[n] is None);
        }
    }
}

/// Every present value of a sequence lies strictly inside the range that was
/// computed from the sequence.
pub proof fn lemma_range_holds_values(values: Seq<Option<i64>>, i: int)
    requires
        values_ok(values),
        0 <= i < values.len(),
        values[i] is Some,
    ensures
        range_of(values) is Some,
        range_of(values).unwrap().min < values[i].unwrap() < range_of(values).unwrap().max,
{
    lemma_extremes(values);
    let low = lowest(values).unwrap();
    let high = highest(values).unwrap();
    let at_low = choose|j: int| 0 <= j < values.len() && #[trigger] values[j] == lowest(values);
    let at_high = choose|j: int| 0 <= j < values.len() && #[trigger] values[j] == highest(values);
    assert(value_ok(values[at_low]));
    assert(value_ok(values[at_high]));
    if high > low {
        lemma_margin(high - low);
    }
}

/// The room on each side of a span is at least a thousandth and at most the
/// span itself.
pub proof fn lemma_margin(span: int)
    requires
        span > 0,
    ensures
        1 <= margin(span) <= span,
        10 * (margin(span) - 1) < span <= 10 * margin(span),
{
    lemma_ceil_div(span, 10);
}

/// Pads a range by a tenth of its span on each side, or by one unit on each
/// side where its bounds are equal.
pub fn pad_range(low: i64, high: i64) -> (range: ValueRange)
    requires
        -MAX_DERIVED <= low <= high <= MAX_DERIVED,
    ensures
        range.min == padded(low as int, high as int).0,
        range.max == padded(low as int, high as int).1,
        range.wf(),
        range.min < low,
        high < range.max,
{
    if high > low {
        let span: i128 = high as i128 - low as i128;
        proof {
            lemma_margin(span as int);
        }
        let room: i128 = div_ceil(span, 10);
        ValueRange { min: (low as i128 - room) as i64, max: (high as i128 + room) as i64 }
    } else {
        ValueRange { min: low - UNIT_PADDING, max: high + UNIT_PADDING }
    }
}

/// Computes the padded range of the present values; none where no value is
/// present.
pub fn compute_range(values: &Vec<Option<i64>>) -> (range: Option<ValueRange>)
    requires
        values_ok(values@),
    ensures
        range == range_of(values@),
        range is None <==> all_absent(values@),
        range is Some ==> range.unwrap().wf(),
        forall|i: int|
            0 <= i < values.len() && (#[trigger] values[i]) is Some ==> range.unwrap().min
                < values[i].unwrap() < range.unwrap().max,
{
    let mut low: Option<i64> = None;
    let mut high: Option<i64> = None;
    let mut i: usize = 0;
    while i < values.len()
        invariant
            i <= values.len(),
            values_ok(values@),
            low == lowest(values@.take(i as int)),
            high == highest(values@.take(i as int)),
            low is Some <==> high is Some,
            low is Some ==> -MAX_DERIVED <= low.unwrap() <= high.unwrap() <= MAX_DERIVED,
        decreases values.len() - i,
    {
        assert(values@.take(i + 1).drop_last() =~= values@.take(i as int));
        assert(values@.take(i + 1).last() == values[i as int]);
        assert(value_ok(values[i as int]));
        match values[i] {
            Some(v) => {
                low = match low {
                    Some(m) => Some(if v < m {
                        v
                    } else {
                        m
                    }),
                    None => Some(v),
                };
                high = match high {
                    Some(m) => Some(if v > m {
                        v
                    } else {
                        m
                    }),
                    None => Some(v),
                };
            },
            None => {},
        }
        i = i + 1;
    }
    assert(values@.take(values.len() as int) =~= values@);
    proof {
        lemma_extremes(values@);
        assert forall|i: int| 0 <= i < values.len() && (#[trigger] values[i]) is Some implies range_of(
            values@,
        ).unwrap().min < values[i].unwrap() < range_of(values@).unwrap().max by {
            lemma_range_holds_values(values@, i);
        }
    }
    match (low, high) {
        (Some(l), Some(h)) => Some(pad_range(l, h)),
        _ => None,
    }
}

/// The range of one element over a timeline, padded on its own.
pub fn element_range(
    timeline: &Vec<WeatherDataPoint>,
    element: WeatherElement,
    precip_1hr: &Vec<ForecastPrecip>,
    precip_6hr: &Vec<ForecastPrecip>,
) -> (range: Option<ValueRange>)
    requires
        all_wf(timeline@),
        rows_wf(precip_1hr@),
        rows_wf(precip_6hr@),
    ensures
        range == range_of(metrics_of(timeline@, element, precip_1hr@, precip_6hr@)),
        range is Some ==> range.unwrap().wf(),
{
    let values: Vec<Option<i64>> = metric_values(timeline, element, precip_1hr, precip_6hr);
    compute_range(&values)
}

/// The values that the shared temperature scale has to hold: the
/// temperature, the wet-bulb-globe temperature and the apparent temperature
/// of every point.
pub open spec fn temperature_family(points: Seq<WeatherDataPoint>) -> Seq<Option<i64>> {
    metrics_of(points, WeatherElement::Temperature, Seq::empty(), Seq::empty()) + metrics_of(
        points,
        WeatherElement::WBGT,
        Seq::empty(),
        Seq::empty(),
    ) + metrics_of(points, WeatherElement::ApparentTemperature, Seq::empty(), Seq::empty())
}

/// Whether an element is drawn on the shared temperature scale.
pub open spec fn in_temperature_family(element: WeatherElement) -> bool {
    element == WeatherElement::Temperature || element == WeatherElement::WBGT || element
        == WeatherElement::ApparentTemperature
}

fn append_values(all: &mut Vec<Option<i64>>, more: &Vec<Option<i64>>)
    requires
        values_ok(old(all)@),
        values_ok(more@),
    ensures
        final(all)@ == old(all)@ + more@,
        values_ok(final(all)@),
{
    let ghost before = all@;
    let mut i: usize = 0;
    while i < more.len()
        invariant
            i <= more.len(),
            all@ == before + more@.take(i as int),
            values_ok(all@),
            values_ok(more@),
        decreases more.len() - i,
    {
        assert(value_ok(more@[i as int]));
        all.push(more[i]);
        assert(all@ =~= before + more@.take(i + 1));
        i = i + 1;
    }
    assert(more@.take(more.len() as int) =~= more@);
}

/// The one range that the temperature, the wet-bulb-globe temperature and
/// the apparent temperature share, padded once.
pub fn unified_temperature_range(timeline: &Vec<WeatherDataPoint>) -> (range: Option<ValueRange>)
    requires
        all_wf(timeline@),
    ensures
        range == range_of(temperature_family(timeline@)),
        range is Some ==> range.unwrap().wf(),
        forall|i: int|
            0 <= i < temperature_family(timeline@).len() && (#[trigger] temperature_family(
                timeline@,
            )[i]) is Some ==> range.unwrap().min < temperature_family(timeline@)[i].unwrap()
                < range.unwrap().max,
{
    let no_rows: Vec<ForecastPrecip> = Vec::new();
    assert(no_rows@ =~= Seq::empty());
    let mut all: Vec<Option<i64>> = metric_values(
        timeline,
        WeatherElement::Temperature,
        &no_rows,
        &no_rows,
    );
    let wet_bulb: Vec<Option<i64>> = metric_values(
        timeline,
        WeatherElement::WBGT,
        &no_rows,
        &no_rows,
    );
    let apparent: Vec<Option<i64>> = metric_values(
        timeline,
        WeatherElement::ApparentTemperature,
        &no_rows,
        &no_rows,
    );
    append_values(&mut all, &wet_bulb);
    append_values(&mut all, &apparent);
    compute_range(&all)
}

/// The value of the label `step` steps under the top of a scale: the maximum
/// less `step` fifths of the span.
pub open spec fn tick(range: ValueRange, step: int) -> int {
    range.max - floor_div(step * (range.max - range.min), TICK_INTERVALS as int)
}

/// The values of the six labels of a scale, from the top down.
pub fn scale_ticks(range: &ValueRange) -> (ticks: Vec<i64>)
    requires
        range.wf(),
    ensures
        ticks.len() == TICK_INTERVALS + 1,
        forall|step: int| 0 <= step <= TICK_INTERVALS ==> ticks[step] == tick(*range, step),
        ticks[0] == range.max,
        ticks[TICK_INTERVALS as int] == range.min,
{
    let mut ticks: Vec<i64> = Vec::new();
    let span: i128 = range.max as i128 - range.min as i128;
    let mut step: usize = 0;
    while step <= TICK_INTERVALS
        invariant
            step <= TICK_INTERVALS + 1,
            range.wf(),
            span == range.max - range.min,
            ticks.len() == step,
            forall|k: int| 0 <= k < step ==> ticks[k] == tick(*range, k),
        decreases TICK_INTERVALS + 1 - step,
    {
        proof {
            assert(0 <= step * span <= 5 * span) by (nonlinear_arith)
                requires
                    0 <= step <= 5,
                    span > 0,
            ;
            vstd::arithmetic::div_mod::lemma_div_pos_is_pos(step * span, 5);
            vstd::arithmetic::div_mod::lemma_div_is_ordered(step * span, 5 * span, 5);
            vstd::arithmetic::div_mod::lemma_div_multiples_vanish(span as int, 5);
        }
        let scaled: i128 = step as i128 * span;
        let drop: i128 = div_floor(scaled, 5);
        ticks.push((range.max as i128 - drop) as i64);
        step = step + 1;
    }
    proof {
        vstd::arithmetic::div_mod::lemma_div_multiples_vanish(span as int, 5);
        assert(tick(*range, 5) == range.min);
        assert(0 * (range.max - range.min) == 0);
        assert(tick(*range, 0) == range.max);
    }
    ticks
}

} // verus!
