use crate::clock::parse_timestamp;
use crate::units::{abs_diff, distance};
use crate::weather::{times_of, ForecastInstant, ObservationInstant, WeatherDataPoint};
use vstd::prelude::*;

verus! {

/// The chart's sequence of points: the observations from the oldest to the
/// newest, which is the reverse of the order they arrive in, then the
/// forecasts in the order they arrive in.
pub open spec fn merged(
    observations: Seq<ObservationInstant>,
    forecasts: Seq<ForecastInstant>,
) -> Seq<WeatherDataPoint> {
    Seq::new(
        observations.len() + forecasts.len(),
        |i: int|
            if i < observations.len() {
                WeatherDataPoint::Observation(observations[observations.len() - 1 - i])
            } else {
                WeatherDataPoint::Forecast(forecasts[i - observations.len()])
            },
    )
}

/// Whether no point of the sequence has a time.
pub open spec fn none_timed(times: Seq<Option<i64>>) -> bool {
    forall|j: int| 0 <= j < times.len() ==> (#[trigger] times[j]) is None
}

/// Whether `index` is the first of the timed points that lie nearest to
/// `target`.
pub open spec fn is_nearest(times: Seq<Option<i64>>, target: int, index: int) -> bool {
    &&& 0 <= index < times.len()
    &&& times[index] is Some
    &&& forall|j: int|
        0 <= j < times.len() && (#[trigger] times[j]) is Some ==> distance(
            times[index].unwrap() as int,
            target,
        ) <= distance(times[j].unwrap() as int, target)
    &&& forall|j: int|
        0 <= j < index && (#[trigger] times[j]) is Some ==> distance(
            times[index].unwrap() as int,
            target,
        ) < distance(times[j].unwrap() as int, target)
}

/// The index of the first of the timed points that lie nearest to `target`,
/// or 0 where no point has a time.
pub open spec fn nearest_of(times: Seq<Option<i64>>, target: int) -> int {
    if none_timed(times) {
        0
    } else {
        choose|index: int| is_nearest(times, target, index)
    }
}

/// Whether the timed points of the sequence never step back in time.
pub open spec fn chronological(times: Seq<Option<i64>>) -> bool {
    forall|i: int, j: int|
        0 <= i <= j < times.len() && (#[trigger] times[i]) is Some && (#[trigger] times[j])
            is Some ==> times[i].unwrap() <= times[j].unwrap()
}

/// Whether the timed points of the sequence advance strictly in time.
pub open spec fn strictly_chronological(times: Seq<Option<i64>>) -> bool {
    forall|i: int, j: int|
        0 <= i < j < times.len() && (#[trigger] times[i]) is Some && (#[trigger] times[j])
            is Some ==> times[i].unwrap() < times[j].unwrap()
}

/// Whether every timed point lies more than `gap` seconds after each timed
/// point before it.
pub open spec fn spaced(times: Seq<Option<i64>>, gap: int) -> bool {
    forall|i: int, j: int|
        0 <= i < j < times.len() && (#[trigger] times[i]) is Some && (#[trigger] times[j])
            is Some ==> times[j].unwrap() - times[i].unwrap() > gap
}

/// Merges observations, which arrive newest first, and forecasts, which
/// arrive oldest first, into one sequence. Nothing is sorted or dropped.
pub fn merge_timeline(
    observations: &Vec<ObservationInstant>,
    forecasts: &Vec<ForecastInstant>,
) -> (timeline: Vec<WeatherDataPoint>)
    ensures
        timeline@ == merged(observations@, forecasts@),
{
    let mut timeline: Vec<WeatherDataPoint> = Vec::new();
    let count: usize = observations.len();
    let mut taken: usize = 0;
    while taken < count
        invariant
            count == observations.len(),
            taken <= count,
            timeline.len() == taken,
            forall|i: int|
                0 <= i < taken ==> timeline[i] == WeatherDataPoint::Observation(
                    observations[count - 1 - i],
                ),
        decreases count - taken,
    {
        timeline.push(WeatherDataPoint::Observation(observations[count - 1 - taken].clone()));
        taken = taken + 1;
    }
    let mut next: usize = 0;
    while next < forecasts.len()
        invariant
            count == observations.len(),
            next <= forecasts.len(),
            timeline.len() == count + next,
            forall|i: int|
                0 <= i < count ==> timeline[i] == WeatherDataPoint::Observation(
                    observations[count - 1 - i],
                ),
            forall|i: int|
                count <= i < count + next ==> timeline[i] == WeatherDataPoint::Forecast(
                    forecasts[i - count],
                ),
        decreases forecasts.len() - next,
    {
        timeline.push(WeatherDataPoint::Forecast(forecasts[next].clone()));
        next = next + 1;
    }
    assert(timeline@ =~= merged(observations@, forecasts@));
    timeline
}

/// Finds the point nearest in time to `target`. Points whose timestamp does
/// not parse are passed over; of several points equally near, the first wins.
pub fn find_nearest(timeline: &Vec<WeatherDataPoint>, target: i64) -> (found: Option<usize>)
    ensures
        found is None <==> none_timed(times_of(timeline@)),
        found is Some ==> is_nearest(times_of(timeline@), target as int, found.unwrap() as int),
{
    let ghost times = times_of(timeline@);
    let mut best: Option<usize> = None;
    let mut best_gap: i128 = 0;
    let mut i: usize = 0;
    while i < timeline.len()
        invariant
            i <= timeline.len(),
            times == times_of(timeline@),
            best is None <==> none_timed(times.take(i as int)),
            best is Some ==> is_nearest(times.take(i as int), target as int, best.unwrap() as int)
                && best_gap == distance(times[best.unwrap() as int].unwrap() as int, target as int),
        decreases timeline.len() - i,
    {
        let ghost before = times.take(i as int);
        let ghost after = times.take(i + 1);
        assert(forall|j: int| 0 <= j < i ==> before[j] == after[j]);
        assert(after[i as int] == times[i as int]);
        match parse_timestamp(timeline[i].valid_date()) {
            Some(seconds) => {
                let gap: i128 = abs_diff(seconds, target);
                let closer: bool = match best {
                    Some(_) => gap < best_gap,
                    None => true,
                };
                if closer {
                    best = Some(i);
                    best_gap = gap;
                }
                assert(after[i as int] is Some);
                assert(is_nearest(after, target as int, best.unwrap() as int));
            },
            None => {
                assert(after[i as int] is None);
                assert(best is Some ==> is_nearest(after, target as int, best.unwrap() as int));
            },
        }
        i = i + 1;
    }
    assert(times.take(timeline.len() as int) =~= times);
    best
}

/// The index that `find_nearest` finds, or 0 where no point has a time.
pub fn nearest_index(timeline: &Vec<WeatherDataPoint>, target: i64) -> (index: usize)
    ensures
        index == nearest_of(times_of(timeline@), target as int),
        none_timed(times_of(timeline@)) ==> index == 0,
        !none_timed(times_of(timeline@)) ==> is_nearest(
            times_of(timeline@),
            target as int,
            index as int,
        ),
        timeline.len() > 0 ==> index < timeline.len(),
{
    match find_nearest(timeline, target) {
        Some(index) => {
            proof {
                lemma_nearest_unique(
                    times_of(timeline@),
                    target as int,
                    index as int,
                    nearest_of(times_of(timeline@), target as int),
                );
            }
            index
        },
        None => 0,
    }
}

/// At most one index is the nearest to a target.
pub proof fn lemma_nearest_unique(times: Seq<Option<i64>>, target: int, a: int, b: int)
    requires
        is_nearest(times, target, a),
        is_nearest(times, target, b),
    ensures
        a == b,
{
    if a < b {
        assert(times[a] is Some);
    } else if b < a {
        assert(times[b] is Some);
    }
}

/// Where the timed points advance strictly in time, the point nearest to the
/// time of a timed point is that point.
pub proof fn lemma_nearest_to_own_time(times: Seq<Option<i64>>, index: int)
    requires
        0 <= index < times.len(),
        times[index] is Some,
        strictly_chronological(times),
    ensures
        is_nearest(times, times[index].unwrap() as int, index),
{
}

/// Where the timed points lie more than twice `slack` apart, a target that
/// falls short of the time of a timed point by at most `slack` still has that
/// point for its nearest.
pub proof fn lemma_nearest_within(times: Seq<Option<i64>>, index: int, target: int, slack: int)
    requires
        0 <= index < times.len(),
        times[index] is Some,
        slack >= 0,
        spaced(times, 2 * slack),
        times[index].unwrap() - slack <= target <= times[index].unwrap(),
    ensures
        is_nearest(times, target, index),
{
    assert forall|j: int| 0 <= j < times.len() && (#[trigger] times[j]) is Some implies distance(
        times[index].unwrap() as int,
        target,
    ) <= distance(times[j].unwrap() as int, target) by {
        if j < index {
            assert(times[index].unwrap() - times[j].unwrap() > 2 * slack);
        } else if j > index {
            assert(times[j].unwrap() - times[index].unwrap() > 2 * slack);
        }
    }
    assert forall|j: int| 0 <= j < index && (#[trigger] times[j]) is Some implies distance(
        times[index].unwrap() as int,
        target,
    ) < distance(times[j].unwrap() as int, target) by {
        assert(times[index].unwrap() - times[j].unwrap() > 2 * slack);
    }
}

/// A target between the times of two neighbouring timed points, or short of
/// the left one by at most `slack`, has one of the two for its nearest
/// point: on a timeline whose timed points lie more than twice `slack`
/// apart, with no timed point between `left` and `right`.
pub proof fn lemma_nearest_between(
    times: Seq<Option<i64>>,
    target: int,
    slack: int,
    left: int,
    right: int,
    nearest: int,
)
    requires
        slack >= 0,
        spaced(times, 2 * slack),
        0 <= left < right < times.len(),
        times[left] is Some,
        times[right] is Some,
        forall|j: int| left < j < right ==> (#[trigger] times[j]) is None,
        times[left].unwrap() - slack <= target <= times[right].unwrap(),
        is_nearest(times, target, nearest),
    ensures
        nearest == left || nearest == right,
        nearest == right <==> distance(times[right].unwrap() as int, target) < distance(
            times[left].unwrap() as int,
            target,
        ),
{
    assert(times[right].unwrap() - times[left].unwrap() > 2 * slack);
    if nearest < left {
        assert(times[left].unwrap() - times[nearest].unwrap() > 2 * slack);
    } else if nearest > right {
        assert(times[nearest].unwrap() - times[right].unwrap() > 2 * slack);
    } else if left < nearest < right {
        assert(times[nearest] is None);
    }
}

/// Observations that arrive newest first and forecasts that arrive oldest
/// first, with no forecast older than an observation, merge into a sequence
/// that never steps back in time.
pub proof fn lemma_merged_chronological(
    observations: Seq<ObservationInstant>,
    forecasts: Seq<ForecastInstant>,
)
    requires
        forall|i: int, j: int|
            0 <= i <= j < observations.len() && (#[trigger] observations[i].time()) is Some && (
            #[trigger] observations[j].time()) is Some ==> observations[i].time().unwrap()
                >= observations[j].time().unwrap(),
        forall|i: int, j: int|
            0 <= i <= j < forecasts.len() && (#[trigger] forecasts[i].time()) is Some && (
            #[trigger] forecasts[j].time()) is Some ==> forecasts[i].time().unwrap()
                <= forecasts[j].time().unwrap(),
        forall|i: int, j: int|
            0 <= i < observations.len() && 0 <= j < forecasts.len() && (
            #[trigger] observations[i].time()) is Some && (#[trigger] forecasts[j].time())
                is Some ==> observations[i].time().unwrap() <= forecasts[j].time().unwrap(),
    ensures
        chronological(times_of(merged(observations, forecasts))),
{
    let all = times_of(merged(observations, forecasts));
    let n = observations.len() as int;
    assert forall|i: int, j: int|
        0 <= i <= j < all.len() && (#[trigger] all[i]) is Some && (#[trigger] all[j])
            is Some implies all[i].unwrap() <= all[j].unwrap() by {
        if j < n {
            assert(all[i] == observations[n - 1 - i].time());
            assert(all[j] == observations[n - 1 - j].time());
        } else if i >= n {
            assert(all[i] == forecasts[i - n].time());
            assert(all[j] == forecasts[j - n].time());
        } else {
            assert(all[i] == observations[n - 1 - i].time());
            assert(all[j] == forecasts[j - n].time());
        }
    }
}

} // verus!
