use crate::clock::{parse_timestamp, rfc3339_seconds};
use crate::weather::ForecastPrecip;
use vstd::prelude::*;

verus! {

/// Length in seconds of the period that a row of the hourly table covers.
pub const HOUR_WINDOW: i64 = 3600;

/// Length in seconds of the period that a row of the six-hourly table covers.
pub const SIX_HOUR_WINDOW: i64 = 21600;

/// Whether a row that ends at `row_time` and reaches `window` seconds back
/// covers `target`. The period is open at its start and closed at its end.
pub open spec fn covers(row_time: Option<i64>, window: int, target: int) -> bool {
    row_time is Some && row_time.unwrap() - window < target <= row_time.unwrap()
}

/// The index of the first row at or after `from` that covers `target`.
pub open spec fn cover_from(rows: Seq<ForecastPrecip>, window: int, target: int, from: int) -> Option<
    int,
>
    decreases rows.len() - from,
{
    if from < 0 || from >= rows.len() {
        None
    } else if covers(rows[from].time(), window, target) {
        Some(from)
    } else {
        cover_from(rows, window, target, from + 1)
    }
}

/// The probability of precipitation at `target`: that of the first hourly row
/// that covers it; failing that, that of the first six-hourly row that covers
/// it; failing that, none.
pub open spec fn precipitation_at(
    target: int,
    precip_1hr: Seq<ForecastPrecip>,
    precip_6hr: Seq<ForecastPrecip>,
) -> Option<i64> {
    match cover_from(precip_1hr, HOUR_WINDOW as int, target, 0) {
        Some(i) => Some(precip_1hr[i].prob_precip_pct),
        None => match cover_from(precip_6hr, SIX_HOUR_WINDOW as int, target, 0) {
            Some(i) => Some(precip_6hr[i].prob_precip_pct),
            None => None,
        },
    }
}

/// The probability of precipitation at the time that `text` spells, or none
/// where `text` is no timestamp.
pub open spec fn precipitation_for(
    text: Seq<char>,
    precip_1hr: Seq<ForecastPrecip>,
    precip_6hr: Seq<ForecastPrecip>,
) -> Option<i64> {
    match rfc3339_seconds(text) {
        Some(target) => precipitation_at(target as int, precip_1hr, precip_6hr),
        None => None,
    }
}

/// What `cover_from` finds is a covering row with no covering row between
/// `from` and it; where it finds nothing, no row from `from` on covers.
pub proof fn lemma_cover_from(rows: Seq<ForecastPrecip>, window: int, target: int, from: int)
    requires
        0 <= from,
    ensures
        match cover_from(rows, window, target, from) {
            Some(i) => from <= i < rows.len() && covers(rows[i].time(), window, target)
                && forall|j: int| from <= j < i ==> !covers(#[trigger] rows[j].time(), window, target),
            None => forall|j: int|
                from <= j < rows.len() ==> !covers(#[trigger] rows[j].time(), window, target),
        },
    decreases rows.len() - from,
{
    if from < rows.len() && !covers(rows[from].time(), window, target) {
        lemma_cover_from(rows, window, target, from + 1);
    }
}

/// An hourly row alone answers for the hour that ends at its time, the start
/// of the hour left out and its end taken in; any other time falls through to
/// the six-hourly table.
pub proof fn lemma_single_hourly_row(
    row: ForecastPrecip,
    target: int,
    precip_6hr: Seq<ForecastPrecip>,
)
    requires
        row.time() is Some,
    ensures
        row.time().unwrap() - HOUR_WINDOW < target <= row.time().unwrap() ==> precipitation_at(
            target,
            seq![row],
            precip_6hr,
        ) == Some(row.prob_precip_pct),
        !(row.time().unwrap() - HOUR_WINDOW < target <= row.time().unwrap()) ==> precipitation_at(
            target,
            seq![row],
            precip_6hr,
        ) == precipitation_at(target, Seq::empty(), precip_6hr),
{
    let rows = seq![row];
    assert(rows[0] == row);
    assert(cover_from(rows, HOUR_WINDOW as int, target, 1) is None);
    assert(cover_from(Seq::<ForecastPrecip>::empty(), HOUR_WINDOW as int, target, 0) is None);
}

/// A resolved probability is that of a row of one of the two tables.
pub proof fn lemma_precipitation_is_a_row(
    text: Seq<char>,
    precip_1hr: Seq<ForecastPrecip>,
    precip_6hr: Seq<ForecastPrecip>,
)
    ensures
        match precipitation_for(text, precip_1hr, precip_6hr) {
            Some(p) => (exists|i: int|
                0 <= i < precip_1hr.len() && (#[trigger] precip_1hr[i]).prob_precip_pct == p) || (
            exists|i: int|
                0 <= i < precip_6hr.len() && (#[trigger] precip_6hr[i]).prob_precip_pct == p),
            None => true,
        },
{
    match rfc3339_seconds(text) {
        Some(target) => {
            lemma_cover_from(precip_1hr, HOUR_WINDOW as int, target as int, 0);
            lemma_cover_from(precip_6hr, SIX_HOUR_WINDOW as int, target as int, 0);
        },
        None => {},
    }
}

fn find_cover(rows: &Vec<ForecastPrecip>, window: i64, target: i64) -> (found: Option<usize>)
    ensures
        match found {
            Some(i) => i < rows.len() && cover_from(rows@, window as int, target as int, 0)
                == Some(i as int),
            None => cover_from(rows@, window as int, target as int, 0) is None,
        },
{
    let mut i: usize = 0;
    while i < rows.len()
        invariant
            i <= rows.len(),
            cover_from(rows@, window as int, target as int, 0) == cover_from(
                rows@,
                window as int,
                target as int,
                i as int,
            ),
        decreases rows.len() - i,
    {
        match parse_timestamp(rows[i].valid_date.as_str()) {
            Some(row_time) => {
                let wide_target: i128 = target as i128;
                let wide_end: i128 = row_time as i128;
                let wide_start: i128 = wide_end - window as i128;
                if wide_target <= wide_end && wide_target > wide_start {
                    return Some(i);
                }
            },
            None => {},
        }
        i = i + 1;
    }
    None
}

/// Resolves the probability of precipitation at a timestamp from the hourly
/// table first and the six-hourly table second.
pub fn resolve_precipitation(
    target: i64,
    precip_1hr: &Vec<ForecastPrecip>,
    precip_6hr: &Vec<ForecastPrecip>,
) -> (probability: Option<i64>)
    ensures
        probability == precipitation_at(target as int, precip_1hr@, precip_6hr@),
{
    match find_cover(precip_1hr, HOUR_WINDOW, target) {
        Some(i) => Some(precip_1hr[i].prob_precip_pct),
        None => match find_cover(precip_6hr, SIX_HOUR_WINDOW, target) {
            Some(i) => Some(precip_6hr[i].prob_precip_pct),
            None => None,
        },
    }
}

/// Resolves the probability of precipitation at the time that `target_time`
/// spells in RFC 3339.
pub fn precipitation_probability(
    target_time: &str,
    precip_1hr: &Vec<ForecastPrecip>,
    precip_6hr: &Vec<ForecastPrecip>,
) -> (probability: Option<i64>)
    ensures
        probability == precipitation_for(target_time@, precip_1hr@, precip_6hr@),
{
    match parse_timestamp(target_time) {
        Some(target) => resolve_precipitation(target, precip_1hr, precip_6hr),
        None => None,
    }
}

} // verus!
