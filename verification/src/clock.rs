use chrono::{Datelike, Timelike};
use vstd::prelude::*;

verus! {

/// The Unix timestamp, in whole seconds, that chrono reads out of an RFC 3339
/// string, or `None` where chrono rejects the string.
pub uninterp spec fn rfc3339_seconds(text: Seq<char>) -> Option<i64>;

/// What the calendar and the clock on the wall show at one instant, in the
/// time zone of the machine.
#[derive(Debug, Clone, Copy, PartialEq, Eq, Structural)]
pub struct LocalStamp {
    /// Day of the year, from 1.
    pub ordinal: u32,
    /// Hour of the day, from 0 to 23.
    pub hour: u32,
    /// Day of the week, counted from Monday as 0.
    pub weekday: u32,
    /// Month of the year, from 1.
    pub month: u32,
    /// Day of the month, from 1.
    pub day: u32,
    /// The Unix timestamp of the middle of that day, where the zone has that
    /// hour exactly once that day.
    pub noon: Option<i64>,
}

impl LocalStamp {
    /// The fields are within the ranges of a calendar.
    pub open spec fn wf(&self) -> bool {
        &&& 1 <= self.ordinal <= 366
        &&& self.hour <= 23
        &&& self.weekday <= 6
        &&& 1 <= self.month <= 12
        &&& 1 <= self.day <= 31
    }
}

/// Calls `chrono::DateTime::parse_from_rfc3339` and, on success,
/// `DateTime::timestamp`. The result depends on the text alone; the contract
/// only gives it its name.
#[verifier::external_body]
pub(crate) fn parse_timestamp(text: &str) -> (seconds: Option<i64>)
    ensures
        seconds == rfc3339_seconds(text@),
{
    match chrono::DateTime::parse_from_rfc3339(text) {
        Ok(instant) => Some(instant.timestamp()),
        Err(_) => None,
    }
}

/// Parses `text` with `chrono::DateTime::parse_from_rfc3339`, moves the
/// instant into `chrono::Local` with `DateTime::with_timezone`, and reads
/// `ordinal`, `hour`, `weekday().num_days_from_monday()`, `month` and `day`
/// off it; `noon` is `date_naive().and_hms_opt(midday, 0, 0)` of that day,
/// taken back through `and_local_timezone(Local).single()` to its
/// `timestamp`. Only the parse can fail, so there is a stamp exactly where
/// the text parses. The fields depend on the time zone of the machine: of
/// them the contract claims only the ranges that chrono documents.
#[verifier::external_body]
pub(crate) fn local_stamp(text: &str, midday: u32) -> (stamp: Option<LocalStamp>)
    requires
        midday <= 23,
    ensures
        stamp is Some <==> rfc3339_seconds(text@) is Some,
        stamp is Some ==> stamp.unwrap().wf(),
{
    let local = chrono::DateTime::parse_from_rfc3339(text).ok()?.with_timezone(&chrono::Local);
    let middle = local.date_naive().and_hms_opt(midday, 0, 0)?;
    let noon = match middle.and_local_timezone(chrono::Local).single() {
        Some(instant) => Some(instant.timestamp()),
        None => None,
    };
    let weekday = local.weekday().num_days_from_monday();
    let (ordinal, hour, month, day) = (local.ordinal(), local.hour(), local.month(), local.day());
    Some(LocalStamp { ordinal, hour, weekday, month, day, noon })
}

} // verus!
