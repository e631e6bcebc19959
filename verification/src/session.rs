use vstd::prelude::*;
use crate::records::{DerivedSession, SessionView};

verus! {

/// The calendar date, rendered "year-month-day" in UTC, that a timestamp in
/// whole seconds falls on; nothing for timestamps the calendar cannot
/// represent. Determined by the timestamp alone.
pub uninterp spec fn utc_date_of(secs: int) -> Option<Seq<char>>;

/// Relies on chrono's DateTime::<Utc>::from_timestamp and its "%Y-%m-%d"
/// formatting: the rendered date is determined by the timestamp alone, and
/// only an out-of-range timestamp yields nothing.
#[verifier::external_body]
fn format_date_utc(secs: i64) -> (r: Option<String>)
    ensures
        (r is Some) == (utc_date_of(secs as int) is Some),
        r matches Some(s) ==> Some(s@) == utc_date_of(secs as int),
{
    match chrono::DateTime::from_timestamp(secs, 0) {
        Some(dt) => Some(dt.format("%Y-%m-%d").to_string()),
        None => None,
    }
}

/// Relies on chrono's Utc::now and its "%Y-%m-%d" formatting: the current
/// calendar date. Nothing can be promised of a clock reading.
#[verifier::external_body]
pub(crate) fn today_utc() -> String {
    chrono::Utc::now().format("%Y-%m-%d").to_string()
}

/// The session a resolved (end timestamp, duration) pair stands for: the
/// start is the end minus the duration in seconds, and the date bucket is the
/// calendar date of the start — or the current processing date, `today`, on
/// the degraded path where the calendar cannot represent the start.
pub open spec fn spec_session(
    game_id: int,
    end_time: int,
    duration: int,
    today: Seq<char>,
) -> SessionView {
    let start = end_time - duration * 60;
    SessionView {
        game_id: game_id,
        start_time: start,
        end_time: end_time,
        duration: duration,
        date: match utc_date_of(start) {
            Some(d) => d,
            None => today,
        },
    }
}

/// Turn a positive duration and its event's end timestamp into a session
/// record. Callers discard non-positive durations; the start must also not
/// fall below what a 64-bit timestamp can hold.
pub fn reconstruct_session(game_id: i32, end_time: i64, duration: i64, today: &String) -> (r:
    DerivedSession)
    requires
        duration > 0,
        i64::MIN <= end_time - duration * 60,
    ensures
        r@ == spec_session(game_id as int, end_time as int, duration as int, today@),
{
    let start128: i128 = end_time as i128 - (duration as i128) * 60;
    let start: i64 = start128 as i64;
    let date: String = match format_date_utc(start) {
        Some(d) => d,
        None => today.clone(),
    };
    DerivedSession { game_id, start_time: start, end_time, duration, date }
}

} // verus!
