use std::fmt::Write;
use vstd::prelude::*;
use vstd::string::*;
use crate::error::ScheduleError;
use crate::model::{Race, RaceView, Schedule, ScheduleView, Season};
use crate::present::timestamp_of;

verus! {

/// Seconds east of UTC of the zone in which race times are shown.
pub const DISPLAY_OFFSET: i32 = 7200;

/// What chrono makes of a UTC timestamp: `stamp` read by the pattern
/// `read_as`, moved to the zone `east_seconds` east of UTC, and written by
/// the pattern `shown_as`. `None` where the timestamp does not fit its
/// pattern, the zone is out of range, or the time cannot be written.
pub uninterp spec fn zone_time(
    stamp: Seq<char>,
    read_as: Seq<char>,
    east_seconds: int,
    shown_as: Seq<char>,
) -> Option<Seq<char>>;

/// chrono's `NaiveDateTime::parse_from_str` and `and_utc`,
/// `FixedOffset::east_opt`, `DateTime::with_timezone` and `DateTime::format`,
/// in this order; a failure of any of them gives `None`.
///
/// Trusted: the text depends on the four arguments alone, and is the one
/// that `zone_time` names.
#[verifier::external_body]
fn in_zone(stamp: &str, read_as: &str, east_seconds: i32, shown_as: &str) -> (r: Option<String>)
    ensures
        match r {
            Some(text) => zone_time(stamp@, read_as@, east_seconds as int, shown_as@) == Some(
                text@,
            ),
            None => zone_time(stamp@, read_as@, east_seconds as int, shown_as@).is_none(),
        },
{
    let utc = chrono::NaiveDateTime::parse_from_str(stamp, read_as).ok()?.and_utc();
    let zone = chrono::FixedOffset::east_opt(east_seconds)?;
    let mut text = String::new();
    write!(text, "{}", utc.with_timezone(&zone).format(shown_as)).ok()?;
    Some(text)
}

/// A session's start as it is shown in a zone: month, day, hour and minute.
/// The session's date and time are read as the source writes them, in UTC.
pub open spec fn shown_time_of(schedule: ScheduleView, east_seconds: int) -> Option<Seq<char>> {
    zone_time(timestamp_of(schedule), "%Y-%m-%dT%H:%M:%SZ"@, east_seconds, "%b %d %H:%M"@)
}

/// The start of a session in the zone `east_seconds` east of UTC.
pub fn shown_time(schedule: &Schedule, east_seconds: i32) -> (r: Option<String>)
    ensures
        match r {
            Some(text) => shown_time_of(schedule@, east_seconds as int) == Some(text@),
            None => shown_time_of(schedule@, east_seconds as int).is_none(),
        },
{
    let stamp = schedule.timestamp();
    in_zone(stamp.as_str(), "%Y-%m-%dT%H:%M:%SZ", east_seconds, "%b %d %H:%M")
}

/// `n` spaces.
pub open spec fn spaces(n: nat) -> Seq<char>
    decreases n,
{
    if n == 0 {
        Seq::empty()
    } else {
        spaces((n - 1) as nat) + " "@
    }
}

/// A text filled up with spaces on the right to `width` characters; a text
/// that is as long or longer stays as it is.
pub open spec fn padded_of(text: Seq<char>, width: nat) -> Seq<char> {
    if text.len() >= width {
        text
    } else {
        text + spaces((width - text.len()) as nat)
    }
}

/// Fills a text up to a column's width.
pub fn padded(text: &str, width: usize) -> (r: String)
    ensures
        r@ == padded_of(text@, width as nat),
{
    let mut out = String::from_str(text);
    let len = text.unicode_len();
    if len >= width {
        return out;
    }
    let mut i: usize = len;
    while i < width
        invariant
            len <= i <= width,
            len == text@.len(),
            out@ == text@ + spaces((i - len) as nat),
        decreases width - i,
    {
        out.append(" ");
        i = i + 1;
    }
    out
}

/// The row of a race in the season's table: the race's name in a column of
/// 30, the circuit's name in a column of 35, then the start of the race.
pub open spec fn row_of(race: RaceView, time: Seq<char>) -> Seq<char> {
    padded_of(race.race_name, 30) + " "@ + padded_of(race.circuit.circuit_name, 35) + " "@ + time
}

/// Writes the row of a race, given the start of the race as it is shown.
pub fn race_row(race: &Race, time: &str) -> (r: String)
    ensures
        r@ == row_of(race@, time@),
{
    let mut row = padded(race.race_name.as_str(), 30);
    row.append(" ");
    row.append(padded(race.circuit.circuit_name.as_str(), 35).as_str());
    row.append(" ");
    row.append(time);
    row
}

/// The views of some texts, in their order.
pub open spec fn text_views(texts: Seq<String>) -> Seq<Seq<char>> {
    Seq::new(texts.len(), |i: int| texts[i]@)
}

/// The table of a season: one row for each race, in round order. There is
/// none where the start of some race cannot be shown.
pub open spec fn rows_of(races: Seq<RaceView>, east_seconds: int) -> Option<Seq<Seq<char>>> {
    if forall|i: int|
        0 <= i < races.len() ==> (#[trigger] shown_time_of(races[i].race, east_seconds)).is_some() {
        Some(
            Seq::new(
                races.len(),
                |i: int| row_of(races[i], shown_time_of(races[i].race, east_seconds).unwrap()),
            ),
        )
    } else {
        None
    }
}

/// Writes the table of a season for the zone `east_seconds` east of UTC. A
/// race whose date and time are not a timestamp makes the response
/// malformed.
pub fn race_rows(season: &Season, east_seconds: i32) -> (r: Result<Vec<String>, ScheduleError>)
    ensures
        match r {
            Ok(rows) => rows_of(season@, east_seconds as int) == Some(text_views(rows@)),
            Err(e) => e == ScheduleError::MalformedResponse && rows_of(
                season@,
                east_seconds as int,
            ).is_none(),
        },
{
    let mut rows: Vec<String> = Vec::new();
    let mut i: usize = 0;
    while i < season.races.len()
        invariant
            i <= season.races.len(),
            rows@.len() == i,
            forall|k: int|
                0 <= k < i ==> (#[trigger] shown_time_of(
                    season@[k].race,
                    east_seconds as int,
                )).is_some() && rows@[k]@ == row_of(
                    season@[k],
                    shown_time_of(season@[k].race, east_seconds as int).unwrap(),
                ),
        decreases season.races.len() - i,
    {
        match shown_time(&season.races[i].race, east_seconds) {
            Some(time) => { rows.push(race_row(&season.races[i], time.as_str())); },
            None => {
                assert(shown_time_of(season@[i as int].race, east_seconds as int).is_none());
                return Err(ScheduleError::MalformedResponse);
            },
        }
        i = i + 1;
    }
    Ok(rows)
}

} // verus!
