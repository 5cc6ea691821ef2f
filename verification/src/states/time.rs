use vstd::prelude::*;

use crate::state::{State, StateView};
use crate::states::names::text_of;
use crate::states::region_select::{Point, SelectionResult};

verus! {

/// The time of day, as hours, minutes and seconds, that the clocks of the
/// zone at place `zone` of the time zone database's list show at
/// `unix_seconds` seconds after the start of 1970, universal time; `None`
/// where the database has no such zone or cannot place the moment.
pub uninterp spec fn clock_reading(zone: int, unix_seconds: int) -> Option<Seq<char>>;

/// Looks the zone up in `chrono_tz::TZ_VARIANTS`, places the moment in it
/// with `chrono::TimeZone::timestamp_opt` and writes its time of day with
/// `chrono::DateTime::format`.
///
/// The zone's rules are tables that are fixed when the database is compiled
/// in, and neither the machine's clock nor its own time zone is read, so
/// the text depends on the two arguments alone.
#[verifier::external_body]
fn local_time(zone: usize, unix_seconds: i64) -> (text: Option<String>)
    ensures
        text_of(text) == clock_reading(zone as int, unix_seconds as int),
{
    chrono_tz::TZ_VARIANTS.get(zone).and_then(
        |tz| chrono::TimeZone::timestamp_opt(tz, unix_seconds, 0).single(),
    ).map(|moment| moment.format("%H:%M:%S").to_string())
}

/// The time of day as a line to draw.
#[derive(Clone, Debug, PartialEq, Eq)]
pub struct TimeLine {
    pub text: String,
    pub at: Point,
}

/// A time line as a plain value.
pub struct TimeLineView {
    pub text: Seq<char>,
    pub at: Point,
}

impl View for TimeLine {
    type V = TimeLineView;

    open spec fn view(&self) -> TimeLineView {
        TimeLineView { text: self.text@, at: self.at }
    }
}

/// The line that shows the reading `text`: its baseline starts one pixel
/// from the left edge and fifteen from the top. No reading, no line.
pub open spec fn time_line(text: Option<Seq<char>>) -> Option<TimeLineView> {
    match text {
        Some(t) => Some(TimeLineView { text: t, at: Point { x: 1, y: 15 } }),
        None => None,
    }
}

/// The line of a time line that may be missing.
pub open spec fn line_of(line: Option<TimeLine>) -> Option<TimeLineView> {
    match line {
        Some(l) => Some(l@),
        None => None,
    }
}

/// Lays a clock reading out as the line to draw.
pub fn place_time(text: Option<String>) -> (line: Option<TimeLine>)
    ensures
        line_of(line) == time_line(text_of(text)),
{
    match text {
        Some(text) => Some(TimeLine { text, at: Point { x: 1, y: 15 } }),
        None => None,
    }
}

/// The line that shows the time of day in the zone at place `zone` at the
/// moment `unix_seconds`.
pub fn draw_time(zone: usize, unix_seconds: i64) -> (line: Option<TimeLine>)
    ensures
        line_of(line) == time_line(clock_reading(zone as int, unix_seconds as int)),
{
    place_time(local_time(zone, unix_seconds))
}

/// One frame of showing the time: the state stays what it is, and the
/// line shows the time of the selected region at the moment
/// `unix_seconds`.
pub fn time_state(selection: SelectionResult, unix_seconds: i64) -> (shown: (State, Option<TimeLine>))
    ensures
        shown.0@ == StateView::Time(selection@),
        line_of(shown.1) == time_line(clock_reading(selection@.zone, unix_seconds as int)),
{
    let line = draw_time(selection.zone, unix_seconds);
    (State::Time(selection), line)
}

} // verus!
