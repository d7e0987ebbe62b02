use vstd::prelude::*;
use vstd::string::*;
use crate::model::{Schedule, ScheduleView, WeekendSchedule, WeekendView};

verus! {

/// One line of a weekend's schedule: the session's name and when it starts.
#[derive(Clone, Debug, PartialEq, Eq)]
pub struct SessionLine {
    pub label: String,
    pub schedule: Schedule,
}

pub struct SessionLineView {
    pub label: Seq<char>,
    pub schedule: ScheduleView,
}

impl View for SessionLine {
    type V = SessionLineView;

    open spec fn view(&self) -> SessionLineView {
        SessionLineView { label: self.label@, schedule: self.schedule@ }
    }
}

/// The views of some lines, in their order.
pub open spec fn line_views(lines: Seq<SessionLine>) -> Seq<SessionLineView> {
    Seq::new(lines.len(), |i: int| lines[i]@)
}

/// The line of a session that a weekend may lack: none where it lacks it.
pub open spec fn optional_line(label: Seq<char>, session: Option<ScheduleView>) -> Seq<
    SessionLineView,
> {
    match session {
        Some(schedule) => seq![SessionLineView { label, schedule }],
        None => seq![],
    }
}

/// The lines of a weekend, in the order of the weekend: the practices,
/// qualifying, the sprint, the race. A session that the weekend lacks has no
/// line.
pub open spec fn lines_of(weekend: WeekendView) -> Seq<SessionLineView> {
    seq![
        SessionLineView { label: "First Practice"@, schedule: weekend.first_practice },
        SessionLineView { label: "Second Practice"@, schedule: weekend.second_practice },
    ] + optional_line("Third Practice"@, weekend.third_practice) + seq![
        SessionLineView { label: "Qualifying"@, schedule: weekend.qualifying },
    ] + optional_line("Sprint"@, weekend.sprint) + seq![
        SessionLineView { label: "Race"@, schedule: weekend.race },
    ]
}

fn line(label: &str, schedule: &Schedule) -> (r: SessionLine)
    ensures
        r@ == (SessionLineView { label: label@, schedule: schedule@ }),
{
    SessionLine { label: String::from_str(label), schedule: schedule.duplicate() }
}

/// The lines to show for a weekend.
pub fn schedule_lines(weekend: &WeekendSchedule) -> (r: Vec<SessionLine>)
    ensures
        line_views(r@) == lines_of(weekend@),
{
    let mut lines: Vec<SessionLine> = Vec::new();
    lines.push(line("First Practice", &weekend.first_practice));
    lines.push(line("Second Practice", &weekend.second_practice));
    match &weekend.third_practice {
        Some(s) => { lines.push(line("Third Practice", s)); },
        None => {},
    }
    lines.push(line("Qualifying", &weekend.qualifying));
    match &weekend.sprint {
        Some(s) => { lines.push(line("Sprint", s)); },
        None => {},
    }
    lines.push(line("Race", &weekend.race));
    assert(line_views(lines@) =~= lines_of(weekend@));
    lines
}

/// Date and time as one timestamp: the date, the letter `T`, the time.
pub open spec fn timestamp_of(schedule: ScheduleView) -> Seq<char> {
    schedule.date + "T"@ + schedule.time
}

impl Schedule {
    /// The session's start as one timestamp, as it is handed to a clock
    /// library for display.
    pub fn timestamp(&self) -> (r: String)
        ensures
            r@ == timestamp_of(self@),
    {
        let mut stamp = self.date.clone();
        stamp.append("T");
        stamp.append(self.time.as_str());
        stamp
    }
}

} // verus!
