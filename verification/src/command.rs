use vstd::prelude::*;
use crate::cache::{season_request, season_request_of, Request};

verus! {

/// What the program is asked to do.
#[derive(Clone, Debug, PartialEq, Eq)]
pub enum Command {
    /// Show the schedule of the weekend at one circuit.
    Schedule(ScheduleCommand),
    /// Start the interactive display.
    Tui(TuiCommand),
}

/// The circuit to show, and the year; without a year, the current one.
#[derive(Clone, Debug, PartialEq, Eq)]
pub struct ScheduleCommand {
    pub circuit_id: String,
    pub year: Option<i32>,
}

#[derive(Clone, Copy, Debug, PartialEq, Eq)]
pub struct TuiCommand {}

impl ScheduleCommand {
    /// The year that the command is about.
    pub open spec fn year_in(self, current_year: int) -> int {
        match self.year {
            Some(y) => y as int,
            None => current_year,
        }
    }

    /// The year asked for, or the current year where none was given.
    pub fn year_or(&self, current_year: i32) -> (r: i32)
        ensures
            r == self.year_in(current_year as int),
    {
        match self.year {
            Some(y) => y,
            None => current_year,
        }
    }

    /// The season response that answers the command.
    pub fn request(&self, current_year: i32) -> (r: Request)
        ensures
            r@ == season_request_of(self.year_in(current_year as int)),
    {
        season_request(self.year_or(current_year))
    }
}

} // verus!
