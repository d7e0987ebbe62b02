use vstd::prelude::*;

verus! {

/// Where a circuit lies. Latitude and longitude stay text, as the source
/// supplies them.
#[derive(Clone, Debug, PartialEq, Eq)]
pub struct Location {
    pub lat: String,
    pub long: String,
    pub locality: String,
    pub country: String,
}

pub struct LocationView {
    pub lat: Seq<char>,
    pub long: Seq<char>,
    pub locality: Seq<char>,
    pub country: Seq<char>,
}

impl View for Location {
    type V = LocationView;

    open spec fn view(&self) -> LocationView {
        LocationView {
            lat: self.lat@,
            long: self.long@,
            locality: self.locality@,
            country: self.country@,
        }
    }
}

/// A race track, known by its identifier.
#[derive(Clone, Debug, PartialEq, Eq)]
pub struct Circuit {
    pub circuit_id: String,
    pub url: String,
    pub circuit_name: String,
    pub location: Location,
}

pub struct CircuitView {
    pub circuit_id: Seq<char>,
    pub url: Seq<char>,
    pub circuit_name: Seq<char>,
    pub location: LocationView,
}

impl View for Circuit {
    type V = CircuitView;

    open spec fn view(&self) -> CircuitView {
        CircuitView {
            circuit_id: self.circuit_id@,
            url: self.url@,
            circuit_name: self.circuit_name@,
            location: self.location@,
        }
    }
}

/// When one session starts: date and time, kept apart and as text.
#[derive(Clone, Debug, PartialEq, Eq)]
pub struct Schedule {
    pub date: String,
    pub time: String,
}

pub struct ScheduleView {
    pub date: Seq<char>,
    pub time: Seq<char>,
}

impl View for Schedule {
    type V = ScheduleView;

    open spec fn view(&self) -> ScheduleView {
        ScheduleView { date: self.date@, time: self.time@ }
    }
}

/// The view of a session that a weekend may lack.
pub open spec fn optional_view(session: Option<Schedule>) -> Option<ScheduleView> {
    match session {
        Some(s) => Some(s@),
        None => None,
    }
}

impl Schedule {
    /// A copy with the same date and time.
    pub fn duplicate(&self) -> (r: Schedule)
        ensures
            r@ == self@,
    {
        Schedule { date: self.date.clone(), time: self.time.clone() }
    }
}

/// A copy of a session that may be absent.
pub fn duplicate_optional(session: &Option<Schedule>) -> (r: Option<Schedule>)
    ensures
        optional_view(r) == optional_view(*session),
{
    match session {
        Some(s) => Some(s.duplicate()),
        None => None,
    }
}

/// One round of a season: the race, its circuit and the sessions of its
/// weekend. Third practice and sprint exist only on some weekends.
#[derive(Clone, Debug, PartialEq, Eq)]
pub struct Race {
    pub season: String,
    pub round: String,
    pub race_name: String,
    pub circuit: Circuit,
    pub race: Schedule,
    pub first_practice: Schedule,
    pub second_practice: Schedule,
    pub third_practice: Option<Schedule>,
    pub qualifying: Schedule,
    pub sprint: Option<Schedule>,
}

pub struct RaceView {
    pub season: Seq<char>,
    pub round: Seq<char>,
    pub race_name: Seq<char>,
    pub circuit: CircuitView,
    pub race: ScheduleView,
    pub first_practice: ScheduleView,
    pub second_practice: ScheduleView,
    pub third_practice: Option<ScheduleView>,
    pub qualifying: ScheduleView,
    pub sprint: Option<ScheduleView>,
}

impl View for Race {
    type V = RaceView;

    open spec fn view(&self) -> RaceView {
        RaceView {
            season: self.season@,
            round: self.round@,
            race_name: self.race_name@,
            circuit: self.circuit@,
            race: self.race@,
            first_practice: self.first_practice@,
            second_practice: self.second_practice@,
            third_practice: optional_view(self.third_practice),
            qualifying: self.qualifying@,
            sprint: optional_view(self.sprint),
        }
    }
}

/// The sessions of a race weekend, without the race's other data.
#[derive(Clone, Debug, PartialEq, Eq)]
pub struct WeekendSchedule {
    pub first_practice: Schedule,
    pub second_practice: Schedule,
    pub third_practice: Option<Schedule>,
    pub qualifying: Schedule,
    pub sprint: Option<Schedule>,
    pub race: Schedule,
}

pub struct WeekendView {
    pub first_practice: ScheduleView,
    pub second_practice: ScheduleView,
    pub third_practice: Option<ScheduleView>,
    pub qualifying: ScheduleView,
    pub sprint: Option<ScheduleView>,
    pub race: ScheduleView,
}

impl View for WeekendSchedule {
    type V = WeekendView;

    open spec fn view(&self) -> WeekendView {
        WeekendView {
            first_practice: self.first_practice@,
            second_practice: self.second_practice@,
            third_practice: optional_view(self.third_practice),
            qualifying: self.qualifying@,
            sprint: optional_view(self.sprint),
            race: self.race@,
        }
    }
}

/// The races of one year, in round order as the source lists them.
#[derive(Clone, Debug, PartialEq, Eq)]
pub struct Season {
    pub races: Vec<Race>,
}

impl View for Season {
    type V = Seq<RaceView>;

    open spec fn view(&self) -> Seq<RaceView> {
        Seq::new(self.races@.len(), |i: int| self.races@[i]@)
    }
}

impl Season {
    /// How many races the season has.
    pub fn len(&self) -> (r: usize)
        ensures
            r == self@.len(),
    {
        self.races.len()
    }
}

/// The views of a circuits listing, in its order.
pub open spec fn circuit_views(circuits: Seq<Circuit>) -> Seq<CircuitView> {
    Seq::new(circuits.len(), |i: int| circuits[i]@)
}

/// The views of a list of weekends, in its order.
pub open spec fn weekend_views(weekends: Seq<WeekendSchedule>) -> Seq<WeekendView> {
    Seq::new(weekends.len(), |i: int| weekends[i]@)
}

} // verus!
