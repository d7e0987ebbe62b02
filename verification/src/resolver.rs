use vstd::prelude::*;
use vstd::string::*;
use crate::error::ScheduleError;
use crate::parser::{parse_season, season_in};
use crate::model::{
    duplicate_optional, Race, RaceView, Season, WeekendSchedule, WeekendView, weekend_views,
};

verus! {

/// The sessions of a race: its weekend, with the race itself last.
pub open spec fn weekend_of(race: RaceView) -> WeekendView {
    WeekendView {
        first_practice: race.first_practice,
        second_practice: race.second_practice,
        third_practice: race.third_practice,
        qualifying: race.qualifying,
        sprint: race.sprint,
        race: race.race,
    }
}

/// The position of the first race, from position `from` on, that is held at
/// the circuit `circuit_id`. Identifiers are compared as they stand: case
/// counts.
pub open spec fn first_at(races: Seq<RaceView>, circuit_id: Seq<char>, from: int) -> Option<int>
    decreases races.len() - from,
{
    if from < 0 || from >= races.len() {
        None
    } else if races[from].circuit.circuit_id == circuit_id {
        Some(from)
    } else {
        first_at(races, circuit_id, from + 1)
    }
}

/// The weekend of the first race of the season at the circuit `circuit_id`.
pub open spec fn weekend_at(races: Seq<RaceView>, circuit_id: Seq<char>) -> Option<WeekendView> {
    match first_at(races, circuit_id, 0) {
        Some(i) => Some(weekend_of(races[i])),
        None => None,
    }
}

/// The weekends of all the races, in the races' order.
pub open spec fn weekends_of(races: Seq<RaceView>) -> Seq<WeekendView> {
    Seq::new(races.len(), |i: int| weekend_of(races[i]))
}

impl Race {
    /// The sessions of this race's weekend.
    pub fn weekend(&self) -> (r: WeekendSchedule)
        ensures
            r@ == weekend_of(self@),
    {
        WeekendSchedule {
            first_practice: self.first_practice.duplicate(),
            second_practice: self.second_practice.duplicate(),
            third_practice: duplicate_optional(&self.third_practice),
            qualifying: self.qualifying.duplicate(),
            sprint: duplicate_optional(&self.sprint),
            race: self.race.duplicate(),
        }
    }
}

/// Looks a circuit up in a season: the weekend of the first race held there,
/// or `CircuitNotFound` where the season has no race there.
pub fn find_by_circuit(season: &Season, circuit_id: &str) -> (r: Result<
    WeekendSchedule,
    ScheduleError,
>)
    ensures
        match r {
            Ok(weekend) => weekend_at(season@, circuit_id@) == Some(weekend@),
            Err(e) => e == ScheduleError::CircuitNotFound && weekend_at(
                season@,
                circuit_id@,
            ).is_none(),
        },
{
    let wanted = String::from_str(circuit_id);
    let mut i: usize = 0;
    while i < season.races.len()
        invariant
            i <= season.races.len(),
            wanted@ == circuit_id@,
            first_at(season@, circuit_id@, 0) == first_at(season@, circuit_id@, i as int),
        decreases season.races.len() - i,
    {
        if season.races[i].circuit.circuit_id == wanted {
            return Ok(season.races[i].weekend());
        }
        i = i + 1;
    }
    Err(ScheduleError::CircuitNotFound)
}

/// The weekend of every race of the season, in round order: none left out,
/// none moved.
pub fn all_schedules(season: &Season) -> (r: Vec<WeekendSchedule>)
    ensures
        weekend_views(r@) == weekends_of(season@),
{
    let mut weekends: Vec<WeekendSchedule> = Vec::new();
    let mut i: usize = 0;
    while i < season.races.len()
        invariant
            i <= season.races.len(),
            weekends@.len() == i,
            forall|k: int| 0 <= k < i ==> (#[trigger] weekends@[k])@ == weekend_of(season@[k]),
        decreases season.races.len() - i,
    {
        weekends.push(season.races[i].weekend());
        i = i + 1;
    }
    weekends
}

/// What a lookup in the season that `content` describes comes to.
pub open spec fn schedule_in(content: Seq<char>, circuit_id: Seq<char>) -> Result<
    WeekendView,
    ScheduleError,
> {
    match season_in(content) {
        Some(races) => match weekend_at(races, circuit_id) {
            Some(weekend) => Ok(weekend),
            None => Err(ScheduleError::CircuitNotFound),
        },
        None => Err(ScheduleError::MalformedResponse),
    }
}

/// The weekend at a circuit, from the text of a season response.
pub fn get_schedule(content: &str, circuit_id: &str) -> (r: Result<WeekendSchedule, ScheduleError>)
    ensures
        match r {
            Ok(weekend) => schedule_in(content@, circuit_id@) == Ok::<WeekendView, ScheduleError>(
                weekend@,
            ),
            Err(e) => schedule_in(content@, circuit_id@) == Err::<WeekendView, ScheduleError>(e),
        },
{
    match parse_season(content) {
        Ok(season) => find_by_circuit(&season, circuit_id),
        Err(e) => Err(e),
    }
}

/// All the weekends of a season, from the text of a season response.
pub fn get_all_schedules(content: &str) -> (r: Result<Vec<WeekendSchedule>, ScheduleError>)
    ensures
        match r {
            Ok(weekends) => season_in(content@).is_some() && weekend_views(weekends@)
                == weekends_of(season_in(content@).unwrap()),
            Err(e) => e == ScheduleError::MalformedResponse && season_in(content@).is_none(),
        },
{
    match parse_season(content) {
        Ok(season) => Ok(all_schedules(&season)),
        Err(e) => Err(e),
    }
}

/// What `first_at` finds is a race at the circuit, with none before it from
/// `from` on; where it finds nothing, no race from `from` on is held there.
pub proof fn first_at_is_first(races: Seq<RaceView>, circuit_id: Seq<char>, from: int)
    requires
        0 <= from,
    ensures
        match first_at(races, circuit_id, from) {
            Some(i) => from <= i < races.len() && races[i].circuit.circuit_id == circuit_id
                && forall|j: int| from <= j < i ==> races[j].circuit.circuit_id != circuit_id,
            None => forall|j: int|
                from <= j < races.len() ==> races[j].circuit.circuit_id != circuit_id,
        },
    decreases races.len() - from,
{
    if from < races.len() && races[from].circuit.circuit_id != circuit_id {
        first_at_is_first(races, circuit_id, from + 1);
    }
}

/// A circuit is found exactly when some race of the season is held there.
pub proof fn found_iff_present(races: Seq<RaceView>, circuit_id: Seq<char>)
    ensures
        weekend_at(races, circuit_id).is_some() <==> exists|i: int|
            0 <= i < races.len() && (#[trigger] races[i]).circuit.circuit_id == circuit_id,
{
    first_at_is_first(races, circuit_id, 0);
}

/// The race at position `i` is held at the circuit and no earlier race is:
/// then the lookup gives that race's weekend, and the weekend's race session
/// has that race's own date and time.
pub proof fn first_race_at_circuit_is_found(races: Seq<RaceView>, circuit_id: Seq<char>, i: int)
    requires
        0 <= i < races.len(),
        races[i].circuit.circuit_id == circuit_id,
        forall|j: int| 0 <= j < i ==> races[j].circuit.circuit_id != circuit_id,
    ensures
        weekend_at(races, circuit_id) == Some(weekend_of(races[i])),
        weekend_at(races, circuit_id).unwrap().race == races[i].race,
{
    first_at_is_first(races, circuit_id, 0);
}

/// A circuit at which the season has no race is not found.
pub proof fn absent_circuit_is_not_found(races: Seq<RaceView>, circuit_id: Seq<char>)
    requires
        forall|j: int| 0 <= j < races.len() ==> races[j].circuit.circuit_id != circuit_id,
    ensures
        weekend_at(races, circuit_id).is_none(),
{
    first_at_is_first(races, circuit_id, 0);
}

/// There are as many weekends as races, and the weekend at each position is
/// that of the race at the same position.
pub proof fn weekends_follow_races(races: Seq<RaceView>)
    ensures
        weekends_of(races).len() == races.len(),
        forall|i: int|
            0 <= i < races.len() ==> (#[trigger] weekends_of(races)[i]) == weekend_of(races[i]),
{
}

} // verus!
