use vstd::prelude::*;
use vstd::string::*;
use crate::error::ScheduleError;
use crate::json::{document_of, other_member_keeps_field, parse_json, widened, Json, Member};
use crate::model::{
    Circuit, CircuitView, Location, LocationView, Race, RaceView, Schedule, ScheduleView, Season,
    circuit_views,
};

verus! {

/// The text of member `key` of `j`: `None` unless `j` is an object that has
/// the member and the member is a JSON string.
pub open spec fn text_field(j: Json, key: Seq<char>) -> Option<Seq<char>> {
    match j.field(key) {
        Some(v) => v.text(),
        None => None,
    }
}

/// A session: an object with the texts `date` and `time`.
pub open spec fn schedule_of(j: Json) -> Option<ScheduleView> {
    match (text_field(j, "date"@), text_field(j, "time"@)) {
        (Some(date), Some(time)) => Some(ScheduleView { date, time }),
        _ => None,
    }
}

/// The session under `key`, which the schema requires.
pub open spec fn session_of(j: Json, key: Seq<char>) -> Option<ScheduleView> {
    match j.field(key) {
        Some(v) => schedule_of(v),
        None => None,
    }
}

/// The session under `key`, which a weekend may lack. A missing member and
/// `null` both stand for a weekend without it; any other value has to be a
/// session.
pub open spec fn optional_session_of(j: Json, key: Seq<char>) -> Option<Option<ScheduleView>> {
    match j.field(key) {
        None => Some(None),
        Some(Json::Null) => Some(None),
        Some(v) => match schedule_of(v) {
            Some(s) => Some(Some(s)),
            None => None,
        },
    }
}

/// A location: an object with the texts `lat`, `long`, `locality`, `country`.
pub open spec fn location_of(j: Json) -> Option<LocationView> {
    match (
        text_field(j, "lat"@),
        text_field(j, "long"@),
        text_field(j, "locality"@),
        text_field(j, "country"@),
    ) {
        (Some(lat), Some(long), Some(locality), Some(country)) => Some(
            LocationView { lat, long, locality, country },
        ),
        _ => None,
    }
}

/// The location of a circuit, under `Location`.
pub open spec fn located(j: Json) -> Option<LocationView> {
    match j.field("Location"@) {
        Some(v) => location_of(v),
        None => None,
    }
}

/// A circuit: `circuitId`, `url`, `circuitName` and `Location`.
pub open spec fn circuit_of(j: Json) -> Option<CircuitView> {
    match (
        text_field(j, "circuitId"@),
        text_field(j, "url"@),
        text_field(j, "circuitName"@),
        located(j),
    ) {
        (Some(circuit_id), Some(url), Some(circuit_name), Some(location)) => Some(
            CircuitView { circuit_id, url, circuit_name, location },
        ),
        _ => None,
    }
}

/// The circuit of a race, under `Circuit`.
pub open spec fn hosted(j: Json) -> Option<CircuitView> {
    match j.field("Circuit"@) {
        Some(v) => circuit_of(v),
        None => None,
    }
}

/// A race: `season`, `round`, `raceName`, `Circuit`, its own `date` and
/// `time`, the sessions `FirstPractice`, `SecondPractice` and `Qualifying`,
/// and, where the weekend has them, `ThirdPractice` and `Sprint`.
pub open spec fn race_of(j: Json) -> Option<RaceView> {
    match (
        text_field(j, "season"@),
        text_field(j, "round"@),
        text_field(j, "raceName"@),
        hosted(j),
        schedule_of(j),
        session_of(j, "FirstPractice"@),
        session_of(j, "SecondPractice"@),
        optional_session_of(j, "ThirdPractice"@),
        session_of(j, "Qualifying"@),
        optional_session_of(j, "Sprint"@),
    ) {
        (
            Some(season),
            Some(round),
            Some(race_name),
            Some(circuit),
            Some(race),
            Some(first_practice),
            Some(second_practice),
            Some(third_practice),
            Some(qualifying),
            Some(sprint),
        ) => Some(
            RaceView {
                season,
                round,
                race_name,
                circuit,
                race,
                first_practice,
                second_practice,
                third_practice,
                qualifying,
                sprint,
            },
        ),
        _ => None,
    }
}

/// A list of races: every element has to be a race, and the order stays.
pub open spec fn races_of(items: Seq<Json>) -> Option<Seq<RaceView>> {
    if forall|i: int| 0 <= i < items.len() ==> (#[trigger] race_of(items[i])).is_some() {
        Some(Seq::new(items.len(), |i: int| race_of(items[i]).unwrap()))
    } else {
        None
    }
}

/// A list of circuits: every element has to be a circuit, and the order stays.
pub open spec fn circuits_of(items: Seq<Json>) -> Option<Seq<CircuitView>> {
    if forall|i: int| 0 <= i < items.len() ==> (#[trigger] circuit_of(items[i])).is_some() {
        Some(Seq::new(items.len(), |i: int| circuit_of(items[i]).unwrap()))
    } else {
        None
    }
}

/// The array that a document holds under `MRData`, then `table`, then `list`.
pub open spec fn listing(doc: Json, table: Seq<char>, list: Seq<char>) -> Option<Seq<Json>> {
    match doc.field("MRData"@) {
        Some(envelope) => match envelope.field(table) {
            Some(t) => match t.field(list) {
                Some(l) => l.items(),
                None => None,
            },
            None => None,
        },
        None => None,
    }
}

/// The race objects of a season document: `MRData`, `RaceTable`, `Races`.
pub open spec fn race_items(doc: Json) -> Option<Seq<Json>> {
    listing(doc, "RaceTable"@, "Races"@)
}

/// The circuit objects of a circuits document: `MRData`, `CircuitTable`,
/// `Circuits`.
pub open spec fn circuit_items(doc: Json) -> Option<Seq<Json>> {
    listing(doc, "CircuitTable"@, "Circuits"@)
}

/// The season that a document describes, if it describes one.
pub open spec fn season_of(doc: Json) -> Option<Seq<RaceView>> {
    match race_items(doc) {
        Some(items) => races_of(items),
        None => None,
    }
}

/// The circuits that a document lists, if it is a circuits listing.
pub open spec fn circuit_list_of(doc: Json) -> Option<Seq<CircuitView>> {
    match circuit_items(doc) {
        Some(items) => circuits_of(items),
        None => None,
    }
}

/// The season that a text describes: it has to be JSON, and the document a
/// season.
pub open spec fn season_in(text: Seq<char>) -> Option<Seq<RaceView>> {
    match document_of(text) {
        Some(doc) => season_of(doc),
        None => None,
    }
}

/// The circuits that a text lists.
pub open spec fn circuits_in(text: Seq<char>) -> Option<Seq<CircuitView>> {
    match document_of(text) {
        Some(doc) => circuit_list_of(doc),
        None => None,
    }
}

fn read_text(j: &Json, key: &str) -> (r: Option<String>)
    ensures
        match r {
            Some(s) => text_field(*j, key@) == Some(s@),
            None => text_field(*j, key@).is_none(),
        },
{
    match j.get(key) {
        Some(v) => match v.as_text() {
            Some(s) => Some(s.clone()),
            None => None,
        },
        None => None,
    }
}

/// Decodes one session.
pub fn decode_schedule(j: &Json) -> (r: Option<Schedule>)
    ensures
        match r {
            Some(s) => schedule_of(*j) == Some(s@),
            None => schedule_of(*j).is_none(),
        },
{
    let date = match read_text(j, "date") {
        Some(s) => s,
        None => { return None; },
    };
    let time = match read_text(j, "time") {
        Some(s) => s,
        None => { return None; },
    };
    Some(Schedule { date, time })
}

fn read_session(j: &Json, key: &str) -> (r: Option<Schedule>)
    ensures
        match r {
            Some(s) => session_of(*j, key@) == Some(s@),
            None => session_of(*j, key@).is_none(),
        },
{
    match j.get(key) {
        Some(v) => decode_schedule(v),
        None => None,
    }
}

fn read_optional_session(j: &Json, key: &str) -> (r: Option<Option<Schedule>>)
    ensures
        match r {
            Some(s) => optional_session_of(*j, key@) == Some(crate::model::optional_view(s)),
            None => optional_session_of(*j, key@).is_none(),
        },
{
    match j.get(key) {
        None => Some(None),
        Some(v) => {
            if v.is_null() {
                Some(None)
            } else {
                match decode_schedule(v) {
                    Some(s) => Some(Some(s)),
                    None => None,
                }
            }
        },
    }
}

/// Decodes a circuit's location.
pub fn decode_location(j: &Json) -> (r: Option<Location>)
    ensures
        match r {
            Some(l) => location_of(*j) == Some(l@),
            None => location_of(*j).is_none(),
        },
{
    let lat = match read_text(j, "lat") {
        Some(s) => s,
        None => { return None; },
    };
    let long = match read_text(j, "long") {
        Some(s) => s,
        None => { return None; },
    };
    let locality = match read_text(j, "locality") {
        Some(s) => s,
        None => { return None; },
    };
    let country = match read_text(j, "country") {
        Some(s) => s,
        None => { return None; },
    };
    Some(Location { lat, long, locality, country })
}

/// Decodes one circuit.
pub fn decode_circuit(j: &Json) -> (r: Option<Circuit>)
    ensures
        match r {
            Some(c) => circuit_of(*j) == Some(c@),
            None => circuit_of(*j).is_none(),
        },
{
    let circuit_id = match read_text(j, "circuitId") {
        Some(s) => s,
        None => { return None; },
    };
    let url = match read_text(j, "url") {
        Some(s) => s,
        None => { return None; },
    };
    let circuit_name = match read_text(j, "circuitName") {
        Some(s) => s,
        None => { return None; },
    };
    let location = match j.get("Location") {
        Some(v) => match decode_location(v) {
            Some(l) => l,
            None => { return None; },
        },
        None => { return None; },
    };
    Some(Circuit { circuit_id, url, circuit_name, location })
}

/// Decodes one race of a season.
pub fn decode_race(j: &Json) -> (r: Option<Race>)
    ensures
        match r {
            Some(race) => race_of(*j) == Some(race@),
            None => race_of(*j).is_none(),
        },
{
    let season = match read_text(j, "season") {
        Some(s) => s,
        None => { return None; },
    };
    let round = match read_text(j, "round") {
        Some(s) => s,
        None => { return None; },
    };
    let race_name = match read_text(j, "raceName") {
        Some(s) => s,
        None => { return None; },
    };
    let circuit = match j.get("Circuit") {
        Some(v) => match decode_circuit(v) {
            Some(c) => c,
            None => { return None; },
        },
        None => { return None; },
    };
    let race = match decode_schedule(j) {
        Some(s) => s,
        None => { return None; },
    };
    let first_practice = match read_session(j, "FirstPractice") {
        Some(s) => s,
        None => { return None; },
    };
    let second_practice = match read_session(j, "SecondPractice") {
        Some(s) => s,
        None => { return None; },
    };
    let third_practice = match read_optional_session(j, "ThirdPractice") {
        Some(s) => s,
        None => { return None; },
    };
    let qualifying = match read_session(j, "Qualifying") {
        Some(s) => s,
        None => { return None; },
    };
    let sprint = match read_optional_session(j, "Sprint") {
        Some(s) => s,
        None => { return None; },
    };
    Some(
        Race {
            season,
            round,
            race_name,
            circuit,
            race,
            first_practice,
            second_practice,
            third_practice,
            qualifying,
            sprint,
        },
    )
}

fn read_listing<'a>(doc: &'a Json, table: &str, list: &str) -> (r: Option<&'a Vec<Json>>)
    ensures
        match r {
            Some(items) => listing(*doc, table@, list@) == Some(items@),
            None => listing(*doc, table@, list@).is_none(),
        },
{
    let envelope = match doc.get("MRData") {
        Some(v) => v,
        None => { return None; },
    };
    let t = match envelope.get(table) {
        Some(v) => v,
        None => { return None; },
    };
    match t.get(list) {
        Some(l) => l.as_items(),
        None => None,
    }
}

/// Decodes a season document. Every race has to decode: there is no season
/// made of the races that did.
pub fn decode_season(doc: &Json) -> (r: Result<Season, ScheduleError>)
    ensures
        match r {
            Ok(season) => season_of(*doc) == Some(season@),
            Err(e) => e == ScheduleError::MalformedResponse && season_of(*doc).is_none(),
        },
{
    let items = match read_listing(doc, "RaceTable", "Races") {
        Some(items) => items,
        None => { return Err(ScheduleError::MalformedResponse); },
    };
    let mut races: Vec<Race> = Vec::new();
    let mut i: usize = 0;
    while i < items.len()
        invariant
            i <= items.len(),
            races@.len() == i,
            race_items(*doc) == Some(items@),
            forall|k: int| 0 <= k < i ==> (#[trigger] race_of(items@[k])) == Some(races@[k]@),
        decreases items.len() - i,
    {
        match decode_race(&items[i]) {
            Some(race) => { races.push(race); },
            None => { return Err(ScheduleError::MalformedResponse); },
        }
        i = i + 1;
    }
    Ok(Season { races })
}

/// Decodes a circuits listing.
pub fn decode_circuits(doc: &Json) -> (r: Result<Vec<Circuit>, ScheduleError>)
    ensures
        match r {
            Ok(circuits) => circuit_list_of(*doc) == Some(circuit_views(circuits@)),
            Err(e) => e == ScheduleError::MalformedResponse && circuit_list_of(*doc).is_none(),
        },
{
    let items = match read_listing(doc, "CircuitTable", "Circuits") {
        Some(items) => items,
        None => { return Err(ScheduleError::MalformedResponse); },
    };
    let mut circuits: Vec<Circuit> = Vec::new();
    let mut i: usize = 0;
    while i < items.len()
        invariant
            i <= items.len(),
            circuits@.len() == i,
            circuit_items(*doc) == Some(items@),
            forall|k: int| 0 <= k < i ==> (#[trigger] circuit_of(items@[k])) == Some(circuits@[k]@),
        decreases items.len() - i,
    {
        match decode_circuit(&items[i]) {
            Some(circuit) => { circuits.push(circuit); },
            None => { return Err(ScheduleError::MalformedResponse); },
        }
        i = i + 1;
    }
    Ok(circuits)
}

/// Parses the text of a season response.
pub fn parse_season(text: &str) -> (r: Result<Season, ScheduleError>)
    ensures
        match r {
            Ok(season) => season_in(text@) == Some(season@),
            Err(e) => e == ScheduleError::MalformedResponse && season_in(text@).is_none(),
        },
{
    match parse_json(text) {
        Some(doc) => decode_season(&doc),
        None => Err(ScheduleError::MalformedResponse),
    }
}

/// Parses the text of a circuits response.
pub fn parse_circuits(text: &str) -> (r: Result<Vec<Circuit>, ScheduleError>)
    ensures
        match r {
            Ok(circuits) => circuits_in(text@) == Some(circuit_views(circuits@)),
            Err(e) => e == ScheduleError::MalformedResponse && circuits_in(text@).is_none(),
        },
{
    match parse_json(text) {
        Some(doc) => decode_circuits(&doc),
        None => Err(ScheduleError::MalformedResponse),
    }
}

/// Whether a weekend's optional session is there in the source object: the
/// member exists and is not `null`.
pub open spec fn has_session(j: Json, key: Seq<char>) -> bool {
    match j.field(key) {
        Some(v) => v != Json::Null,
        None => false,
    }
}

/// The members without which an object is no race.
pub open spec fn required_of_race(key: Seq<char>) -> bool {
    key == "season"@ || key == "round"@ || key == "raceName"@ || key == "Circuit"@ || key
        == "date"@ || key == "time"@ || key == "FirstPractice"@ || key == "SecondPractice"@
        || key == "Qualifying"@
}

/// A document whose race list holds only races is a season with as many
/// entries as the list has objects, each decoded from the object at its own
/// position.
pub proof fn season_keeps_every_race(doc: Json, items: Seq<Json>)
    requires
        race_items(doc) == Some(items),
        forall|i: int| 0 <= i < items.len() ==> race_of(items[i]).is_some(),
    ensures
        season_of(doc).is_some(),
        season_of(doc).unwrap().len() == items.len(),
        forall|i: int|
            0 <= i < items.len() ==> Some(#[trigger] season_of(doc).unwrap()[i]) == race_of(
                items[i],
            ),
{
}

/// A decoded race carries the texts of the source object's required
/// members, and has a third practice, or a sprint, exactly when the source
/// object has one.
pub proof fn race_keeps_its_fields(j: Json, race: RaceView)
    requires
        race_of(j) == Some(race),
    ensures
        Some(race.season) == text_field(j, "season"@),
        Some(race.round) == text_field(j, "round"@),
        Some(race.race_name) == text_field(j, "raceName"@),
        Some(race.circuit) == hosted(j),
        Some(race.race.date) == text_field(j, "date"@),
        Some(race.race.time) == text_field(j, "time"@),
        Some(race.first_practice) == session_of(j, "FirstPractice"@),
        Some(race.second_practice) == session_of(j, "SecondPractice"@),
        Some(race.qualifying) == session_of(j, "Qualifying"@),
        race.third_practice.is_some() <==> has_session(j, "ThirdPractice"@),
        race.sprint.is_some() <==> has_session(j, "Sprint"@),
{
}

/// A season is all of its source's races or none: where a document decodes,
/// it has the race list and every object of the list is a race.
pub proof fn season_is_never_partial(doc: Json)
    requires
        season_of(doc).is_some(),
    ensures
        race_items(doc).is_some(),
        forall|i: int|
            0 <= i < race_items(doc).unwrap().len() ==> (#[trigger] race_of(
                race_items(doc).unwrap()[i],
            )).is_some(),
{
}

/// A document without the envelope, without the table in it, or without the
/// list in the table, is neither a season nor a circuits listing.
pub proof fn document_without_table_is_rejected(doc: Json)
    ensures
        doc.field("MRData"@).is_none() ==> season_of(doc).is_none() && circuit_list_of(
            doc,
        ).is_none(),
        doc.field("MRData"@).is_some() && doc.field("MRData"@).unwrap().field(
            "RaceTable"@,
        ).is_none() ==> season_of(doc).is_none(),
        doc.field("MRData"@).is_some() && doc.field("MRData"@).unwrap().field(
            "CircuitTable"@,
        ).is_none() ==> circuit_list_of(doc).is_none(),
        race_items(doc).is_none() ==> season_of(doc).is_none(),
        circuit_items(doc).is_none() ==> circuit_list_of(doc).is_none(),
{
}

/// An object that lacks a required member is no race, and a list with such
/// an object is no list of races.
pub proof fn race_without_required_member_is_rejected(items: Seq<Json>, i: int, key: Seq<char>)
    requires
        0 <= i < items.len(),
        required_of_race(key),
        items[i].field(key).is_none(),
    ensures
        race_of(items[i]).is_none(),
        races_of(items).is_none(),
{
}

/// The members that the decoding of a session reads.
pub open spec fn read_of_schedule(key: Seq<char>) -> bool {
    key == "date"@ || key == "time"@
}

/// The members that the decoding of a location reads.
pub open spec fn read_of_location(key: Seq<char>) -> bool {
    key == "lat"@ || key == "long"@ || key == "locality"@ || key == "country"@
}

/// The members that the decoding of a circuit reads.
pub open spec fn read_of_circuit(key: Seq<char>) -> bool {
    key == "circuitId"@ || key == "url"@ || key == "circuitName"@ || key == "Location"@
}

/// The members that the decoding of a race reads: the required ones and the
/// two sessions that a weekend may lack.
pub open spec fn read_of_race(key: Seq<char>) -> bool {
    required_of_race(key) || key == "ThirdPractice"@ || key == "Sprint"@
}

/// A member that the schema of a session does not name, put into the object
/// at any position, changes nothing of what the object decodes to.
pub proof fn unknown_member_of_schedule_is_ignored(j: Json, wider: Json, at: int, extra: Member)
    requires
        widened(j, wider, at, extra),
        !read_of_schedule(extra.key@),
    ensures
        schedule_of(wider) == schedule_of(j),
{
    other_member_keeps_field(j, wider, at, extra, "date"@);
    other_member_keeps_field(j, wider, at, extra, "time"@);
}

/// A member that the schema of a location does not name, put into the
/// object at any position, changes nothing of what the object decodes to.
pub proof fn unknown_member_of_location_is_ignored(j: Json, wider: Json, at: int, extra: Member)
    requires
        widened(j, wider, at, extra),
        !read_of_location(extra.key@),
    ensures
        location_of(wider) == location_of(j),
{
    other_member_keeps_field(j, wider, at, extra, "lat"@);
    other_member_keeps_field(j, wider, at, extra, "long"@);
    other_member_keeps_field(j, wider, at, extra, "locality"@);
    other_member_keeps_field(j, wider, at, extra, "country"@);
}

/// A member that the schema of a circuit does not name, put into the object
/// at any position, changes nothing of what the object decodes to.
pub proof fn unknown_member_of_circuit_is_ignored(j: Json, wider: Json, at: int, extra: Member)
    requires
        widened(j, wider, at, extra),
        !read_of_circuit(extra.key@),
    ensures
        circuit_of(wider) == circuit_of(j),
{
    other_member_keeps_field(j, wider, at, extra, "circuitId"@);
    other_member_keeps_field(j, wider, at, extra, "url"@);
    other_member_keeps_field(j, wider, at, extra, "circuitName"@);
    other_member_keeps_field(j, wider, at, extra, "Location"@);
}

/// A member that the schema of a race does not name, put into the object at
/// any position, changes nothing of what the object decodes to.
pub proof fn unknown_member_of_race_is_ignored(j: Json, wider: Json, at: int, extra: Member)
    requires
        widened(j, wider, at, extra),
        !read_of_race(extra.key@),
    ensures
        race_of(wider) == race_of(j),
{
    other_member_keeps_field(j, wider, at, extra, "season"@);
    other_member_keeps_field(j, wider, at, extra, "round"@);
    other_member_keeps_field(j, wider, at, extra, "raceName"@);
    other_member_keeps_field(j, wider, at, extra, "Circuit"@);
    other_member_keeps_field(j, wider, at, extra, "date"@);
    other_member_keeps_field(j, wider, at, extra, "time"@);
    other_member_keeps_field(j, wider, at, extra, "FirstPractice"@);
    other_member_keeps_field(j, wider, at, extra, "SecondPractice"@);
    other_member_keeps_field(j, wider, at, extra, "ThirdPractice"@);
    other_member_keeps_field(j, wider, at, extra, "Qualifying"@);
    other_member_keeps_field(j, wider, at, extra, "Sprint"@);
}

/// A member beside the envelope, put into a document at any position,
/// changes nothing of the list, the season or the circuits that the document
/// holds.
pub proof fn unknown_member_of_document_is_ignored(
    doc: Json,
    wider: Json,
    at: int,
    extra: Member,
    table: Seq<char>,
    list: Seq<char>,
)
    requires
        widened(doc, wider, at, extra),
        extra.key@ != "MRData"@,
    ensures
        listing(wider, table, list) == listing(doc, table, list),
        season_of(wider) == season_of(doc),
        circuit_list_of(wider) == circuit_list_of(doc),
{
    other_member_keeps_field(doc, wider, at, extra, "MRData"@);
}

} // verus!
