use f1rs::error::ScheduleError;
use f1rs::json::{parse_json, Json, Member};
use f1rs::model::Schedule;
use f1rs::parser::{decode_race, decode_schedule, decode_season, parse_circuits, parse_season};

fn circuit(id: &str) -> String {
    format!(
        "{{\"circuitId\":\"{id}\",\"url\":\"http://example.org/{id}\",\"circuitName\":\"{id} circuit\",\"Location\":{{\"lat\":\"26.0325\",\"long\":\"50.5106\",\"locality\":\"Sakhir\",\"country\":\"Bahrain\"}}}}"
    )
}

fn race(round: &str, id: &str, date: &str, time: &str, extra: &str) -> String {
    format!(
        "{{\"season\":\"2023\",\"round\":\"{round}\",\"url\":\"http://example.org/race\",\"raceName\":\"{id} Grand Prix\",\"Circuit\":{},\"date\":\"{date}\",\"time\":\"{time}\",\"FirstPractice\":{{\"date\":\"2023-03-03\",\"time\":\"11:30:00Z\"}},\"SecondPractice\":{{\"date\":\"2023-03-03\",\"time\":\"15:00:00Z\"}},\"Qualifying\":{{\"date\":\"2023-03-04\",\"time\":\"15:00:00Z\"}}{extra}}}",
        circuit(id)
    )
}

fn season(races: &[String]) -> String {
    format!(
        "{{\"MRData\":{{\"xmlns\":\"\",\"series\":\"f1\",\"url\":\"u\",\"limit\":\"30\",\"offset\":\"0\",\"total\":\"{}\",\"RaceTable\":{{\"season\":\"2023\",\"Races\":[{}]}}}}}}",
        races.len(),
        races.join(",")
    )
}

fn text(s: &str) -> Json {
    Json::Text(s.to_string())
}

#[test]
fn json_tree_of_a_small_document() {
    let doc = parse_json("{\"b\":[1,true,null,\"x\"],\"a\":{\"n\":-2.5}}").unwrap();
    let expected = Json::Object(vec![
        Member {
            key: "a".to_string(),
            value: Json::Object(vec![Member {
                key: "n".to_string(),
                value: Json::Number("-2.5".to_string()),
            }]),
        },
        Member {
            key: "b".to_string(),
            value: Json::Array(vec![
                Json::Number("1".to_string()),
                Json::Bool(true),
                Json::Null,
                text("x"),
            ]),
        },
    ]);
    assert_eq!(doc, expected);
}

#[test]
fn json_text_that_is_not_json() {
    assert_eq!(parse_json("{\"a\":"), None);
    assert_eq!(parse_json(""), None);
    assert_eq!(parse_json("{} trailing"), None);
}

#[test]
fn json_get_finds_first_member() {
    let doc = Json::Object(vec![
        Member { key: "k".to_string(), value: text("first") },
        Member { key: "other".to_string(), value: Json::Null },
        Member { key: "k".to_string(), value: text("second") },
    ]);
    assert_eq!(doc.get("k"), Some(&text("first")));
    assert_eq!(doc.get("other"), Some(&Json::Null));
    assert_eq!(doc.get("K"), None);
    assert_eq!(text("k").get("k"), None);
    assert_eq!(Json::Array(vec![]).get("k"), None);
}

#[test]
fn json_accessors_tell_kinds_apart() {
    assert_eq!(text("a").as_text(), Some(&"a".to_string()));
    assert_eq!(Json::Number("1".to_string()).as_text(), None);
    assert_eq!(Json::Array(vec![Json::Null]).as_items(), Some(&vec![Json::Null]));
    assert_eq!(text("a").as_items(), None);
    assert!(Json::Null.is_null());
    assert!(!Json::Bool(false).is_null());
}

#[test]
fn season_with_n_races_has_n_entries_in_order() {
    let races = vec![
        race("1", "bahrain", "2023-03-05", "15:00:00Z", ""),
        race("2", "jeddah", "2023-03-19", "17:00:00Z", ""),
        race("3", "albert_park", "2023-04-02", "05:00:00Z", ""),
    ];
    let parsed = parse_season(&season(&races)).unwrap();
    assert_eq!(parsed.len(), 3);
    assert_eq!(parsed.races[0].circuit.circuit_id, "bahrain");
    assert_eq!(parsed.races[1].circuit.circuit_id, "jeddah");
    assert_eq!(parsed.races[2].circuit.circuit_id, "albert_park");
    assert_eq!(parsed.races[0].round, "1");
    assert_eq!(parsed.races[2].round, "3");
}

#[test]
fn empty_season_parses() {
    let parsed = parse_season(&season(&[])).unwrap();
    assert_eq!(parsed.len(), 0);
}

#[test]
fn race_fields_are_kept_as_text() {
    let parsed = parse_season(&season(&[race("1", "bahrain", "2023-03-05", "15:00:00Z", "")]))
        .unwrap();
    let r = &parsed.races[0];
    assert_eq!(r.season, "2023");
    assert_eq!(r.round, "1");
    assert_eq!(r.race_name, "bahrain Grand Prix");
    assert_eq!(r.circuit.url, "http://example.org/bahrain");
    assert_eq!(r.circuit.circuit_name, "bahrain circuit");
    assert_eq!(r.circuit.location.lat, "26.0325");
    assert_eq!(r.circuit.location.long, "50.5106");
    assert_eq!(r.circuit.location.locality, "Sakhir");
    assert_eq!(r.circuit.location.country, "Bahrain");
    assert_eq!(
        r.race,
        Schedule { date: "2023-03-05".to_string(), time: "15:00:00Z".to_string() }
    );
    assert_eq!(
        r.first_practice,
        Schedule { date: "2023-03-03".to_string(), time: "11:30:00Z".to_string() }
    );
    assert_eq!(
        r.second_practice,
        Schedule { date: "2023-03-03".to_string(), time: "15:00:00Z".to_string() }
    );
    assert_eq!(
        r.qualifying,
        Schedule { date: "2023-03-04".to_string(), time: "15:00:00Z".to_string() }
    );
}

#[test]
fn optional_sessions_present_iff_in_source() {
    let third = ",\"ThirdPractice\":{\"date\":\"2023-03-04\",\"time\":\"11:30:00Z\"}";
    let sprint = ",\"Sprint\":{\"date\":\"2023-04-29\",\"time\":\"13:30:00Z\"}";
    let races = vec![
        race("1", "bahrain", "2023-03-05", "15:00:00Z", third),
        race("4", "baku", "2023-04-30", "11:00:00Z", sprint),
        race("5", "miami", "2023-05-07", "19:30:00Z", ""),
        race("6", "imola", "2023-05-21", "13:00:00Z", ",\"ThirdPractice\":null"),
    ];
    let parsed = parse_season(&season(&races)).unwrap();
    assert_eq!(
        parsed.races[0].third_practice,
        Some(Schedule { date: "2023-03-04".to_string(), time: "11:30:00Z".to_string() })
    );
    assert_eq!(parsed.races[0].sprint, None);
    assert_eq!(parsed.races[1].third_practice, None);
    assert_eq!(
        parsed.races[1].sprint,
        Some(Schedule { date: "2023-04-29".to_string(), time: "13:30:00Z".to_string() })
    );
    assert_eq!(parsed.races[2].third_practice, None);
    assert_eq!(parsed.races[2].sprint, None);
    assert_eq!(parsed.races[3].third_practice, None);
}

#[test]
fn optional_session_of_wrong_shape_is_rejected() {
    let races = vec![race("1", "bahrain", "2023-03-05", "15:00:00Z", ",\"Sprint\":{\"date\":\"x\"}")];
    assert_eq!(parse_season(&season(&races)), Err(ScheduleError::MalformedResponse));
}

#[test]
fn text_that_is_not_json_is_malformed() {
    assert_eq!(parse_season("not json"), Err(ScheduleError::MalformedResponse));
    assert_eq!(parse_circuits("[1,"), Err(ScheduleError::MalformedResponse));
}

#[test]
fn season_without_envelope_or_table_is_malformed() {
    assert_eq!(parse_season("{}"), Err(ScheduleError::MalformedResponse));
    assert_eq!(parse_season("{\"MRData\":{}}"), Err(ScheduleError::MalformedResponse));
    assert_eq!(
        parse_season("{\"MRData\":{\"RaceTable\":{}}}"),
        Err(ScheduleError::MalformedResponse)
    );
    assert_eq!(
        parse_season("{\"MRData\":{\"RaceTable\":{\"Races\":{}}}}"),
        Err(ScheduleError::MalformedResponse)
    );
    assert_eq!(
        parse_season("{\"mrdata\":{\"RaceTable\":{\"Races\":[]}}}"),
        Err(ScheduleError::MalformedResponse)
    );
}

#[test]
fn race_without_circuit_rejects_whole_season() {
    let good = race("1", "bahrain", "2023-03-05", "15:00:00Z", "");
    let bad = good.replace("\"Circuit\":", "\"Track\":");
    assert_eq!(
        parse_season(&season(&[good.clone(), bad])),
        Err(ScheduleError::MalformedResponse)
    );
    assert!(parse_season(&season(&[good])).is_ok());
}

#[test]
fn race_without_each_required_member_is_rejected() {
    let good = race("1", "bahrain", "2023-03-05", "15:00:00Z", "");
    for key in [
        "\"season\":",
        "\"round\":",
        "\"raceName\":",
        "\"date\":\"2023-03-05\"",
        "\"time\":\"15:00:00Z\",\"First",
        "\"FirstPractice\":",
        "\"SecondPractice\":",
        "\"Qualifying\":",
        "\"circuitId\":",
        "\"circuitName\":",
        "\"Location\":",
        "\"lat\":",
        "\"country\":",
    ] {
        assert!(good.contains(key));
        let bad = good.replacen(key, &key.replacen('"', "\"x_", 1), 1);
        let doc = parse_json(&bad).unwrap();
        assert_eq!(decode_race(&doc), None);
    }
    assert!(decode_race(&parse_json(&good).unwrap()).is_some());
}

#[test]
fn numeric_member_where_text_is_required_is_rejected() {
    let good = race("1", "bahrain", "2023-03-05", "15:00:00Z", "");
    let bad = good.replace("\"round\":\"1\"", "\"round\":1");
    assert_eq!(decode_race(&parse_json(&bad).unwrap()), None);
}

#[test]
fn schedule_decodes_from_object_only() {
    let doc = parse_json("{\"date\":\"2023-03-05\",\"time\":\"15:00:00Z\",\"more\":1}").unwrap();
    assert_eq!(
        decode_schedule(&doc),
        Some(Schedule { date: "2023-03-05".to_string(), time: "15:00:00Z".to_string() })
    );
    assert_eq!(decode_schedule(&parse_json("[\"2023-03-05\",\"15:00:00Z\"]").unwrap()), None);
    assert_eq!(decode_schedule(&parse_json("{\"date\":\"2023-03-05\"}").unwrap()), None);
}

#[test]
fn decode_season_on_a_hand_built_tree() {
    let doc = Json::Object(vec![Member {
        key: "MRData".to_string(),
        value: Json::Object(vec![Member {
            key: "RaceTable".to_string(),
            value: Json::Object(vec![Member {
                key: "Races".to_string(),
                value: Json::Array(vec![]),
            }]),
        }]),
    }]);
    assert_eq!(decode_season(&doc).unwrap().len(), 0);
    assert_eq!(decode_season(&Json::Null), Err(ScheduleError::MalformedResponse));
}

#[test]
fn circuits_listing_parses_in_order() {
    let body = format!(
        "{{\"MRData\":{{\"CircuitTable\":{{\"Circuits\":[{},{}]}}}}}}",
        circuit("monza"),
        circuit("spa")
    );
    let circuits = parse_circuits(&body).unwrap();
    assert_eq!(circuits.len(), 2);
    assert_eq!(circuits[0].circuit_id, "monza");
    assert_eq!(circuits[1].circuit_id, "spa");
    assert_eq!(circuits[1].location.country, "Bahrain");
}

#[test]
fn circuits_without_circuit_table_is_malformed() {
    assert_eq!(
        parse_circuits("{\"MRData\":{\"RaceTable\":{\"Races\":[]}}}"),
        Err(ScheduleError::MalformedResponse)
    );
    let missing_id = "{\"MRData\":{\"CircuitTable\":{\"Circuits\":[{\"url\":\"u\",\"circuitName\":\"n\",\"Location\":{\"lat\":\"1\",\"long\":\"2\",\"locality\":\"l\",\"country\":\"c\"}}]}}}";
    assert_eq!(parse_circuits(missing_id), Err(ScheduleError::MalformedResponse));
}

#[test]
fn unknown_members_change_nothing() {
    let plain = race("1", "bahrain", "2023-03-05", "15:00:00Z", "");
    let wider = race("1", "bahrain", "2023-03-05", "15:00:00Z", ",\"Results\":[1,2],\"laps\":57");
    let first = plain.replacen("{", "{\"aaa\":null,", 1);
    let expected = decode_race(&parse_json(&plain).unwrap());
    assert!(expected.is_some());
    assert_eq!(decode_race(&parse_json(&wider).unwrap()), expected);
    assert_eq!(decode_race(&parse_json(&first).unwrap()), expected);
    let bare = "{\"MRData\":{\"RaceTable\":{\"Races\":[]}}}";
    let noisy = "{\"extra\":1,\"MRData\":{\"total\":\"0\",\"RaceTable\":{\"season\":\"2023\",\"Races\":[]}}}";
    assert_eq!(parse_season(noisy), parse_season(bare));
    assert!(parse_season(noisy).is_ok());
}
