use f1rs::display::{padded, race_row, race_rows, shown_time, DISPLAY_OFFSET};
use f1rs::error::ScheduleError;
use f1rs::model::{Circuit, Location, Race, Schedule, Season};

fn start(date: &str, time: &str) -> Schedule {
    Schedule { date: date.to_string(), time: time.to_string() }
}

fn grand_prix(name: &str, track: &str, date: &str, time: &str) -> Race {
    Race {
        season: "2023".to_string(),
        round: "1".to_string(),
        race_name: name.to_string(),
        circuit: Circuit {
            circuit_id: "id".to_string(),
            url: String::new(),
            circuit_name: track.to_string(),
            location: Location {
                lat: String::new(),
                long: String::new(),
                locality: String::new(),
                country: String::new(),
            },
        },
        race: start(date, time),
        first_practice: start(date, time),
        second_practice: start(date, time),
        third_practice: None,
        qualifying: start(date, time),
        sprint: None,
    }
}

#[test]
fn display_offset_is_two_hours() {
    assert_eq!(DISPLAY_OFFSET, 2 * 3600);
}

#[test]
fn race_time_two_hours_east() {
    assert_eq!(
        shown_time(&start("2023-03-05", "15:00:00Z"), 7200),
        Some("Mar 05 17:00".to_string())
    );
    assert_eq!(
        shown_time(&start("2023-03-05", "15:00:00Z"), 0),
        Some("Mar 05 15:00".to_string())
    );
}

#[test]
fn shown_time_crosses_midnight_and_year() {
    assert_eq!(
        shown_time(&start("2023-12-31", "23:30:00Z"), 3600),
        Some("Jan 01 00:30".to_string())
    );
    assert_eq!(
        shown_time(&start("2023-03-01", "00:15:00Z"), -3600),
        Some("Feb 28 23:15".to_string())
    );
}

#[test]
fn shown_time_of_what_is_no_timestamp() {
    assert_eq!(shown_time(&start("2023-03-05", "15:00:00"), 7200), None);
    assert_eq!(shown_time(&start("2023-13-05", "15:00:00Z"), 7200), None);
    assert_eq!(shown_time(&start("", ""), 7200), None);
    assert_eq!(shown_time(&start("05/03/2023", "15:00:00Z"), 7200), None);
}

#[test]
fn shown_time_in_a_zone_out_of_range() {
    assert_eq!(shown_time(&start("2023-03-05", "15:00:00Z"), 86_400), None);
    assert_eq!(shown_time(&start("2023-03-05", "15:00:00Z"), -86_400), None);
    assert!(shown_time(&start("2023-03-05", "15:00:00Z"), 86_399).is_some());
}

#[test]
fn padding_fills_to_width() {
    assert_eq!(padded("abc", 5), "abc  ");
    assert_eq!(padded("abc", 3), "abc");
    assert_eq!(padded("abcdef", 3), "abcdef");
    assert_eq!(padded("", 2), "  ");
    assert_eq!(padded("", 0), "");
    assert_eq!(padded("São", 5), format!("{:<5}", "São"));
}

#[test]
fn row_of_a_race() {
    let race = grand_prix("Bahrain Grand Prix", "Bahrain International Circuit", "2023-03-05", "15:00:00Z");
    let expected = format!(
        "{:<width1$} {:<width2$} {}",
        "Bahrain Grand Prix",
        "Bahrain International Circuit",
        "Mar 05 17:00",
        width1 = 30,
        width2 = 35,
    );
    assert_eq!(race_row(&race, "Mar 05 17:00"), expected);
    assert_eq!(
        race_row(&race, "Mar 05 17:00"),
        "Bahrain Grand Prix             Bahrain International Circuit       Mar 05 17:00"
    );
}

#[test]
fn rows_of_a_season_in_round_order() {
    let season = Season {
        races: vec![
            grand_prix("Bahrain Grand Prix", "Sakhir", "2023-03-05", "15:00:00Z"),
            grand_prix("Italian Grand Prix", "Monza", "2023-09-03", "13:00:00Z"),
        ],
    };
    let rows = race_rows(&season, DISPLAY_OFFSET).unwrap();
    assert_eq!(rows.len(), 2);
    assert_eq!(rows[0], format!("{:<30} {:<35} {}", "Bahrain Grand Prix", "Sakhir", "Mar 05 17:00"));
    assert_eq!(rows[1], format!("{:<30} {:<35} {}", "Italian Grand Prix", "Monza", "Sep 03 15:00"));
    assert_eq!(race_rows(&Season { races: vec![] }, DISPLAY_OFFSET), Ok(Vec::new()));
}

#[test]
fn rows_fail_on_a_race_without_a_timestamp() {
    let season = Season {
        races: vec![
            grand_prix("Bahrain Grand Prix", "Sakhir", "2023-03-05", "15:00:00Z"),
            grand_prix("Italian Grand Prix", "Monza", "soon", "13:00:00Z"),
        ],
    };
    assert_eq!(race_rows(&season, DISPLAY_OFFSET), Err(ScheduleError::MalformedResponse));
}
