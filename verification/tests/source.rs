use dump1090_server::source::{aircraft_path, is_historical_name, json_dir, receiver_path};

#[test]
fn json_dir_defaults_to_test_data() {
    assert_eq!(json_dir(None), "./test-data");
}

#[test]
fn json_dir_is_the_configured_one() {
    assert_eq!(json_dir(Some("/run/dump1090".to_string())), "/run/dump1090");
    assert_eq!(json_dir(Some(String::new())), "");
}

#[test]
fn aircraft_path_is_under_the_directory() {
    assert_eq!(aircraft_path("/run/dump1090".to_string()), "/run/dump1090/aircraft.json");
    assert_eq!(aircraft_path(json_dir(None)), "./test-data/aircraft.json");
}

#[test]
fn receiver_path_is_under_the_directory() {
    assert_eq!(receiver_path("/run/dump1090".to_string()), "/run/dump1090/receiver.json");
    assert_eq!(receiver_path(json_dir(None)), "./test-data/receiver.json");
}

#[test]
fn historical_names_have_history_in_them() {
    assert!(is_historical_name("history"));
    assert!(is_historical_name("history1.json"));
    assert!(is_historical_name("history_2.json"));
    assert!(is_historical_name("xhistoryx"));
    assert!(is_historical_name("hihistory"));
    assert!(is_historical_name("prehistory.txt"));
}

#[test]
fn other_names_are_not_historical() {
    assert!(!is_historical_name(""));
    assert!(!is_historical_name("histor"));
    assert!(!is_historical_name("istory"));
    assert!(!is_historical_name("other.json"));
    assert!(!is_historical_name("aircraft.json"));
    assert!(!is_historical_name("receiver.json"));
    assert!(!is_historical_name("History"));
    assert!(!is_historical_name("hist.ory"));
}
