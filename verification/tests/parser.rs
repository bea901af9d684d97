use dump1090_server::double::Double;
use dump1090_server::flight::{Aircraft, FlightData, Receiver};
use dump1090_server::parser::{parse_aircraft, parse_flight_data, parse_receiver_data};

fn value(text: &str) -> serde_json::Value {
    serde_json::from_str(text).unwrap()
}

fn double(x: f64) -> Double {
    Double::from_bits(x.to_bits())
}

fn number(d: Double) -> f64 {
    f64::from_bits(d.to_bits())
}

#[test]
fn zero_is_positive_zero() {
    assert_eq!(Double::zero().to_bits(), 0.0f64.to_bits());
    assert_eq!(number(Double::zero()), 0.0);
    assert_ne!(Double::zero().to_bits(), (-0.0f64).to_bits());
}

#[test]
fn bits_round_trip() {
    let d = Double::from_bits(0x4000_CCCC_CCCC_CCCD);
    assert_eq!(d.to_bits(), 0x4000_CCCC_CCCC_CCCD);
    assert_eq!(number(d), 2.1);
    assert_eq!(d, double(2.1));
}

#[test]
fn full_snapshot_is_parsed() {
    let data = parse_flight_data(value(
        r#"{
            "now": 1700000000.5,
            "messages": 4242,
            "aircraft": [
                {"hex": "a1b2c3", "flight": "UAL123  ", "lat": 37.5, "lon": -122.25,
                 "track": 270.0, "track_rate": -0.5},
                {"hex": "4ca7b5"}
            ]
        }"#,
    ));
    assert_eq!(
        data,
        FlightData {
            now: double(1700000000.5),
            messages: 4242,
            aircraft: vec![
                Aircraft {
                    hex: "a1b2c3".to_string(),
                    flight: Some("UAL123  ".to_string()),
                    lat: Some(double(37.5)),
                    lon: Some(double(-122.25)),
                    track: Some(double(270.0)),
                    track_rate: Some(double(-0.5)),
                },
                Aircraft {
                    hex: "4ca7b5".to_string(),
                    flight: None,
                    lat: None,
                    lon: None,
                    track: None,
                    track_rate: None,
                },
            ],
        }
    );
}

#[test]
fn aircraft_without_hex_are_dropped_and_order_is_kept() {
    let data = parse_flight_data(value(
        r#"{"aircraft": [
            {"hex": "first"},
            {"flight": "NOHEX"},
            {"hex": "", "lat": 1.0},
            {"hex": "second"},
            {"hex": 17},
            {"hex": null},
            {"hex": "third"},
            "not an object",
            [1, 2, 3],
            {"hex": "fourth"}
        ]}"#,
    ));
    let ids: Vec<&str> = data.aircraft.iter().map(|a| a.hex.as_str()).collect();
    assert_eq!(ids, vec!["first", "second", "third", "fourth"]);
}

#[test]
fn every_parsed_aircraft_has_an_identifier() {
    let data = parse_flight_data(value(
        r#"{"aircraft": [{"hex": ""}, {"hex": "x"}, {}, {"hex": "yz"}]}"#,
    ));
    assert_eq!(data.aircraft.len(), 2);
    assert!(data.aircraft.iter().all(|a| !a.hex.is_empty()));
}

#[test]
fn snapshot_with_only_unidentified_aircraft_is_empty() {
    let data = parse_flight_data(value(r#"{"now": 1, "aircraft": [{}, {"hex": ""}]}"#));
    assert!(data.aircraft.is_empty());
    assert_eq!(number(data.now), 1.0);
}

#[test]
fn absent_optional_fields_are_absent() {
    let aircraft = parse_aircraft(&value(r#"{"hex": "abc"}"#));
    assert_eq!(aircraft.hex, "abc");
    assert_eq!(aircraft.flight, None);
    assert_eq!(aircraft.lat, None);
    assert_eq!(aircraft.lon, None);
    assert_eq!(aircraft.track, None);
    assert_eq!(aircraft.track_rate, None);
}

#[test]
fn optional_fields_of_the_wrong_type_are_absent() {
    let aircraft = parse_aircraft(&value(
        r#"{"hex": "abc", "flight": 12, "lat": "37.5", "lon": true, "track": null,
            "track_rate": [1.0]}"#,
    ));
    assert_eq!(aircraft.flight, None);
    assert_eq!(aircraft.lat, None);
    assert_eq!(aircraft.lon, None);
    assert_eq!(aircraft.track, None);
    assert_eq!(aircraft.track_rate, None);
}

#[test]
fn present_zero_and_empty_are_not_absent() {
    let aircraft = parse_aircraft(&value(
        r#"{"hex": "abc", "flight": "", "lat": 0.0, "lon": 0, "track": -0.0, "track_rate": 0e0}"#,
    ));
    assert_eq!(aircraft.flight, Some(String::new()));
    assert_eq!(aircraft.lat, Some(double(0.0)));
    assert_eq!(aircraft.lon, Some(double(0.0)));
    assert_eq!(aircraft.track, Some(double(-0.0)));
    assert_eq!(aircraft.track_rate, Some(double(0.0)));
}

#[test]
fn integers_read_as_doubles() {
    let aircraft = parse_aircraft(&value(r#"{"hex": "abc", "lat": 64, "lon": -64}"#));
    assert_eq!(aircraft.lat.map(number), Some(64.0));
    assert_eq!(aircraft.lon.map(number), Some(-64.0));
    let data = parse_flight_data(value(r#"{"now": 1700000000}"#));
    assert_eq!(number(data.now), 1700000000.0);
}

#[test]
fn unidentified_aircraft_still_parses_alone() {
    let aircraft = parse_aircraft(&value(r#"{"flight": "KLM1"}"#));
    assert_eq!(aircraft.hex, "");
    assert_eq!(aircraft.flight, Some("KLM1".to_string()));
}

#[test]
fn member_lookup_is_by_exact_key() {
    let aircraft = parse_aircraft(&value(r#"{"Hex": "upper", "hex ": "space", "lat": 3.5}"#));
    assert_eq!(aircraft.hex, "");
    assert_eq!(aircraft.lat.map(number), Some(3.5));
    assert_eq!(aircraft.lon, None);
}

#[test]
fn empty_document_gives_the_defaults() {
    let data = parse_flight_data(value("{}"));
    assert_eq!(data, FlightData { now: Double::zero(), messages: 0, aircraft: vec![] });
}

#[test]
fn document_that_is_no_object_gives_the_defaults() {
    for text in ["null", "true", "17", "\"now\"", "[1, 2]", "[{\"hex\": \"abc\"}]"] {
        let data = parse_flight_data(value(text));
        assert_eq!(data, FlightData { now: Double::zero(), messages: 0, aircraft: vec![] });
    }
}

#[test]
fn fields_of_the_wrong_type_give_the_defaults() {
    let data = parse_flight_data(value(
        r#"{"now": "1700000000", "messages": 12.5, "aircraft": {"hex": "abc"}}"#,
    ));
    assert_eq!(data, FlightData { now: Double::zero(), messages: 0, aircraft: vec![] });
}

#[test]
fn message_count_within_32_bits_is_kept() {
    let count = |text: &str| parse_flight_data(value(text)).messages;
    assert_eq!(count(r#"{"messages": 2147483647}"#), i32::MAX);
    assert_eq!(count(r#"{"messages": -2147483648}"#), i32::MIN);
    assert_eq!(count(r#"{"messages": -1}"#), -1);
    assert_eq!(count(r#"{"messages": 0}"#), 0);
    assert_eq!(count(r#"{"messages": 5}"#), 5);
}

#[test]
fn message_count_beyond_32_bits_is_zero() {
    let count = |text: &str| parse_flight_data(value(text)).messages;
    assert_eq!(count(r#"{"messages": 2147483648}"#), 0);
    assert_eq!(count(r#"{"messages": -2147483649}"#), 0);
    assert_eq!(count(r#"{"messages": 4294967297}"#), 0);
    assert_eq!(count(r#"{"messages": 4294967301}"#), 0);
    assert_eq!(count(r#"{"messages": 9223372036854775807}"#), 0);
    assert_eq!(count(r#"{"messages": -9223372036854775808}"#), 0);
}

#[test]
fn message_count_beyond_64_bits_is_zero() {
    let data = parse_flight_data(value(r#"{"messages": 9223372036854775808}"#));
    assert_eq!(data.messages, 0);
    let data = parse_flight_data(value(r#"{"messages": 1e3}"#));
    assert_eq!(data.messages, 0);
}

#[test]
fn receiver_counts_beyond_32_bits_are_zero() {
    let receiver = parse_receiver_data(value(
        r#"{"version": 2.1, "refresh": 4294967301, "history": -4294967301}"#,
    ));
    assert_eq!(receiver, Receiver { version: double(2.1), refresh: 0, history: 0 });
}

#[test]
fn parsing_twice_gives_the_same_snapshot() {
    let text = r#"{"now": 12.25, "messages": 3,
                   "aircraft": [{"hex": "a", "lat": 1.5}, {"hex": ""}, {"hex": "b"}]}"#;
    assert_eq!(parse_flight_data(value(text)), parse_flight_data(value(text)));
}

#[test]
fn receiver_metadata_is_parsed() {
    let receiver = parse_receiver_data(value(r#"{"version":2.1,"refresh":5,"history":120}"#));
    assert_eq!(receiver, Receiver { version: double(2.1), refresh: 5, history: 120 });
    assert_eq!(number(receiver.version), 2.1);
}

#[test]
fn receiver_metadata_defaults_to_zero() {
    let receiver = parse_receiver_data(value("{}"));
    assert_eq!(receiver, Receiver { version: Double::zero(), refresh: 0, history: 0 });
    let receiver = parse_receiver_data(value(
        r#"{"version": "2.1", "refresh": 1.5, "history": null}"#,
    ));
    assert_eq!(receiver, Receiver { version: Double::zero(), refresh: 0, history: 0 });
}

#[test]
fn receiver_fields_are_not_swapped() {
    let receiver = parse_receiver_data(value(r#"{"version": 1, "refresh": 2, "history": 3}"#));
    assert_eq!(number(receiver.version), 1.0);
    assert_eq!(receiver.refresh, 2);
    assert_eq!(receiver.history, 3);
}
