//! From a decoded JSON document to a telemetry record.
//!
//! Parsing never fails. A field that is missing or of the wrong type becomes
//! its default: zero for a number that every record has, the empty list for
//! the aircraft, and "absent" for an optional field of an aircraft. An
//! aircraft without an identifier is left out of the snapshot.

use crate::double::Double;
use crate::flight::{aircraft_views, Aircraft, AircraftView, FlightData, FlightDataView, Receiver};
use crate::json::{as_double, as_integer, as_items, as_text, document, documents, member, Json};
use vstd::prelude::*;

verus! {

/// The double that a field holds, and zero where it holds none.
pub open spec fn double_or_zero(field: Json) -> Double {
    match field.as_double() {
        Some(d) => d,
        None => Double::spec_zero(),
    }
}

/// The count that a field holds, and zero where it holds none: a field counts
/// only if it is an integer of the signed 32-bit range.
pub open spec fn count_or_zero(field: Json) -> i32 {
    match field.as_integer() {
        Some(n) => if i32::MIN <= n <= i32::MAX {
            n as i32
        } else {
            0i32
        },
        None => 0i32,
    }
}

/// The characters that a field holds, and none where it is no string.
pub open spec fn text_or_empty(field: Json) -> Seq<char> {
    match field.as_text() {
        Some(s) => s,
        None => Seq::empty(),
    }
}

/// The aircraft that one element of the aircraft array describes.
pub open spec fn aircraft_of(element: Json) -> AircraftView {
    AircraftView {
        hex: text_or_empty(element.member("hex"@)),
        flight: element.member("flight"@).as_text(),
        lat: element.member("lat"@).as_double(),
        lon: element.member("lon"@).as_double(),
        track: element.member("track"@).as_double(),
        track_rate: element.member("track_rate"@).as_double(),
    }
}

/// Whether an element of the aircraft array names its aircraft: its `hex`
/// member is a string, and not the empty one.
pub open spec fn is_identified(element: Json) -> bool {
    text_or_empty(element.member("hex"@)).len() > 0
}

/// The aircraft of a snapshot, given the elements of its aircraft array: the
/// identified elements, in their order, each as the aircraft it describes.
pub open spec fn aircraft_list(elements: Seq<Json>) -> Seq<AircraftView> {
    elements.filter(|e: Json| is_identified(e)).map_values(|e: Json| aircraft_of(e))
}

/// The snapshot that a document describes.
pub open spec fn snapshot_of(doc: Json) -> FlightDataView {
    FlightDataView {
        now: double_or_zero(doc.member("now"@)),
        messages: count_or_zero(doc.member("messages"@)),
        aircraft: match doc.member("aircraft"@).as_items() {
            Some(elements) => aircraft_list(elements),
            None => Seq::empty(),
        },
    }
}

/// The receiver metadata that a document describes.
pub open spec fn receiver_of(doc: Json) -> Receiver {
    Receiver {
        version: double_or_zero(doc.member("version"@)),
        refresh: count_or_zero(doc.member("refresh"@)),
        history: count_or_zero(doc.member("history"@)),
    }
}

/// No elements, no aircraft.
pub proof fn lemma_aircraft_list_empty()
    ensures
        aircraft_list(Seq::<Json>::empty()) == Seq::<AircraftView>::empty(),
{
    let pred = |e: Json| is_identified(e);
    reveal(Seq::filter);
    assert(Seq::<Json>::empty().filter(pred) =~= Seq::<Json>::empty());
    assert(aircraft_list(Seq::<Json>::empty()) =~= Seq::<AircraftView>::empty());
}

/// Taking one more element into account either appends its aircraft or, where
/// the element is not identified, changes nothing.
pub proof fn lemma_aircraft_list_push(elements: Seq<Json>, element: Json)
    ensures
        aircraft_list(elements.push(element)) == if is_identified(element) {
            aircraft_list(elements).push(aircraft_of(element))
        } else {
            aircraft_list(elements)
        },
{
    let pred = |e: Json| is_identified(e);
    elements.lemma_filter_push(element, pred);
}

/// The order of the elements is the order of the aircraft: the aircraft of a
/// list of elements are those of its front part, followed by those of the rest.
pub proof fn lemma_aircraft_list_concat(front: Seq<Json>, back: Seq<Json>)
    ensures
        aircraft_list(front + back) == aircraft_list(front) + aircraft_list(back),
{
    let pred = |e: Json| is_identified(e);
    Seq::filter_distributes_over_add(front, back, pred);
    assert(aircraft_list(front + back) =~= aircraft_list(front) + aircraft_list(back));
}

/// An element is identified exactly if its `hex` member is a string that is
/// not empty: a missing `hex`, one of another type and an empty one all leave
/// the element unidentified.
pub proof fn lemma_identified_by_hex(element: Json)
    ensures
        is_identified(element) <==> (element.member("hex"@) matches Json::Text(s) && s.len() > 0),
{
}

/// An element without an identifier is left out, wherever it stands: the
/// aircraft are those of the elements around it.
pub proof fn lemma_unidentified_excluded(before: Seq<Json>, element: Json, after: Seq<Json>)
    requires
        !is_identified(element),
    ensures
        aircraft_list(before.push(element) + after) == aircraft_list(before + after),
{
    lemma_aircraft_list_concat(before.push(element), after);
    lemma_aircraft_list_push(before, element);
    lemma_aircraft_list_concat(before, after);
}

/// An identified element is kept, as the aircraft it describes and in its
/// place: behind the aircraft of the elements before it, ahead of those after.
pub proof fn lemma_identified_kept(before: Seq<Json>, element: Json, after: Seq<Json>)
    requires
        is_identified(element),
    ensures
        aircraft_list(before.push(element) + after) == aircraft_list(before).push(
            aircraft_of(element),
        ) + aircraft_list(after),
{
    lemma_aircraft_list_concat(before.push(element), after);
    lemma_aircraft_list_push(before, element);
}

/// Every aircraft of a snapshot has an identifier, whatever the document.
pub proof fn lemma_snapshot_wf(doc: Json)
    ensures
        snapshot_of(doc).wf(),
{
    let snapshot = snapshot_of(doc);
    match doc.member("aircraft"@).as_items() {
        Some(elements) => {
            let pred = |e: Json| is_identified(e);
            assert forall|i: int| 0 <= i < snapshot.aircraft.len() implies (
            #[trigger] snapshot.aircraft[i]).hex.len() > 0 by {
                elements.lemma_filter_pred(pred, i);
            }
        },
        None => {},
    }
}

/// A member that is not there reads as `Null`, and so does any member of a
/// document that is no object.
pub proof fn lemma_absent_member_is_null(doc: Json, key: Seq<char>)
    requires
        doc matches Json::Object(members) ==> !members.contains_key(key),
    ensures
        doc.member(key) == Json::Null,
{
}

/// An optional field of an aircraft is present exactly if the element has a
/// member of that name and of the right type: a string for the callsign, a
/// number for the others. A missing member and one of another type both give
/// an absent field, never a zero or an empty string; a member of the right
/// type gives its value.
pub proof fn lemma_optional_fields(element: Json)
    ensures
        aircraft_of(element).flight == match element.member("flight"@) {
            Json::Text(s) => Some(s),
            _ => None,
        },
        aircraft_of(element).lat == match element.member("lat"@) {
            Json::Number(n) => Some(n.double),
            _ => None,
        },
        aircraft_of(element).lon == match element.member("lon"@) {
            Json::Number(n) => Some(n.double),
            _ => None,
        },
        aircraft_of(element).track == match element.member("track"@) {
            Json::Number(n) => Some(n.double),
            _ => None,
        },
        aircraft_of(element).track_rate == match element.member("track_rate"@) {
            Json::Number(n) => Some(n.double),
            _ => None,
        },
{
}

/// A document without any of the expected members gives the defaults: time
/// zero, no messages, no aircraft.
pub proof fn lemma_snapshot_defaults(doc: Json)
    requires
        doc.member("now"@) !is Number,
        doc.member("messages"@) !is Number,
        doc.member("aircraft"@) !is Array,
    ensures
        snapshot_of(doc) == (FlightDataView {
            now: Double::spec_zero(),
            messages: 0,
            aircraft: Seq::empty(),
        }),
{
}

/// A count is the document's integer or zero, never anything else: an
/// integer of the signed 32-bit range is kept as it is, and every other field
/// counts as zero.
pub proof fn lemma_count_is_integer_or_zero(field: Json)
    ensures
        count_or_zero(field) == match field.as_integer() {
            Some(n) => if i32::MIN <= n <= i32::MAX {
                n as int
            } else {
                0
            },
            None => 0,
        },
        count_or_zero(field) == 0 || field.as_integer() == Some(count_or_zero(field) as i64),
{
}

fn double_field(value: &serde_json::Value, key: &str) -> (r: Double)
    ensures
        r == double_or_zero(document(*value).member(key@)),
{
    match as_double(member(value, key)) {
        Some(d) => d,
        None => Double::zero(),
    }
}

fn count_field(value: &serde_json::Value, key: &str) -> (r: i32)
    ensures
        r == count_or_zero(document(*value).member(key@)),
{
    match as_integer(member(value, key)) {
        Some(n) => if -0x8000_0000 <= n && n <= 0x7fff_ffff {
            n as i32
        } else {
            0
        },
        None => 0,
    }
}

fn optional_text_field(value: &serde_json::Value, key: &str) -> (r: Option<String>)
    ensures
        match r {
            Some(s) => document(*value).member(key@).as_text() == Some(s@),
            None => document(*value).member(key@).as_text() is None,
        },
{
    match as_text(member(value, key)) {
        Some(s) => Some(s.to_owned()),
        None => None,
    }
}

/// The aircraft that one element of the aircraft array describes, whether or
/// not it is identified.
pub fn parse_aircraft(element: &serde_json::Value) -> (r: Aircraft)
    ensures
        r@ == aircraft_of(document(*element)),
{
    let hex = match optional_text_field(element, "hex") {
        Some(s) => s,
        None => String::new(),
    };
    Aircraft {
        hex,
        flight: optional_text_field(element, "flight"),
        lat: as_double(member(element, "lat")),
        lon: as_double(member(element, "lon")),
        track: as_double(member(element, "track")),
        track_rate: as_double(member(element, "track_rate")),
    }
}

/// The snapshot that a decoded document describes.
pub fn parse_flight_data(data: serde_json::Value) -> (r: FlightData)
    ensures
        r@ == snapshot_of(document(data)),
        r.wf(),
{
    let now = double_field(&data, "now");
    let messages = count_field(&data, "messages");

    let mut aircraft_vec: Vec<Aircraft> = Vec::new();
    assert(aircraft_views(aircraft_vec@) =~= Seq::<AircraftView>::empty());
    if let Some(aircrafts) = as_items(member(&data, "aircraft")) {
        let ghost elements = documents(aircrafts@);
        let mut i: usize = 0;
        proof {
            assert(elements.take(0) =~= Seq::<Json>::empty());
            lemma_aircraft_list_empty();
        }
        while i < aircrafts.len()
            invariant
                i <= aircrafts.len(),
                elements == documents(aircrafts@),
                aircraft_views(aircraft_vec@) == aircraft_list(elements.take(i as int)),
            decreases aircrafts.len() - i,
        {
            let aircraft = parse_aircraft(&aircrafts[i]);
            proof {
                assert(elements.take(i + 1) =~= elements.take(i as int).push(elements[i as int]));
                lemma_aircraft_list_push(elements.take(i as int), elements[i as int]);
            }
            // Only include if hex exists
            if !aircraft.hex.as_str().is_empty() {
                let ghost before = aircraft_vec@;
                aircraft_vec.push(aircraft);
                assert(aircraft_views(aircraft_vec@) =~= aircraft_views(before).push(aircraft@));
            }
            i += 1;
        }
        assert(elements.take(i as int) =~= elements);
    }
    proof {
        lemma_snapshot_wf(document(data));
    }
    FlightData { now, messages, aircraft: aircraft_vec }
}

/// The receiver metadata that a decoded document describes.
pub fn parse_receiver_data(data: serde_json::Value) -> (r: Receiver)
    ensures
        r == receiver_of(document(data)),
{
    let version = double_field(&data, "version");
    let refresh = count_field(&data, "refresh");
    let history = count_field(&data, "history");
    Receiver { version, history, refresh }
}

} // verus!
