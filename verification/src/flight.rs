//! The telemetry records that the service hands out.

use crate::double::Double;
use vstd::prelude::*;

verus! {

/// The empty request that every operation of the service takes.
#[derive(Clone, Copy, Debug, PartialEq, Eq, Structural)]
pub struct Empty {}

/// One tracked aircraft within a snapshot.
///
/// An optional field that is `None` is absent, which is not the same as zero
/// or the empty string.
#[derive(Clone, Debug, PartialEq)]
pub struct Aircraft {
    /// The aircraft's hex identifier; never empty in a parsed snapshot.
    pub hex: String,
    /// The flight's callsign.
    pub flight: Option<String>,
    /// Latitude in degrees.
    pub lat: Option<Double>,
    /// Longitude in degrees.
    pub lon: Option<Double>,
    /// Track heading.
    pub track: Option<Double>,
    /// Rate of change of the track.
    pub track_rate: Option<Double>,
}

/// What an [`Aircraft`] is, with its strings as sequences of characters.
pub struct AircraftView {
    pub hex: Seq<char>,
    pub flight: Option<Seq<char>>,
    pub lat: Option<Double>,
    pub lon: Option<Double>,
    pub track: Option<Double>,
    pub track_rate: Option<Double>,
}

impl View for Aircraft {
    type V = AircraftView;

    open spec fn view(&self) -> AircraftView {
        AircraftView {
            hex: self.hex@,
            flight: match self.flight {
                Some(s) => Some(s@),
                None => None,
            },
            lat: self.lat,
            lon: self.lon,
            track: self.track,
            track_rate: self.track_rate,
        }
    }
}

/// What a list of aircraft is, one by one.
pub open spec fn aircraft_views(list: Seq<Aircraft>) -> Seq<AircraftView> {
    list.map_values(|a: Aircraft| a@)
}

/// One point-in-time capture of the tracked aircraft.
#[derive(Clone, Debug, PartialEq)]
pub struct FlightData {
    /// When the capture was made, in seconds since the epoch.
    pub now: Double,
    /// How many messages the receiver had seen by then.
    pub messages: i32,
    /// The aircraft, in the order of the document they came from.
    pub aircraft: Vec<Aircraft>,
}

/// What a [`FlightData`] is.
pub struct FlightDataView {
    pub now: Double,
    pub messages: i32,
    pub aircraft: Seq<AircraftView>,
}

impl FlightDataView {
    /// Every aircraft has an identifier.
    pub open spec fn wf(self) -> bool {
        forall|i: int| 0 <= i < self.aircraft.len() ==> (#[trigger] self.aircraft[i]).hex.len() > 0
    }
}

impl View for FlightData {
    type V = FlightDataView;

    open spec fn view(&self) -> FlightDataView {
        FlightDataView {
            now: self.now,
            messages: self.messages,
            aircraft: aircraft_views(self.aircraft@),
        }
    }
}

impl FlightData {
    /// Every aircraft of the snapshot has an identifier.
    pub open spec fn wf(&self) -> bool {
        self@.wf()
    }
}

/// What a list of snapshots is, one by one.
pub open spec fn snapshot_views(list: Seq<FlightData>) -> Seq<FlightDataView> {
    list.map_values(|d: FlightData| d@)
}

/// The snapshots of the historical files, one per file, in the order in which
/// the directory listed them. It may be empty.
#[derive(Clone, Debug, PartialEq)]
pub struct HistoricalData {
    pub flight_data: Vec<FlightData>,
}

impl View for HistoricalData {
    type V = Seq<FlightDataView>;

    open spec fn view(&self) -> Seq<FlightDataView> {
        snapshot_views(self.flight_data@)
    }
}

impl HistoricalData {
    /// Every snapshot of the collection is well formed.
    pub open spec fn wf(&self) -> bool {
        forall|i: int| 0 <= i < self@.len() ==> (#[trigger] self@[i]).wf()
    }

    /// The collection with no snapshot in it.
    pub fn new() -> (h: HistoricalData)
        ensures
            h@ == Seq::<FlightDataView>::empty(),
            h.wf(),
    {
        HistoricalData { flight_data: Vec::new() }
    }
}

/// What is known of the receiver itself.
#[derive(Clone, Copy, Debug, PartialEq, Eq, Structural)]
pub struct Receiver {
    /// The version of the receiver's protocol.
    pub version: Double,
    /// The interval between two snapshots.
    pub refresh: i32,
    /// How many historical snapshots the receiver keeps.
    pub history: i32,
}

} // verus!
