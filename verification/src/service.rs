//! The flight service: three read-only operations over the files that the
//! receiver writes.
//!
//! The service reads no file itself. The caller reads what an operation asks
//! for and hands the outcome over; the operation decides what is answered.
//! No operation keeps anything from one call to the next.

use crate::error::{Code, ReadFailure, ServiceError, Status};
use crate::flight::{Empty, FlightData, FlightDataView, HistoricalData, Receiver};
use crate::json::{decoded, document, error_message, from_str};
use crate::parser::{parse_flight_data, parse_receiver_data, receiver_of, snapshot_of};
use crate::source::{is_historical, is_historical_name};
use vstd::prelude::*;

verus! {

/// The document in a file's content, or the error that the content is not
/// valid JSON.
pub fn decode_document(text: &str) -> (r: Result<serde_json::Value, ServiceError>)
    ensures
        match decoded(text@) {
            Some(doc) => r matches Ok(value) && document(value) == doc,
            None => r matches Err(ServiceError::Decode { .. }),
        },
{
    match from_str(text) {
        Ok(value) => Ok(value),
        Err(e) => Err(ServiceError::Decode { detail: error_message(&e) }),
    }
}

/// The document in a file that the caller has tried to read: a failed read is
/// reported as such, and the content of a file that was read is decoded.
pub fn read_document(file: Result<String, ReadFailure>) -> (r: Result<
    serde_json::Value,
    ServiceError,
>)
    ensures
        match file {
            Err(failure) => r == Err::<serde_json::Value, ServiceError>(
                ServiceError::from_read(failure),
            ),
            Ok(text) => match decoded(text@) {
                Some(doc) => r matches Ok(value) && document(value) == doc,
                None => r matches Err(ServiceError::Decode { .. }),
            },
        },
{
    match file {
        Err(failure) => Err(ServiceError::from_read(failure)),
        Ok(text) => decode_document(text.as_str()),
    }
}

/// Whether `reply` is the answer to a request for the current snapshot, given
/// how reading the snapshot file went.
pub open spec fn is_flight_data_reply(
    file: Result<String, ReadFailure>,
    reply: Result<FlightData, ServiceError>,
) -> bool {
    match file {
        Err(failure) => reply == Err::<FlightData, ServiceError>(ServiceError::from_read(failure)),
        Ok(text) => match decoded(text@) {
            Some(doc) => reply matches Ok(data) && data@ == snapshot_of(doc),
            None => reply matches Err(ServiceError::Decode { .. }),
        },
    }
}

/// Whether `reply` is the answer to a request for the receiver metadata, given
/// how reading the metadata file went.
pub open spec fn is_receiver_reply(
    file: Result<String, ReadFailure>,
    reply: Result<Receiver, ServiceError>,
) -> bool {
    match file {
        Err(failure) => reply == Err::<Receiver, ServiceError>(ServiceError::from_read(failure)),
        Ok(text) => match decoded(text@) {
            Some(doc) => reply == Ok::<Receiver, ServiceError>(receiver_of(doc)),
            None => reply matches Err(ServiceError::Decode { .. }),
        },
    }
}

/// The same file always gives the same answer. Of two replies to a request
/// for the current snapshot over one outcome of the read, either both are
/// snapshots, and the same one, or both are failures: the same failure where
/// the file could not be read, and a decoding failure each where its content
/// is not valid JSON.
pub proof fn lemma_flight_data_reply_determined(
    file: Result<String, ReadFailure>,
    first: Result<FlightData, ServiceError>,
    second: Result<FlightData, ServiceError>,
)
    requires
        is_flight_data_reply(file, first),
        is_flight_data_reply(file, second),
    ensures
        first is Ok <==> second is Ok,
        first is Ok ==> first->Ok_0@ == second->Ok_0@,
        file is Err ==> first == second,
        first matches Err(ServiceError::Decode { .. }) <==> second matches Err(
            ServiceError::Decode { .. },
        ),
{
}

/// A snapshot file that is absent fails the request as not found, and a file
/// that could not be read never fails it as undecodable: the caller is told
/// that the service is unavailable, not that it met an internal error.
pub proof fn lemma_unread_file_is_no_decode_error(
    failure: ReadFailure,
    reply: Result<FlightData, ServiceError>,
)
    requires
        is_flight_data_reply(Err(failure), reply),
    ensures
        reply is Err,
        !(reply matches Err(ServiceError::Decode { .. })),
        failure.not_found <==> reply matches Err(ServiceError::NotFound { .. }),
        reply matches Err(e) && e.code() == Code::Unavailable,
{
}

/// The code alone tells a file that could not be read from content that could
/// not be decoded: the two failures never reach the caller under one code.
pub proof fn lemma_codes_tell_failures_apart(
    failure: ReadFailure,
    unread: Result<FlightData, ServiceError>,
    text: String,
    undecoded: Result<FlightData, ServiceError>,
)
    requires
        is_flight_data_reply(Err(failure), unread),
        decoded(text@) is None,
        is_flight_data_reply(Ok(text), undecoded),
    ensures
        unread matches Err(e1) && undecoded matches Err(e2) && e1.code() != e2.code(),
        undecoded matches Err(e2) && e2.code() == Code::Internal,
{
}

/// A request for the historical snapshots, under way: the snapshots gathered
/// so far, in the order in which their files were listed.
#[derive(Clone, Debug, PartialEq)]
pub struct HistoryScan {
    pub history: HistoricalData,
}

impl View for HistoryScan {
    type V = Seq<FlightDataView>;

    open spec fn view(&self) -> Seq<FlightDataView> {
        self.history@
    }
}

impl HistoryScan {
    /// Every snapshot gathered so far is well formed.
    pub open spec fn wf(&self) -> bool {
        self.history.wf()
    }

    /// The request before anything was listed. The caller starts to list the
    /// snapshot directory and reports what it finds, event by event.
    pub fn new() -> (scan: HistoryScan)
        ensures
            scan@ == Seq::<FlightDataView>::empty(),
            scan.wf(),
    {
        HistoryScan { history: HistoricalData::new() }
    }
}

/// An entry of the snapshot directory, as the listing gives it.
#[derive(Clone, Debug, PartialEq)]
pub struct ListedFile {
    /// The file's own name, without the directory.
    pub name: String,
    /// The path under which the file is read.
    pub path: String,
}

/// What the caller reports while it lists the snapshot directory.
#[derive(Debug, PartialEq)]
pub enum ScanEvent {
    /// The listing gave one more entry. `file` is the entry where its name and
    /// path are text, and nothing where they are not.
    Entry { file: Option<ListedFile> },
    /// The listing has come to its end.
    End,
    /// The directory could not be listed, or not any further.
    ListingFailed { status: Status },
    /// The file that the service asked for was read, or could not be.
    FileRead { content: Result<String, ReadFailure> },
}

/// What the service decides on an event: how the request goes on, or how it ends.
#[derive(Debug, PartialEq)]
pub enum ScanStep {
    /// Take the next entry of the listing.
    Advance { scan: HistoryScan },
    /// Read the file at `path` and report its content.
    Read { scan: HistoryScan, path: String },
    /// The request is over, with this answer.
    Reply { result: Result<HistoricalData, ServiceError> },
}

/// Whether `step` is what a request for the historical snapshots does on
/// `event`, when `scan` is how far it has come.
///
/// An entry is read if its name is text with `history` in it, and passed over
/// otherwise; the directory that the entry is in plays no part. A file that was read adds its snapshot behind those gathered
/// before. The end of the listing answers with all that was gathered. Any
/// failure ends the request with that failure, and with no snapshot at all.
pub open spec fn is_scan_step(scan: HistoryScan, event: ScanEvent, step: ScanStep) -> bool {
    match event {
        ScanEvent::Entry { file: Some(f) } => if is_historical(f.name@) {
            step == (ScanStep::Read { scan, path: f.path })
        } else {
            step == (ScanStep::Advance { scan })
        },
        ScanEvent::Entry { file: None } => step == (ScanStep::Advance { scan }),
        ScanEvent::End => step == (ScanStep::Reply { result: Ok(scan.history) }),
        ScanEvent::ListingFailed { status } => step == (ScanStep::Reply {
            result: Err(ServiceError::Directory { status }),
        }),
        ScanEvent::FileRead { content: Err(failure) } => step == (ScanStep::Reply {
            result: Err(ServiceError::from_read(failure)),
        }),
        ScanEvent::FileRead { content: Ok(text) } => match decoded(text@) {
            Some(doc) => step matches ScanStep::Advance { scan: next } && next@ == scan@.push(
                snapshot_of(doc),
            ),
            None => step matches ScanStep::Reply { result: Err(ServiceError::Decode { .. }) },
        },
    }
}

/// A file of the snapshot directory as a whole listing knows it: its name, and
/// the content that reading it gives.
pub struct ListedContent {
    pub name: Seq<char>,
    pub content: Seq<char>,
}

/// The historical files of a listing: those with `history` in their name, in
/// the order of the listing.
pub open spec fn historical_files(listing: Seq<ListedContent>) -> Seq<ListedContent> {
    listing.filter(|f: ListedContent| is_historical(f.name))
}

/// The collection that a listing amounts to when all its historical files
/// hold valid JSON: one snapshot for each of them, in the order of the
/// listing, and none for any other file.
pub open spec fn history_of(listing: Seq<ListedContent>) -> Seq<FlightDataView> {
    historical_files(listing).map_values(|f: ListedContent| snapshot_of(decoded(f.content)->0))
}

/// Before anything is listed, nothing is gathered.
pub proof fn lemma_history_of_nothing()
    ensures
        history_of(Seq::<ListedContent>::empty()) == Seq::<FlightDataView>::empty(),
{
    let pred = |f: ListedContent| is_historical(f.name);
    reveal(Seq::filter);
    assert(Seq::<ListedContent>::empty().filter(pred) =~= Seq::<ListedContent>::empty());
    assert(history_of(Seq::<ListedContent>::empty()) =~= Seq::<FlightDataView>::empty());
}

/// One more file in a listing adds its snapshot behind the others if its name
/// has `history` in it, and changes nothing if not.
pub proof fn lemma_history_of_push(listing: Seq<ListedContent>, file: ListedContent)
    ensures
        history_of(listing.push(file)) == if is_historical(file.name) {
            history_of(listing).push(snapshot_of(decoded(file.content)->0))
        } else {
            history_of(listing)
        },
        historical_files(listing.push(file)).len() == historical_files(listing).len() + if is_historical(
            file.name,
        ) {
            1int
        } else {
            0int
        },
{
    let pred = |f: ListedContent| is_historical(f.name);
    listing.lemma_filter_push(file, pred);
    if is_historical(file.name) {
        assert(history_of(listing.push(file)) =~= history_of(listing).push(
            snapshot_of(decoded(file.content)->0),
        ));
    }
}

/// A request that has gathered the collection of a listing so far deals with
/// the next entry by its name alone. An entry without `history` in its name is
/// passed over, and the collection is that of the longer listing, whatever
/// the file holds. An entry with `history` in its name is read, under its path.
pub proof fn lemma_scan_of_entry(
    listing: Seq<ListedContent>,
    scan: HistoryScan,
    file: ListedFile,
    content: Seq<char>,
    step: ScanStep,
)
    requires
        scan@ == history_of(listing),
        is_scan_step(scan, ScanEvent::Entry { file: Some(file) }, step),
    ensures
        !is_historical(file.name@) ==> (step == (ScanStep::Advance { scan }) && scan@
            == history_of(listing.push(ListedContent { name: file.name@, content }))),
        is_historical(file.name@) ==> step == (ScanStep::Read { scan, path: file.path }),
{
    lemma_history_of_push(listing, ListedContent { name: file.name@, content });
}

/// A request that has gathered the collection of a listing so far, and is
/// handed the content of the next historical file, goes on with the collection
/// of the longer listing if the content is valid JSON, and ends in a decoding
/// failure, with no collection at all, if it is not.
pub proof fn lemma_scan_of_content(
    listing: Seq<ListedContent>,
    scan: HistoryScan,
    name: Seq<char>,
    text: String,
    step: ScanStep,
)
    requires
        scan@ == history_of(listing),
        is_historical(name),
        is_scan_step(scan, ScanEvent::FileRead { content: Ok(text) }, step),
    ensures
        decoded(text@) is Some ==> (step matches ScanStep::Advance { scan: next } && next@
            == history_of(listing.push(ListedContent { name, content: text@ }))),
        decoded(text@) is None ==> (step matches ScanStep::Reply {
            result: Err(ServiceError::Decode { .. }),
        }),
{
    lemma_history_of_push(listing, ListedContent { name, content: text@ });
}

/// At the end of a listing, a request that has gathered its collection answers
/// with exactly that: one snapshot for each file with `history` in its name,
/// in the order of the listing.
pub proof fn lemma_scan_of_end(listing: Seq<ListedContent>, scan: HistoryScan, step: ScanStep)
    requires
        scan@ == history_of(listing),
        is_scan_step(scan, ScanEvent::End, step),
    ensures
        step matches ScanStep::Reply { result: Ok(history) } && history@ == history_of(listing)
            && history@.len() == historical_files(listing).len(),
{
}

/// What a request does next depends on how far it has come and on the event,
/// and on nothing else: of two steps on the same event from the same state,
/// both go on, with the same snapshots gathered, or both read the same file,
/// or both end, with the same collection or with a failure each.
pub proof fn lemma_scan_step_determined(
    scan: HistoryScan,
    event: ScanEvent,
    first: ScanStep,
    second: ScanStep,
)
    requires
        is_scan_step(scan, event, first),
        is_scan_step(scan, event, second),
    ensures
        first matches ScanStep::Advance { scan: a } ==> (second matches ScanStep::Advance {
            scan: b,
        } && a@ == b@),
        first is Read ==> first == second,
        first matches ScanStep::Reply { result: Ok(_) } ==> first == second,
        first matches ScanStep::Reply { result: Err(_) } ==> (second matches ScanStep::Reply {
            result: Err(_),
        }),
        !(event is FileRead) ==> first == second,
{
}

/// The flight service. It has no state: each call is answered from what the
/// caller read for that call alone.
#[derive(Clone, Copy, Debug, PartialEq, Eq, Structural)]
pub struct MyFlightService;

impl MyFlightService {
    /// The current snapshot, given how reading the snapshot file went.
    ///
    /// A file that could not be read fails the call as not found or as
    /// unreadable, never as undecodable. Content that is not valid JSON fails
    /// it as undecodable. Any valid JSON gives a snapshot.
    pub fn get_flight_data(&self, _request: Empty, file: Result<String, ReadFailure>) -> (reply:
        Result<FlightData, ServiceError>)
        ensures
            is_flight_data_reply(file, reply),
            reply matches Ok(data) ==> data.wf(),
    {
        match read_document(file) {
            Ok(data) => Ok(parse_flight_data(data)),
            Err(e) => Err(e),
        }
    }

    /// The receiver metadata, given how reading the metadata file went.
    pub fn get_receiver_data(&self, _request: Empty, file: Result<String, ReadFailure>) -> (reply:
        Result<Receiver, ServiceError>)
        ensures
            is_receiver_reply(file, reply),
    {
        match read_document(file) {
            Ok(data) => Ok(parse_receiver_data(data)),
            Err(e) => Err(e),
        }
    }

    /// One step of a request for the historical snapshots: what to do on
    /// `event`, when `scan` is how far the request has come.
    ///
    /// The caller starts from `HistoryScan::new()`, lists the snapshot
    /// directory, and hands each outcome over as an event until the step is a
    /// reply.
    pub fn get_historical_data(&self, scan: HistoryScan, event: ScanEvent) -> (step: ScanStep)
        ensures
            is_scan_step(scan, event, step),
            scan.wf() ==> match step {
                ScanStep::Advance { scan: next } => next.wf(),
                ScanStep::Read { scan: next, .. } => next.wf(),
                ScanStep::Reply { result: Ok(history) } => history.wf(),
                ScanStep::Reply { result: Err(_) } => true,
            },
    {
        match event {
            ScanEvent::Entry { file: Some(f) } => {
                if is_historical_name(f.name.as_str()) {
                    ScanStep::Read { scan, path: f.path }
                } else {
                    ScanStep::Advance { scan }
                }
            },
            ScanEvent::Entry { file: None } => ScanStep::Advance { scan },
            ScanEvent::End => ScanStep::Reply { result: Ok(scan.history) },
            ScanEvent::ListingFailed { status } => ScanStep::Reply {
                result: Err(ServiceError::Directory { status }),
            },
            ScanEvent::FileRead { content } => {
                match read_document(content) {
                    Ok(data) => {
                        let flight_data = parse_flight_data(data);
                        let mut history = scan.history;
                        history.flight_data.push(flight_data);
                        proof {
                            assert(history@ =~= scan@.push(flight_data@));
                        }
                        ScanStep::Advance { scan: HistoryScan { history } }
                    },
                    Err(e) => ScanStep::Reply { result: Err(e) },
                }
            },
        }
    }
}

} // verus!
