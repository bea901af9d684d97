//! Where the snapshots are found: the files of the snapshot directory by name.
//!
//! Reading them is left to the caller; this module says which files to read.

use vstd::prelude::*;
use vstd::string::StringExecFns;

verus! {

/// Whether `needle` stands in `haystack` at position `at`.
pub open spec fn occurs_at(needle: Seq<char>, haystack: Seq<char>, at: int) -> bool {
    &&& 0 <= at
    &&& at + needle.len() <= haystack.len()
    &&& haystack.subrange(at, at + needle.len()) == needle
}

/// Whether `needle` occurs in `haystack` as a run of consecutive characters.
pub open spec fn occurs_in(needle: Seq<char>, haystack: Seq<char>) -> bool {
    exists|at: int| occurs_at(needle, haystack, at)
}

/// Whether a file is a historical snapshot, going by its name: the name has
/// `history` in it. The name is the file's own, without the directory that
/// the file is in.
pub open spec fn is_historical(name: Seq<char>) -> bool {
    occurs_in("history"@, name)
}

/// `str::contains` with a string for its pattern. Trusted: it tells whether
/// the pattern occurs in the string as a substring.
#[verifier::external_body]
fn str_contains(haystack: &str, needle: &str) -> (r: bool)
    ensures
        r == occurs_in(needle@, haystack@),
{
    haystack.contains(needle)
}

/// Whether the file called `name` holds a historical snapshot.
pub fn is_historical_name(name: &str) -> (r: bool)
    ensures
        r == is_historical(name@),
{
    str_contains(name, "history")
}

/// The directory to read from: the configured one, or `./test-data` where
/// none is configured.
pub fn json_dir(configured: Option<String>) -> (dir: String)
    ensures
        dir@ == match configured {
            Some(d) => d@,
            None => "./test-data"@,
        },
{
    match configured {
        Some(d) => d,
        None => String::from_str("./test-data"),
    }
}

/// The file of the current snapshot in the directory `json_dir`.
pub fn aircraft_path(json_dir: String) -> (path: String)
    ensures
        path@ == json_dir@ + "/aircraft.json"@,
{
    json_dir.concat("/aircraft.json")
}

/// The file of the receiver metadata in the directory `json_dir`.
pub fn receiver_path(json_dir: String) -> (path: String)
    ensures
        path@ == json_dir@ + "/receiver.json"@,
{
    json_dir.concat("/receiver.json")
}

} // verus!
