//! The on-demand peer queries: listing active connections and connecting to
//! a peer, decided from the captured output of one daemon invocation.

use vstd::prelude::*;
use crate::json::{json_array_len, json_is_null, json_parses, read_json};
use crate::text::{trim, trimmed};

verus! {

/// What a trimmed listing of connections parsed as.
#[derive(Clone, Copy, Debug, PartialEq, Eq, Structural)]
pub enum ListingShape {
    /// Not a JSON document.
    Unparsed,
    /// JSON `null`.
    Null,
    /// A JSON array with this many elements.
    Array { len: usize },
    /// Any other JSON value.
    Other,
}

pub open spec fn unparsed_listing_prefix() -> Seq<char> {
    "Failed to parse peer connections output: "@
}

/// The answer to "are there active peer connections" for a trimmed listing
/// of the given shape: a non-empty array means yes, an empty array, `null`
/// or blank output means no, and a non-blank text that is no JSON is an
/// error that quotes it.
pub open spec fn connections_answer(t: Seq<char>, shape: ListingShape) -> Result<bool, Seq<char>> {
    match shape {
        ListingShape::Array { len } => Ok(len > 0),
        ListingShape::Null => Ok(false),
        ListingShape::Other => Ok(true),
        ListingShape::Unparsed => if t.len() == 0 {
            Ok(false)
        } else {
            Err(unparsed_listing_prefix() + t)
        },
    }
}

pub open spec fn result_view(r: Result<bool, String>) -> Result<bool, Seq<char>> {
    match r {
        Ok(b) => Ok(b),
        Err(e) => Err(e@),
    }
}

/// Decides on a trimmed listing, given what it parsed as.
pub fn connections_from_listing(t: &str, shape: ListingShape) -> (r: Result<bool, String>)
    ensures
        result_view(r) == connections_answer(t@, shape),
{
    match shape {
        ListingShape::Array { len } => Ok(len > 0),
        ListingShape::Null => Ok(false),
        ListingShape::Other => Ok(true),
        ListingShape::Unparsed => {
            if t.is_empty() {
                Ok(false)
            } else {
                let mut msg = String::from_str("Failed to parse peer connections output: ");
                msg.append(t);
                Err(msg)
            }
        },
    }
}

/// Reads the collected output of the "list replicators" invocation: whether
/// any peer connection is active.
pub fn check_peer_connections(output: &str) -> (r: Result<bool, String>)
    ensures
        ({
            let t = trimmed(output@);
            &&& t.len() == 0 ==> r == Ok::<bool, String>(false)
            &&& t.len() > 0 && !json_parses(t) ==> result_view(r) == connections_answer(
                t,
                ListingShape::Unparsed,
            )
            &&& t.len() > 0 && json_parses(t) && json_is_null(t) ==> r == Ok::<bool, String>(false)
            &&& t.len() > 0 && json_parses(t) && !json_is_null(t) && json_array_len(t) is Some
                ==> r == Ok::<bool, String>(json_array_len(t)->0 > 0)
            &&& t.len() > 0 && json_parses(t) && !json_is_null(t) && json_array_len(t) is None
                ==> r == Ok::<bool, String>(true)
        }),
{
    let t = trim(output);
    if t.is_empty() {
        return Ok(false);
    }
    let shape = match read_json(t) {
        None => ListingShape::Unparsed,
        Some(f) => {
            if f.is_null {
                ListingShape::Null
            } else {
                match f.array_len {
                    Some(n) => ListingShape::Array { len: n },
                    None => ListingShape::Other,
                }
            }
        },
    };
    connections_from_listing(t, shape)
}

pub open spec fn connected_prefix() -> Seq<char> {
    "Successfully connected to peer: "@
}

pub open spec fn output_failure(stdout: Seq<char>, stderr: Seq<char>) -> Seq<char> {
    "Failed to connect to peer. Error: stdout='"@ + stdout + "', stderr='"@ + stderr + "'"@
}

pub open spec fn status_failure(status: Seq<char>) -> Seq<char> {
    "Failed to connect to peer. Exit status: "@ + status
}

pub open spec fn string_result_view(r: Result<String, String>) -> Result<Seq<char>, Seq<char>> {
    match r {
        Ok(s) => Ok(s@),
        Err(e) => Err(e@),
    }
}

/// The outcome of "connect to peer", from the invocation's captured
/// standard output and standard error, whether it exited successfully, and
/// how its exit status reads: success only with a successful exit and no
/// output on either stream, whitespace aside; any output is reported with
/// both streams quoted, else the exit status is.
pub fn connect_to_peer(peer_id: &str, stdout: &str, stderr: &str, exit_ok: bool, status: &str) -> (r:
    Result<String, String>)
    ensures
        string_result_view(r) == (if trimmed(stdout@).len() > 0 || trimmed(stderr@).len() > 0 {
            Err(output_failure(stdout@, stderr@))
        } else if exit_ok {
            Ok(connected_prefix() + peer_id@)
        } else {
            Err(status_failure(status@))
        }),
        stdout@.len() == 0 && stderr@.len() == 0 && exit_ok ==> string_result_view(r) == Ok::<
            Seq<char>,
            Seq<char>,
        >(connected_prefix() + peer_id@),
{
    let has_output = !trim(stdout).is_empty() || !trim(stderr).is_empty();
    if has_output {
        let mut msg = String::from_str("Failed to connect to peer. Error: stdout='");
        msg.append(stdout);
        msg.append("', stderr='");
        msg.append(stderr);
        msg.append("'");
        Err(msg)
    } else if exit_ok {
        let mut msg = String::from_str("Successfully connected to peer: ");
        msg.append(peer_id);
        Ok(msg)
    } else {
        let mut msg = String::from_str("Failed to connect to peer. Exit status: ");
        msg.append(status);
        Err(msg)
    }
}

} // verus!
