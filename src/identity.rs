//! Whether the daemon's answer to the identity query is a usable identity.

use vstd::prelude::*;
use crate::json::{json_addrs_len, json_compact, json_id, json_parses, read_json};
use crate::text::{trim, trimmed};

verus! {

/// An identity payload is usable when its identifier is a non-empty string
/// or its address list is a non-empty array.
pub open spec fn payload_usable(id: Option<Seq<char>>, addrs_len: Option<nat>) -> bool {
    (id is Some && id->0.len() > 0) || (addrs_len is Some && addrs_len->0 > 0)
}

/// Decides on an identity payload, given its `ID` member when that is a
/// string and the length of its `Addrs` member when that is an array.
pub fn peer_payload_usable(id: Option<&str>, addrs_len: Option<usize>) -> (r: bool)
    ensures
        r == payload_usable(
            match id {
                Some(s) => Some(s@),
                None => None,
            },
            match addrs_len {
                Some(n) => Some(n as nat),
                None => None,
            },
        ),
{
    let has_id = match id {
        Some(s) => !s.is_empty(),
        None => false,
    };
    let has_addrs = match addrs_len {
        Some(n) => n > 0,
        None => false,
    };
    has_id || has_addrs
}

/// Reads the collected output of one identity query: the payload in compact
/// JSON when the trimmed output is a JSON document with a usable identity,
/// else nothing.
pub fn fetch_peer_info(output: &str) -> (r: Option<String>)
    ensures
        r is Some <==> (trimmed(output@).len() > 0 && json_parses(trimmed(output@))
            && payload_usable(json_id(trimmed(output@)), json_addrs_len(trimmed(output@)))),
        r matches Some(s) ==> s@ == json_compact(trimmed(output@)),
{
    let t = trim(output);
    if t.is_empty() {
        return None;
    }
    let facts = match read_json(t) {
        Some(f) => f,
        None => return None,
    };
    let id = match &facts.id {
        Some(s) => Some(s.as_str()),
        None => None,
    };
    if peer_payload_usable(id, facts.addrs_len) {
        Some(facts.compact)
    } else {
        None
    }
}

} // verus!
