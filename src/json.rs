//! What the classifiers read from a JSON document, through serde_json.

use vstd::prelude::*;

verus! {

/// Whether `serde_json::from_str::<serde_json::Value>` accepts a text.
pub uninterp spec fn json_parses(s: Seq<char>) -> bool;

/// The document's `ID` member, when the document is an object whose `ID`
/// member is a string.
pub uninterp spec fn json_id(s: Seq<char>) -> Option<Seq<char>>;

/// The length of the document's `Addrs` member, when the document is an
/// object whose `Addrs` member is an array.
pub uninterp spec fn json_addrs_len(s: Seq<char>) -> Option<nat>;

/// The length of the document, when it is an array.
pub uninterp spec fn json_array_len(s: Seq<char>) -> Option<nat>;

/// Whether the document is JSON `null`.
pub uninterp spec fn json_is_null(s: Seq<char>) -> bool;

/// The document written back as compact JSON text.
pub uninterp spec fn json_compact(s: Seq<char>) -> Seq<char>;

/// The parts of a parsed document that the classifiers read.
pub struct JsonFacts {
    pub id: Option<String>,
    pub addrs_len: Option<usize>,
    pub array_len: Option<usize>,
    pub is_null: bool,
    pub compact: String,
}

pub open spec fn opt_text(o: Option<String>) -> Option<Seq<char>> {
    match o {
        Some(s) => Some(s@),
        None => None,
    }
}

pub open spec fn opt_nat(o: Option<usize>) -> Option<nat> {
    match o {
        Some(n) => Some(n as nat),
        None => None,
    }
}

/// Relies on `serde_json::from_str::<serde_json::Value>` (a value exactly
/// when the text is one well-formed JSON document), and on the value's
/// `get`, `as_str`, `as_array`, `is_null` and `Display` (compact text) to
/// read it.
#[verifier::external_body]
pub(crate) fn read_json(s: &str) -> (r: Option<JsonFacts>)
    ensures
        r.is_some() == json_parses(s@),
        r matches Some(f) ==> {
            &&& opt_text(f.id) == json_id(s@)
            &&& opt_nat(f.addrs_len) == json_addrs_len(s@)
            &&& opt_nat(f.array_len) == json_array_len(s@)
            &&& f.is_null == json_is_null(s@)
            &&& f.compact@ == json_compact(s@)
        },
{
    let v = serde_json::from_str::<serde_json::Value>(s).ok()?;
    Some(JsonFacts {
        id: v.get("ID").and_then(|x| x.as_str()).map(|x| x.to_string()),
        addrs_len: v.get("Addrs").and_then(|x| x.as_array()).map(|a| a.len()),
        array_len: v.as_array().map(|a| a.len()),
        is_null: v.is_null(),
        compact: v.to_string(),
    })
}

} // verus!
