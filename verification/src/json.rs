//! The boundary to `serde_json`: documents are parsed, inspected and
//! rendered by it, and what it returns is known to the rest of the library
//! only by name.

use vstd::prelude::*;

verus! {

/// A JSON value of `serde_json`, carried through the library unopened.
#[verifier::external_type_specification]
#[verifier::external_body]
pub struct ExValue(serde_json::Value);

/// The top-level entries of a document as contracts speak of them: each key
/// by its characters, beside its value.
pub open spec fn entries_view(entries: Seq<(String, serde_json::Value)>) -> Seq<
    (Seq<char>, serde_json::Value),
> {
    Seq::new(entries.len(), |i: int| (entries[i].0@, entries[i].1))
}

/// The outcome of a parse as contracts speak of it: the entries of the
/// document, or the parser's message.
pub open spec fn parse_view(r: Result<Vec<(String, serde_json::Value)>, String>) -> Result<
    Seq<(Seq<char>, serde_json::Value)>,
    Seq<char>,
> {
    match r {
        Ok(entries) => Ok(entries_view(entries@)),
        Err(message) => Err(message@),
    }
}

/// The outcome of a rendering as contracts speak of it.
pub open spec fn text_view(r: Result<String, String>) -> Result<Seq<char>, Seq<char>> {
    match r {
        Ok(text) => Ok(text@),
        Err(message) => Err(message@),
    }
}

/// What `serde_json::from_str` makes of a text that is read as a JSON object:
/// its top-level entries, or the message of the error.
pub uninterp spec fn strict_document(text: Seq<char>) -> Result<
    Seq<(Seq<char>, serde_json::Value)>,
    Seq<char>,
>;

/// The elements of a JSON value that is an array; `None` for any other
/// value.
pub uninterp spec fn json_array(value: serde_json::Value) -> Option<Seq<serde_json::Value>>;

/// The number of elements of a JSON value that is an array; `None` for any
/// other value.
pub open spec fn json_array_len(value: serde_json::Value) -> Option<nat> {
    match json_array(value) {
        Some(items) => Some(items.len()),
        None => None,
    }
}

/// What `serde_json::to_string_pretty` renders for an object with the given
/// entries: the text, or the message of the error.
pub uninterp spec fn pretty_document(entries: Seq<(Seq<char>, serde_json::Value)>) -> Result<
    Seq<char>,
    Seq<char>,
>;

/// Calls `serde_json::from_str` for a `serde_json::Map` and hands out the
/// map's entries in the map's own order, or the error's `Display` text.
/// Trusted: the outcome is the one named `strict_document`, a function of the
/// text alone. `serde_json` bounds its recursion and reports every fault as an
/// error.
#[verifier::external_body]
pub(crate) fn parse_strict(text: &str) -> (r: Result<Vec<(String, serde_json::Value)>, String>)
    ensures
        parse_view(r) == strict_document(text@),
{
    match serde_json::from_str::<serde_json::Map<String, serde_json::Value>>(text) {
        Ok(map) => Ok(map.into_iter().collect()),
        Err(e) => Err(e.to_string()),
    }
}

/// `serde_json::Value::as_array` hands out the vector of an array and
/// `None` for any other value. Trusted: what it finds is what is named
/// `json_array`.
pub assume_specification[ serde_json::Value::as_array ](value: &serde_json::Value) -> (r: Option<
    &Vec<serde_json::Value>,
>)
    ensures
        r is Some <==> json_array(*value) is Some,
        r is Some ==> r->0@ == json_array(*value)->0,
;

/// Collects the entries into a `serde_json::Map` and calls
/// `serde_json::to_string_pretty` on it. Trusted: the outcome is the one named
/// `pretty_document`, a function of the entries alone. The printer descends
/// once for each level of a value; the values that `parse_strict` hands out
/// are at most 128 levels deep.
#[verifier::external_body]
pub(crate) fn pretty_text(entries: &Vec<(String, serde_json::Value)>) -> (r: Result<String, String>)
    ensures
        text_view(r) == pretty_document(entries_view(entries@)),
{
    let map: serde_json::Map<String, serde_json::Value> = entries.iter().cloned().collect();
    serde_json::to_string_pretty(&map).map_err(|e| e.to_string())
}

} // verus!
