//! Lookup of a string inside a JSON document.
use vstd::prelude::*;

verus! {

/// What `serde_json` finds as a string at the JSON pointer `pointer` in the document `text`.
pub uninterp spec fn json_text_at(text: Seq<char>, pointer: Seq<char>) -> Option<Seq<char>>;

/// Relies on serde_json::from_str into serde_json::Value and Value::pointer: the
/// string at `pointer` when `text` parses and holds one there, absent otherwise.
#[verifier::external_body]
pub(crate) fn json_string_at(text: &str, pointer: &str) -> (r: Option<String>)
    ensures
        r.deep_view() == json_text_at(text@, pointer@),
{
    match serde_json::from_str::<serde_json::Value>(text) {
        Ok(v) => match v.pointer(pointer) {
            Some(serde_json::Value::String(s)) => Some(s.clone()),
            _ => None,
        },
        Err(_) => None,
    }
}

} // verus!
