//! The trusted boundary to `serde_json`: parsing the inbound query object
//! and the downstream completion body.
//!
//! Both parses are deterministic functions of the input text alone, so each
//! is given a name (`query_fields`, `candidate_texts`) that the wrappers'
//! contracts speak of; everything downstream is verified against those names.

use vstd::prelude::*;

verus! {

/// The flat string-to-string object that an inbound query body denotes:
/// `None` when the body is not such a JSON object, otherwise the mapping
/// from keys to values (for a repeated key, the value that wins).
pub uninterp spec fn query_fields(s: Seq<char>) -> Option<Map<Seq<char>, Seq<char>>>;

/// Relies on `serde_json::from_str::<HashMap<String, String>>` (deserializes
/// a JSON object of strings, erring on any other input) and `HashMap::get`
/// (the value stored under the key, if any).
#[verifier::external_body]
pub(crate) fn query_field(body: &str, key: &str) -> (r: Option<Option<String>>)
    ensures
        match query_fields(body@) {
            None => r is None,
            Some(m) => match r {
                None => false,
                Some(None) => !m.contains_key(key@),
                Some(Some(v)) => m.contains_key(key@) && v@ == m[key@],
            },
        },
{
    let m: std::collections::HashMap<String, String> = match serde_json::from_str(body) {
        Ok(m) => m,
        Err(_) => return None,
    };
    Some(m.get(key).cloned())
}

/// The candidate texts that a downstream completion body denotes: `None`
/// when the body is not valid JSON at all; otherwise one entry per element
/// of its `choices` array (the empty sequence when `choices` is absent or
/// not an array), `Some(text)` where the element carries a string `text`
/// field and `None` where it does not.
pub uninterp spec fn candidate_texts(body: Seq<char>) -> Option<Seq<Option<Seq<char>>>>;

/// Relies on `serde_json::from_str::<Value>` (parses any JSON text, erring
/// otherwise), `Value::get` (member lookup, `None` on non-objects and absent
/// keys), `Value::as_array` (the elements when the value is an array) and
/// `Value::as_str` (the characters when the value is a string).
#[verifier::external_body]
pub(crate) fn parse_candidates(body: &str) -> (r: Option<Vec<Option<String>>>)
    ensures
        match candidate_texts(body@) {
            None => r is None,
            Some(ts) => match r {
                None => false,
                Some(v) => v.deep_view() == ts,
            },
        },
{
    let parsed: serde_json::Value = match serde_json::from_str(body) {
        Ok(v) => v,
        Err(_) => return None,
    };
    let texts: Vec<Option<String>> = match parsed.get("choices").and_then(|c| c.as_array()) {
        None => Vec::new(),
        Some(choices) => choices
            .iter()
            .map(|c| c.get("text").and_then(|t| t.as_str()).map(|t| t.to_string()))
            .collect(),
    };
    Some(texts)
}

} // verus!
