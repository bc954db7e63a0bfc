//! The query-to-result pipeline: parsing the inbound query, building the
//! downstream completion request, and collecting the result records.

use vstd::prelude::*;
use vstd::string::*;
use crate::clock::Deadline;
use crate::config::{resolve_config, resolved, DEFAULT_MODEL, DEFAULT_URL};
use crate::extract::{extract_records, records_model};
use crate::jsonio::{candidate_texts, parse_candidates, query_field, query_fields};
use crate::record::{record_views, Embryo};
use crate::text::{all_digits, dec_val, escape, parse_u64};

verus! {

/// Why an inbound query was rejected.
pub enum QueryError {
    /// The body is not a flat JSON object of strings.
    MalformedQuery,
    /// A `timeout` field is present but is not a non-negative decimal
    /// number of seconds that fits the timeout's range.
    InvalidTimeout,
}

/// The two fields the pipeline consumes from an inbound query.
pub struct Query {
    pub value: String,
    pub timeout_secs: u64,
}

/// The prompt an inbound query asks to complete: its `value` field, or the
/// empty string where that field is absent.
pub open spec fn query_value_model(m: Map<Seq<char>, Seq<char>>) -> Seq<char> {
    if m.contains_key("value"@) {
        m["value"@]
    } else {
        Seq::empty()
    }
}

/// The extraction bound an inbound query asks for: 10 seconds where the
/// `timeout` field is absent, its decimal value where it parses, and `None`
/// (a rejected query) where it is present but does not parse.
pub open spec fn query_timeout_model(m: Map<Seq<char>, Seq<char>>) -> Option<u64> {
    if !m.contains_key("timeout"@) {
        Some(10u64)
    } else {
        let t = m["timeout"@];
        if t.len() > 0 && all_digits(t) && dec_val(t) <= u64::MAX {
            Some(dec_val(t) as u64)
        } else {
            None
        }
    }
}

/// An inbound query without a `value` field asks to complete the empty
/// prompt.
pub proof fn lemma_missing_value_empty_prompt(m: Map<Seq<char>, Seq<char>>)
    requires
        !m.contains_key("value"@),
    ensures
        query_value_model(m) == Seq::<char>::empty(),
{
}

/// An inbound query without a `timeout` field is bounded by 10 seconds.
pub proof fn lemma_missing_timeout_default(m: Map<Seq<char>, Seq<char>>)
    requires
        !m.contains_key("timeout"@),
    ensures
        query_timeout_model(m) == Some(10u64),
{
}

/// Parses an inbound query body into the prompt text and the extraction
/// bound, applying the documented defaults for absent fields.
pub fn parse_query(body: &str) -> (r: Result<Query, QueryError>)
    ensures
        ({
            let f = query_fields(body@);
            match r {
                Ok(q) => f is Some && q.value@ == query_value_model(f->0) && Some(q.timeout_secs)
                    == query_timeout_model(f->0),
                Err(QueryError::MalformedQuery) => f is None,
                Err(QueryError::InvalidTimeout) => f is Some && query_timeout_model(f->0) is None,
            }
        }),
{
    let value: String = match query_field(body, "value") {
        None => return Err(QueryError::MalformedQuery),
        Some(Some(v)) => v,
        Some(None) => String::new(),
    };
    let timeout_secs: u64 = match query_field(body, "timeout") {
        None => return Err(QueryError::MalformedQuery),
        Some(None) => 10,
        Some(Some(t)) => match parse_u64(t.as_str()) {
            Some(v) => v,
            None => return Err(QueryError::InvalidTimeout),
        },
    };
    Ok(Query { value, timeout_secs })
}

/// The downstream completion request body for a model and a prompt: fixed
/// sampling parameters, the model and the prompt as JSON string literals.
pub open spec fn completion_body_model(model: Seq<char>, prompt: Seq<char>) -> Seq<char> {
    "{\"model\":\""@ + escape(model) + "\",\"prompt\":\""@ + escape(prompt)
        + "\",\"temperature\":0.7,\"max_tokens\":100}"@
}

/// Builds the downstream completion request body.
pub fn completion_request_body(model: &str, prompt: &str) -> (r: String)
    ensures
        r@ == completion_body_model(model@, prompt@),
{
    let mut out = String::from_str("{\"model\":\"");
    out.append(crate::text::json_escape(model).as_str());
    out.append("\",\"prompt\":\"");
    out.append(crate::text::json_escape(prompt).as_str());
    out.append("\",\"temperature\":0.7,\"max_tokens\":100}");
    proof {
        assert(out@ =~= completion_body_model(model@, prompt@));
    }
    out
}

/// Everything the transport needs for the downstream call, plus the
/// extraction bound to apply to its answer.
pub struct PreparedRequest {
    pub url: String,
    pub body: String,
    pub timeout_secs: u64,
}

/// The first half of the pipeline: parses the inbound query, resolves the
/// endpoint and model, and builds the completion request to send.
pub fn prepare_request(query_body: &str, config: &Vec<(String, Vec<(String, String)>)>) -> (r:
    Result<PreparedRequest, QueryError>)
    ensures
        ({
            let f = query_fields(query_body@);
            let cv = config.deep_view();
            match r {
                Ok(p) => f is Some && p.url@ == resolved(cv, "ollama"@, "url"@, DEFAULT_URL@)
                    && p.body@ == completion_body_model(
                    resolved(cv, "ollama"@, "model"@, DEFAULT_MODEL@),
                    query_value_model(f->0),
                ) && Some(p.timeout_secs) == query_timeout_model(f->0),
                Err(QueryError::MalformedQuery) => f is None,
                Err(QueryError::InvalidTimeout) => f is Some && query_timeout_model(f->0) is None,
            }
        }),
{
    let q = match parse_query(query_body) {
        Ok(q) => q,
        Err(e) => return Err(e),
    };
    let cfg = resolve_config(config);
    let body = completion_request_body(cfg.model.as_str(), q.value.as_str());
    Ok(PreparedRequest { url: cfg.url, body, timeout_secs: q.timeout_secs })
}

/// The second half of the pipeline: turns the downstream outcome into the
/// result collection.
///
/// A transport failure (`downstream` is `None`) and a downstream body that
/// is not valid JSON both degrade to the empty collection — the uniform
/// resiliency policy: no downstream trouble ever surfaces as a failure.
/// Otherwise the candidates are extracted in order under a wall-clock
/// deadline of `timeout_secs` seconds, started here, checked before each
/// candidate.
pub fn collect_results(downstream: Option<&str>, timeout_secs: u64) -> (r: Vec<Embryo>)
    ensures
        ({
            match downstream {
                None => r@.len() == 0,
                Some(b) => match candidate_texts(b@) {
                    None => r@.len() == 0,
                    Some(ts) => r@.len() <= ts.len() && (exists|n: int|
                        0 <= n <= ts.len() && record_views(r@) == records_model(ts).take(n)) && (
                    r@.len() == ts.len() ==> record_views(r@) == records_model(ts)) && (ts.len()
                        == 0 ==> r@.len() == 0) && (timeout_secs == 0 ==> r@.len() == 0),
                },
            }
        }),
{
    match downstream {
        None => Vec::new(),
        Some(b) => match parse_candidates(b) {
            None => Vec::new(),
            Some(texts) => {
                proof {
                    assert(texts@.len() == texts.deep_view().len());
                }
                let deadline = Deadline::begin(timeout_secs);
                extract_records(&texts, &deadline)
            },
        },
    }
}

} // verus!
