//! Turning downstream candidates into result records under a deadline.

use vstd::prelude::*;
use vstd::string::*;
use crate::clock::Deadline;
use crate::record::{make_record, record_model, record_views, Embryo};

verus! {

/// The text a candidate contributes: its `text` field, or the empty string
/// where that field is missing or not a string.
pub open spec fn text_or_empty(t: Option<Seq<char>>) -> Seq<char> {
    match t {
        Some(s) => s,
        None => Seq::empty(),
    }
}

/// The records that a full, uncut extraction of `ts` yields: one per
/// candidate, in candidate order.
pub open spec fn records_model(ts: Seq<Option<Seq<char>>>) -> Seq<Seq<(Seq<char>, Seq<char>)>> {
    ts.map_values(|t: Option<Seq<char>>| record_model(text_or_empty(t)))
}

/// A full extraction keeps every candidate, in order, each record carrying
/// the fixed source marker and that candidate's text.
pub proof fn lemma_records_complete(ts: Seq<Option<Seq<char>>>)
    ensures
        records_model(ts).len() == ts.len(),
        forall|i: int|
            0 <= i < ts.len() ==> #[trigger] records_model(ts)[i] == record_model(
                text_or_empty(ts[i]),
            ),
{
}

/// Extraction is a function of the candidates and of where the deadline cut:
/// two extractions of the same candidates that are cut at the same place
/// yield the same collection. In particular two uncut extractions are
/// identical.
pub proof fn lemma_extraction_deterministic(
    ts: Seq<Option<Seq<char>>>,
    r1: Seq<Seq<(Seq<char>, Seq<char>)>>,
    r2: Seq<Seq<(Seq<char>, Seq<char>)>>,
    n: int,
)
    requires
        r1 == records_model(ts).take(n),
        r2 == records_model(ts).take(n),
    ensures
        r1 == r2,
{
}

/// Walks the candidates in order and collects one record per candidate,
/// checking the deadline before each one: once it has expired, whatever is
/// collected so far is returned, the candidate that met the check excluded.
///
/// The result is always the record image of a prefix of the candidates; it
/// is the whole image exactly when its length is the candidate count; and a
/// zero-second deadline yields no records at all.
pub fn extract_records(texts: &Vec<Option<String>>, deadline: &Deadline) -> (r: Vec<Embryo>)
    ensures
        r@.len() <= texts@.len(),
        exists|n: int|
            0 <= n <= texts@.len() && record_views(r@) == records_model(texts.deep_view()).take(n),
        r@.len() == texts@.len() ==> record_views(r@) == records_model(texts.deep_view()),
        texts@.len() == 0 ==> r@.len() == 0,
        deadline.timeout_secs == 0 ==> r@.len() == 0,
{
    let mut out: Vec<Embryo> = Vec::new();
    let mut i: usize = 0;
    let n = texts.len();
    while i < n
        invariant
            i <= n == texts@.len(),
            out@.len() == i,
            record_views(out@) == records_model(texts.deep_view()).take(i as int),
            deadline.timeout_secs == 0 ==> i == 0,
        decreases n - i,
    {
        if deadline.expired() {
            proof {
                assert(record_views(out@) == records_model(texts.deep_view()).take(i as int));
            }
            return out;
        }
        let text: String = match &texts[i] {
            Some(t) => t.clone(),
            None => String::new(),
        };
        proof {
            assert(texts.deep_view()[i as int] == texts@[i as int].deep_view());
            assert(text@ == text_or_empty(texts.deep_view()[i as int]));
        }
        out.push(make_record(text));
        proof {
            let dv = texts.deep_view();
            assert(records_model(dv)[i as int] == record_model(text_or_empty(dv[i as int])));
            assert(records_model(dv).take(i + 1).drop_last() =~= records_model(dv).take(i as int));
            assert(record_views(out@) =~= records_model(dv).take(i + 1));
        }
        i += 1;
    }
    proof {
        assert(records_model(texts.deep_view()).take(n as int) =~= records_model(
            texts.deep_view(),
        ));
    }
    out
}

} // verus!
