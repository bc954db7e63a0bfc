//! Result records and the rendering of the outbound response body.

use vstd::prelude::*;
use vstd::string::*;
use crate::text::escape;

verus! {

/// One extracted result: an open, ordered mapping of string properties.
/// The pipeline always sets a fixed source marker under `url` and the
/// extracted candidate text under `resume`.
pub struct Embryo {
    pub properties: Vec<(String, String)>,
}

impl View for Embryo {
    type V = Seq<(Seq<char>, Seq<char>)>;

    open spec fn view(&self) -> Seq<(Seq<char>, Seq<char>)> {
        self.properties.deep_view()
    }
}

/// The properties of the record built for one candidate text.
pub open spec fn record_model(text: Seq<char>) -> Seq<(Seq<char>, Seq<char>)> {
    seq![("url"@, "ollama_test"@), ("resume"@, text)]
}

/// Builds the record for one extracted candidate text: the fixed source
/// marker first, then the text itself.
pub fn make_record(text: String) -> (r: Embryo)
    ensures
        r@ == record_model(text@),
{
    let mut properties: Vec<(String, String)> = Vec::new();
    properties.push((String::from_str("url"), String::from_str("ollama_test")));
    properties.push((String::from_str("resume"), text));
    let r = Embryo { properties };
    proof {
        assert(r@ =~= record_model(r.properties@[1].1@));
    }
    r
}

/// A JSON string literal holding the characters of `s`.
pub open spec fn render_string(s: Seq<char>) -> Seq<char> {
    "\""@ + escape(s) + "\""@
}

/// One `"key":"value"` member of a JSON object.
pub open spec fn render_pair(p: (Seq<char>, Seq<char>)) -> Seq<char> {
    render_string(p.0) + ":"@ + render_string(p.1)
}

/// The comma-separated members of a JSON object, in order.
pub open spec fn render_pairs(ps: Seq<(Seq<char>, Seq<char>)>) -> Seq<char>
    decreases ps.len(),
{
    if ps.len() == 0 {
        Seq::empty()
    } else if ps.len() == 1 {
        render_pair(ps[0])
    } else {
        render_pairs(ps.drop_last()) + ","@ + render_pair(ps.last())
    }
}

/// One record as a JSON object of its properties.
pub open spec fn render_record(ps: Seq<(Seq<char>, Seq<char>)>) -> Seq<char> {
    "{"@ + render_pairs(ps) + "}"@
}

/// The comma-separated records, in order.
pub open spec fn render_records(rs: Seq<Seq<(Seq<char>, Seq<char>)>>) -> Seq<char>
    decreases rs.len(),
{
    if rs.len() == 0 {
        Seq::empty()
    } else if rs.len() == 1 {
        render_record(rs[0])
    } else {
        render_records(rs.drop_last()) + ","@ + render_record(rs.last())
    }
}

/// The whole outbound response body: the record list under `embryo_list`.
pub open spec fn render_response(rs: Seq<Seq<(Seq<char>, Seq<char>)>>) -> Seq<char> {
    "{\"embryo_list\":["@ + render_records(rs) + "]}"@
}

/// The views of a sequence of records.
pub open spec fn record_views(rs: Seq<Embryo>) -> Seq<Seq<(Seq<char>, Seq<char>)>> {
    rs.map_values(|e: Embryo| e@)
}

/// Renders a JSON string literal for `s`.
fn render_string_exec(s: &str) -> (r: String)
    ensures
        r@ == render_string(s@),
{
    let mut out = String::from_str("\"");
    out.append(crate::text::json_escape(s).as_str());
    out.append("\"");
    out
}

/// Renders one record as a JSON object, its properties in order.
fn render_record_exec(e: &Embryo) -> (r: String)
    ensures
        r@ == render_record(e@),
{
    let mut out = String::from_str("{");
    let mut i: usize = 0;
    let n = e.properties.len();
    while i < n
        invariant
            i <= n == e.properties@.len(),
            e@.len() == n,
            out@ == "{"@ + render_pairs(e@.take(i as int)),
        decreases n - i,
    {
        if i > 0 {
            out.append(",");
        }
        let p = &e.properties[i];
        out.append(render_string_exec(p.0.as_str()).as_str());
        out.append(":");
        out.append(render_string_exec(p.1.as_str()).as_str());
        proof {
            assert(e@[i as int] == (e.properties@[i as int].0@, e.properties@[i as int].1@));
            assert(e@.take(i + 1).drop_last() =~= e@.take(i as int));
            assert(e@.take(i + 1).last() == e@[i as int]);
            if i == 0 {
                assert(e@.take(1) =~= seq![e@[0]]);
                assert(render_pairs(e@.take(1)) == render_pair(e@[0]));
            }
            assert(out@ =~= "{"@ + render_pairs(e@.take(i + 1)));
        }
        i += 1;
    }
    out.append("}");
    proof {
        assert(e@.take(n as int) =~= e@);
        assert(out@ =~= render_record(e@));
    }
    out
}

/// Renders the outbound response body for the collected records:
/// `{"embryo_list":[...]}` with the records in collection order.
pub fn render_embryo_list(records: &Vec<Embryo>) -> (r: String)
    ensures
        r@ == render_response(record_views(records@)),
{
    let mut out = String::from_str("{\"embryo_list\":[");
    let mut i: usize = 0;
    let n = records.len();
    while i < n
        invariant
            i <= n == records@.len(),
            record_views(records@).len() == n,
            out@ == "{\"embryo_list\":["@ + render_records(record_views(records@).take(i as int)),
        decreases n - i,
    {
        if i > 0 {
            out.append(",");
        }
        out.append(render_record_exec(&records[i]).as_str());
        proof {
            let rv = record_views(records@);
            assert(rv[i as int] == records@[i as int]@);
            assert(rv.take(i + 1).drop_last() =~= rv.take(i as int));
            assert(rv.take(i + 1).last() == rv[i as int]);
            if i == 0 {
                assert(rv.take(1) =~= seq![rv[0]]);
                assert(render_records(rv.take(1)) == render_record(rv[0]));
            }
            assert(out@ =~= "{\"embryo_list\":["@ + render_records(rv.take(i + 1)));
        }
        i += 1;
    }
    out.append("]}");
    proof {
        assert(record_views(records@).take(n as int) =~= record_views(records@));
        assert(out@ =~= render_response(record_views(records@)));
    }
    out
}

/// The response body for an empty collection is exactly `{"embryo_list":[]}`:
/// what the caller sees when the downstream endpoint was unreachable or
/// returned no candidates.
pub proof fn lemma_empty_response()
    ensures
        render_response(Seq::empty()) == "{\"embryo_list\":[]}"@,
{
    reveal_strlit("{\"embryo_list\":[");
    reveal_strlit("]}");
    reveal_strlit("{\"embryo_list\":[]}");
    assert(render_response(Seq::empty()) =~= "{\"embryo_list\":[]}"@);
}

} // verus!
