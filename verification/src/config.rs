//! Resolving the downstream endpoint and model from configuration.

use vstd::prelude::*;
use vstd::string::*;

verus! {

/// The defaults that apply when the configuration does not name a value.
pub const DEFAULT_URL: &'static str = "http://localhost:11434/v1/completions";

pub const DEFAULT_MODEL: &'static str = "phi3";

/// The first value stored under `key`, if any.
pub open spec fn pairs_lookup(ps: Seq<(Seq<char>, Seq<char>)>, key: Seq<char>) -> Option<Seq<char>>
    decreases ps.len(),
{
    if ps.len() == 0 {
        None
    } else if ps[0].0 == key {
        Some(ps[0].1)
    } else {
        pairs_lookup(ps.drop_first(), key)
    }
}

/// The key-value pairs of the first section named `section`, if any.
pub open spec fn section_pairs(
    sections: Seq<(Seq<char>, Seq<(Seq<char>, Seq<char>)>)>,
    section: Seq<char>,
) -> Option<Seq<(Seq<char>, Seq<char>)>>
    decreases sections.len(),
{
    if sections.len() == 0 {
        None
    } else if sections[0].0 == section {
        Some(sections[0].1)
    } else {
        section_pairs(sections.drop_first(), section)
    }
}

/// The value under `key` in the first section named `section`, if any.
pub open spec fn config_lookup(
    sections: Seq<(Seq<char>, Seq<(Seq<char>, Seq<char>)>)>,
    section: Seq<char>,
    key: Seq<char>,
) -> Option<Seq<char>> {
    match section_pairs(sections, section) {
        Some(ps) => pairs_lookup(ps, key),
        None => None,
    }
}

/// A configured value, or the default where the configuration has none.
pub open spec fn resolved(
    sections: Seq<(Seq<char>, Seq<(Seq<char>, Seq<char>)>)>,
    section: Seq<char>,
    key: Seq<char>,
    default: Seq<char>,
) -> Seq<char> {
    match config_lookup(sections, section, key) {
        Some(v) => v,
        None => default,
    }
}

/// The two runtime parameters of the pipeline, both always populated.
pub struct ResolvedConfig {
    pub url: String,
    pub model: String,
}

fn lookup_value<'a>(pairs: &'a Vec<(String, String)>, key: &String) -> (r: Option<&'a String>)
    ensures
        match r {
            Some(v) => pairs_lookup(pairs.deep_view(), key@) == Some(v@),
            None => pairs_lookup(pairs.deep_view(), key@) is None,
        },
{
    let mut i: usize = 0;
    let n = pairs.len();
    proof {
        assert(pairs.deep_view().skip(0) =~= pairs.deep_view());
    }
    while i < n
        invariant
            i <= n == pairs@.len(),
            pairs@.len() == pairs.deep_view().len(),
            pairs_lookup(pairs.deep_view(), key@) == pairs_lookup(
                pairs.deep_view().skip(i as int),
                key@,
            ),
        decreases n - i,
    {
        proof {
            let dv = pairs.deep_view();
            assert(dv[i as int] == (pairs@[i as int].0@, pairs@[i as int].1@));
            assert(dv.skip(i as int)[0] == dv[i as int]);
            assert(dv.skip(i as int).drop_first() =~= dv.skip(i + 1));
        }
        if pairs[i].0.eq(key) {
            return Some(&pairs[i].1);
        }
        i += 1;
    }
    proof {
        assert(pairs.deep_view().skip(n as int) =~= Seq::<(Seq<char>, Seq<char>)>::empty());
    }
    None
}

fn lookup_section<'a>(
    sections: &'a Vec<(String, Vec<(String, String)>)>,
    section: &String,
) -> (r: Option<&'a Vec<(String, String)>>)
    ensures
        match r {
            Some(ps) => section_pairs(sections.deep_view(), section@) == Some(ps.deep_view()),
            None => section_pairs(sections.deep_view(), section@) is None,
        },
{
    let mut i: usize = 0;
    let n = sections.len();
    proof {
        assert(sections.deep_view().skip(0) =~= sections.deep_view());
    }
    while i < n
        invariant
            i <= n == sections@.len(),
            sections@.len() == sections.deep_view().len(),
            section_pairs(sections.deep_view(), section@) == section_pairs(
                sections.deep_view().skip(i as int),
                section@,
            ),
        decreases n - i,
    {
        proof {
            let dv = sections.deep_view();
            assert(dv[i as int] == (
                sections@[i as int].0@,
                sections@[i as int].1.deep_view(),
            ));
            assert(dv.skip(i as int)[0] == dv[i as int]);
            assert(dv.skip(i as int).drop_first() =~= dv.skip(i + 1));
        }
        if sections[i].0.eq(section) {
            return Some(&sections[i].1);
        }
        i += 1;
    }
    proof {
        assert(sections.deep_view().skip(n as int) =~= Seq::<
            (Seq<char>, Seq<(Seq<char>, Seq<char>)>),
        >::empty());
    }
    None
}

/// Resolves the endpoint URL and model name from the `ollama` section of the
/// configuration, falling back to the documented defaults where the section
/// or a key is absent. Total: it cannot fail.
pub fn resolve_config(sections: &Vec<(String, Vec<(String, String)>)>) -> (r: ResolvedConfig)
    ensures
        r.url@ == resolved(sections.deep_view(), "ollama"@, "url"@, DEFAULT_URL@),
        r.model@ == resolved(sections.deep_view(), "ollama"@, "model"@, DEFAULT_MODEL@),
{
    let section_name = String::from_str("ollama");
    let url_key = String::from_str("url");
    let model_key = String::from_str("model");
    match lookup_section(sections, &section_name) {
        None => ResolvedConfig {
            url: String::from_str(DEFAULT_URL),
            model: String::from_str(DEFAULT_MODEL),
        },
        Some(pairs) => {
            let url = match lookup_value(pairs, &url_key) {
                Some(v) => v.clone(),
                None => String::from_str(DEFAULT_URL),
            };
            let model = match lookup_value(pairs, &model_key) {
                Some(v) => v.clone(),
                None => String::from_str(DEFAULT_MODEL),
            };
            ResolvedConfig { url, model }
        },
    }
}

} // verus!
