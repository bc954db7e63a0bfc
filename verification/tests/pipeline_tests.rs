use ollama_filter::clock::Deadline;
use ollama_filter::config::{resolve_config, DEFAULT_MODEL, DEFAULT_URL};
use ollama_filter::extract::extract_records;
use ollama_filter::pipeline::{
    collect_results, completion_request_body, parse_query, prepare_request, QueryError,
};
use ollama_filter::record::{render_embryo_list, Embryo};
use ollama_filter::text::{json_escape, parse_u64};

fn props(e: &Embryo) -> Vec<(&str, &str)> {
    e.properties.iter().map(|p| (p.0.as_str(), p.1.as_str())).collect()
}

#[test]
fn prompt_defaults_to_empty() {
    match parse_query(r#"{"timeout":"3"}"#) {
        Ok(q) => {
            assert_eq!(q.value, "");
            assert_eq!(q.timeout_secs, 3);
        }
        Err(_) => panic!("query with no value must parse"),
    }
}

#[test]
fn timeout_defaults_to_ten() {
    match parse_query(r#"{"value":"x"}"#) {
        Ok(q) => {
            assert_eq!(q.value, "x");
            assert_eq!(q.timeout_secs, 10);
        }
        Err(_) => panic!("query with no timeout must parse"),
    }
}

#[test]
fn malformed_query_rejected() {
    assert!(matches!(parse_query("nonsense"), Err(QueryError::MalformedQuery)));
    assert!(matches!(parse_query(r#"{"value":5}"#), Err(QueryError::MalformedQuery)));
    assert!(matches!(
        prepare_request("[1,2]", &Vec::new()),
        Err(QueryError::MalformedQuery)
    ));
}

#[test]
fn invalid_timeout_rejected() {
    assert!(matches!(
        parse_query(r#"{"value":"x","timeout":"soon"}"#),
        Err(QueryError::InvalidTimeout)
    ));
    assert!(matches!(
        parse_query(r#"{"timeout":"-1"}"#),
        Err(QueryError::InvalidTimeout)
    ));
    assert!(matches!(
        parse_query(r#"{"timeout":""}"#),
        Err(QueryError::InvalidTimeout)
    ));
}

#[test]
fn decimal_parsing_is_exact() {
    assert_eq!(parse_u64("0"), Some(0));
    assert_eq!(parse_u64("57"), Some(57));
    assert_eq!(parse_u64("18446744073709551615"), Some(u64::MAX));
    assert_eq!(parse_u64("18446744073709551616"), None);
    assert_eq!(parse_u64(""), None);
    assert_eq!(parse_u64("1 2"), None);
    assert_eq!(parse_u64("+5"), None);
}

#[test]
fn request_body_is_exact() {
    let body = completion_request_body("phi3", "hello");
    assert_eq!(
        body,
        r#"{"model":"phi3","prompt":"hello","temperature":0.7,"max_tokens":100}"#
    );
}

#[test]
fn request_body_escapes_prompt() {
    assert_eq!(json_escape("say \"hi\"\\\n"), "say \\\"hi\\\"\\\\\\u000a");
    let body = completion_request_body("phi3", "a\"b");
    assert_eq!(
        body,
        r#"{"model":"phi3","prompt":"a\"b","temperature":0.7,"max_tokens":100}"#
    );
}

#[test]
fn config_defaults_apply() {
    let cfg = resolve_config(&Vec::new());
    assert_eq!(cfg.url, DEFAULT_URL);
    assert_eq!(cfg.model, DEFAULT_MODEL);
    assert_eq!(cfg.url, "http://localhost:11434/v1/completions");
    assert_eq!(cfg.model, "phi3");
}

#[test]
fn config_values_win_over_defaults() {
    let sections = vec![(
        String::from("ollama"),
        vec![
            (String::from("url"), String::from("http://inference:9/v1/completions")),
            (String::from("model"), String::from("mistral")),
        ],
    )];
    let cfg = resolve_config(&sections);
    assert_eq!(cfg.url, "http://inference:9/v1/completions");
    assert_eq!(cfg.model, "mistral");
}

#[test]
fn config_foreign_sections_are_ignored() {
    let sections = vec![(
        String::from("web"),
        vec![(String::from("url"), String::from("http://other"))],
    )];
    let cfg = resolve_config(&sections);
    assert_eq!(cfg.url, DEFAULT_URL);
    assert_eq!(cfg.model, DEFAULT_MODEL);
}

#[test]
fn transport_failure_yields_empty_list() {
    let records = collect_results(None, 10);
    assert_eq!(records.len(), 0);
    assert_eq!(render_embryo_list(&records), r#"{"embryo_list":[]}"#);
}

#[test]
fn malformed_downstream_body_degrades_to_empty() {
    assert_eq!(collect_results(Some("not json"), 10).len(), 0);
}

#[test]
fn missing_choices_yields_empty_list() {
    assert_eq!(collect_results(Some("{}"), 10).len(), 0);
    assert_eq!(collect_results(Some(r#"{"choices":42}"#), 10).len(), 0);
}

#[test]
fn empty_choices_yields_empty_list() {
    let records = collect_results(Some(r#"{"choices":[]}"#), 10);
    assert_eq!(records.len(), 0);
    assert_eq!(render_embryo_list(&records), r#"{"embryo_list":[]}"#);
}

#[test]
fn all_candidates_kept_in_order() {
    let body = r#"{"choices":[{"text":"a"},{"text":"b"},{"note":"x"},{"text":42}]}"#;
    let records = collect_results(Some(body), 100);
    assert_eq!(records.len(), 4);
    assert_eq!(props(&records[0]), vec![("url", "ollama_test"), ("resume", "a")]);
    assert_eq!(props(&records[1]), vec![("url", "ollama_test"), ("resume", "b")]);
    assert_eq!(props(&records[2]), vec![("url", "ollama_test"), ("resume", "")]);
    assert_eq!(props(&records[3]), vec![("url", "ollama_test"), ("resume", "")]);
}

#[test]
fn extraction_is_idempotent() {
    let body = r#"{"choices":[{"text":"one"},{"text":"two"}]}"#;
    let first = collect_results(Some(body), 100);
    let second = collect_results(Some(body), 100);
    assert_eq!(render_embryo_list(&first), render_embryo_list(&second));
    assert_eq!(first.len(), second.len());
}

#[test]
fn zero_timeout_yields_no_records() {
    let body = r#"{"choices":[{"text":"a"},{"text":"b"}]}"#;
    assert_eq!(collect_results(Some(body), 0).len(), 0);
    let texts = vec![Some(String::from("a")), Some(String::from("b"))];
    let deadline = Deadline::begin(0);
    assert_eq!(extract_records(&texts, &deadline).len(), 0);
}

#[test]
fn end_to_end_hello_world() {
    let prepared = match prepare_request(r#"{"value": "hello", "timeout": "5"}"#, &Vec::new()) {
        Ok(p) => p,
        Err(_) => panic!("the query must be accepted"),
    };
    assert_eq!(prepared.url, "http://localhost:11434/v1/completions");
    assert_eq!(
        prepared.body,
        r#"{"model":"phi3","prompt":"hello","temperature":0.7,"max_tokens":100}"#
    );
    assert_eq!(prepared.timeout_secs, 5);

    let records = collect_results(Some(r#"{"choices":[{"text":"world"}]}"#), prepared.timeout_secs);
    assert_eq!(records.len(), 1);
    assert_eq!(props(&records[0]), vec![("url", "ollama_test"), ("resume", "world")]);
    assert_eq!(
        render_embryo_list(&records),
        r#"{"embryo_list":[{"url":"ollama_test","resume":"world"}]}"#
    );
}
