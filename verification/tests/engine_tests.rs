use loadtest::dispatch::{Dispatch, Dispatcher};
use loadtest::engine::{Engine, Method};
use loadtest::errors::EngineError;
use loadtest::headers::compile_headers;
use loadtest::sample::{make_sample, ContentLength, Sample};

fn strings(entries: &[&str]) -> Vec<String> {
    entries.iter().map(|s| s.to_string()).collect()
}

/// Drives a prepared dispatcher to completion, collecting one sample per
/// dispatch, the way the unverified shell would but without any network.
fn drain(dispatcher: &mut Dispatcher) -> Result<Vec<(Dispatch, Sample)>, EngineError> {
    let mut collected = Vec::new();
    loop {
        match dispatcher.next() {
            Ok(None) => return Ok(collected),
            Ok(Some(dispatch)) => {
                let sample = make_sample(200, 1_000, Some(3));
                collected.push((dispatch, sample));
            }
            Err(e) => return Err(e),
        }
    }
}

#[test]
fn new_has_empty_headers_and_get() {
    let engine = Engine::new(strings(&["http://a.example/"]));
    assert_eq!(engine.urls, strings(&["http://a.example/"]));
    assert!(engine.headers.is_empty());
    assert!(matches!(engine.method, Method::Get));
}

#[test]
fn headers_replaces_list_and_keeps_urls() {
    let engine = Engine::new(strings(&["http://a.example/"]))
        .headers(strings(&["X-Test=value1"]));
    assert_eq!(engine.urls, strings(&["http://a.example/"]));
    assert_eq!(engine.headers, strings(&["X-Test=value1"]));
    assert!(matches!(engine.method, Method::Get));
}

#[test]
fn one_url_five_requests_gives_five_samples() {
    let engine = Engine::new(strings(&["http://a.example/"]));
    let mut dispatcher = engine.prepare(5).expect("valid configuration");
    let collected = drain(&mut dispatcher).expect("no abort");
    assert_eq!(collected.len(), 5);
    for (dispatch, sample) in &collected {
        assert_eq!(dispatch.target, "http://a.example/");
        assert_eq!(dispatch.url.as_str(), "http://a.example/");
        assert!(matches!(dispatch.method, Method::Get));
        assert_eq!(sample.status, 200);
    }
    assert!(matches!(dispatcher.next(), Ok(None)));
}

#[test]
fn three_urls_seven_requests_round_robin_order() {
    let engine = Engine::new(strings(&[
        "http://a.example/",
        "http://b.example/",
        "http://c.example/",
    ]));
    let mut dispatcher = engine.prepare(7).expect("valid configuration");
    let collected = drain(&mut dispatcher).expect("no abort");
    let targets: Vec<&str> = collected.iter().map(|(d, _)| d.target.as_str()).collect();
    assert_eq!(
        targets,
        vec![
            "http://a.example/",
            "http://b.example/",
            "http://c.example/",
            "http://a.example/",
            "http://b.example/",
            "http://c.example/",
            "http://a.example/",
        ]
    );
}

#[test]
fn zero_requests_collects_nothing() {
    let engine = Engine::new(strings(&["http://a.example/"]));
    let mut dispatcher = engine.prepare(0).expect("valid configuration");
    assert!(matches!(dispatcher.next(), Ok(None)));
    let collected = drain(&mut dispatcher).expect("no abort");
    assert_eq!(collected.len(), 0);
}

#[test]
fn zero_requests_allows_empty_url_list() {
    let engine = Engine::new(strings(&[]));
    let mut dispatcher = engine.prepare(0).expect("valid configuration");
    assert!(matches!(dispatcher.next(), Ok(None)));
}

#[test]
fn header_entry_is_compiled_into_the_plan() {
    let engine = Engine::new(strings(&["http://a.example/"]))
        .headers(strings(&["X-Test=value1"]));
    let dispatcher = engine.prepare(2).expect("valid configuration");
    assert_eq!(dispatcher.headers.len(), 1);
    assert_eq!(dispatcher.headers[0].name, "X-Test");
    assert_eq!(dispatcher.headers[0].value, "value1");
}

#[test]
fn header_without_separator_fails_before_any_dispatch() {
    let engine = Engine::new(strings(&["http://a.example/"]))
        .headers(strings(&["badheader"]));
    let refused = engine.prepare(3);
    assert!(matches!(refused, Err(EngineError::Configuration)));
}

#[test]
fn bad_header_fails_even_with_zero_requests() {
    let engine = Engine::new(strings(&["http://a.example/"]))
        .headers(strings(&["badheader"]));
    assert!(matches!(engine.prepare(0), Err(EngineError::Configuration)));
}

#[test]
fn drained_body_length_is_recorded_exactly() {
    let sample = make_sample(200, 123_456_789, Some(1234));
    assert_eq!(sample.length.bytes, 1234);
    assert_eq!(sample.status, 200);
    assert_eq!(sample.duration_nanos, 123_456_789);
}

#[test]
fn undecodable_body_records_zero_length() {
    let sample = make_sample(404, 55, None);
    assert_eq!(sample.length.bytes, 0);
    assert_eq!(sample.status, 404);
}

#[test]
fn invalid_url_aborts_that_iteration_and_all_later_ones() {
    let engine = Engine::new(strings(&["http://a.example/", "not a url"]));
    let mut dispatcher = engine.prepare(4).expect("valid configuration");
    let first = dispatcher.next().expect("first target is fine").expect("one dispatch");
    assert_eq!(first.target, "http://a.example/");
    assert!(matches!(dispatcher.next(), Err(EngineError::InvalidUrl)));
    // The failing iteration was not issued: stepping again refuses again.
    assert!(matches!(dispatcher.next(), Err(EngineError::InvalidUrl)));
    assert_eq!(dispatcher.issued, 1);
}

#[test]
fn empty_url_list_with_requests_is_fatal() {
    let engine = Engine::new(strings(&[]));
    assert!(matches!(engine.prepare(1), Err(EngineError::Configuration)));
    assert!(matches!(engine.prepare(7), Err(EngineError::Configuration)));
}

#[test]
fn compile_splits_at_first_separator_only() {
    let compiled = compile_headers(&strings(&["a=b=c"])).expect("valid entry");
    assert_eq!(compiled.len(), 1);
    assert_eq!(compiled[0].name, "a");
    assert_eq!(compiled[0].value, "b=c");
}

#[test]
fn compile_accepts_empty_value() {
    let compiled = compile_headers(&strings(&["a="])).expect("valid entry");
    assert_eq!(compiled[0].name, "a");
    assert_eq!(compiled[0].value, "");
}

#[test]
fn compile_rejects_empty_name() {
    assert!(matches!(
        compile_headers(&strings(&["=value"])),
        Err(EngineError::Configuration)
    ));
}

#[test]
fn compile_rejects_space_in_name() {
    assert!(matches!(
        compile_headers(&strings(&["bad name=value"])),
        Err(EngineError::Configuration)
    ));
}

#[test]
fn compile_rejects_control_character_in_value() {
    assert!(matches!(
        compile_headers(&strings(&["a=bad\u{1}value"])),
        Err(EngineError::Configuration)
    ));
}

#[test]
fn compile_accepts_tab_and_mixed_case_name() {
    let compiled = compile_headers(&strings(&["X-Test=a\tb"])).expect("valid entry");
    assert_eq!(compiled[0].name, "X-Test");
    assert_eq!(compiled[0].value, "a\tb");
}

#[test]
fn compile_is_all_or_nothing() {
    let refused = compile_headers(&strings(&["good=1", "badheader", "also=fine"]));
    assert!(matches!(refused, Err(EngineError::Configuration)));
}

#[test]
fn compile_keeps_entry_order() {
    let compiled = compile_headers(&strings(&["a=1", "b=2"])).expect("valid entries");
    assert_eq!(compiled[0].name, "a");
    assert_eq!(compiled[0].value, "1");
    assert_eq!(compiled[1].name, "b");
    assert_eq!(compiled[1].value, "2");
}

#[test]
fn sample_record_keeps_all_fields() {
    let sample = Sample::record(301, 42, ContentLength::new(7));
    assert_eq!(sample.status, 301);
    assert_eq!(sample.duration_nanos, 42);
    assert_eq!(sample.length, ContentLength::new(7));
}
