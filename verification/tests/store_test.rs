use langfuse::exporter::exporter_settings;
use langfuse::config::LangfuseConfig;
use langfuse::queue::BatchQueue;
use langfuse::store::{KeyedStore, StringMap};
use langfuse::stream::OutputCollector;
use std::time::Duration;

#[test]
fn keyed_store_behaves_as_a_map() {
    let mut s: KeyedStore<u32> = KeyedStore::new();
    s.insert("a".to_string(), 1);
    s.insert("b".to_string(), 2);
    s.insert("a".to_string(), 3);
    assert_eq!(s.len(), 2);
    assert_eq!(s.get("a"), Some(&3));
    assert_eq!(s.remove("b"), Some(2));
    assert_eq!(s.get("b"), None);
    s.insert("ab:1".to_string(), 4);
    s.insert("abc".to_string(), 5);
    s.remove_prefixed("ab:");
    assert_eq!(s.get("ab:1"), None);
    assert_eq!(s.get("abc"), Some(&5));
    s.clear();
    assert_eq!(s.len(), 0);
}

#[test]
fn string_map_pairs() {
    let mut m = StringMap::new();
    m.insert("k".to_string(), "v".to_string());
    m.insert("k".to_string(), "w".to_string());
    m.insert("j".to_string(), "x".to_string());
    assert_eq!(m.get("k").map(String::as_str), Some("w"));
    let mut pairs = m.to_pairs();
    pairs.sort();
    assert_eq!(pairs, vec![("j".to_string(), "x".to_string()), ("k".to_string(), "w".to_string())]);
}

#[test]
fn batch_queue_reports_a_due_flush_and_drains_in_order() {
    let mut q: BatchQueue<&str> = BatchQueue::new(2);
    assert!(q.is_empty());
    assert!(!q.push("a"));
    assert!(q.push("b"));
    assert!(q.push("c"));
    assert_eq!(q.len(), 3);
    assert_eq!(q.drain(), vec!["a", "b", "c"]);
    assert!(q.is_empty());
    assert!(q.drain().is_empty());
}

#[test]
fn output_collector_hands_over_once() {
    let mut c = OutputCollector::new();
    c.on_item(Some("1".to_string()));
    c.on_item(None);
    c.on_item(Some("\"x\"".to_string()));
    assert_eq!(c.len(), 2);
    assert_eq!(c.finish(), Some(vec!["1".to_string(), "\"x\"".to_string()]));
    assert_eq!(c.finish(), None);
}

#[test]
fn exporter_settings_follow_the_config() {
    let config = LangfuseConfig::builder()
        .public_key("pk-lf-test")
        .secret_key("sk-lf-test")
        .base_url("https://h/")
        .flush_at(10)
        .flush_interval(Duration::from_secs(3))
        .environment("prod")
        .build()
        .unwrap();
    let extra = vec![
        ("X-Team".to_string(), "core".to_string()),
        ("Authorization".to_string(), "Bearer t".to_string()),
    ];
    let s = exporter_settings(&config, &extra, None, "0.1.0");
    assert_eq!(s.endpoint, "https://h/api/public/otel/v1/traces");
    assert_eq!(s.headers.get("Authorization").map(String::as_str), Some("Bearer t"));
    assert_eq!(s.headers.get("X-Team").map(String::as_str), Some("core"));
    assert_eq!(s.max_queue_size, 40);
    assert_eq!(s.max_export_batch_size, 10);
    assert_eq!(s.scheduled_delay, Duration::from_secs(3));
    assert_eq!(s.timeout, Duration::from_secs(5));
    assert_eq!(
        s.resource,
        vec![
            ("sdk.name".to_string(), "langfuse-rs".to_string()),
            ("sdk.version".to_string(), "0.1.0".to_string()),
            ("service.name".to_string(), "unknown_service".to_string()),
            ("deployment.environment".to_string(), "prod".to_string()),
        ]
    );
    let plain = exporter_settings(&config, &vec![], Some("svc".to_string()), "1");
    assert_eq!(
        plain.headers.get("Authorization").map(String::as_str),
        Some("Basic cGstbGYtdGVzdDpzay1sZi10ZXN0")
    );
    assert_eq!(plain.resource[2].1, "svc");
}

#[test]
fn only_well_formed_extra_headers_are_kept() {
    let extra = vec![
        ("X-Good".to_string(), "v".to_string()),
        ("bad name".to_string(), "v".to_string()),
        ("X-Newline".to_string(), "line\nbreak".to_string()),
        ("X-Utf8".to_string(), "é".to_string()),
        ("X-Tab".to_string(), "a\tb".to_string()),
        ("X-Del".to_string(), "a\u{7f}".to_string()),
    ];
    let kept = langfuse::http::accepted_headers(&extra);
    let names: Vec<&str> = kept.iter().map(|(k, _)| k.as_str()).collect();
    assert_eq!(names, vec!["X-Good", "X-Utf8", "X-Tab"]);
}

#[test]
fn whitespace_matches_std() {
    for code in 0u32..0x3100 {
        if let Some(c) = char::from_u32(code) {
            assert_eq!(langfuse::chars::is_whitespace(c), c.is_whitespace(), "U+{code:04X}");
        }
    }
    assert!(!langfuse::chars::is_whitespace('\u{FEFF}'));
}

#[test]
fn header_names_follow_the_token_rule() {
    let headers = vec![
        ("X-Custom_1".to_string(), "v".to_string()),
        ("bad header".to_string(), "v".to_string()),
        ("".to_string(), "v".to_string()),
        ("x-é".to_string(), "v".to_string()),
        ("!#$%&'*+-.^_`|~".to_string(), "v".to_string()),
    ];
    let kept = langfuse::http::accepted_headers(&headers);
    let names: Vec<&str> = kept.iter().map(|(k, _)| k.as_str()).collect();
    assert_eq!(names, vec!["X-Custom_1", "!#$%&'*+-.^_`|~"]);
}
