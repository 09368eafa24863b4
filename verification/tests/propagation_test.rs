use langfuse::propagation::{
    baggage_entries, has_propagated_values, propagated_attributes, read_propagated_attributes,
    resolve_propagated_attributes, update_attributes, AttributeValue, PropagateAttributes,
    SpanUpdateParams, BAGGAGE_SESSION_ID, BAGGAGE_TAGS, BAGGAGE_TRACE_ID, BAGGAGE_USER_ID,
};
use langfuse::types::SpanLevel;

fn attrs() -> PropagateAttributes {
    PropagateAttributes {
        user_id: Some("u-1".to_string()),
        session_id: None,
        metadata: None,
        version: Some("1.0".to_string()),
        tags: Some(vec!["prod".to_string(), "a\"b".to_string()]),
        trace_name: None,
        as_baggage: true,
    }
}

fn lookup<'a>(entries: &'a [(String, String)], key: &str) -> Option<&'a str> {
    entries.iter().rev().find(|(k, _)| k == key).map(|(_, v)| v.as_str())
}

#[test]
fn presence_of_values() {
    assert!(!has_propagated_values(&PropagateAttributes::default()));
    let mut a = PropagateAttributes::default();
    a.as_baggage = true;
    assert!(!has_propagated_values(&a));
    a.trace_name = Some("t".to_string());
    assert!(has_propagated_values(&a));
}

#[test]
fn explicit_values_win_and_baggage_fills_the_gaps() {
    let from_baggage = read_propagated_attributes(
        Some("u-bag".to_string()),
        Some("s-bag".to_string()),
        Some("[\"x\"]".to_string()),
    );
    let merged = resolve_propagated_attributes(Some(attrs()), from_baggage).unwrap();
    assert_eq!(merged.user_id.as_deref(), Some("u-1"));
    assert_eq!(merged.session_id.as_deref(), Some("s-bag"));
    assert_eq!(merged.tags, Some(vec!["prod".to_string(), "a\"b".to_string()]));
    assert_eq!(merged.version.as_deref(), Some("1.0"));

    let nothing = resolve_propagated_attributes(None, read_propagated_attributes(None, None, None));
    assert!(nothing.is_none());
    let only_baggage =
        resolve_propagated_attributes(None, read_propagated_attributes(None, Some("s".to_string()), None)).unwrap();
    assert_eq!(only_baggage.session_id.as_deref(), Some("s"));
}

#[test]
fn baggage_tags_must_be_a_non_empty_string_array() {
    assert_eq!(read_propagated_attributes(None, None, Some("[]".to_string())).tags, None);
    assert_eq!(read_propagated_attributes(None, None, Some("not json".to_string())).tags, None);
    assert_eq!(read_propagated_attributes(None, None, Some("[1,2]".to_string())).tags, None);
    assert_eq!(
        read_propagated_attributes(None, None, Some("[\"a\",\"b\"]".to_string())).tags,
        Some(vec!["a".to_string(), "b".to_string()])
    );
}

#[test]
fn baggage_written_reads_back() {
    let a = attrs();
    let entries = baggage_entries(&a, Some("trace-1".to_string()));
    assert_eq!(lookup(&entries, BAGGAGE_TRACE_ID), Some("trace-1"));
    assert_eq!(lookup(&entries, BAGGAGE_USER_ID), Some("u-1"));
    assert_eq!(lookup(&entries, BAGGAGE_SESSION_ID), None);
    assert_eq!(lookup(&entries, BAGGAGE_TAGS), Some("[\"prod\",\"a\\\"b\"]"));
    let back = read_propagated_attributes(
        lookup(&entries, BAGGAGE_USER_ID).map(String::from),
        lookup(&entries, BAGGAGE_SESSION_ID).map(String::from),
        lookup(&entries, BAGGAGE_TAGS).map(String::from),
    );
    assert_eq!(back.user_id, a.user_id);
    assert_eq!(back.session_id, None);
    assert_eq!(back.tags, a.tags);
    assert!(baggage_entries(&PropagateAttributes::default(), None).is_empty());
}

#[test]
fn span_attributes_of_propagated_values() {
    let mut a = attrs();
    a.metadata = Some(serde_json::from_str("{\"k\": 1}").unwrap());
    a.trace_name = Some("flow".to_string());
    let list = propagated_attributes(&a);
    let keys: Vec<&str> = list.iter().map(|x| x.key.as_str()).collect();
    assert_eq!(
        keys,
        vec![
            "langfuse.user.id",
            "langfuse.observation.metadata",
            "langfuse.version",
            "langfuse.trace.tags",
            "langfuse.trace.name"
        ]
    );
    assert!(matches!(&list[0].value, AttributeValue::Text(v) if v == "u-1"));
    assert!(matches!(&list[1].value, AttributeValue::Json(v) if v["k"] == 1));
    assert!(matches!(&list[3].value, AttributeValue::Tags(t) if t.len() == 2));
}

#[test]
fn span_update_attributes_in_order() {
    let params = SpanUpdateParams {
        output: Some(serde_json::Value::String("done".to_string())),
        metadata: None,
        level: Some(SpanLevel::Warning),
        status_message: Some("slow".to_string()),
        version: None,
        tags: Some(vec![]),
    };
    let list = update_attributes(params);
    let keys: Vec<&str> = list.iter().map(|x| x.key.as_str()).collect();
    assert_eq!(
        keys,
        vec![
            "langfuse.observation.output",
            "langfuse.observation.level",
            "langfuse.observation.status_message",
            "langfuse.trace.tags"
        ]
    );
    assert!(matches!(list[1].value, AttributeValue::Level(SpanLevel::Warning)));
    assert!(update_attributes(SpanUpdateParams {
        output: None,
        metadata: None,
        level: None,
        status_message: None,
        version: None,
        tags: None
    })
    .is_empty());
}

#[test]
fn baggage_tags_are_compact_escaped_json() {
    let a = PropagateAttributes {
        tags: Some(vec!["a\"b".to_string(), "c\\d\n".to_string(), "\u{1}é/".to_string()]),
        ..PropagateAttributes::default()
    };
    let entries = baggage_entries(&a, None);
    assert_eq!(entries.len(), 1);
    assert_eq!(entries[0].0, "langfuse.tags");
    assert_eq!(entries[0].1, "[\"a\\\"b\",\"c\\\\d\\n\",\"\\u0001é/\"]");
    let back = read_propagated_attributes(None, None, Some(entries[0].1.clone()));
    assert_eq!(back.tags, a.tags);
}
