use langfuse::propagation::{is_false, PropagateAttributes};
use langfuse::types::{ObservationType, PromptType, ScoreDataType, SpanLevel, UsageDetails};

#[test]
fn usage_details_default_is_all_none() {
    let usage = UsageDetails::default();
    assert_eq!(usage.input, None);
    assert_eq!(usage.output, None);
    assert_eq!(usage.total, None);
}

#[test]
fn propagate_attributes_default_is_all_none() {
    let attrs = PropagateAttributes::default();
    assert_eq!(attrs.user_id, None);
    assert_eq!(attrs.session_id, None);
    assert_eq!(attrs.metadata, None);
    assert_eq!(attrs.version, None);
    assert_eq!(attrs.tags, None);
    assert_eq!(attrs.trace_name, None);
    assert!(!attrs.as_baggage);
}

#[test]
fn observation_type_names_are_lowercase_and_read_back() {
    let all = [
        (ObservationType::Span, "span"),
        (ObservationType::Generation, "generation"),
        (ObservationType::Event, "event"),
        (ObservationType::Embedding, "embedding"),
        (ObservationType::Agent, "agent"),
        (ObservationType::Tool, "tool"),
        (ObservationType::Chain, "chain"),
        (ObservationType::Retriever, "retriever"),
        (ObservationType::Evaluator, "evaluator"),
        (ObservationType::Guardrail, "guardrail"),
    ];
    for (variant, name) in all {
        assert_eq!(variant.as_str(), name);
        assert_eq!(ObservationType::from_name(name), Some(variant));
    }
    assert_eq!(ObservationType::from_name("Span"), None);
    assert_eq!(ObservationType::from_name(""), None);
}

#[test]
fn span_level_names_are_screaming_snake_case() {
    let all = [
        (SpanLevel::Debug, "DEBUG"),
        (SpanLevel::Default, "DEFAULT"),
        (SpanLevel::Warning, "WARNING"),
        (SpanLevel::Error, "ERROR"),
    ];
    for (variant, name) in all {
        assert_eq!(variant.as_str(), name);
        assert_eq!(SpanLevel::from_name(name), Some(variant));
    }
    assert_eq!(SpanLevel::from_name("error"), None);
}

#[test]
fn score_data_type_names_are_screaming_snake_case() {
    let all = [
        (ScoreDataType::Numeric, "NUMERIC"),
        (ScoreDataType::Categorical, "CATEGORICAL"),
        (ScoreDataType::Boolean, "BOOLEAN"),
    ];
    for (variant, name) in all {
        assert_eq!(variant.as_str(), name);
        assert_eq!(ScoreDataType::from_name(name), Some(variant));
    }
    assert_eq!(ScoreDataType::from_name("numeric"), None);
}

#[test]
fn prompt_type_names_are_lowercase() {
    assert_eq!(PromptType::Text.as_str(), "text");
    assert_eq!(PromptType::Chat.as_str(), "chat");
    assert_eq!(PromptType::from_name("text"), Some(PromptType::Text));
    assert_eq!(PromptType::from_name("chat"), Some(PromptType::Chat));
    assert_eq!(PromptType::from_name("TEXT"), None);
}

#[test]
fn usage_from_counts_keeps_each_count() {
    let usage = UsageDetails::from_counts(100, 50, 150);
    assert_eq!(usage.input, Some(100));
    assert_eq!(usage.output, Some(50));
    assert_eq!(usage.total, Some(150));
}

#[test]
fn is_false_negates() {
    assert!(is_false(&false));
    assert!(!is_false(&true));
}
