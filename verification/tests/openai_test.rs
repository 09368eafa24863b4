use langfuse::stream::{StreamChunk, StreamObserver};
use langfuse::tool_calls::{
    completion_output, reports_tool_calls, ChoiceOutline, CompletionOutput, ToolCallAccumulator, ToolCallDelta,
};
use langfuse::types::UsageDetails;

fn delta(
    index: u32,
    id: Option<&str>,
    call_type: Option<&str>,
    name: Option<&str>,
    arguments: Option<&str>,
) -> ToolCallDelta {
    ToolCallDelta {
        index,
        id: id.map(String::from),
        call_type: call_type.map(String::from),
        function_name: name.map(String::from),
        arguments: arguments.map(String::from),
    }
}

fn chunk(content: Option<&str>, usage: Option<UsageDetails>) -> StreamChunk {
    StreamChunk {
        model: "gpt-4".to_string(),
        content: content.map(String::from),
        usage,
        tool_calls: vec![],
    }
}

#[test]
fn test_extract_usage() {
    let usage = UsageDetails::from_counts(10, 20, 30);
    assert_eq!(usage.input, Some(10));
    assert_eq!(usage.output, Some(20));
    assert_eq!(usage.total, Some(30));
}

#[test]
fn test_extract_stream_chunk_content() {
    let mut observer = StreamObserver::new();
    observer.on_chunk(&chunk(Some("Hello"), None));
    let summary = observer.finalize().expect("expected summary");
    assert_eq!(summary.output, Some("Hello".to_string()));
}

#[test]
fn test_extract_stream_chunk_content_none() {
    let mut observer = StreamObserver::new();
    observer.on_chunk(&chunk(None, None));
    let summary = observer.finalize().expect("expected summary");
    assert!(summary.output.is_none());
}

#[test]
fn test_extract_stream_usage() {
    let mut observer = StreamObserver::new();
    let effects = observer.on_chunk(&chunk(None, Some(UsageDetails::from_counts(5, 15, 20))));
    let result = effects.usage.expect("expected usage");
    assert_eq!(result.input, Some(5));
    assert_eq!(result.output, Some(15));
    assert_eq!(result.total, Some(20));
}

#[test]
fn test_extract_stream_usage_none() {
    let mut observer = StreamObserver::new();
    let effects = observer.on_chunk(&chunk(Some("token"), None));
    assert!(effects.usage.is_none());
}

#[test]
fn test_tool_call_accumulator_single_call() {
    let mut acc = ToolCallAccumulator::new();

    // First chunk: tool call ID + function name start
    acc.accumulate(&vec![delta(0, Some("call_abc"), Some("function"), Some("get_weather"), Some(""))]);
    // Second chunk: argument fragment
    acc.accumulate(&vec![delta(0, None, None, None, Some(r#"{"loc"#))]);
    // Third chunk: remaining arguments
    acc.accumulate(&vec![delta(0, None, None, None, Some(r#"ation":"SF"}"#))]);

    assert!(acc.has_calls());
    let arr = acc.finalize();
    assert_eq!(arr.len(), 1);
    assert_eq!(arr[0].id, "call_abc");
    assert_eq!(arr[0].function_name, "get_weather");
    assert_eq!(arr[0].function_arguments, r#"{"location":"SF"}"#);
}

#[test]
fn test_tool_call_accumulator_parallel_calls() {
    let mut acc = ToolCallAccumulator::new();

    acc.accumulate(&vec![
        delta(0, Some("call_1"), Some("function"), Some("func_a"), Some(r#"{"a":1}"#)),
        delta(1, Some("call_2"), Some("function"), Some("func_b"), Some(r#"{"b":2}"#)),
    ]);

    assert!(acc.has_calls());
    let arr = acc.finalize();
    assert_eq!(arr.len(), 2);
    assert_eq!(arr[0].function_name, "func_a");
    assert_eq!(arr[1].function_name, "func_b");
}

#[test]
fn test_tool_call_accumulator_sparse_indices_skip_placeholders() {
    let mut acc = ToolCallAccumulator::new();

    acc.accumulate(&vec![delta(2, Some("call_3"), Some("function"), Some("func_c"), Some(r#"{"c":3}"#))]);

    assert!(acc.has_calls());
    let arr = acc.finalize();
    assert_eq!(arr.len(), 1);
    assert_eq!(arr[0].id, "call_3");
    assert_eq!(arr[0].function_name, "func_c");
}

#[test]
fn test_tool_call_accumulator_empty() {
    let acc = ToolCallAccumulator::new();
    assert!(!acc.has_calls());
    let result = acc.finalize();
    assert!(result.is_empty());
}

#[test]
fn test_tool_call_accumulator_chunk_without_tool_calls() {
    let mut acc = ToolCallAccumulator::new();
    // Regular content chunk — no tool calls.
    acc.accumulate(&vec![]);
    assert!(!acc.has_calls());
}

#[test]
fn tool_calls_come_out_in_index_order_whatever_the_arrival_order() {
    let mut acc = ToolCallAccumulator::new();
    acc.accumulate(&vec![delta(5, Some("c5"), None, Some("f5"), None)]);
    acc.accumulate(&vec![delta(1, Some("c1"), None, Some("f1"), None)]);
    acc.accumulate(&vec![delta(3, None, None, None, None)]);
    acc.accumulate(&vec![delta(5, Some("-b"), Some("function"), None, Some("{}"))]);
    let arr = acc.finalize();
    assert_eq!(arr.len(), 2);
    assert_eq!(arr[0].id, "c1");
    assert_eq!(arr[1].id, "c5-b");
    assert_eq!(arr[1].call_type, "function");
    assert_eq!(arr[1].function_arguments, "{}");
}

#[test]
fn a_later_type_replaces_the_earlier_one() {
    let mut acc = ToolCallAccumulator::new();
    acc.accumulate(&vec![delta(0, Some("x"), Some("function"), None, None)]);
    acc.accumulate(&vec![delta(0, None, Some("other"), None, None)]);
    let arr = acc.finalize();
    assert_eq!(arr[0].call_type, "other");
}

#[test]
fn stream_observer_marks_the_first_chunk_and_keeps_the_first_model() {
    let mut observer = StreamObserver::new();
    let mut first = chunk(Some("Hel"), None);
    first.model = "gpt-4o".to_string();
    let e1 = observer.on_chunk(&first);
    assert!(e1.mark_completion_start);
    let mut second = chunk(Some("lo"), None);
    second.model = "other".to_string();
    second.tool_calls = vec![delta(0, Some("call_1"), Some("function"), Some("f"), Some("{}"))];
    let e2 = observer.on_chunk(&second);
    assert!(!e2.mark_completion_start);
    let summary = observer.finalize().expect("expected summary");
    assert_eq!(summary.model.as_deref(), Some("gpt-4o"));
    assert_eq!(summary.output.as_deref(), Some("Hello"));
    let calls = summary.tool_calls.expect("expected tool calls");
    assert_eq!(calls.len(), 1);
    assert_eq!(calls[0].id, "call_1");
    assert!(observer.finalize().is_none());
    assert!(!observer.is_open());
}

#[test]
fn stream_observer_without_chunks_reports_nothing_but_ends_once() {
    let mut observer = StreamObserver::new();
    let summary = observer.finalize().expect("expected summary");
    assert!(summary.model.is_none());
    assert!(summary.output.is_none());
    assert!(summary.tool_calls.is_none());
    assert!(observer.finalize().is_none());
}

#[test]
fn after_finalize_usage_is_no_longer_recorded() {
    let mut observer = StreamObserver::new();
    observer.finalize();
    let effects = observer.on_chunk(&chunk(None, Some(UsageDetails::from_counts(1, 2, 3))));
    assert!(effects.usage.is_none());
    assert!(!effects.mark_completion_start);
}

#[test]
fn completion_output_prefers_tool_calls_then_text() {
    let outline = |n: usize, text: Option<&str>| ChoiceOutline { tool_call_count: n, content: text.map(String::from) };
    assert!(matches!(completion_output(None), CompletionOutput::Null));
    assert!(matches!(completion_output(Some(outline(0, None))), CompletionOutput::Null));
    match completion_output(Some(outline(0, Some("Hello, world!")))) {
        CompletionOutput::Text(t) => assert_eq!(t, "Hello, world!"),
        other => panic!("unexpected {other:?}"),
    }
    assert!(matches!(completion_output(Some(outline(1, Some("x")))), CompletionOutput::Message));
    assert!(!reports_tool_calls(&None));
    assert!(!reports_tool_calls(&Some(outline(0, Some("x")))));
    assert!(reports_tool_calls(&Some(outline(2, None))));
}
