use langfuse::observe::{
    detect_return_wrapper, plan_observe, AsyncHelper, ObserveArg, ObserveArgError, ObserveArgs,
    ObserveEntry, ReturnWrapper, SyncStart,
};
use langfuse::types::ObservationType;

fn s(key: &str, value: &str) -> ObserveArg {
    ObserveArg::Str { key: Some(key.to_string()), value: value.to_string() }
}

fn b(key: &str, value: bool) -> ObserveArg {
    ObserveArg::Bool { key: Some(key.to_string()), value }
}

#[test]
fn no_arguments_give_the_defaults() {
    let args = ObserveArgs::from_args(&vec![]).unwrap();
    assert!(args.name.is_none());
    assert!(args.as_type.is_none());
    assert!(args.capture_input);
    assert!(args.capture_output);
    assert!(args.transform_to_string.is_none());
}

#[test]
fn all_known_arguments_are_read() {
    let args = ObserveArgs::from_args(&vec![
        s("name", "custom"),
        s("as_type", "generation"),
        b("capture_input", false),
        b("capture_output", false),
        s("transform_to_string", "my::join"),
    ])
    .unwrap();
    assert_eq!(args.name.as_deref(), Some("custom"));
    assert_eq!(args.as_type.as_deref(), Some("generation"));
    assert!(!args.capture_input);
    assert!(!args.capture_output);
    assert_eq!(args.transform_to_string.as_deref(), Some("my::join"));
}

#[test]
fn bare_capture_flags_turn_capture_on() {
    let args = ObserveArgs::from_args(&vec![
        b("capture_input", false),
        ObserveArg::Flag { key: Some("capture_input".to_string()) },
        ObserveArg::Flag { key: Some("capture_output".to_string()) },
    ])
    .unwrap();
    assert!(args.capture_input);
    assert!(args.capture_output);
}

#[test]
fn refused_arguments() {
    match ObserveArgs::from_args(&vec![s("as_type", "bogus")]) {
        Err(e @ ObserveArgError::InvalidAsType { .. }) => assert_eq!(
            e.message(),
            "as_type must be one of: span, generation, event, embedding, agent, tool, chain, retriever, evaluator, guardrail"
        ),
        other => panic!("unexpected {other:?}"),
    }
    match ObserveArgs::from_args(&vec![s("name", "x"), s("colour", "red")]) {
        Err(e @ ObserveArgError::UnknownAttribute { .. }) => {
            assert_eq!(e.message(), "unknown observe attribute: `colour`")
        }
        other => panic!("unexpected {other:?}"),
    }
    match ObserveArgs::from_args(&vec![b("name", true)]) {
        Err(ObserveArgError::UnknownAttribute { key }) => assert_eq!(key, "name"),
        other => panic!("unexpected {other:?}"),
    }
    match ObserveArgs::from_args(&vec![ObserveArg::Str { key: None, value: "x".to_string() }]) {
        Err(e @ ObserveArgError::ExpectedIdentifier) => assert_eq!(e.message(), "expected identifier"),
        other => panic!("unexpected {other:?}"),
    }
    match ObserveArgs::from_args(&vec![ObserveArg::Other]) {
        Err(e @ ObserveArgError::ExpectedKeyValue) => {
            assert_eq!(e.message(), "expected `key = value` pair (e.g. `name = \"my-span\"`)")
        }
        other => panic!("unexpected {other:?}"),
    }
    assert!(matches!(
        ObserveArgs::from_args(&vec![ObserveArg::Flag { key: Some("name".to_string()) }]),
        Err(ObserveArgError::ExpectedKeyValue)
    ));
}

#[test]
fn the_first_refused_argument_decides() {
    match ObserveArgs::from_args(&vec![ObserveArg::Other, s("as_type", "bogus")]) {
        Err(ObserveArgError::ExpectedKeyValue) => {}
        other => panic!("unexpected {other:?}"),
    }
}

#[test]
fn return_wrappers() {
    assert_eq!(detect_return_wrapper(&None), None);
    assert_eq!(detect_return_wrapper(&Some("impl Stream < Item = u8 >".to_string())), Some(ReturnWrapper::Stream));
    assert_eq!(detect_return_wrapper(&Some("impl Iterator < Item = u8 >".to_string())), Some(ReturnWrapper::Iterator));
    assert_eq!(detect_return_wrapper(&Some("StreamingIterator".to_string())), Some(ReturnWrapper::Stream));
    assert_eq!(detect_return_wrapper(&Some("String".to_string())), None);
}

#[test]
fn plan_for_an_async_generation() {
    let args = ObserveArgs::from_args(&vec![s("as_type", "generation")]).unwrap();
    let plan = plan_observe(&args, "ask", true, &Some("String".to_string()), &vec!["q".to_string()]);
    assert_eq!(plan.span_name, "ask");
    assert_eq!(plan.entry, ObserveEntry::Async(AsyncHelper::Generation));
    assert!(plan.capture_input);
    assert_eq!(plan.input_keys, vec!["q".to_string()]);
    assert!(plan.capture_output);
    assert_eq!(plan.wrapper, None);
    assert!(plan.end_span);
    assert!(plan.transform.is_none());
}

#[test]
fn plan_for_a_sync_stream_with_transform() {
    let args = ObserveArgs::from_args(&vec![s("name", "feed"), s("transform_to_string", "join")]).unwrap();
    let plan = plan_observe(&args, "f", false, &Some("impl Stream<Item = String>".to_string()), &vec![]);
    assert_eq!(plan.span_name, "feed");
    assert_eq!(plan.entry, ObserveEntry::Sync(SyncStart::Span(ObservationType::Span)));
    assert!(!plan.capture_input);
    assert!(!plan.capture_output);
    assert_eq!(plan.wrapper, Some(ReturnWrapper::Stream));
    assert!(!plan.end_span);
    assert_eq!(plan.transform.as_deref(), Some("join"));
}

#[test]
fn plan_entries_by_type() {
    let cases = [
        ("span", ObserveEntry::Async(AsyncHelper::Observation(ObservationType::Span))),
        ("event", ObserveEntry::Async(AsyncHelper::Observation(ObservationType::Event))),
        ("tool", ObserveEntry::Async(AsyncHelper::Tool)),
        ("embedding", ObserveEntry::Async(AsyncHelper::Embedding)),
        ("guardrail", ObserveEntry::Async(AsyncHelper::Guardrail)),
    ];
    for (t, entry) in cases {
        let args = ObserveArgs::from_args(&vec![s("as_type", t)]).unwrap();
        assert_eq!(plan_observe(&args, "f", true, &None, &vec![]).entry, entry);
    }
    let args = ObserveArgs::from_args(&vec![s("as_type", "embedding")]).unwrap();
    assert_eq!(plan_observe(&args, "f", false, &None, &vec![]).entry, ObserveEntry::Sync(SyncStart::Embedding));
    let args = ObserveArgs::from_args(&vec![s("as_type", "agent")]).unwrap();
    assert_eq!(
        plan_observe(&args, "f", false, &None, &vec![]).entry,
        ObserveEntry::Sync(SyncStart::Span(ObservationType::Agent))
    );
}
