use langfuse::api::{
    already_initialized_error, current_score_target, current_trace_target, endpoint_url,
    named_instance_missing, Endpoint,
};
use langfuse::config::LangfuseConfig;
use langfuse::error::{
    api_status_error, auth_check_error, retry_step, should_retry, status_error, ConfigError,
    LangfuseError, RetryBudget, RetryStep,
};

#[test]
fn error_messages() {
    let e = LangfuseError::Api { status: 503, message: "busy".to_string() };
    assert_eq!(e.message(), "API error: 503 - busy");
    assert_eq!(LangfuseError::Auth.message(), "Authentication failed");
    assert_eq!(
        LangfuseError::PromptNotFound { name: "p".to_string() }.message(),
        "Prompt not found: p"
    );
    assert_eq!(
        LangfuseError::PromptCompilation { variable: "v".to_string() }.message(),
        "Prompt compilation error: missing variable 'v'"
    );
    assert_eq!(LangfuseError::Media("m".to_string()).message(), "Media error: m");
    assert_eq!(LangfuseError::Otel("o".to_string()).message(), "OpenTelemetry error: o");
    assert_eq!(LangfuseError::Network("n".to_string()).message(), "Network error: n");
    let missing = ConfigError::MissingField { field: "public_key".to_string() };
    assert_eq!(missing.message(), "Missing required configuration: public_key");
    let e: LangfuseError = missing.into();
    assert_eq!(e.message(), "Configuration error: Missing required configuration: public_key");
    let invalid = ConfigError::InvalidValue { field: "f".to_string(), message: "bad".to_string() };
    assert_eq!(invalid.message(), "Invalid configuration value for 'f': bad");
}

#[test]
fn retry_rules() {
    assert!(should_retry(&LangfuseError::Network("x".to_string())));
    assert!(should_retry(&LangfuseError::Api { status: 429, message: String::new() }));
    assert!(should_retry(&LangfuseError::Api { status: 500, message: String::new() }));
    assert!(!should_retry(&LangfuseError::Api { status: 404, message: String::new() }));
    assert!(!should_retry(&LangfuseError::Auth));
    assert!(matches!(retry_step(&LangfuseError::Auth, 0, 3), RetryStep::Fail));
    assert!(matches!(retry_step(&LangfuseError::Network(String::new()), 3, 3), RetryStep::Fail));
    assert!(matches!(retry_step(&LangfuseError::Network(String::new()), 2, 3), RetryStep::Retry));
}

#[test]
fn retry_budget_grants_at_most_max_retries() {
    let mut budget = RetryBudget::new(2);
    let err = LangfuseError::Api { status: 502, message: String::new() };
    assert!(matches!(budget.on_failure(&err), RetryStep::Retry));
    assert!(matches!(budget.on_failure(&err), RetryStep::Retry));
    assert!(matches!(budget.on_failure(&err), RetryStep::Fail));
    let mut fresh = RetryBudget::new(5);
    assert!(matches!(fresh.on_failure(&LangfuseError::Auth), RetryStep::Fail));
}

#[test]
fn status_mappings() {
    let body = "b".to_string();
    assert!(status_error(204, &body).is_none());
    assert!(matches!(status_error(401, &body), Some(LangfuseError::Auth)));
    assert!(matches!(status_error(403, &body), Some(LangfuseError::Api { status: 403, .. })));
    assert!(matches!(auth_check_error(403, &body), Some(LangfuseError::Auth)));
    assert!(matches!(auth_check_error(401, &body), Some(LangfuseError::Auth)));
    assert!(auth_check_error(200, &body).is_none());
    assert!(matches!(api_status_error(401, &body), Some(LangfuseError::Api { status: 401, .. })));
    assert!(api_status_error(299, &body).is_none());
}

#[test]
fn endpoints() {
    let config = LangfuseConfig::builder()
        .public_key("pk")
        .secret_key("sk")
        .base_url("https://h/")
        .build()
        .unwrap();
    assert_eq!(endpoint_url(&config, &Endpoint::Prompts), "https://h/api/public/v2/prompts");
    assert_eq!(endpoint_url(&config, &Endpoint::Prompt("p".to_string())), "https://h/api/public/v2/prompts/p");
    assert_eq!(endpoint_url(&config, &Endpoint::Dataset("d".to_string())), "https://h/api/public/datasets/d");
    assert_eq!(
        endpoint_url(&config, &Endpoint::DatasetRun("d".to_string(), "r".to_string())),
        "https://h/api/public/datasets/d/runs/r"
    );
    assert_eq!(endpoint_url(&config, &Endpoint::DatasetRuns("d".to_string())), "https://h/api/public/datasets/d/runs");
    assert_eq!(endpoint_url(&config, &Endpoint::DatasetItems), "https://h/api/public/dataset-items");
    assert_eq!(endpoint_url(&config, &Endpoint::Datasets), "https://h/api/public/datasets");
    assert_eq!(endpoint_url(&config, &Endpoint::Media), "https://h/api/public/media");
    assert_eq!(endpoint_url(&config, &Endpoint::MediaItem("m".to_string())), "https://h/api/public/media/m");
    assert_eq!(endpoint_url(&config, &Endpoint::Ingestion), "https://h/api/public/ingestion");
    assert_eq!(endpoint_url(&config, &Endpoint::Projects), "https://h/api/public/projects");
}

#[test]
fn client_errors() {
    match already_initialized_error() {
        LangfuseError::Config(ConfigError::InvalidValue { field, message }) => {
            assert_eq!(field, "global");
            assert_eq!(message, "Langfuse already initialized");
        }
        other => panic!("unexpected {other:?}"),
    }
    match named_instance_missing("eu") {
        LangfuseError::Config(ConfigError::InvalidValue { field, message }) => {
            assert_eq!(field, "name");
            assert_eq!(message, "Named instance 'eu' not initialized");
        }
        other => panic!("unexpected {other:?}"),
    }
}

#[test]
fn score_targets() {
    let ok = current_score_target(Some("t".to_string()), Some("o".to_string()), true).unwrap();
    assert_eq!(ok, ("t".to_string(), "o".to_string()));
    assert!(matches!(
        current_score_target(Some("t".to_string()), None, true),
        Err(LangfuseError::Otel(m)) if m == "no active span"
    ));
    assert!(matches!(
        current_score_target(Some("t".to_string()), Some("o".to_string()), false),
        Err(LangfuseError::Otel(m)) if m == "Langfuse not initialized"
    ));
    assert_eq!(current_trace_target(Some("t".to_string()), true).unwrap(), "t");
    assert!(matches!(current_trace_target(None, true), Err(LangfuseError::Otel(m)) if m == "no active span"));
}
