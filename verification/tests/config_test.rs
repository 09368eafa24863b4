use langfuse::config::{get_current_trace_url, trace_url, EnvValues, LangfuseConfig};
use langfuse::error::{ConfigError, LangfuseError};
use std::time::Duration;

fn env(public_key: Option<&str>, secret_key: Option<&str>) -> EnvValues {
    EnvValues {
        public_key: public_key.map(String::from),
        secret_key: secret_key.map(String::from),
        base_url: None,
        timeout: None,
        flush_at: None,
        flush_interval: None,
        environment: None,
        release: None,
        debug: None,
        tracing_enabled: None,
        max_retries: None,
        media_upload_thread_count: None,
        io_capture_enabled: None,
    }
}

#[test]
fn test_config_defaults() {
    let config = LangfuseConfig::builder()
        .public_key("pk-lf-test")
        .secret_key("sk-lf-test")
        .build()
        .unwrap();

    assert_eq!(config.public_key, "pk-lf-test");
    assert_eq!(config.secret_key, "sk-lf-test");
    assert_eq!(config.base_url, "https://cloud.langfuse.com");
    assert_eq!(config.timeout, Duration::from_secs(5));
    assert_eq!(config.flush_at, 512);
    assert_eq!(config.flush_interval, Duration::from_secs(5));
    assert!(config.tracing_enabled);
    assert!(!config.debug);
}

#[test]
fn test_config_from_env() {
    let mut values = env(Some("pk-lf-env"), Some("sk-lf-env"));
    values.base_url = Some("https://custom.langfuse.com".to_string());
    values.timeout = Some("10".to_string());

    let config = LangfuseConfig::from_env_values(&values).unwrap();
    assert_eq!(config.public_key, "pk-lf-env");
    assert_eq!(config.secret_key, "sk-lf-env");
    assert_eq!(config.base_url, "https://custom.langfuse.com");
    assert_eq!(config.timeout, Duration::from_secs(10));
}

#[test]
fn test_config_missing_keys() {
    let result = LangfuseConfig::from_env_values(&env(None, None));
    assert!(result.is_err());
}

#[test]
fn test_config_basic_auth_header() {
    let config = LangfuseConfig::builder()
        .public_key("pk-lf-test")
        .secret_key("sk-lf-test")
        .build()
        .unwrap();

    let header = config.basic_auth_header();
    // Basic base64("pk-lf-test:sk-lf-test")
    assert!(header.starts_with("Basic "));
}

#[test]
fn test_config_otel_endpoint() {
    let config = LangfuseConfig::builder()
        .public_key("pk")
        .secret_key("sk")
        .base_url("https://example.com")
        .build()
        .unwrap();

    assert_eq!(
        config.otel_endpoint(),
        "https://example.com/api/public/otel/v1/traces"
    );
}

#[test]
fn test_config_otel_endpoint_trailing_slash() {
    let config = LangfuseConfig::builder()
        .public_key("pk")
        .secret_key("sk")
        .base_url("https://example.com/")
        .build()
        .unwrap();

    assert_eq!(
        config.otel_endpoint(),
        "https://example.com/api/public/otel/v1/traces"
    );
}

#[test]
fn test_config_api_base_url() {
    let config = LangfuseConfig::builder()
        .public_key("pk")
        .secret_key("sk")
        .build()
        .unwrap();

    assert_eq!(
        config.api_base_url(),
        "https://cloud.langfuse.com/api/public"
    );
}

#[test]
fn basic_auth_header_is_exact_base64_of_credentials() {
    let config = LangfuseConfig::builder()
        .public_key("pk-lf-test")
        .secret_key("sk-lf-test")
        .build()
        .unwrap();
    assert_eq!(
        config.basic_auth_header(),
        "Basic cGstbGYtdGVzdDpzay1sZi10ZXN0"
    );
}

#[test]
fn builder_missing_public_key_is_reported_first() {
    match LangfuseConfig::builder().build() {
        Err(ConfigError::MissingField { field }) => assert_eq!(field, "public_key"),
        Err(other) => panic!("unexpected {other:?}"),
        Ok(_) => panic!("built without keys"),
    }
    match LangfuseConfig::builder().public_key("pk").build() {
        Err(ConfigError::MissingField { field }) => assert_eq!(field, "secret_key"),
        Err(other) => panic!("unexpected {other:?}"),
        Ok(_) => panic!("built without a secret key"),
    }
}

#[test]
fn builder_keeps_every_given_value() {
    let config = LangfuseConfig::builder()
        .public_key("pk")
        .secret_key("sk")
        .base_url("https://eu.example.com")
        .timeout(Duration::from_millis(1500))
        .flush_at(7)
        .flush_interval(Duration::from_secs(2))
        .environment("staging")
        .release("v1.2.3")
        .debug(true)
        .tracing_enabled(false)
        .max_retries(9)
        .media_upload_thread_count(2)
        .io_capture_enabled(false)
        .build()
        .unwrap();
    assert_eq!(config.base_url, "https://eu.example.com");
    assert_eq!(config.timeout, Duration::from_millis(1500));
    assert_eq!(config.flush_at, 7);
    assert_eq!(config.flush_interval, Duration::from_secs(2));
    assert_eq!(config.environment.as_deref(), Some("staging"));
    assert_eq!(config.release.as_deref(), Some("v1.2.3"));
    assert!(config.debug);
    assert!(!config.tracing_enabled);
    assert_eq!(config.max_retries, 9);
    assert_eq!(config.media_upload_thread_count, 2);
    assert!(!config.io_capture_enabled);
}

#[test]
fn builder_defaults_of_the_remaining_fields() {
    let config = LangfuseConfig::builder()
        .public_key("pk")
        .secret_key("sk")
        .build()
        .unwrap();
    assert_eq!(config.max_retries, 3);
    assert_eq!(config.media_upload_thread_count, 4);
    assert!(config.io_capture_enabled);
    assert!(config.environment.is_none());
    assert!(config.release.is_none());
    assert!(config.additional_headers.is_none());
}

#[test]
fn env_missing_secret_key_names_the_variable() {
    match LangfuseConfig::from_env_values(&env(Some("pk"), None)) {
        Err(ConfigError::MissingField { field }) => assert_eq!(field, "LANGFUSE_SECRET_KEY"),
        Err(other) => panic!("unexpected {other:?}"),
        Ok(_) => panic!("built without a secret key"),
    }
    match LangfuseConfig::from_env_values(&env(None, Some("sk"))) {
        Err(ConfigError::MissingField { field }) => assert_eq!(field, "LANGFUSE_PUBLIC_KEY"),
        Err(other) => panic!("unexpected {other:?}"),
        Ok(_) => panic!("built without a public key"),
    }
}

#[test]
fn env_numbers_and_flags() {
    let mut values = env(Some("pk"), Some("sk"));
    values.flush_at = Some("64".to_string());
    values.flush_interval = Some("not-a-number".to_string());
    values.debug = Some("TRUE".to_string());
    values.tracing_enabled = Some("0".to_string());
    values.max_retries = Some("1".to_string());
    values.media_upload_thread_count = Some("-3".to_string());
    values.io_capture_enabled = Some("1".to_string());
    values.environment = Some("prod".to_string());
    let config = LangfuseConfig::from_env_values(&values).unwrap();
    assert_eq!(config.base_url, "https://cloud.langfuse.com");
    assert_eq!(config.flush_at, 64);
    assert_eq!(config.flush_interval, Duration::from_secs(5));
    assert!(config.debug);
    assert!(!config.tracing_enabled);
    assert_eq!(config.max_retries, 1);
    assert_eq!(config.media_upload_thread_count, 4);
    assert!(config.io_capture_enabled);
    assert_eq!(config.environment.as_deref(), Some("prod"));
}

#[test]
fn trace_urls() {
    let config = LangfuseConfig::builder()
        .public_key("pk")
        .secret_key("sk")
        .base_url("https://example.com//")
        .build()
        .unwrap();
    assert_eq!(config.get_trace_url("abc"), "https://example.com/trace/abc");
    assert_eq!(trace_url("https://x.io", "t1"), "https://x.io/trace/t1");
    assert_eq!(
        get_current_trace_url(Some("t1"), Some("https://x.io/")).unwrap(),
        "https://x.io/trace/t1"
    );
    match get_current_trace_url(None, Some("https://x.io")) {
        Err(LangfuseError::Otel(m)) => assert_eq!(m, "no active span"),
        other => panic!("unexpected {other:?}"),
    }
    match get_current_trace_url(Some("t1"), None) {
        Err(LangfuseError::Otel(m)) => assert_eq!(m, "Langfuse not initialized"),
        other => panic!("unexpected {other:?}"),
    }
}
