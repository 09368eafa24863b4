//! Error types of the library and the retry rule applied to them.

use vstd::prelude::*;

use crate::chars::{append_str, copy_string, decimal, push_decimal};

verus! {

/// Configuration-specific errors.
#[derive(Debug)]
pub enum ConfigError {
    /// A required configuration field was not provided.
    MissingField {
        /// Name of the missing configuration field.
        field: String,
    },
    /// A configuration field had an invalid value.
    InvalidValue {
        /// Name of the invalid field.
        field: String,
        /// Description of why the value is invalid.
        message: String,
    },
}

/// Primary error type for all operations of the library.
#[derive(Debug)]
pub enum LangfuseError {
    /// Configuration error.
    Config(ConfigError),
    /// The API answered with an error status.
    Api {
        /// HTTP status code.
        status: u16,
        /// Error message from the API.
        message: String,
    },
    /// Authentication failed (401).
    Auth,
    /// Network-level error, with the transport's description of it.
    Network(String),
    /// Serialization or deserialization error, with its description.
    Serialization(String),
    /// Requested prompt was not found.
    PromptNotFound {
        /// Name of the prompt that was not found.
        name: String,
    },
    /// Prompt template compilation failed.
    PromptCompilation {
        /// Name of the missing template variable, or `unclosed {{`.
        variable: String,
    },
    /// Media upload or processing error.
    Media(String),
    /// OpenTelemetry pipeline error.
    Otel(String),
}

impl From<ConfigError> for LangfuseError {
    fn from(err: ConfigError) -> (r: LangfuseError) {
        LangfuseError::Config(err)
    }
}

impl vstd::std_specs::convert::FromSpecImpl<ConfigError> for LangfuseError {
    open spec fn obeys_from_spec() -> bool {
        true
    }

    open spec fn from_spec(err: ConfigError) -> LangfuseError {
        LangfuseError::Config(err)
    }
}

/// The text of a configuration error.
pub open spec fn config_error_text(e: ConfigError) -> Seq<char> {
    match e {
        ConfigError::MissingField { field } => "Missing required configuration: "@ + field@,
        ConfigError::InvalidValue { field, message } => "Invalid configuration value for '"@
            + field@ + "': "@ + message@,
    }
}

/// The text of an error, as the library displays it.
pub open spec fn error_text(e: LangfuseError) -> Seq<char> {
    match e {
        LangfuseError::Config(c) => "Configuration error: "@ + config_error_text(c),
        LangfuseError::Api { status, message } => "API error: "@ + decimal(status as nat) + " - "@
            + message@,
        LangfuseError::Auth => "Authentication failed"@,
        LangfuseError::Network(m) => "Network error: "@ + m@,
        LangfuseError::Serialization(m) => "Serialization error: "@ + m@,
        LangfuseError::PromptNotFound { name } => "Prompt not found: "@ + name@,
        LangfuseError::PromptCompilation { variable } => "Prompt compilation error: missing variable '"@
            + variable@ + "'"@,
        LangfuseError::Media(m) => "Media error: "@ + m@,
        LangfuseError::Otel(m) => "OpenTelemetry error: "@ + m@,
    }
}

impl ConfigError {
    /// The text of the error.
    pub fn message(&self) -> (r: String)
        ensures
            r@ == config_error_text(*self),
    {
        let mut r = String::new();
        match self {
            ConfigError::MissingField { field } => {
                append_str(&mut r, "Missing required configuration: ");
                append_str(&mut r, field.as_str());
            },
            ConfigError::InvalidValue { field, message } => {
                append_str(&mut r, "Invalid configuration value for '");
                append_str(&mut r, field.as_str());
                append_str(&mut r, "': ");
                append_str(&mut r, message.as_str());
            },
        }
        r
    }
}

impl LangfuseError {
    /// The text of the error.
    pub fn message(&self) -> (r: String)
        ensures
            r@ == error_text(*self),
    {
        let mut r = String::new();
        match self {
            LangfuseError::Config(c) => {
                append_str(&mut r, "Configuration error: ");
                let m = c.message();
                append_str(&mut r, m.as_str());
            },
            LangfuseError::Api { status, message } => {
                append_str(&mut r, "API error: ");
                push_decimal(&mut r, *status as u64);
                append_str(&mut r, " - ");
                append_str(&mut r, message.as_str());
            },
            LangfuseError::Auth => {
                append_str(&mut r, "Authentication failed");
            },
            LangfuseError::Network(m) => {
                append_str(&mut r, "Network error: ");
                append_str(&mut r, m.as_str());
            },
            LangfuseError::Serialization(m) => {
                append_str(&mut r, "Serialization error: ");
                append_str(&mut r, m.as_str());
            },
            LangfuseError::PromptNotFound { name } => {
                append_str(&mut r, "Prompt not found: ");
                append_str(&mut r, name.as_str());
            },
            LangfuseError::PromptCompilation { variable } => {
                append_str(&mut r, "Prompt compilation error: missing variable '");
                append_str(&mut r, variable.as_str());
                append_str(&mut r, "'");
            },
            LangfuseError::Media(m) => {
                append_str(&mut r, "Media error: ");
                append_str(&mut r, m.as_str());
            },
            LangfuseError::Otel(m) => {
                append_str(&mut r, "OpenTelemetry error: ");
                append_str(&mut r, m.as_str());
            },
        }
        r
    }
}

/// An error is worth retrying: network failures, `429 Too Many Requests`
/// and server errors (`5xx`).
pub open spec fn retryable(e: LangfuseError) -> bool {
    match e {
        LangfuseError::Network(_) => true,
        LangfuseError::Api { status, .. } => status == 429 || status >= 500,
        _ => false,
    }
}

/// Determine if an error is retryable.
pub fn should_retry(err: &LangfuseError) -> (r: bool)
    ensures
        r == retryable(*err),
{
    match err {
        LangfuseError::Network(_) => true,
        LangfuseError::Api { status, .. } => *status == 429 || *status >= 500,
        _ => false,
    }
}

/// Which failures are retried: every network failure, every API error with
/// a server status (`500` to `599`) or `429`, and nothing else (no other
/// status, and no configuration, authentication, parsing, prompt, media or
/// telemetry error).
pub proof fn lemma_retry_rule(status: u16, message: String, text: String)
    ensures
        500 <= status <= 599 ==> retryable(LangfuseError::Api { status, message }),
        status == 429 ==> retryable(LangfuseError::Api { status, message }),
        status < 500 && status != 429 ==> !retryable(LangfuseError::Api { status, message }),
        retryable(LangfuseError::Network(text)),
        !retryable(LangfuseError::Auth),
        !retryable(LangfuseError::Serialization(text)),
        !retryable(LangfuseError::Media(text)),
        !retryable(LangfuseError::Otel(text)),
        !retryable(LangfuseError::PromptNotFound { name: text }),
        !retryable(LangfuseError::PromptCompilation { variable: text }),
{
}

/// What a retry loop does after a failed attempt.
pub enum RetryStep {
    /// Wait for the next backoff delay, then try again.
    Retry,
    /// Give up and report the error.
    Fail,
}

/// The decision of the retry loop after attempt number `attempt` (counted
/// from zero) failed with `err`: retry while the error is retryable and fewer
/// than `max_retries` retries have been made.
pub fn retry_step(err: &LangfuseError, attempt: usize, max_retries: usize) -> (r: RetryStep)
    ensures
        r is Retry <==> (retryable(*err) && attempt < max_retries),
{
    if should_retry(err) && attempt < max_retries {
        RetryStep::Retry
    } else {
        RetryStep::Fail
    }
}

/// The error that an HTTP response with a failing `status` is reported as:
/// `401` is an authentication failure, any other status outside `2xx` an API
/// error carrying the response body; a `2xx` status is no error.
pub fn status_error(status: u16, body: &String) -> (r: Option<LangfuseError>)
    ensures
        200 <= status < 300 ==> r is None,
        status == 401 ==> r == Some(LangfuseError::Auth),
        status != 401 && !(200 <= status < 300) ==> (r matches Some(
            LangfuseError::Api { status: s, message },
        ) && s == status && message@ == body@),
{
    if 200 <= status && status < 300 {
        None
    } else if status == 401 {
        Some(LangfuseError::Auth)
    } else {
        Some(LangfuseError::Api { status, message: copy_string(body) })
    }
}


/// The error of an HTTP response whose status is not a success, where no
/// status is singled out: any status outside `2xx` is an API error with the
/// response body.
pub fn api_status_error(status: u16, body: &String) -> (r: Option<LangfuseError>)
    ensures
        200 <= status < 300 ==> r is None,
        !(200 <= status < 300) ==> (r matches Some(LangfuseError::Api { status: s, message })
            && s == status && message@ == body@),
{
    if 200 <= status && status < 300 {
        None
    } else {
        Some(LangfuseError::Api { status, message: copy_string(body) })
    }
}

/// The error of the credentials check: `401` and `403` are authentication
/// failures, any other status outside `2xx` an API error with the body.
pub fn auth_check_error(status: u16, body: &String) -> (r: Option<LangfuseError>)
    ensures
        200 <= status < 300 ==> r is None,
        status == 401 || status == 403 ==> r == Some(LangfuseError::Auth),
        status != 401 && status != 403 && !(200 <= status < 300) ==> (r matches Some(
            LangfuseError::Api { status: s, message },
        ) && s == status && message@ == body@),
{
    if status == 401 || status == 403 {
        Some(LangfuseError::Auth)
    } else {
        api_status_error(status, body)
    }
}

/// The retries of one request: how many have been made, out of how many
/// allowed.
pub struct RetryBudget {
    retries: usize,
    max_retries: usize,
}

impl RetryBudget {
    #[verifier::type_invariant]
    spec fn within_budget(self) -> bool {
        self.retries <= self.max_retries
    }

    /// Retries made so far.
    pub closed spec fn used(&self) -> nat {
        self.retries as nat
    }

    /// Retries allowed.
    pub closed spec fn allowed(&self) -> nat {
        self.max_retries as nat
    }

    /// A request that may be retried up to `max_retries` times.
    pub fn new(max_retries: usize) -> (r: RetryBudget)
        ensures
            r.used() == 0,
            r.allowed() == max_retries,
    {
        RetryBudget { retries: 0, max_retries }
    }

    /// The decision after a failed attempt: retry (and count it) while the
    /// error is retryable and retries are left, else give up.
    pub fn on_failure(&mut self, err: &LangfuseError) -> (r: RetryStep)
        ensures
            final(self).allowed() == old(self).allowed(),
            final(self).used() <= final(self).allowed(),
            r is Retry <==> (retryable(*err) && old(self).used() < old(self).allowed()),
            final(self).used() == (if r is Retry {
                old(self).used() + 1
            } else {
                old(self).used()
            }),
    {
        proof {
            use_type_invariant(&*self);
        }
        match retry_step(err, self.retries, self.max_retries) {
            RetryStep::Retry => {
                self.retries = self.retries + 1;
                RetryStep::Retry
            },
            RetryStep::Fail => RetryStep::Fail,
        }
    }
}


} // verus!
