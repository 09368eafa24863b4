//! Configuration of the client: builder, defaults, values read from the
//! environment, credentials header and endpoint URLs.

use vstd::prelude::*;

use std::collections::HashMap;
use std::time::Duration;

use crate::chars::{
    append_str, chars_of, copy_string, owned, parse_u64, parse_unsigned_spec, parse_usize,
    strip_trailing, trim_end_char,
};
use crate::codec::{base64_standard_decode, base64_standard_encode, encode_base64};
use crate::error::{ConfigError, LangfuseError};

verus! {

broadcast use vstd::string::group_string_axioms;

/// The duration of `secs` seconds, as `Duration::from_secs` builds it.
pub uninterp spec fn duration_of_secs(secs: u64) -> Duration;

/// Trusted wrapper of `std::time::Duration::from_secs`: the result is the
/// named duration of that many seconds.
#[verifier::external_body]
pub(crate) fn duration_from_secs(secs: u64) -> (r: Duration)
    ensures
        r == duration_of_secs(secs),
{
    Duration::from_secs(secs)
}

/// The default API base URL.
pub open spec fn default_base_url() -> Seq<char> {
    "https://cloud.langfuse.com"@
}

/// Configuration for the Langfuse client.
///
/// Built with [`LangfuseConfig::builder`] or from environment values with
/// [`LangfuseConfig::from_env_values`]. It has no `Debug`, so that the
/// secret key is never printed in clear.
pub struct LangfuseConfig {
    /// Langfuse public key (required).
    pub public_key: String,
    /// Langfuse secret key (required).
    pub secret_key: String,
    /// Langfuse API base URL. Defaults to `https://cloud.langfuse.com`.
    pub base_url: String,
    /// HTTP request timeout. Defaults to 5 seconds.
    pub timeout: Duration,
    /// Number of events to buffer before flushing. Defaults to 512.
    pub flush_at: usize,
    /// Maximum interval between flushes. Defaults to 5 seconds.
    pub flush_interval: Duration,
    /// Optional environment tag for traces.
    pub environment: Option<String>,
    /// Optional release tag for traces.
    pub release: Option<String>,
    /// Enable debug logging. Defaults to `false`.
    pub debug: bool,
    /// Enable tracing. Defaults to `true`.
    pub tracing_enabled: bool,
    /// Optional additional HTTP headers sent with every request.
    pub additional_headers: Option<HashMap<String, String>>,
    /// Maximum number of retries for HTTP requests. Defaults to 3.
    pub max_retries: usize,
    /// Number of threads for media uploads. Defaults to 4.
    pub media_upload_thread_count: usize,
    /// Whether I/O capture is enabled for the observe decorator. Defaults to `true`.
    pub io_capture_enabled: bool,
}

/// Builder for [`LangfuseConfig`].
pub struct LangfuseConfigBuilder {
    public_key: Option<String>,
    secret_key: Option<String>,
    base_url: Option<String>,
    timeout: Option<Duration>,
    flush_at: Option<usize>,
    flush_interval: Option<Duration>,
    environment: Option<String>,
    release: Option<String>,
    debug: Option<bool>,
    tracing_enabled: Option<bool>,
    additional_headers: Option<HashMap<String, String>>,
    max_retries: Option<usize>,
    media_upload_thread_count: Option<usize>,
    io_capture_enabled: Option<bool>,
}

/// What a [`LangfuseConfigBuilder`] has been given so far.
pub struct LangfuseConfigBuilderView {
    /// The value given, if any.
    pub public_key: Option<String>,
    /// The value given, if any.
    pub secret_key: Option<String>,
    /// The value given, if any.
    pub base_url: Option<String>,
    /// The value given, if any.
    pub timeout: Option<Duration>,
    /// The value given, if any.
    pub flush_at: Option<usize>,
    /// The value given, if any.
    pub flush_interval: Option<Duration>,
    /// The value given, if any.
    pub environment: Option<String>,
    /// The value given, if any.
    pub release: Option<String>,
    /// The value given, if any.
    pub debug: Option<bool>,
    /// The value given, if any.
    pub tracing_enabled: Option<bool>,
    /// The value given, if any.
    pub additional_headers: Option<HashMap<String, String>>,
    /// The value given, if any.
    pub max_retries: Option<usize>,
    /// The value given, if any.
    pub media_upload_thread_count: Option<usize>,
    /// The value given, if any.
    pub io_capture_enabled: Option<bool>,
}

impl View for LangfuseConfigBuilder {
    type V = LangfuseConfigBuilderView;

    closed spec fn view(&self) -> LangfuseConfigBuilderView {
        LangfuseConfigBuilderView {
            public_key: self.public_key,
            secret_key: self.secret_key,
            base_url: self.base_url,
            timeout: self.timeout,
            flush_at: self.flush_at,
            flush_interval: self.flush_interval,
            environment: self.environment,
            release: self.release,
            debug: self.debug,
            tracing_enabled: self.tracing_enabled,
            additional_headers: self.additional_headers,
            max_retries: self.max_retries,
            media_upload_thread_count: self.media_upload_thread_count,
            io_capture_enabled: self.io_capture_enabled,
        }
    }
}

/// The value given to the builder, or the default.
pub open spec fn or_default<T>(given: Option<T>, default: T) -> T {
    match given {
        Some(v) => v,
        None => default,
    }
}

impl Default for LangfuseConfigBuilder {
    fn default() -> (r: LangfuseConfigBuilder)
        ensures
            r.is_empty(),
    {
        LangfuseConfigBuilder {
            public_key: None,
            secret_key: None,
            base_url: None,
            timeout: None,
            flush_at: None,
            flush_interval: None,
            environment: None,
            release: None,
            debug: None,
            tracing_enabled: None,
            additional_headers: None,
            max_retries: None,
            media_upload_thread_count: None,
            io_capture_enabled: None,
        }
    }
}

impl LangfuseConfigBuilder {
    /// No field has been set.
    pub open spec fn is_empty(&self) -> bool {
        &&& self@.public_key is None
        &&& self@.secret_key is None
        &&& self@.base_url is None
        &&& self@.timeout is None
        &&& self@.flush_at is None
        &&& self@.flush_interval is None
        &&& self@.environment is None
        &&& self@.release is None
        &&& self@.debug is None
        &&& self@.tracing_enabled is None
        &&& self@.additional_headers is None
        &&& self@.max_retries is None
        &&& self@.media_upload_thread_count is None
        &&& self@.io_capture_enabled is None
    }

    /// Set the Langfuse public key (required).
    pub fn public_key(self, key: &str) -> (r: Self)
        ensures
            r@ == (LangfuseConfigBuilderView { public_key: r@.public_key, ..self@ }),
            r@.public_key matches Some(k) && k@ == key@,
    {
        LangfuseConfigBuilder { public_key: Some(owned(key)), ..self }
    }

    /// Set the Langfuse secret key (required).
    pub fn secret_key(self, key: &str) -> (r: Self)
        ensures
            r@ == (LangfuseConfigBuilderView { secret_key: r@.secret_key, ..self@ }),
            r@.secret_key matches Some(k) && k@ == key@,
    {
        LangfuseConfigBuilder { secret_key: Some(owned(key)), ..self }
    }

    /// Set the Langfuse API base URL.
    pub fn base_url(self, url: &str) -> (r: Self)
        ensures
            r@ == (LangfuseConfigBuilderView { base_url: r@.base_url, ..self@ }),
            r@.base_url matches Some(u) && u@ == url@,
    {
        LangfuseConfigBuilder { base_url: Some(owned(url)), ..self }
    }

    /// Set the HTTP request timeout.
    pub fn timeout(self, timeout: Duration) -> (r: Self)
        ensures
            r@ == (LangfuseConfigBuilderView { timeout: Some(timeout), ..self@ }),
    {
        LangfuseConfigBuilder { timeout: Some(timeout), ..self }
    }

    /// Set the number of events to buffer before flushing.
    pub fn flush_at(self, count: usize) -> (r: Self)
        ensures
            r@ == (LangfuseConfigBuilderView { flush_at: Some(count), ..self@ }),
    {
        LangfuseConfigBuilder { flush_at: Some(count), ..self }
    }

    /// Set the maximum interval between flushes.
    pub fn flush_interval(self, interval: Duration) -> (r: Self)
        ensures
            r@ == (LangfuseConfigBuilderView { flush_interval: Some(interval), ..self@ }),
    {
        LangfuseConfigBuilder { flush_interval: Some(interval), ..self }
    }

    /// Set the environment tag.
    pub fn environment(self, env: &str) -> (r: Self)
        ensures
            r@ == (LangfuseConfigBuilderView { environment: r@.environment, ..self@ }),
            r@.environment matches Some(e) && e@ == env@,
    {
        LangfuseConfigBuilder { environment: Some(owned(env)), ..self }
    }

    /// Set the release tag.
    pub fn release(self, release: &str) -> (r: Self)
        ensures
            r@ == (LangfuseConfigBuilderView { release: r@.release, ..self@ }),
            r@.release matches Some(e) && e@ == release@,
    {
        LangfuseConfigBuilder { release: Some(owned(release)), ..self }
    }

    /// Enable or disable debug logging.
    pub fn debug(self, debug: bool) -> (r: Self)
        ensures
            r@ == (LangfuseConfigBuilderView { debug: Some(debug), ..self@ }),
    {
        LangfuseConfigBuilder { debug: Some(debug), ..self }
    }

    /// Enable or disable tracing.
    pub fn tracing_enabled(self, enabled: bool) -> (r: Self)
        ensures
            r@ == (LangfuseConfigBuilderView { tracing_enabled: Some(enabled), ..self@ }),
    {
        LangfuseConfigBuilder { tracing_enabled: Some(enabled), ..self }
    }

    /// Set additional HTTP headers to include in all requests.
    pub fn additional_headers(self, headers: HashMap<String, String>) -> (r: Self)
        ensures
            r@ == (LangfuseConfigBuilderView { additional_headers: Some(headers), ..self@ }),
    {
        LangfuseConfigBuilder { additional_headers: Some(headers), ..self }
    }

    /// Set the maximum number of retries for HTTP requests.
    pub fn max_retries(self, retries: usize) -> (r: Self)
        ensures
            r@ == (LangfuseConfigBuilderView { max_retries: Some(retries), ..self@ }),
    {
        LangfuseConfigBuilder { max_retries: Some(retries), ..self }
    }

    /// Set the number of threads for media uploads.
    pub fn media_upload_thread_count(self, count: usize) -> (r: Self)
        ensures
            r@ == (LangfuseConfigBuilderView { media_upload_thread_count: Some(count), ..self@ }),
    {
        LangfuseConfigBuilder { media_upload_thread_count: Some(count), ..self }
    }

    /// Enable or disable I/O capture for the observe decorator.
    pub fn io_capture_enabled(self, enabled: bool) -> (r: Self)
        ensures
            r@ == (LangfuseConfigBuilderView { io_capture_enabled: Some(enabled), ..self@ }),
    {
        LangfuseConfigBuilder { io_capture_enabled: Some(enabled), ..self }
    }

    /// Build the configuration: an error names the first missing key (the
    /// public key before the secret key); every other field is what was given
    /// or its default.
    pub fn build(self) -> (r: Result<LangfuseConfig, ConfigError>)
        ensures
            self@.public_key is None ==> (r matches Err(ConfigError::MissingField { field })
                && field@ == "public_key"@),
            self@.public_key is Some && self@.secret_key is None ==> (r matches Err(
                ConfigError::MissingField { field },
            ) && field@ == "secret_key"@),
            self@.public_key is Some && self@.secret_key is Some ==> (r matches Ok(c) && {
                &&& c.public_key == self@.public_key->0
                &&& c.secret_key == self@.secret_key->0
                &&& match self@.base_url {
                    Some(u) => c.base_url == u,
                    None => c.base_url@ == default_base_url(),
                }
                &&& c.timeout == or_default(self@.timeout, duration_of_secs(5))
                &&& c.flush_at == or_default(self@.flush_at, 512)
                &&& c.flush_interval == or_default(self@.flush_interval, duration_of_secs(5))
                &&& c.environment == self@.environment
                &&& c.release == self@.release
                &&& c.debug == or_default(self@.debug, false)
                &&& c.tracing_enabled == or_default(self@.tracing_enabled, true)
                &&& c.additional_headers == self@.additional_headers
                &&& c.max_retries == or_default(self@.max_retries, 3)
                &&& c.media_upload_thread_count == or_default(self@.media_upload_thread_count, 4)
                &&& c.io_capture_enabled == or_default(self@.io_capture_enabled, true)
            }),
    {
        let public_key = match self.public_key {
            Some(k) => k,
            None => {
                return Err(ConfigError::MissingField { field: owned("public_key") });
            },
        };
        let secret_key = match self.secret_key {
            Some(k) => k,
            None => {
                return Err(ConfigError::MissingField { field: owned("secret_key") });
            },
        };
        let base_url = match self.base_url {
            Some(u) => u,
            None => owned("https://cloud.langfuse.com"),
        };
        let timeout = match self.timeout {
            Some(t) => t,
            None => duration_from_secs(5),
        };
        let flush_interval = match self.flush_interval {
            Some(t) => t,
            None => duration_from_secs(5),
        };
        Ok(
            LangfuseConfig {
                public_key,
                secret_key,
                base_url,
                timeout,
                flush_at: match self.flush_at {
                    Some(n) => n,
                    None => 512,
                },
                flush_interval,
                environment: self.environment,
                release: self.release,
                debug: match self.debug {
                    Some(b) => b,
                    None => false,
                },
                tracing_enabled: match self.tracing_enabled {
                    Some(b) => b,
                    None => true,
                },
                additional_headers: self.additional_headers,
                max_retries: match self.max_retries {
                    Some(n) => n,
                    None => 3,
                },
                media_upload_thread_count: match self.media_upload_thread_count {
                    Some(n) => n,
                    None => 4,
                },
                io_capture_enabled: match self.io_capture_enabled {
                    Some(b) => b,
                    None => true,
                },
            },
        )
    }
}

/// The values of the environment variables that configure the client, as
/// read from the environment (`None` for an unset variable).
pub struct EnvValues {
    /// `LANGFUSE_PUBLIC_KEY`.
    pub public_key: Option<String>,
    /// `LANGFUSE_SECRET_KEY`.
    pub secret_key: Option<String>,
    /// `LANGFUSE_BASE_URL`.
    pub base_url: Option<String>,
    /// `LANGFUSE_TIMEOUT`, in seconds.
    pub timeout: Option<String>,
    /// `LANGFUSE_FLUSH_AT`.
    pub flush_at: Option<String>,
    /// `LANGFUSE_FLUSH_INTERVAL`, in seconds.
    pub flush_interval: Option<String>,
    /// `LANGFUSE_TRACING_ENVIRONMENT`.
    pub environment: Option<String>,
    /// `LANGFUSE_RELEASE`.
    pub release: Option<String>,
    /// `LANGFUSE_DEBUG`.
    pub debug: Option<String>,
    /// `LANGFUSE_TRACING_ENABLED`.
    pub tracing_enabled: Option<String>,
    /// `LANGFUSE_MAX_RETRIES`.
    pub max_retries: Option<String>,
    /// `LANGFUSE_MEDIA_UPLOAD_THREAD_COUNT`.
    pub media_upload_thread_count: Option<String>,
    /// `LANGFUSE_OBSERVE_DECORATOR_IO_CAPTURE_ENABLED`.
    pub io_capture_enabled: Option<String>,
}

/// The code of a character with ASCII upper-case letters lowered.
pub open spec fn ascii_lower_code(c: char) -> u32 {
    if 'A' <= c <= 'Z' {
        (c as u32 + 32) as u32
    } else {
        c as u32
    }
}

/// `a` and `b` are equal when ASCII letters are compared without case (std's
/// `str::eq_ignore_ascii_case`).
pub open spec fn eq_ignore_ascii_case(a: Seq<char>, b: Seq<char>) -> bool {
    a.len() == b.len() && forall|i: int| 0 <= i < a.len() ==> ascii_lower_code(#[trigger] a[i])
        == ascii_lower_code(b[i])
}

fn lower_code(c: char) -> (r: u32)
    ensures
        r == ascii_lower_code(c),
{
    if 'A' <= c && c <= 'Z' {
        c as u32 + 32
    } else {
        c as u32
    }
}

/// Compares two strings, ignoring the case of ASCII letters.
pub fn str_eq_ignore_ascii_case(a: &str, b: &str) -> (r: bool)
    ensures
        r == eq_ignore_ascii_case(a@, b@),
{
    let x = chars_of(a);
    let y = chars_of(b);
    if x.len() != y.len() {
        return false;
    }
    let mut i: usize = 0;
    while i < x.len()
        invariant
            x@ == a@,
            y@ == b@,
            x@.len() == y@.len(),
            i <= x@.len(),
            forall|k: int| 0 <= k < i ==> ascii_lower_code(#[trigger] x@[k]) == ascii_lower_code(
                y@[k],
            ),
        decreases x.len() - i,
    {
        if lower_code(x[i]) != lower_code(y[i]) {
            return false;
        }
        i = i + 1;
    }
    true
}

/// A boolean environment flag is on when it reads `true` in any ASCII case,
/// or `1`.
pub open spec fn flag_on(v: Seq<char>) -> bool {
    eq_ignore_ascii_case(v, "true"@) || v == "1"@
}

/// The value of a boolean environment variable: its flag reading when set,
/// else `default`.
pub open spec fn env_flag(v: Option<String>, default: bool) -> bool {
    match v {
        Some(s) => flag_on(s@),
        None => default,
    }
}

/// `v` is the word `true` in any mix of ASCII upper and lower case.
pub open spec fn reads_true(v: Seq<char>) -> bool {
    &&& v.len() == 4
    &&& (v[0] == 't' || v[0] == 'T')
    &&& (v[1] == 'r' || v[1] == 'R')
    &&& (v[2] == 'u' || v[2] == 'U')
    &&& (v[3] == 'e' || v[3] == 'E')
}

/// The characters whose lowered code is that of the lower-case letter
/// `lower` are `lower` and its upper-case form `upper`.
proof fn lemma_lower_code_is(c: char, lower: char, upper: char)
    requires
        'a' <= lower <= 'z',
        upper as u32 + 32 == lower as u32,
        ascii_lower_code(c) == ascii_lower_code(lower),
    ensures
        c == lower || c == upper,
{
    if 'A' <= c <= 'Z' {
        assert(c as u32 == upper as u32);
    } else {
        assert(c as u32 == lower as u32);
    }
}

/// A boolean environment variable: unset, it takes its default; set, it is
/// on exactly when its value is `1` or `true` in any ASCII case, so `false`,
/// `0`, `yes`, `on` or an empty value turn it off.
pub proof fn lemma_env_flag_values(v: Option<String>, default: bool)
    ensures
        v is None ==> env_flag(v, default) == default,
        v matches Some(s) ==> (env_flag(v, default) <==> (s@ == "1"@ || reads_true(s@))),
{
    reveal_strlit("true");
    reveal_strlit("1");
    if let Some(s) = v {
        let x = s@;
        let t = "true"@;
        if reads_true(x) {
            assert forall|i: int| 0 <= i < x.len() implies ascii_lower_code(#[trigger] x[i])
                == ascii_lower_code(t[i]) by {
                if i == 0 {
                } else if i == 1 {
                } else if i == 2 {
                } else {
                }
            }
        }
        assert(t.len() == 4 && t[0] == 't' && t[1] == 'r' && t[2] == 'u' && t[3] == 'e');
        if eq_ignore_ascii_case(x, t) {
            assert(ascii_lower_code(x[0]) == ascii_lower_code(t[0]));
            assert(ascii_lower_code(x[1]) == ascii_lower_code(t[1]));
            assert(ascii_lower_code(x[2]) == ascii_lower_code(t[2]));
            assert(ascii_lower_code(x[3]) == ascii_lower_code(t[3]));
            lemma_lower_code_is(x[0], 't', 'T');
            lemma_lower_code_is(x[1], 'r', 'R');
            lemma_lower_code_is(x[2], 'u', 'U');
            lemma_lower_code_is(x[3], 'e', 'E');
        }
    }
}

fn read_flag(v: &Option<String>, default: bool) -> (r: bool)
    ensures
        r == env_flag(*v, default),
{
    match v {
        Some(s) => {
            let on = str_eq_ignore_ascii_case(s.as_str(), "true");
            let one = crate::chars::str_eq(s.as_str(), "1");
            on || one
        },
        None => default,
    }
}

/// The number an environment variable holds: its unsigned reading when it
/// parses, else `default`.
pub open spec fn env_number(v: Option<String>, max: nat, default: nat) -> nat {
    match v {
        Some(s) => match parse_unsigned_spec(s@, max) {
            Some(n) => n,
            None => default,
        },
        None => default,
    }
}

fn read_usize(v: &Option<String>, default: usize) -> (r: usize)
    ensures
        r == env_number(*v, usize::MAX as nat, default as nat),
{
    match v {
        Some(s) => match parse_usize(s.as_str()) {
            Some(n) => n,
            None => default,
        },
        None => default,
    }
}

fn read_secs(v: &Option<String>, default: u64) -> (r: Duration)
    ensures
        r == duration_of_secs(env_number(*v, u64::MAX as nat, default as nat) as u64),
{
    let secs = match v {
        Some(s) => match parse_u64(s.as_str()) {
            Some(n) => n,
            None => default,
        },
        None => default,
    };
    duration_from_secs(secs)
}

impl LangfuseConfig {
    /// Create a new builder for `LangfuseConfig`.
    pub fn builder() -> (r: LangfuseConfigBuilder)
        ensures
            r.is_empty(),
    {
        LangfuseConfigBuilder::default()
    }

    /// Build configuration from the values of the environment variables.
    ///
    /// Required: `LANGFUSE_PUBLIC_KEY`, `LANGFUSE_SECRET_KEY`. Numbers that do
    /// not parse, like unset ones, take their defaults; flags are on when they
    /// read `true` (any ASCII case) or `1`.
    pub fn from_env_values(values: &EnvValues) -> (r: Result<LangfuseConfig, ConfigError>)
        ensures
            values.public_key is None ==> (r matches Err(ConfigError::MissingField { field })
                && field@ == "LANGFUSE_PUBLIC_KEY"@),
            values.public_key is Some && values.secret_key is None ==> (r matches Err(
                ConfigError::MissingField { field },
            ) && field@ == "LANGFUSE_SECRET_KEY"@),
            values.public_key is Some && values.secret_key is Some ==> (r matches Ok(c) && {
                &&& c.public_key@ == values.public_key->0@
                &&& c.secret_key@ == values.secret_key->0@
                &&& match values.base_url {
                    Some(u) => c.base_url@ == u@,
                    None => c.base_url@ == default_base_url(),
                }
                &&& c.timeout == duration_of_secs(
                    env_number(values.timeout, u64::MAX as nat, 5) as u64,
                )
                &&& c.flush_at == env_number(values.flush_at, usize::MAX as nat, 512)
                &&& c.flush_interval == duration_of_secs(
                    env_number(values.flush_interval, u64::MAX as nat, 5) as u64,
                )
                &&& crate::chars::opt_view(c.environment) == crate::chars::opt_view(values.environment)
                &&& crate::chars::opt_view(c.release) == crate::chars::opt_view(values.release)
                &&& c.debug == env_flag(values.debug, false)
                &&& c.tracing_enabled == env_flag(values.tracing_enabled, true)
                &&& c.additional_headers is None
                &&& c.max_retries == env_number(values.max_retries, usize::MAX as nat, 3)
                &&& c.media_upload_thread_count == env_number(
                    values.media_upload_thread_count,
                    usize::MAX as nat,
                    4,
                )
                &&& c.io_capture_enabled == env_flag(values.io_capture_enabled, true)
            }),
    {
        let public_key = match &values.public_key {
            Some(k) => copy_string(k),
            None => {
                return Err(ConfigError::MissingField { field: owned("LANGFUSE_PUBLIC_KEY") });
            },
        };
        let secret_key = match &values.secret_key {
            Some(k) => copy_string(k),
            None => {
                return Err(ConfigError::MissingField { field: owned("LANGFUSE_SECRET_KEY") });
            },
        };
        let base_url = match &values.base_url {
            Some(u) => copy_string(u),
            None => owned("https://cloud.langfuse.com"),
        };
        Ok(
            LangfuseConfig {
                public_key,
                secret_key,
                base_url,
                timeout: read_secs(&values.timeout, 5),
                flush_at: read_usize(&values.flush_at, 512),
                flush_interval: read_secs(&values.flush_interval, 5),
                environment: crate::chars::copy_opt_string(&values.environment),
                release: crate::chars::copy_opt_string(&values.release),
                debug: read_flag(&values.debug, false),
                tracing_enabled: read_flag(&values.tracing_enabled, true),
                additional_headers: None,
                max_retries: read_usize(&values.max_retries, 3),
                media_upload_thread_count: read_usize(&values.media_upload_thread_count, 4),
                io_capture_enabled: read_flag(&values.io_capture_enabled, true),
            },
        )
    }

    /// Generate the HTTP Basic Auth header value:
    /// `Basic base64(public_key:secret_key)`.
    pub fn basic_auth_header(&self) -> (r: String)
        ensures
            r@ == basic_auth_spec(self.public_key@, self.secret_key@),
            r@.len() >= 6,
            r@.subrange(0, 6) == "Basic "@,
            base64_standard_decode(vstd::utf8::encode_utf8(r@.subrange(6, r@.len() as int)))
                == Some(vstd::utf8::encode_utf8(self.public_key@ + ":"@ + self.secret_key@)),
    {
        let mut credentials = String::new();
        append_str(&mut credentials, self.public_key.as_str());
        append_str(&mut credentials, ":");
        append_str(&mut credentials, self.secret_key.as_str());
        let encoded = encode_base64(credentials.as_str().as_bytes());
        let mut r = owned("Basic ");
        append_str(&mut r, encoded.as_str());
        assert(credentials@ =~= self.public_key@ + ":"@ + self.secret_key@);
        proof {
            reveal_strlit("Basic ");
            assert(r@.subrange(0, 6) =~= "Basic "@);
            assert(r@.subrange(6, r@.len() as int) =~= encoded@);
        }
        r
    }

    /// Get the OTLP traces endpoint URL.
    pub fn otel_endpoint(&self) -> (r: String)
        ensures
            r@ == otel_endpoint_spec(self.base_url@),
    {
        let mut r = trim_end_char(self.base_url.as_str(), '/');
        append_str(&mut r, "/api/public/otel/v1/traces");
        r
    }

    /// Get the REST API base URL.
    pub fn api_base_url(&self) -> (r: String)
        ensures
            r@ == api_base_url_spec(self.base_url@),
    {
        let mut r = trim_end_char(self.base_url.as_str(), '/');
        append_str(&mut r, "/api/public");
        r
    }

    /// Generate the Langfuse UI URL for a trace.
    pub fn get_trace_url(&self, trace_id: &str) -> (r: String)
        ensures
            r@ == trace_url_spec(self.base_url@, trace_id@),
    {
        trace_url(self.base_url.as_str(), trace_id)
    }
}

/// The HTTP Basic Auth header value for a key pair:
/// `Basic base64(public_key:secret_key)`, over the UTF-8 bytes.
pub open spec fn basic_auth_spec(public_key: Seq<char>, secret_key: Seq<char>) -> Seq<char> {
    "Basic "@ + base64_standard_encode(vstd::utf8::encode_utf8(public_key + ":"@ + secret_key))
}

/// The OTLP traces endpoint under a base URL.
pub open spec fn otel_endpoint_spec(base_url: Seq<char>) -> Seq<char> {
    strip_trailing(base_url, '/') + "/api/public/otel/v1/traces"@
}

/// The REST API base under a base URL.
pub open spec fn api_base_url_spec(base_url: Seq<char>) -> Seq<char> {
    strip_trailing(base_url, '/') + "/api/public"@
}

/// The UI URL of a trace under a base URL.
pub open spec fn trace_url_spec(base_url: Seq<char>, trace_id: Seq<char>) -> Seq<char> {
    strip_trailing(base_url, '/') + "/trace/"@ + trace_id
}

/// The UI URL of a trace under a base URL.
pub fn trace_url(base_url: &str, trace_id: &str) -> (r: String)
    ensures
        r@ == trace_url_spec(base_url@, trace_id@),
{
    let mut r = trim_end_char(base_url, '/');
    append_str(&mut r, "/trace/");
    append_str(&mut r, trace_id);
    assert(r@ =~= trace_url_spec(base_url@, trace_id@));
    r
}

/// A base URL written with trailing slashes gives the same endpoints as one
/// written without them.
pub proof fn lemma_trailing_slashes_ignored(base_url: Seq<char>, extra: nat)
    ensures
        otel_endpoint_spec(base_url + Seq::new(extra, |i: int| '/')) == otel_endpoint_spec(
            base_url,
        ),
        api_base_url_spec(base_url + Seq::new(extra, |i: int| '/')) == api_base_url_spec(
            base_url,
        ),
        trace_url_spec(base_url + Seq::new(extra, |i: int| '/'), Seq::empty()) == trace_url_spec(
            base_url,
            Seq::empty(),
        ),
    decreases extra,
{
    if extra > 0 {
        let s = base_url + Seq::new(extra, |i: int| '/');
        let t = base_url + Seq::new((extra - 1) as nat, |i: int| '/');
        assert(s.drop_last() =~= t);
        assert(s.last() == '/');
        lemma_trailing_slashes_ignored(base_url, (extra - 1) as nat);
    } else {
        assert(base_url + Seq::new(0, |i: int| '/') =~= base_url);
    }
}

/// The Langfuse UI URL of the current trace.
///
/// `trace_id` is the id of the trace active in the current context, if any,
/// and `base_url` the base URL of the initialised client, if there is one.
pub fn get_current_trace_url(trace_id: Option<&str>, base_url: Option<&str>) -> (r: Result<
    String,
    LangfuseError,
>)
    ensures
        trace_id is None ==> (r matches Err(LangfuseError::Otel(m)) && m@ == "no active span"@),
        trace_id is Some && base_url is None ==> (r matches Err(LangfuseError::Otel(m)) && m@
            == "Langfuse not initialized"@),
        trace_id is Some && base_url is Some ==> (r matches Ok(u) && u@ == trace_url_spec(
            base_url->0@,
            trace_id->0@,
        )),
{
    let id = match trace_id {
        Some(t) => t,
        None => {
            return Err(LangfuseError::Otel(owned("no active span")));
        },
    };
    match base_url {
        Some(b) => Ok(trace_url(b, id)),
        None => Err(LangfuseError::Otel(owned("Langfuse not initialized"))),
    }
}

} // verus!
