//! The settings of the OTLP span exporter that ships traces to Langfuse:
//! endpoint, headers, batching and the resource that describes the sender.

use vstd::prelude::*;

use std::time::Duration;

use crate::chars::{copy_string, opt_view, owned};
use crate::config::{basic_auth_spec, otel_endpoint_spec, LangfuseConfig};
use crate::store::{string_pairs_view, StringMap};

verus! {

broadcast use vstd::string::group_string_axioms;

/// How the exporter is set up.
pub struct ExporterSettings {
    /// The OTLP HTTP traces endpoint.
    pub endpoint: String,
    /// The HTTP headers sent with every export.
    pub headers: StringMap,
    /// Timeout of one export.
    pub timeout: Duration,
    /// Spans held before new ones are dropped.
    pub max_queue_size: usize,
    /// Spans sent in one export.
    pub max_export_batch_size: usize,
    /// Delay between scheduled exports.
    pub scheduled_delay: Duration,
    /// Attributes of the resource that emits the spans, in order.
    pub resource: Vec<(String, String)>,
}

/// `m` with the pairs `ps` inserted in order (a later pair wins).
pub open spec fn insert_pairs(m: Map<Seq<char>, Seq<char>>, ps: Seq<(Seq<char>, Seq<char>)>) -> Map<
    Seq<char>,
    Seq<char>,
>
    decreases ps.len(),
{
    if ps.len() == 0 {
        m
    } else {
        insert_pairs(m.insert(ps[0].0, ps[0].1), ps.drop_first())
    }
}

/// The resource attributes: the SDK's name and version, the service name,
/// then the deployment environment and the service version when configured.
pub open spec fn resource_spec(
    sdk_version: Seq<char>,
    service_name: Seq<char>,
    environment: Option<Seq<char>>,
    release: Option<Seq<char>>,
) -> Seq<(Seq<char>, Seq<char>)> {
    let base = seq![
        ("sdk.name"@, "langfuse-rs"@),
        ("sdk.version"@, sdk_version),
        ("service.name"@, service_name),
    ];
    let with_env = match environment {
        Some(e) => base.push(("deployment.environment"@, e)),
        None => base,
    };
    match release {
        Some(r) => with_env.push(("service.version"@, r)),
        None => with_env,
    }
}

/// The exporter settings for a configuration. `extra_headers` are the
/// configured additional headers, which override the `Authorization` header
/// of the same name; `service_name` is the value of `OTEL_SERVICE_NAME`, if
/// set, and `sdk_version` the version of this SDK.
pub fn exporter_settings(
    config: &LangfuseConfig,
    extra_headers: &Vec<(String, String)>,
    service_name: Option<String>,
    sdk_version: &str,
) -> (r: ExporterSettings)
    requires
        config.flush_at * 4 <= usize::MAX,
    ensures
        r.endpoint@ == otel_endpoint_spec(config.base_url@),
        r.headers@ == insert_pairs(
            map!["Authorization"@ => basic_auth_spec(config.public_key@, config.secret_key@)],
            string_pairs_view(extra_headers@),
        ),
        r.timeout == config.timeout,
        r.max_queue_size == config.flush_at * 4,
        r.max_export_batch_size == config.flush_at,
        r.scheduled_delay == config.flush_interval,
        string_pairs_view(r.resource@) == resource_spec(
            sdk_version@,
            match service_name {
                Some(s) => s@,
                None => "unknown_service"@,
            },
            opt_view(config.environment),
            opt_view(config.release),
        ),
{
    let mut headers = StringMap::new();
    headers.insert(owned("Authorization"), config.basic_auth_header());
    let ghost extra = string_pairs_view(extra_headers@);
    let mut i: usize = 0;
    assert(extra.subrange(0, extra.len() as int) =~= extra);
    while i < extra_headers.len()
        invariant
            i <= extra_headers@.len(),
            extra == string_pairs_view(extra_headers@),
            insert_pairs(
                map!["Authorization"@ => basic_auth_spec(config.public_key@, config.secret_key@)],
                extra,
            ) == insert_pairs(headers@, extra.subrange(i as int, extra.len() as int)),
        decreases extra_headers.len() - i,
    {
        let ghost rest = extra.subrange(i as int, extra.len() as int);
        assert(rest.drop_first() =~= extra.subrange(i + 1, extra.len() as int));
        headers.insert(copy_string(&extra_headers[i].0), copy_string(&extra_headers[i].1));
        i = i + 1;
    }
    assert(extra.subrange(i as int, extra.len() as int) =~= Seq::<(Seq<char>, Seq<char>)>::empty());
    let mut resource: Vec<(String, String)> = Vec::new();
    resource.push((owned("sdk.name"), owned("langfuse-rs")));
    resource.push((owned("sdk.version"), owned(sdk_version)));
    let service = match service_name {
        Some(s) => s,
        None => owned("unknown_service"),
    };
    let ghost service_view = service@;
    resource.push((owned("service.name"), service));
    let ghost base = string_pairs_view(resource@);
    match &config.environment {
        Some(e) => resource.push((owned("deployment.environment"), copy_string(e))),
        None => {},
    }
    let ghost with_env = string_pairs_view(resource@);
    match &config.release {
        Some(rel) => resource.push((owned("service.version"), copy_string(rel))),
        None => {},
    }
    proof {
        assert(base =~= seq![
            ("sdk.name"@, "langfuse-rs"@),
            ("sdk.version"@, sdk_version@),
            ("service.name"@, service_view),
        ]);
        let expected_env = match opt_view(config.environment) {
            Some(e) => base.push(("deployment.environment"@, e)),
            None => base,
        };
        assert(with_env =~= expected_env);
        assert(string_pairs_view(resource@) =~= resource_spec(
            sdk_version@,
            service_view,
            opt_view(config.environment),
            opt_view(config.release),
        ));
    }
    ExporterSettings {
        endpoint: config.otel_endpoint(),
        headers,
        timeout: config.timeout,
        max_queue_size: config.flush_at * 4,
        max_export_batch_size: config.flush_at,
        scheduled_delay: config.flush_interval,
        resource,
    }
}

} // verus!
