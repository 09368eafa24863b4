//! The REST endpoints the client calls, and what it makes of the media
//! service's answers and of a missing client or span.

use vstd::prelude::*;

use crate::chars::{append_str, copy_string, opt_view, owned};
use crate::config::{api_base_url_spec, LangfuseConfig};
use crate::error::{ConfigError, LangfuseError};
use crate::media::LangfuseMedia;

verus! {

broadcast use vstd::string::group_string_axioms;

/// A REST endpoint of the Langfuse API.
#[derive(Debug)]
pub enum Endpoint {
    /// `/v2/prompts`: create prompts.
    Prompts,
    /// `/v2/prompts/{name}`: get or relabel a prompt.
    Prompt(String),
    /// `/datasets`: create datasets.
    Datasets,
    /// `/datasets/{name}`: get or delete a dataset.
    Dataset(String),
    /// `/dataset-items`: create or list dataset items.
    DatasetItems,
    /// `/datasets/{dataset}/runs`: list the runs of a dataset.
    DatasetRuns(String),
    /// `/datasets/{dataset}/runs/{run}`: delete a run.
    DatasetRun(String, String),
    /// `/media`: ask for an upload URL.
    Media,
    /// `/media/{id}`: get a media record.
    MediaItem(String),
    /// `/ingestion`: send a batch of events.
    Ingestion,
    /// `/projects`: check the credentials.
    Projects,
}

/// The path of an endpoint under the REST API base.
pub open spec fn endpoint_path(e: Endpoint) -> Seq<char> {
    match e {
        Endpoint::Prompts => "/v2/prompts"@,
        Endpoint::Prompt(n) => "/v2/prompts/"@ + n@,
        Endpoint::Datasets => "/datasets"@,
        Endpoint::Dataset(n) => "/datasets/"@ + n@,
        Endpoint::DatasetItems => "/dataset-items"@,
        Endpoint::DatasetRuns(d) => "/datasets/"@ + d@ + "/runs"@,
        Endpoint::DatasetRun(d, r) => "/datasets/"@ + d@ + "/runs/"@ + r@,
        Endpoint::Media => "/media"@,
        Endpoint::MediaItem(id) => "/media/"@ + id@,
        Endpoint::Ingestion => "/ingestion"@,
        Endpoint::Projects => "/projects"@,
    }
}

/// The URL of an endpoint for a configured client.
pub fn endpoint_url(config: &LangfuseConfig, e: &Endpoint) -> (r: String)
    ensures
        r@ == api_base_url_spec(config.base_url@) + endpoint_path(*e),
{
    let mut r = config.api_base_url();
    let ghost base = r@;
    match e {
        Endpoint::Prompts => append_str(&mut r, "/v2/prompts"),
        Endpoint::Prompt(n) => {
            append_str(&mut r, "/v2/prompts/");
            append_str(&mut r, n.as_str());
        },
        Endpoint::Datasets => append_str(&mut r, "/datasets"),
        Endpoint::Dataset(n) => {
            append_str(&mut r, "/datasets/");
            append_str(&mut r, n.as_str());
        },
        Endpoint::DatasetItems => append_str(&mut r, "/dataset-items"),
        Endpoint::DatasetRuns(d) => {
            append_str(&mut r, "/datasets/");
            append_str(&mut r, d.as_str());
            append_str(&mut r, "/runs");
        },
        Endpoint::DatasetRun(d, run) => {
            append_str(&mut r, "/datasets/");
            append_str(&mut r, d.as_str());
            append_str(&mut r, "/runs/");
            append_str(&mut r, run.as_str());
        },
        Endpoint::Media => append_str(&mut r, "/media"),
        Endpoint::MediaItem(id) => {
            append_str(&mut r, "/media/");
            append_str(&mut r, id.as_str());
        },
        Endpoint::Ingestion => append_str(&mut r, "/ingestion"),
        Endpoint::Projects => append_str(&mut r, "/projects"),
    }
    assert(r@ =~= base + endpoint_path(*e));
    r
}

/// The request for an upload URL of a media object.
#[derive(Debug)]
pub struct MediaUploadRequest {
    /// The trace the media belongs to.
    pub trace_id: String,
    /// The observation the media belongs to, if any.
    pub observation_id: Option<String>,
    /// The field of the observation that holds the media.
    pub field: String,
    /// MIME content type.
    pub content_type: String,
    /// Size in bytes.
    pub content_length: usize,
}

/// The upload request for `media` attached to `field` of a trace or
/// observation.
pub fn media_upload_request(
    trace_id: &str,
    observation_id: Option<&str>,
    field: &str,
    media: &LangfuseMedia,
) -> (r: MediaUploadRequest)
    ensures
        r.trace_id@ == trace_id@,
        opt_view(r.observation_id) == (match observation_id {
            Some(o) => Some(o@),
            None => None,
        }),
        r.field@ == field@,
        r.content_type@ == media.content_type@,
        r.content_length == media.data@.len(),
{
    MediaUploadRequest {
        trace_id: owned(trace_id),
        observation_id: match observation_id {
            Some(o) => Some(owned(o)),
            None => None,
        },
        field: owned(field),
        content_type: copy_string(&media.content_type),
        content_length: media.size(),
    }
}

/// The string fields of the media service's answer to an upload request.
#[derive(Debug)]
pub struct MediaUploadTicket {
    /// `mediaId`, when it is a string.
    pub media_id: Option<String>,
    /// `uploadUrl`, when it is a string.
    pub upload_url: Option<String>,
}

/// `e` is the media error with message `m`.
pub open spec fn is_media_error_text(e: LangfuseError, m: Seq<char>) -> bool {
    e matches LangfuseError::Media(t) && t@ == m
}

/// The media id and the URL to upload the bytes to; a media error when the
/// answer lacks either (the id is looked at first).
pub fn upload_target(ticket: MediaUploadTicket) -> (r: Result<(String, String), LangfuseError>)
    ensures
        ticket.media_id is None ==> (r matches Err(e) && is_media_error_text(
            e,
            "Missing mediaId in response"@,
        )),
        ticket.media_id is Some && ticket.upload_url is None ==> (r matches Err(e)
            && is_media_error_text(e, "Missing uploadUrl in response"@)),
        ticket.media_id is Some && ticket.upload_url is Some ==> (r matches Ok((id, url)) && id@
            == ticket.media_id->0@ && url@ == ticket.upload_url->0@),
{
    let id = match ticket.media_id {
        Some(id) => id,
        None => {
            return Err(LangfuseError::Media(owned("Missing mediaId in response")));
        },
    };
    match ticket.upload_url {
        Some(url) => Ok((id, url)),
        None => Err(LangfuseError::Media(owned("Missing uploadUrl in response"))),
    }
}

/// The string fields of the media service's answer for a media record.
#[derive(Debug)]
pub struct MediaRecord {
    /// `contentType`, when it is a string.
    pub content_type: Option<String>,
    /// `url`, when it is a string.
    pub url: Option<String>,
}

/// The content type of a fetched media record, `application/octet-stream`
/// when the record has none.
pub open spec fn record_content_type(r: MediaRecord) -> Seq<char> {
    match r.content_type {
        Some(t) => t@,
        None => "application/octet-stream"@,
    }
}

/// The content type and the download URL of a media record; a media error
/// when it has no URL.
pub fn download_target(record: MediaRecord) -> (r: Result<(String, String), LangfuseError>)
    ensures
        record.url is None ==> (r matches Err(e) && is_media_error_text(
            e,
            "Missing url in response"@,
        )),
        record.url is Some ==> (r matches Ok((ct, url)) && ct@ == record_content_type(record)
            && url@ == record.url->0@),
{
    let content_type = match record.content_type {
        Some(t) => t,
        None => owned("application/octet-stream"),
    };
    match record.url {
        Some(url) => Ok((content_type, url)),
        None => Err(LangfuseError::Media(owned("Missing url in response"))),
    }
}

/// The error of initialising the global client a second time.
pub fn already_initialized_error() -> (r: LangfuseError)
    ensures
        r matches LangfuseError::Config(ConfigError::InvalidValue { field, message }) && field@
            == "global"@ && message@ == "Langfuse already initialized"@,
{
    LangfuseError::Config(
        ConfigError::InvalidValue {
            field: owned("global"),
            message: owned("Langfuse already initialized"),
        },
    )
}

/// The error of asking for a named client that was never initialised.
pub fn named_instance_missing(name: &str) -> (r: LangfuseError)
    ensures
        r matches LangfuseError::Config(ConfigError::InvalidValue { field, message }) && field@
            == "name"@ && message@ == "Named instance '"@ + name@ + "' not initialized"@,
{
    let mut message = owned("Named instance '");
    append_str(&mut message, name);
    append_str(&mut message, "' not initialized");
    LangfuseError::Config(ConfigError::InvalidValue { field: owned("name"), message })
}

/// Where a score of the current observation goes: its trace and observation
/// ids. Without an active span the error is "no active span"; without an
/// initialised client, "Langfuse not initialized".
pub fn current_score_target(
    trace_id: Option<String>,
    observation_id: Option<String>,
    initialized: bool,
) -> (r: Result<(String, String), LangfuseError>)
    ensures
        trace_id is None || observation_id is None ==> (r matches Err(LangfuseError::Otel(m))
            && m@ == "no active span"@),
        trace_id is Some && observation_id is Some && !initialized ==> (r matches Err(
            LangfuseError::Otel(m),
        ) && m@ == "Langfuse not initialized"@),
        trace_id is Some && observation_id is Some && initialized ==> (r matches Ok((t, o)) && t@
            == trace_id->0@ && o@ == observation_id->0@),
{
    let t = match trace_id {
        Some(t) => t,
        None => {
            return Err(LangfuseError::Otel(owned("no active span")));
        },
    };
    let o = match observation_id {
        Some(o) => o,
        None => {
            return Err(LangfuseError::Otel(owned("no active span")));
        },
    };
    if !initialized {
        return Err(LangfuseError::Otel(owned("Langfuse not initialized")));
    }
    Ok((t, o))
}

/// Where a score of the current trace goes: its trace id, under the same
/// errors as [`current_score_target`].
pub fn current_trace_target(trace_id: Option<String>, initialized: bool) -> (r: Result<
    String,
    LangfuseError,
>)
    ensures
        trace_id is None ==> (r matches Err(LangfuseError::Otel(m)) && m@ == "no active span"@),
        trace_id is Some && !initialized ==> (r matches Err(LangfuseError::Otel(m)) && m@
            == "Langfuse not initialized"@),
        trace_id is Some && initialized ==> (r matches Ok(t) && t@ == trace_id->0@),
{
    let t = match trace_id {
        Some(t) => t,
        None => {
            return Err(LangfuseError::Otel(owned("no active span")));
        },
    };
    if !initialized {
        return Err(LangfuseError::Otel(owned("Langfuse not initialized")));
    }
    Ok(t)
}

} // verus!
