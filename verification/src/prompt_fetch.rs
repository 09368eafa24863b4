//! What the prompt manager decides around its calls to the prompt API:
//! which status is which error, how an answer becomes a prompt, what is
//! cached, when an expired cache entry is served instead, and which cache
//! entries a change of a prompt drops.
//!
//! The HTTP requests themselves are made by the caller, which hands the
//! outcome of each request to the functions here.

use vstd::prelude::*;

use crate::cache::PromptCache;
use crate::chars::{copy_string, owned, strings_view};
use crate::error::LangfuseError;
use crate::prompts::{
    copy_messages, invalidation_prefix, invalidation_prefix_of, messages_view, ChatPromptClient,
    Prompt, TextPromptClient, same_chat_prompt, same_text_prompt,
};
use crate::store::without_prefix;
use crate::types::{ChatMessage, PromptType};

verus! {

broadcast use vstd::string::group_string_axioms;

/// The `prompt` field of an API answer, by its JSON shape.
#[derive(Debug)]
pub enum PromptPayload {
    /// A JSON string: the template of a text prompt.
    Text(String),
    /// A JSON array of chat messages.
    Messages(Vec<ChatMessage>),
    /// Any other JSON value.
    Other,
}

/// An answer of the prompt API.
#[derive(Debug)]
pub struct PromptApiResponse {
    /// Prompt name.
    pub name: String,
    /// Prompt version.
    pub version: i32,
    /// The prompt itself.
    pub prompt: PromptPayload,
    /// Configuration attached to the prompt (`null` when absent).
    pub config: serde_json::Value,
    /// Labels of this version.
    pub labels: Vec<String>,
    /// Tags.
    pub tags: Vec<String>,
    /// Whether the prompt is a text or a chat prompt.
    pub prompt_type: PromptType,
}

/// `e` is the "prompt not found" error for `name`.
pub open spec fn is_not_found(e: LangfuseError, name: Seq<char>) -> bool {
    e matches LangfuseError::PromptNotFound { name: n } && n@ == name
}

/// `e` is the API error for `status` with the body `body`.
pub open spec fn is_api_error(e: LangfuseError, status: u16, body: Seq<char>) -> bool {
    e matches LangfuseError::Api { status: s, message } && s == status && message@ == body
}

/// The error a prompt lookup answered with `status` is reported as: `404` is
/// "prompt not found", `401` an authentication failure, any other status
/// outside `2xx` an API error with the response body.
pub fn fetch_status_error(status: u16, body: &String, name: &str) -> (r: Option<LangfuseError>)
    ensures
        200 <= status < 300 ==> r is None,
        status == 404 ==> (r matches Some(e) && is_not_found(e, name@)),
        status == 401 ==> r == Some(LangfuseError::Auth),
        status != 404 && status != 401 && !(200 <= status < 300) ==> (r matches Some(e)
            && is_api_error(e, status, body@)),
{
    if status == 404 {
        Some(LangfuseError::PromptNotFound { name: owned(name) })
    } else if status == 401 {
        Some(LangfuseError::Auth)
    } else if 200 <= status && status < 300 {
        None
    } else {
        Some(LangfuseError::Api { status, message: copy_string(body) })
    }
}

/// `p` is the text prompt that the answer `resp` with template `t` describes,
/// served fresh (not as a fallback).
pub open spec fn text_prompt_of(p: TextPromptClient, resp: PromptApiResponse, t: Seq<char>) -> bool {
    &&& p.name@ == resp.name@
    &&& p.version == resp.version
    &&& p.template@ == t
    &&& p.config == resp.config
    &&& strings_view(p.labels@) == strings_view(resp.labels@)
    &&& strings_view(p.tags@) == strings_view(resp.tags@)
    &&& !p.is_fallback
}

/// `p` is the chat prompt that the answer `resp` with messages `ms`
/// describes, served fresh.
pub open spec fn chat_prompt_of(
    p: ChatPromptClient,
    resp: PromptApiResponse,
    ms: Seq<(Seq<char>, Seq<char>)>,
) -> bool {
    &&& p.name@ == resp.name@
    &&& p.version == resp.version
    &&& messages_view(p.messages@) == ms
    &&& p.config == resp.config
    &&& strings_view(p.labels@) == strings_view(resp.labels@)
    &&& strings_view(p.tags@) == strings_view(resp.tags@)
    &&& !p.is_fallback
}

/// The answer describes a text prompt: it has the text type and a template.
pub open spec fn answers_text(resp: PromptApiResponse) -> bool {
    resp.prompt_type == PromptType::Text && resp.prompt is Text
}

/// The answer describes a chat prompt: it has the chat type and messages.
pub open spec fn answers_chat(resp: PromptApiResponse) -> bool {
    resp.prompt_type == PromptType::Chat && resp.prompt is Messages
}

/// The template of a text answer.
pub open spec fn payload_text(p: PromptPayload) -> Seq<char> {
    match p {
        PromptPayload::Text(t) => t@,
        _ => Seq::empty(),
    }
}

/// The messages of a chat answer.
pub open spec fn payload_messages(p: PromptPayload) -> Seq<(Seq<char>, Seq<char>)> {
    match p {
        PromptPayload::Messages(ms) => messages_view(ms@),
        _ => Seq::empty(),
    }
}

/// The text prompt an answer describes; "prompt not found" for `name` when
/// the answer is not a text prompt with a template.
pub fn text_prompt_from_response(resp: PromptApiResponse, name: &str) -> (r: Result<
    TextPromptClient,
    LangfuseError,
>)
    ensures
        answers_text(resp) ==> (r matches Ok(p) && text_prompt_of(p, resp, payload_text(resp.prompt))),
        !answers_text(resp) ==> (r matches Err(e) && is_not_found(e, name@)),
{
    if resp.prompt_type != PromptType::Text {
        return Err(LangfuseError::PromptNotFound { name: owned(name) });
    }
    match resp.prompt {
        PromptPayload::Text(template) => Ok(
            TextPromptClient {
                name: resp.name,
                version: resp.version,
                template,
                config: resp.config,
                labels: resp.labels,
                tags: resp.tags,
                is_fallback: false,
            },
        ),
        _ => Err(LangfuseError::PromptNotFound { name: owned(name) }),
    }
}

/// The chat prompt an answer describes; "prompt not found" for `name` when
/// the answer is not a chat prompt with messages.
pub fn chat_prompt_from_response(resp: PromptApiResponse, name: &str) -> (r: Result<
    ChatPromptClient,
    LangfuseError,
>)
    ensures
        answers_chat(resp) ==> (r matches Ok(p) && chat_prompt_of(
            p,
            resp,
            payload_messages(resp.prompt),
        )),
        !answers_chat(resp) ==> (r matches Err(e) && is_not_found(e, name@)),
{
    if resp.prompt_type != PromptType::Chat {
        return Err(LangfuseError::PromptNotFound { name: owned(name) });
    }
    match resp.prompt {
        PromptPayload::Messages(messages) => Ok(
            ChatPromptClient {
                name: resp.name,
                version: resp.version,
                messages,
                config: resp.config,
                labels: resp.labels,
                tags: resp.tags,
                is_fallback: false,
            },
        ),
        _ => Err(LangfuseError::PromptNotFound { name: owned(name) }),
    }
}

/// The prompt an answer describes, by its type: "prompt not found" for
/// `name` when the payload does not fit the type.
pub fn prompt_from_response(resp: PromptApiResponse, name: &str) -> (r: Result<
    Prompt,
    LangfuseError,
>)
    ensures
        answers_text(resp) ==> (r matches Ok(Prompt::Text(p)) && text_prompt_of(
            p,
            resp,
            payload_text(resp.prompt),
        )),
        answers_chat(resp) ==> (r matches Ok(Prompt::Chat(p)) && chat_prompt_of(
            p,
            resp,
            payload_messages(resp.prompt),
        )),
        !answers_text(resp) && !answers_chat(resp) ==> (r matches Err(e) && is_not_found(
            e,
            name@,
        )),
{
    match resp.prompt_type {
        PromptType::Text => match text_prompt_from_response(resp, name) {
            Ok(p) => Ok(Prompt::Text(p)),
            Err(e) => Err(e),
        },
        PromptType::Chat => match chat_prompt_from_response(resp, name) {
            Ok(p) => Ok(Prompt::Chat(p)),
            Err(e) => Err(e),
        },
    }
}

/// `p` is the cached text prompt `c` served as a fallback.
pub open spec fn text_fallback_of(p: TextPromptClient, c: TextPromptClient) -> bool {
    &&& p.name@ == c.name@
    &&& p.version == c.version
    &&& p.template@ == c.template@
    &&& p.config == c.config
    &&& strings_view(p.labels@) == strings_view(c.labels@)
    &&& strings_view(p.tags@) == strings_view(c.tags@)
    &&& p.is_fallback
}

/// `p` is the cached chat prompt `c` served as a fallback.
pub open spec fn chat_fallback_of(p: ChatPromptClient, c: ChatPromptClient) -> bool {
    &&& p.name@ == c.name@
    &&& p.version == c.version
    &&& messages_view(p.messages@) == messages_view(c.messages@)
    &&& p.config == c.config
    &&& strings_view(p.labels@) == strings_view(c.labels@)
    &&& strings_view(p.tags@) == strings_view(c.tags@)
    &&& p.is_fallback
}

/// `p` is the fresh text prompt of the answer `resp`, stored with the
/// same data.
pub open spec fn stored_text(p: TextPromptClient, s: TextPromptClient) -> bool {
    &&& s.name@ == p.name@
    &&& s.version == p.version
    &&& s.template@ == p.template@
    &&& s.config == p.config
    &&& strings_view(s.labels@) == strings_view(p.labels@)
    &&& strings_view(s.tags@) == strings_view(p.tags@)
    &&& s.is_fallback == p.is_fallback
}

impl PromptCache {
    /// The text prompt under `key`, marked as a fallback, if one is cached
    /// (expired or not).
    fn text_fallback(&self, key: &str) -> (r: Option<TextPromptClient>)
        ensures
            match r {
                Some(p) => self.text_view().contains_key(key@) && text_fallback_of(
                    p,
                    self.text_view()[key@].value,
                ),
                None => !self.text_view().contains_key(key@),
            },
    {
        match self.get_text_expired(key) {
            Some(mut p) => {
                p.is_fallback = true;
                Some(p)
            },
            None => None,
        }
    }

    /// The chat prompt under `key`, marked as a fallback, if one is cached
    /// (expired or not).
    fn chat_fallback(&self, key: &str) -> (r: Option<ChatPromptClient>)
        ensures
            match r {
                Some(p) => self.chat_view().contains_key(key@) && chat_fallback_of(
                    p,
                    self.chat_view()[key@].value,
                ),
                None => !self.chat_view().contains_key(key@),
            },
    {
        match self.get_chat_expired(key) {
            Some(mut p) => {
                p.is_fallback = true;
                Some(p)
            },
            None => None,
        }
    }

    /// Settle a text prompt lookup under `key` whose fresh cache entry was
    /// missing, given the outcome of the request for the prompt `name`.
    ///
    /// A failed request is answered with the cached entry (expired or not)
    /// marked as a fallback, or with the request's error when there is none.
    /// An answer that describes a text prompt is cached under `key` and
    /// returned; any other answer is "prompt not found" and changes nothing.
    pub fn settle_text(
        &mut self,
        key: &str,
        name: &str,
        fetched: Result<PromptApiResponse, LangfuseError>,
    ) -> (r: Result<TextPromptClient, LangfuseError>)
        ensures
            final(self).ttl() == old(self).ttl(),
            final(self).chat_view() == old(self).chat_view(),
            match fetched {
                Err(e) => {
                    &&& final(self).text_view() == old(self).text_view()
                    &&& text_failure_answer(*old(self), key@, e, r)
                },
                Ok(resp) => if answers_text(resp) {
                    &&& r matches Ok(p) && text_prompt_of(p, resp, payload_text(resp.prompt))
                    &&& final(self).text_view().dom() == old(self).text_view().dom().insert(key@)
                    &&& text_prompt_of(
                        final(self).text_view()[key@].value,
                        resp,
                        payload_text(resp.prompt),
                    )
                    &&& final(self).text_view()[key@].ttl == old(self).ttl()
                    &&& forall|k: Seq<char>|
                        k != key@ && #[trigger] old(self).text_view().contains_key(k)
                            ==> final(self).text_view()[k] == old(self).text_view()[k]
                } else {
                    &&& r matches Err(e) && is_not_found(e, name@)
                    &&& final(self).text_view() == old(self).text_view()
                },
            },
    {
        match fetched {
            Err(e) => match self.text_fallback(key) {
                Some(p) => Ok(p),
                None => Err(e),
            },
            Ok(resp) => match text_prompt_from_response(resp, name) {
                Ok(p) => {
                    self.put_text(key, p.duplicate());
                    Ok(p)
                },
                Err(e) => Err(e),
            },
        }
    }

    /// Settle a chat prompt lookup under `key` whose fresh cache entry was
    /// missing, given the outcome of the request for the prompt `name`; the
    /// rules are those of [`PromptCache::settle_text`].
    pub fn settle_chat(
        &mut self,
        key: &str,
        name: &str,
        fetched: Result<PromptApiResponse, LangfuseError>,
    ) -> (r: Result<ChatPromptClient, LangfuseError>)
        ensures
            final(self).ttl() == old(self).ttl(),
            final(self).text_view() == old(self).text_view(),
            match fetched {
                Err(e) => {
                    &&& final(self).chat_view() == old(self).chat_view()
                    &&& chat_failure_answer(*old(self), key@, e, r)
                },
                Ok(resp) => if answers_chat(resp) {
                    &&& r matches Ok(p) && chat_prompt_of(p, resp, payload_messages(resp.prompt))
                    &&& final(self).chat_view().dom() == old(self).chat_view().dom().insert(key@)
                    &&& chat_prompt_of(
                        final(self).chat_view()[key@].value,
                        resp,
                        payload_messages(resp.prompt),
                    )
                    &&& final(self).chat_view()[key@].ttl == old(self).ttl()
                    &&& forall|k: Seq<char>|
                        k != key@ && #[trigger] old(self).chat_view().contains_key(k)
                            ==> final(self).chat_view()[k] == old(self).chat_view()[k]
                } else {
                    &&& r matches Err(e) && is_not_found(e, name@)
                    &&& final(self).chat_view() == old(self).chat_view()
                },
            },
    {
        match fetched {
            Err(e) => match self.chat_fallback(key) {
                Some(p) => Ok(p),
                None => Err(e),
            },
            Ok(resp) => match chat_prompt_from_response(resp, name) {
                Ok(p) => {
                    self.put_chat(key, p.duplicate());
                    Ok(p)
                },
                Err(e) => Err(e),
            },
        }
    }

    /// The fresh prompt cached under `key`: a text prompt first, then a chat
    /// prompt. Expired entries are left in place for the fallback.
    pub fn lookup_prompt(&self, key: &str) -> (r: Option<Prompt>)
        ensures
            !self.text_view().contains_key(key@) && !self.chat_view().contains_key(key@)
                ==> r is None,
            r matches Some(Prompt::Text(p)) ==> self.text_view().contains_key(key@)
                && stored_text(self.text_view()[key@].value, p),
            r matches Some(Prompt::Chat(p)) ==> self.chat_view().contains_key(key@)
                && same_chat_prompt(p, self.chat_view()[key@].value),
    {
        match self.fresh_text(key) {
            Some(p) => Some(Prompt::Text(p)),
            None => match self.fresh_chat(key) {
                Some(p) => Some(Prompt::Chat(p)),
                None => None,
            },
        }
    }

    /// Settle a prompt lookup (text or chat) under `key` whose fresh cache
    /// entries were missing, given the outcome of the request for `name`.
    ///
    /// An answer that describes a prompt of its type is cached and returned.
    /// On any failure (of the request, or of an answer that does not fit its
    /// type) the cached text entry, then the cached chat entry, is served as
    /// a fallback; without either the error is returned.
    pub fn settle_prompt(
        &mut self,
        key: &str,
        name: &str,
        fetched: Result<PromptApiResponse, LangfuseError>,
    ) -> (r: Result<Prompt, LangfuseError>)
        ensures
            final(self).ttl() == old(self).ttl(),
            match fetched {
                Ok(resp) => if answers_text(resp) {
                    &&& r matches Ok(Prompt::Text(p)) && text_prompt_of(
                        p,
                        resp,
                        payload_text(resp.prompt),
                    )
                    &&& final(self).text_view().dom() == old(self).text_view().dom().insert(key@)
                    &&& text_prompt_of(
                        final(self).text_view()[key@].value,
                        resp,
                        payload_text(resp.prompt),
                    )
                    &&& final(self).chat_view() == old(self).chat_view()
                } else if answers_chat(resp) {
                    &&& r matches Ok(Prompt::Chat(p)) && chat_prompt_of(
                        p,
                        resp,
                        payload_messages(resp.prompt),
                    )
                    &&& final(self).chat_view().dom() == old(self).chat_view().dom().insert(key@)
                    &&& chat_prompt_of(
                        final(self).chat_view()[key@].value,
                        resp,
                        payload_messages(resp.prompt),
                    )
                    &&& final(self).text_view() == old(self).text_view()
                } else {
                    fallback_or(*old(self), key@, r, |e: LangfuseError| is_not_found(e, name@))
                        && final(self).text_view() == old(self).text_view()
                        && final(self).chat_view() == old(self).chat_view()
                },
                Err(e0) => fallback_or(
                    *old(self),
                    key@,
                    r,
                    |e: LangfuseError| e == e0,
                ) && final(self).text_view() == old(self).text_view()
                    && final(self).chat_view() == old(self).chat_view(),
            },
    {
        let converted = match fetched {
            Ok(resp) => prompt_from_response(resp, name),
            Err(e) => Err(e),
        };
        match converted {
            Ok(Prompt::Text(p)) => {
                self.put_text(key, p.duplicate());
                Ok(Prompt::Text(p))
            },
            Ok(Prompt::Chat(p)) => {
                self.put_chat(key, p.duplicate());
                Ok(Prompt::Chat(p))
            },
            Err(e) => match self.text_fallback(key) {
                Some(p) => Ok(Prompt::Text(p)),
                None => match self.chat_fallback(key) {
                    Some(p) => Ok(Prompt::Chat(p)),
                    None => Err(e),
                },
            },
        }
    }

    /// Take in a created text prompt: the answer's template is used when it
    /// has one, else the template sent; every cached entry of `name` is
    /// dropped.
    pub fn created_text_prompt(&mut self, name: &str, template: &str, resp: PromptApiResponse) -> (r:
        TextPromptClient)
        ensures
            text_prompt_of(
                r,
                resp,
                match resp.prompt {
                    PromptPayload::Text(t) => t@,
                    _ => template@,
                },
            ),
            final(self).ttl() == old(self).ttl(),
            final(self).text_view() == without_prefix(old(self).text_view(), invalidation_prefix(name@)),
            final(self).chat_view() == without_prefix(old(self).chat_view(), invalidation_prefix(name@)),
    {
        let template = match resp.prompt {
            PromptPayload::Text(t) => t,
            _ => owned(template),
        };
        let p = TextPromptClient {
            name: resp.name,
            version: resp.version,
            template,
            config: resp.config,
            labels: resp.labels,
            tags: resp.tags,
            is_fallback: false,
        };
        self.forget_prompt(name);
        p
    }

    /// Take in a created chat prompt: the answer's messages are used when it
    /// has them, else the messages sent; every cached entry of `name` is
    /// dropped.
    pub fn created_chat_prompt(
        &mut self,
        name: &str,
        messages: &Vec<ChatMessage>,
        resp: PromptApiResponse,
    ) -> (r: ChatPromptClient)
        ensures
            chat_prompt_of(
                r,
                resp,
                match resp.prompt {
                    PromptPayload::Messages(ms) => messages_view(ms@),
                    _ => messages_view(messages@),
                },
            ),
            final(self).ttl() == old(self).ttl(),
            final(self).text_view() == without_prefix(old(self).text_view(), invalidation_prefix(name@)),
            final(self).chat_view() == without_prefix(old(self).chat_view(), invalidation_prefix(name@)),
    {
        let messages = match resp.prompt {
            PromptPayload::Messages(ms) => ms,
            _ => copy_messages(messages),
        };
        let p = ChatPromptClient {
            name: resp.name,
            version: resp.version,
            messages,
            config: resp.config,
            labels: resp.labels,
            tags: resp.tags,
            is_fallback: false,
        };
        self.forget_prompt(name);
        p
    }

    /// Drop every cached entry (text and chat, any version or label) of the
    /// prompt `name`, as after it was created or relabelled.
    pub fn forget_prompt(&mut self, name: &str)
        ensures
            final(self).ttl() == old(self).ttl(),
            final(self).text_view() == without_prefix(old(self).text_view(), invalidation_prefix(name@)),
            final(self).chat_view() == without_prefix(old(self).chat_view(), invalidation_prefix(name@)),
    {
        let prefix = invalidation_prefix_of(name);
        self.invalidate_by_prefix(prefix.as_str());
    }
}

/// The outcome of a failed prompt lookup under `key`: the cached text entry,
/// else the cached chat entry, served as a fallback; else an error that
/// satisfies `err`.
pub open spec fn fallback_or(
    c: PromptCache,
    key: Seq<char>,
    r: Result<Prompt, LangfuseError>,
    err: spec_fn(LangfuseError) -> bool,
) -> bool {
    if c.text_view().contains_key(key) {
        r matches Ok(Prompt::Text(p)) && text_fallback_of(p, c.text_view()[key].value)
    } else if c.chat_view().contains_key(key) {
        r matches Ok(Prompt::Chat(p)) && chat_fallback_of(p, c.chat_view()[key].value)
    } else {
        r matches Err(e) && err(e)
    }
}


/// The answer to a text prompt request that failed with `e`, given the cache
/// `c` as it stood: the entry cached under `key` (expired or not) marked as
/// a fallback, else the error.
pub open spec fn text_failure_answer(
    c: PromptCache,
    key: Seq<char>,
    e: LangfuseError,
    r: Result<TextPromptClient, LangfuseError>,
) -> bool {
    if c.text_view().contains_key(key) {
        r matches Ok(p) && text_fallback_of(p, c.text_view()[key].value)
    } else {
        r == Err::<TextPromptClient, LangfuseError>(e)
    }
}

/// The answer to a chat prompt request that failed with `e`, given the cache
/// `c` as it stood: the entry cached under `key` (expired or not) marked as
/// a fallback, else the error.
pub open spec fn chat_failure_answer(
    c: PromptCache,
    key: Seq<char>,
    e: LangfuseError,
    r: Result<ChatPromptClient, LangfuseError>,
) -> bool {
    if c.chat_view().contains_key(key) {
        r matches Ok(p) && chat_fallback_of(p, c.chat_view()[key].value)
    } else {
        r == Err::<ChatPromptClient, LangfuseError>(e)
    }
}

/// What a fresh text lookup may answer on the cache `c`: only the entry
/// cached under `key`, and nothing where there is none.
pub open spec fn fresh_text_answer(c: PromptCache, key: Seq<char>, r: Option<TextPromptClient>) -> bool {
    &&& r matches Some(p) ==> c.text_view().contains_key(key) && same_text_prompt(
        p,
        c.text_view()[key].value,
    )
    &&& !c.text_view().contains_key(key) ==> r is None
}

/// What a fresh chat lookup may answer on the cache `c`: only the entry
/// cached under `key`, and nothing where there is none.
pub open spec fn fresh_chat_answer(c: PromptCache, key: Seq<char>, r: Option<ChatPromptClient>) -> bool {
    &&& r matches Some(p) ==> c.chat_view().contains_key(key) && same_chat_prompt(
        p,
        c.chat_view()[key].value,
    )
    &&& !c.chat_view().contains_key(key) ==> r is None
}

/// A prompt whose cached entry has expired is still served when the API
/// cannot be reached: the fresh lookup (`fresh_text`, `fresh_chat`) misses
/// and leaves the cache `c` as it was, and the failed request that follows
/// (`settle_text`, `settle_chat` on that same cache) answers with the cached
/// entry, marked as a fallback.
pub proof fn lemma_expired_entry_served_on_failure(
    c: PromptCache,
    key: Seq<char>,
    e: LangfuseError,
    text_lookup: Option<TextPromptClient>,
    text_answer: Result<TextPromptClient, LangfuseError>,
    chat_lookup: Option<ChatPromptClient>,
    chat_answer: Result<ChatPromptClient, LangfuseError>,
)
    requires
        fresh_text_answer(c, key, text_lookup),
        fresh_chat_answer(c, key, chat_lookup),
        text_failure_answer(c, key, e, text_answer),
        chat_failure_answer(c, key, e, chat_answer),
    ensures
        c.text_view().contains_key(key) && text_lookup is None ==> (text_answer matches Ok(p)
            && p.is_fallback && p.template@ == c.text_view()[key].value.template@
            && p.name@ == c.text_view()[key].value.name@ && p.version
            == c.text_view()[key].value.version),
        c.chat_view().contains_key(key) && chat_lookup is None ==> (chat_answer matches Ok(p)
            && p.is_fallback && messages_view(p.messages@) == messages_view(
            c.chat_view()[key].value.messages@,
        ) && p.name@ == c.chat_view()[key].value.name@ && p.version
            == c.chat_view()[key].value.version),
        !c.text_view().contains_key(key) ==> text_lookup is None && text_answer == Err::<
            TextPromptClient,
            LangfuseError,
        >(e),
        !c.chat_view().contains_key(key) ==> chat_lookup is None && chat_answer == Err::<
            ChatPromptClient,
            LangfuseError,
        >(e),
{
}

} // verus!
