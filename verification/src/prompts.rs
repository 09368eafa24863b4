//! Prompt clients (text and chat), the unified prompt type and cache keys.

use vstd::prelude::*;

use crate::chars::{
    append_str, copy_string, copy_strings, push_decimal_i64, decimal_int, starts_with,
    strings_view,
};
use crate::error::LangfuseError;
use crate::store::without_prefix;
use crate::json::clone_json;
use crate::template::{compile_spec, compile_template, compiled_as, TemplateError, TemplateVariables};
use crate::types::ChatMessage;

verus! {

broadcast use vstd::string::group_string_axioms;

/// A text prompt. Holds the raw template and supports `{{variable}}`
/// substitution.
#[derive(Debug)]
pub struct TextPromptClient {
    /// Prompt name.
    pub name: String,
    /// Prompt version.
    pub version: i32,
    /// Raw template string containing `{{variable}}` placeholders.
    pub template: String,
    /// Arbitrary configuration attached to the prompt.
    pub config: serde_json::Value,
    /// Labels associated with this prompt version (e.g. `["production"]`).
    pub labels: Vec<String>,
    /// Tags for categorisation.
    pub tags: Vec<String>,
    /// Whether this prompt was served from an expired cache entry (fallback).
    pub is_fallback: bool,
}

/// A chat prompt: a list of messages with `{{variable}}` support in their
/// content.
#[derive(Debug)]
pub struct ChatPromptClient {
    /// Prompt name.
    pub name: String,
    /// Prompt version.
    pub version: i32,
    /// Chat messages, each potentially containing `{{variable}}` placeholders in `content`.
    pub messages: Vec<ChatMessage>,
    /// Arbitrary configuration attached to the prompt.
    pub config: serde_json::Value,
    /// Labels associated with this prompt version.
    pub labels: Vec<String>,
    /// Tags for categorisation.
    pub tags: Vec<String>,
    /// Whether this prompt was served from an expired cache entry (fallback).
    pub is_fallback: bool,
}

/// Two text prompts hold the same data.
pub open spec fn same_text_prompt(a: TextPromptClient, b: TextPromptClient) -> bool {
    &&& a.name@ == b.name@
    &&& a.version == b.version
    &&& a.template@ == b.template@
    &&& a.config == b.config
    &&& strings_view(a.labels@) == strings_view(b.labels@)
    &&& strings_view(a.tags@) == strings_view(b.tags@)
    &&& a.is_fallback == b.is_fallback
}

/// The role and content of each message.
pub open spec fn messages_view(ms: Seq<ChatMessage>) -> Seq<(Seq<char>, Seq<char>)> {
    ms.map_values(|m: ChatMessage| (m.role@, m.content@))
}

/// Two chat prompts hold the same data.
pub open spec fn same_chat_prompt(a: ChatPromptClient, b: ChatPromptClient) -> bool {
    &&& a.name@ == b.name@
    &&& a.version == b.version
    &&& messages_view(a.messages@) == messages_view(b.messages@)
    &&& a.config == b.config
    &&& strings_view(a.labels@) == strings_view(b.labels@)
    &&& strings_view(a.tags@) == strings_view(b.tags@)
    &&& a.is_fallback == b.is_fallback
}

/// Copies a list of chat messages.
pub fn copy_messages(ms: &Vec<ChatMessage>) -> (r: Vec<ChatMessage>)
    ensures
        messages_view(r@) == messages_view(ms@),
{
    let mut r: Vec<ChatMessage> = Vec::new();
    let mut i: usize = 0;
    while i < ms.len()
        invariant
            i <= ms@.len(),
            r@.len() == i,
            forall|k: int|
                0 <= k < i ==> (#[trigger] r@[k]).role@ == ms@[k].role@ && r@[k].content@
                    == ms@[k].content@,
        decreases ms.len() - i,
    {
        r.push(ChatMessage { role: copy_string(&ms[i].role), content: copy_string(&ms[i].content) });
        i = i + 1;
    }
    assert(messages_view(r@) =~= messages_view(ms@));
    r
}

impl TextPromptClient {
    /// Compile the prompt by replacing `{{variable}}` placeholders with values
    /// from `variables`.
    ///
    /// Returns [`LangfuseError::PromptCompilation`] if a placeholder references
    /// a variable that is not present, or if a `{{` is never closed.
    pub fn compile(&self, variables: &TemplateVariables) -> (r: Result<String, LangfuseError>)
        ensures
            compiled_as(r, compile_spec(self.template@, variables@)),
    {
        compile_template(self.template.as_str(), variables)
    }

    /// A copy of this prompt.
    pub fn duplicate(&self) -> (r: TextPromptClient)
        ensures
            same_text_prompt(r, *self),
    {
        TextPromptClient {
            name: copy_string(&self.name),
            version: self.version,
            template: copy_string(&self.template),
            config: clone_json(&self.config),
            labels: copy_strings(&self.labels),
            tags: copy_strings(&self.tags),
            is_fallback: self.is_fallback,
        }
    }
}

/// The messages of a chat prompt compiled one by one, in order; the first
/// message that does not compile decides the error.
pub open spec fn compile_messages_spec(
    ms: Seq<ChatMessage>,
    vars: Map<Seq<char>, Seq<char>>,
) -> Result<Seq<(Seq<char>, Seq<char>)>, TemplateError>
    decreases ms.len(),
{
    if ms.len() == 0 {
        Ok(Seq::empty())
    } else {
        match compile_spec(ms[0].content@, vars) {
            Err(e) => Err(e),
            Ok(c) => match compile_messages_spec(ms.drop_first(), vars) {
                Ok(rest) => Ok(seq![(ms[0].role@, c)] + rest),
                Err(e) => Err(e),
            },
        }
    }
}

/// The executable result `r` is what `spec` describes.
pub open spec fn messages_compiled_as(
    r: Result<Vec<ChatMessage>, LangfuseError>,
    spec: Result<Seq<(Seq<char>, Seq<char>)>, TemplateError>,
) -> bool {
    match spec {
        Ok(s) => r matches Ok(out) && messages_view(out@) == s,
        Err(e) => match r {
            Ok(_) => false,
            Err(err) => compiled_as(Err(err), Err(e)),
        },
    }
}

spec fn prefixed_messages(
    prefix: Seq<(Seq<char>, Seq<char>)>,
    r: Result<Seq<(Seq<char>, Seq<char>)>, TemplateError>,
) -> Result<Seq<(Seq<char>, Seq<char>)>, TemplateError> {
    match r {
        Ok(s) => Ok(prefix + s),
        Err(e) => Err(e),
    }
}

impl ChatPromptClient {
    /// Compile all messages by replacing `{{variable}}` placeholders in each
    /// message's content; roles are kept.
    ///
    /// Returns [`LangfuseError::PromptCompilation`] if any message references a
    /// variable that is not present in the map.
    pub fn compile(&self, variables: &TemplateVariables) -> (r: Result<
        Vec<ChatMessage>,
        LangfuseError,
    >)
        ensures
            messages_compiled_as(r, compile_messages_spec(self.messages@, variables@)),
    {
        let ghost ms = self.messages@;
        let mut out: Vec<ChatMessage> = Vec::new();
        let mut i: usize = 0;
        assert(ms.subrange(0, ms.len() as int) =~= ms);
        while i < self.messages.len()
            invariant
                i <= ms.len(),
                ms == self.messages@,
                compile_messages_spec(ms, variables@) == prefixed_messages(
                    messages_view(out@),
                    compile_messages_spec(ms.subrange(i as int, ms.len() as int), variables@),
                ),
            decreases self.messages.len() - i,
        {
            let ghost rest = ms.subrange(i as int, ms.len() as int);
            assert(rest[0] == ms[i as int]);
            assert(rest.drop_first() =~= ms.subrange(i + 1, ms.len() as int));
            let msg = &self.messages[i];
            match compile_template(msg.content.as_str(), variables) {
                Ok(content) => {
                    let ghost before = out@;
                    out.push(ChatMessage { role: copy_string(&msg.role), content });
                    proof {
                        assert(messages_view(out@) =~= messages_view(before).push(
                            (ms[i as int].role@, content@),
                        ));
                        match compile_messages_spec(ms.subrange(i + 1, ms.len() as int), variables@) {
                            Ok(x) => {
                                assert(messages_view(before) + (seq![(ms[i as int].role@, content@)]
                                    + x) =~= messages_view(out@) + x);
                            },
                            Err(_) => {},
                        }
                    }
                },
                Err(e) => {
                    return Err(e);
                },
            }
            i = i + 1;
        }
        proof {
            assert(ms.subrange(ms.len() as int, ms.len() as int) =~= Seq::<ChatMessage>::empty());
            assert(messages_view(out@) + Seq::<(Seq<char>, Seq<char>)>::empty() =~= messages_view(
                out@,
            ));
        }
        Ok(out)
    }

    /// A copy of this prompt.
    pub fn duplicate(&self) -> (r: ChatPromptClient)
        ensures
            same_chat_prompt(r, *self),
    {
        ChatPromptClient {
            name: copy_string(&self.name),
            version: self.version,
            messages: copy_messages(&self.messages),
            config: clone_json(&self.config),
            labels: copy_strings(&self.labels),
            tags: copy_strings(&self.tags),
            is_fallback: self.is_fallback,
        }
    }
}

/// Unified prompt type — either text or chat.
#[derive(Debug)]
pub enum Prompt {
    /// A text prompt with `{{variable}}` template support.
    Text(TextPromptClient),
    /// A chat prompt with a list of messages.
    Chat(ChatPromptClient),
}

impl Prompt {
    /// Returns `true` if this is a text prompt.
    pub fn is_text(&self) -> (r: bool)
        ensures
            r == (*self is Text),
    {
        match self {
            Prompt::Text(_) => true,
            Prompt::Chat(_) => false,
        }
    }

    /// Returns `true` if this is a chat prompt.
    pub fn is_chat(&self) -> (r: bool)
        ensures
            r == (*self is Chat),
    {
        match self {
            Prompt::Text(_) => false,
            Prompt::Chat(_) => true,
        }
    }

    /// The inner text prompt, if this is a text prompt.
    pub fn as_text(&self) -> (r: Option<&TextPromptClient>)
        ensures
            match *self {
                Prompt::Text(t) => r == Some(&t),
                Prompt::Chat(_) => r is None,
            },
    {
        match self {
            Prompt::Text(t) => Some(t),
            Prompt::Chat(_) => None,
        }
    }

    /// The inner chat prompt, if this is a chat prompt.
    pub fn as_chat(&self) -> (r: Option<&ChatPromptClient>)
        ensures
            match *self {
                Prompt::Text(_) => r is None,
                Prompt::Chat(c) => r == Some(&c),
            },
    {
        match self {
            Prompt::Text(_) => None,
            Prompt::Chat(c) => Some(c),
        }
    }

    /// The prompt name, whatever the variant.
    pub fn name(&self) -> (r: &str)
        ensures
            r@ == match *self {
                Prompt::Text(t) => t.name@,
                Prompt::Chat(c) => c.name@,
            },
    {
        match self {
            Prompt::Text(t) => t.name.as_str(),
            Prompt::Chat(c) => c.name.as_str(),
        }
    }

    /// The prompt version, whatever the variant.
    pub fn version(&self) -> (r: i32)
        ensures
            r == match *self {
                Prompt::Text(t) => t.version,
                Prompt::Chat(c) => c.version,
            },
    {
        match self {
            Prompt::Text(t) => t.version,
            Prompt::Chat(c) => c.version,
        }
    }

    /// Whether the prompt was served from an expired cache entry.
    pub fn is_fallback(&self) -> (r: bool)
        ensures
            r == match *self {
                Prompt::Text(t) => t.is_fallback,
                Prompt::Chat(c) => c.is_fallback,
            },
    {
        match self {
            Prompt::Text(t) => t.is_fallback,
            Prompt::Chat(c) => c.is_fallback,
        }
    }
}

/// The cache key of a prompt lookup: `name:version` when a version is asked
/// for, else `name:label` when a label is, else `name:latest`.
pub open spec fn cache_key_spec(name: Seq<char>, version: Option<i32>, label: Option<Seq<char>>) -> Seq<
    char,
> {
    match (version, label) {
        (Some(v), _) => name + ":"@ + decimal_int(v as int),
        (None, Some(l)) => name + ":"@ + l,
        (None, None) => name + ":"@ + "latest"@,
    }
}

/// Build the cache key for a prompt lookup.
pub fn cache_key(name: &str, version: Option<i32>, label: Option<&str>) -> (r: String)
    ensures
        r@ == cache_key_spec(
            name@,
            version,
            match label {
                Some(l) => Some(l@),
                None => None,
            },
        ),
{
    let mut r = String::new();
    append_str(&mut r, name);
    append_str(&mut r, ":");
    match (version, label) {
        (Some(v), _) => {
            push_decimal_i64(&mut r, v as i64);
        },
        (None, Some(l)) => {
            append_str(&mut r, l);
        },
        (None, None) => {
            append_str(&mut r, "latest");
        },
    }
    assert(r@ =~= cache_key_spec(
        name@,
        version,
        match label {
            Some(l) => Some(l@),
            None => None,
        },
    ));
    r
}

/// The prefix shared by every cache key of the prompt `name`: `name:`.
pub open spec fn invalidation_prefix(name: Seq<char>) -> Seq<char> {
    name + ":"@
}

/// The prefix that invalidates every cached entry of the prompt `name`.
pub fn invalidation_prefix_of(name: &str) -> (r: String)
    ensures
        r@ == invalidation_prefix(name@),
{
    let mut r = String::new();
    append_str(&mut r, name);
    append_str(&mut r, ":");
    assert(r@ =~= invalidation_prefix(name@));
    r
}

/// Every cache key of a prompt begins with that prompt's invalidation prefix,
/// so invalidating by the prefix drops every cached version and label of it.
pub proof fn lemma_cache_key_has_invalidation_prefix(
    name: Seq<char>,
    version: Option<i32>,
    label: Option<Seq<char>>,
)
    ensures
        starts_with(cache_key_spec(name, version, label), invalidation_prefix(name)),
{
    let k = cache_key_spec(name, version, label);
    let p = invalidation_prefix(name);
    assert(k.subrange(0, p.len() as int) =~= p);
}


/// After the entries of a prompt are dropped by its invalidation prefix, no
/// cache key of that prompt (any version, any label) is left.
pub proof fn lemma_forgotten_prompt_not_cached<V>(
    m: Map<Seq<char>, V>,
    name: Seq<char>,
    version: Option<i32>,
    label: Option<Seq<char>>,
)
    ensures
        !without_prefix(m, invalidation_prefix(name)).contains_key(
            cache_key_spec(name, version, label),
        ),
{
    lemma_cache_key_has_invalidation_prefix(name, version, label);
}

} // verus!
