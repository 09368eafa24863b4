//! Trace-level attributes that spans inherit: which of them are present,
//! how explicit ones are merged with those carried in W3C baggage, what is
//! written to and read from baggage, and which span attributes they and a
//! batch update become.

use vstd::prelude::*;

use crate::chars::{copy_opt_string, copy_string, copy_strings, opt_view, owned, strings_view};
use crate::json::clone_opt_json;
use crate::types::SpanLevel;

verus! {

broadcast use vstd::string::group_string_axioms;

/// Attributes that propagate to every span created within a scope.
#[derive(Debug, PartialEq)]
pub struct PropagateAttributes {
    /// User ID.
    pub user_id: Option<String>,
    /// Session ID.
    pub session_id: Option<String>,
    /// Trace metadata.
    pub metadata: Option<serde_json::Value>,
    /// Version tag.
    pub version: Option<String>,
    /// Trace tags.
    pub tags: Option<Vec<String>>,
    /// Trace name.
    pub trace_name: Option<String>,
    /// Also carry the attributes in W3C baggage, across process boundaries.
    pub as_baggage: bool,
}

/// The characters of each string of an optional list.
pub open spec fn opt_strings_view(v: Option<Vec<String>>) -> Option<Seq<Seq<char>>> {
    match v {
        Some(x) => Some(strings_view(x@)),
        None => None,
    }
}

/// Propagated attributes by their characters.
pub struct PropagateView {
    /// User ID.
    pub user_id: Option<Seq<char>>,
    /// Session ID.
    pub session_id: Option<Seq<char>>,
    /// Trace metadata.
    pub metadata: Option<serde_json::Value>,
    /// Version tag.
    pub version: Option<Seq<char>>,
    /// Trace tags.
    pub tags: Option<Seq<Seq<char>>>,
    /// Trace name.
    pub trace_name: Option<Seq<char>>,
    /// Carried in baggage.
    pub as_baggage: bool,
}

impl View for PropagateAttributes {
    type V = PropagateView;

    open spec fn view(&self) -> PropagateView {
        PropagateView {
            user_id: opt_view(self.user_id),
            session_id: opt_view(self.session_id),
            metadata: self.metadata,
            version: opt_view(self.version),
            tags: opt_strings_view(self.tags),
            trace_name: opt_view(self.trace_name),
            as_baggage: self.as_baggage,
        }
    }
}

/// Nothing to propagate.
pub open spec fn no_attributes() -> PropagateView {
    PropagateView {
        user_id: None,
        session_id: None,
        metadata: None,
        version: None,
        tags: None,
        trace_name: None,
        as_baggage: false,
    }
}

impl Default for PropagateAttributes {
    fn default() -> (r: Self)
        ensures
            r@ == no_attributes(),
    {
        PropagateAttributes {
            user_id: None,
            session_id: None,
            metadata: None,
            version: None,
            tags: None,
            trace_name: None,
            as_baggage: false,
        }
    }
}

impl PropagateAttributes {
    /// A copy of the attributes.
    pub fn duplicate(&self) -> (r: PropagateAttributes)
        ensures
            r@ == self@,
    {
        PropagateAttributes {
            user_id: copy_opt_string(&self.user_id),
            session_id: copy_opt_string(&self.session_id),
            metadata: clone_opt_json(&self.metadata),
            version: copy_opt_string(&self.version),
            tags: copy_opt_strings(&self.tags),
            trace_name: copy_opt_string(&self.trace_name),
            as_baggage: self.as_baggage,
        }
    }
}

/// Copies an optional list of strings.
pub fn copy_opt_strings(v: &Option<Vec<String>>) -> (r: Option<Vec<String>>)
    ensures
        opt_strings_view(r) == opt_strings_view(*v),
{
    match v {
        Some(x) => Some(copy_strings(x)),
        None => None,
    }
}

/// Whether a flag is off; a flag that is off is left out when the attributes
/// are serialised.
pub fn is_false(value: &bool) -> (r: bool)
    ensures
        r == !*value,
{
    !*value
}

/// At least one attribute is present (the baggage flag does not count).
pub open spec fn has_values(a: PropagateView) -> bool {
    a.user_id is Some || a.session_id is Some || a.metadata is Some || a.version is Some
        || a.tags is Some || a.trace_name is Some
}

/// Whether any attribute is present (the baggage flag does not count).
pub fn has_propagated_values(attrs: &PropagateAttributes) -> (r: bool)
    ensures
        r == has_values(attrs@),
{
    attrs.user_id.is_some() || attrs.session_id.is_some() || attrs.metadata.is_some()
        || attrs.version.is_some() || attrs.tags.is_some() || attrs.trace_name.is_some()
}

/// The explicit value, or else the one from baggage.
pub open spec fn or_else<T>(explicit: Option<T>, from_baggage: Option<T>) -> Option<T> {
    match explicit {
        Some(x) => Some(x),
        None => from_baggage,
    }
}

/// The attributes a span inherits: the explicit ones (none when absent),
/// with user, session and tags taken from baggage where not given
/// explicitly.
pub open spec fn merged(explicit: PropagateView, from_baggage: PropagateView) -> PropagateView {
    PropagateView {
        user_id: or_else(explicit.user_id, from_baggage.user_id),
        session_id: or_else(explicit.session_id, from_baggage.session_id),
        tags: or_else(explicit.tags, from_baggage.tags),
        ..explicit
    }
}

/// Merge the explicit attributes of the current scope (if any) with those
/// read from baggage; `None` when nothing is left to propagate.
pub fn resolve_propagated_attributes(
    explicit: Option<PropagateAttributes>,
    from_baggage: PropagateAttributes,
) -> (r: Option<PropagateAttributes>)
    ensures
        ({
            let m = merged(
                match explicit {
                    Some(e) => e@,
                    None => no_attributes(),
                },
                from_baggage@,
            );
            &&& has_values(m) ==> (r matches Some(a) && a@ == m)
            &&& !has_values(m) ==> r is None
        }),
        from_baggage@.user_id is Some || from_baggage@.session_id is Some || from_baggage@.tags is Some
            ==> r is Some,
        explicit matches Some(e) && has_values(e@) ==> r is Some,
        r matches Some(a) ==> a@.tags == (match explicit {
            Some(e) => if e@.tags is Some {
                e@.tags
            } else {
                from_baggage@.tags
            },
            None => from_baggage@.tags,
        }),
        r matches Some(a) ==> a@.user_id == (match explicit {
            Some(e) => if e@.user_id is Some {
                e@.user_id
            } else {
                from_baggage@.user_id
            },
            None => from_baggage@.user_id,
        }),
        r matches Some(a) ==> a@.session_id == (match explicit {
            Some(e) => if e@.session_id is Some {
                e@.session_id
            } else {
                from_baggage@.session_id
            },
            None => from_baggage@.session_id,
        }),
{
    let mut merged = match explicit {
        Some(e) => e,
        None => PropagateAttributes::default(),
    };
    if merged.user_id.is_none() {
        merged.user_id = from_baggage.user_id;
    }
    if merged.session_id.is_none() {
        merged.session_id = from_baggage.session_id;
    }
    if merged.tags.is_none() {
        merged.tags = from_baggage.tags;
    }
    if has_propagated_values(&merged) {
        Some(merged)
    } else {
        None
    }
}

/// How a span's inherited attributes come about: user, session and tags
/// are the explicit ones where given, else those from baggage; metadata,
/// version and trace name are only ever explicit; and anything carried in
/// baggage leaves something to propagate.
pub proof fn lemma_merge_prefers_explicit(explicit: PropagateView, from_baggage: PropagateView)
    ensures
        explicit.user_id is Some ==> merged(explicit, from_baggage).user_id == explicit.user_id,
        explicit.user_id is None ==> merged(explicit, from_baggage).user_id == from_baggage.user_id,
        explicit.session_id is Some ==> merged(explicit, from_baggage).session_id
            == explicit.session_id,
        explicit.session_id is None ==> merged(explicit, from_baggage).session_id
            == from_baggage.session_id,
        explicit.tags is Some ==> merged(explicit, from_baggage).tags == explicit.tags,
        explicit.tags is None ==> merged(explicit, from_baggage).tags == from_baggage.tags,
        merged(explicit, from_baggage).metadata == explicit.metadata,
        merged(explicit, from_baggage).version == explicit.version,
        merged(explicit, from_baggage).trace_name == explicit.trace_name,
        from_baggage.user_id is Some || from_baggage.session_id is Some || from_baggage.tags is Some
            ==> has_values(merged(explicit, from_baggage)),
        has_values(explicit) ==> has_values(merged(explicit, from_baggage)),
{
}

// ---------------------------------------------------------------------------
// Baggage
// ---------------------------------------------------------------------------

/// Baggage key of the trace id.
pub const BAGGAGE_TRACE_ID: &'static str = "langfuse.trace_id";
/// Baggage key of the user id.
pub const BAGGAGE_USER_ID: &'static str = "langfuse.user_id";
/// Baggage key of the session id.
pub const BAGGAGE_SESSION_ID: &'static str = "langfuse.session_id";
/// Baggage key of the tags (a JSON array of strings).
pub const BAGGAGE_TAGS: &'static str = "langfuse.tags";

/// The list of strings that a JSON text denotes, if it is a JSON array of
/// strings (as `serde_json::from_str::<Vec<String>>` reads it).
pub uninterp spec fn json_string_list(text: Seq<char>) -> Option<Seq<Seq<char>>>;

/// The lower-case hexadecimal digit of `n < 16`.
pub open spec fn hex_digit(n: int) -> char {
    if n < 10 {
        ('0' as int + n) as char
    } else {
        ('a' as int + (n - 10)) as char
    }
}

/// How serde_json writes one character inside a JSON string: `"` and `\`
/// behind a backslash, the control characters with a short escape (`\b`,
/// `\t`, `\n`, `\f`, `\r`) or as `\u00XX` in lower-case hexadecimal, and
/// every other character as itself.
pub open spec fn json_escape_char(c: char) -> Seq<char> {
    if c == '"' {
        seq!['\\', '"']
    } else if c == '\\' {
        seq!['\\', '\\']
    } else if c == '\u{8}' {
        seq!['\\', 'b']
    } else if c == '\t' {
        seq!['\\', 't']
    } else if c == '\n' {
        seq!['\\', 'n']
    } else if c == '\u{c}' {
        seq!['\\', 'f']
    } else if c == '\r' {
        seq!['\\', 'r']
    } else if (c as u32) < 0x20 {
        seq!['\\', 'u', '0', '0', hex_digit((c as int) / 16), hex_digit((c as int) % 16)]
    } else {
        seq![c]
    }
}

/// The escaped characters of a JSON string's contents.
pub open spec fn json_escaped(s: Seq<char>) -> Seq<char>
    decreases s.len(),
{
    if s.len() == 0 {
        Seq::empty()
    } else {
        json_escaped(s.drop_last()) + json_escape_char(s.last())
    }
}

/// The JSON string literal of `s`.
pub open spec fn json_string_text(s: Seq<char>) -> Seq<char> {
    seq!['"'] + json_escaped(s) + seq!['"']
}

/// The JSON string literals of `items`, separated by commas.
pub open spec fn json_items_text(items: Seq<Seq<char>>) -> Seq<char>
    decreases items.len(),
{
    if items.len() == 0 {
        Seq::empty()
    } else if items.len() == 1 {
        json_string_text(items[0])
    } else {
        json_items_text(items.drop_last()) + seq![','] + json_string_text(items.last())
    }
}

/// The JSON text that `serde_json::to_string` writes for a list of strings
/// (compact: no spaces).
pub open spec fn json_string_list_text(items: Seq<Seq<char>>) -> Seq<char> {
    seq!['['] + json_items_text(items) + seq![']']
}

/// Trusted wrapper of `serde_json::from_str::<Vec<String>>`: the strings read
/// are those the named reading gives, and it fails exactly where that is
/// none. Which texts are JSON arrays of strings is not stated here.
#[verifier::external_body]
fn parse_string_list(text: &str) -> (r: Option<Vec<String>>)
    ensures
        match r {
            Some(v) => json_string_list(text@) == Some(strings_view(v@)),
            None => json_string_list(text@) is None,
        },
{
    serde_json::from_str::<Vec<String>>(text).ok()
}

/// Trusted wrapper of `serde_json::to_string` on a list of strings, which
/// cannot fail for it (no map keys, no failing `Serialize`): the text is the
/// compact JSON array of the escaped strings, and reading it back with
/// `serde_json::from_str` gives the same strings (serde_json's string
/// escaping is lossless).
#[verifier::external_body]
fn render_string_list(items: &Vec<String>) -> (r: String)
    ensures
        r@ == json_string_list_text(strings_view(items@)),
        json_string_list(r@) == Some(strings_view(items@)),
{
    serde_json::to_string(items).unwrap_or_default()
}

/// The tags that a baggage value denotes: a non-empty JSON array of strings.
pub open spec fn baggage_tags(text: Option<Seq<char>>) -> Option<Seq<Seq<char>>> {
    match text {
        Some(t) => match json_string_list(t) {
            Some(v) => if v.len() > 0 {
                Some(v)
            } else {
                None
            },
            None => None,
        },
        None => None,
    }
}

/// The attributes carried in baggage, from the values of the user, session
/// and tags keys.
pub open spec fn from_baggage_spec(
    user_id: Option<Seq<char>>,
    session_id: Option<Seq<char>>,
    tags: Option<Seq<char>>,
) -> PropagateView {
    PropagateView {
        user_id,
        session_id,
        tags: baggage_tags(tags),
        ..no_attributes()
    }
}

/// Read the propagated attributes from the baggage values of the user,
/// session and tags keys. Tags that are not a JSON array of strings, or an
/// empty one, are ignored.
pub fn read_propagated_attributes(
    user_id: Option<String>,
    session_id: Option<String>,
    tags: Option<String>,
) -> (r: PropagateAttributes)
    ensures
        r@ == from_baggage_spec(opt_view(user_id), opt_view(session_id), opt_view(tags)),
{
    let tags = match tags {
        Some(t) => match parse_string_list(t.as_str()) {
            Some(v) => if v.len() > 0 {
                Some(v)
            } else {
                None
            },
            None => None,
        },
        None => None,
    };
    PropagateAttributes {
        user_id,
        session_id,
        metadata: None,
        version: None,
        tags,
        trace_name: None,
        as_baggage: false,
    }
}

/// The baggage entries written for `a`, in order: the trace id of the
/// current span (when there is one), then user, session and tags (JSON), each
/// when present.
pub open spec fn baggage_spec(a: PropagateView, trace_id: Option<Seq<char>>) -> Seq<
    (Seq<char>, Seq<char>),
> {
    let s0: Seq<(Seq<char>, Seq<char>)> = Seq::empty();
    let s1 = match trace_id {
        Some(t) => s0.push((BAGGAGE_TRACE_ID@, t)),
        None => s0,
    };
    let s2 = match a.user_id {
        Some(u) => s1.push((BAGGAGE_USER_ID@, u)),
        None => s1,
    };
    let s3 = match a.session_id {
        Some(s) => s2.push((BAGGAGE_SESSION_ID@, s)),
        None => s2,
    };
    match a.tags {
        Some(t) => s3.push((BAGGAGE_TAGS@, json_string_list_text(t))),
        None => s3,
    }
}

/// The entries by their characters.
pub open spec fn entries_view(v: Seq<(String, String)>) -> Seq<(Seq<char>, Seq<char>)> {
    v.map_values(|e: (String, String)| (e.0@, e.1@))
}

/// The baggage entries that carry `attrs` (and the current trace id, when a
/// span is active) across process boundaries. Existing entries under the
/// same keys are replaced by these. Read back by their keys (as
/// [`read_propagated_attributes`] does), they give the user, the session and
/// the non-empty tag list of `attrs`.
pub fn baggage_entries(attrs: &PropagateAttributes, trace_id: Option<String>) -> (r: Vec<
    (String, String),
>)
    ensures
        entries_view(r@) == baggage_spec(attrs@, opt_view(trace_id)),
        read_back(entries_view(r@)) == carried_by_baggage(attrs@),
{
    let mut r: Vec<(String, String)> = Vec::new();
    match trace_id {
        Some(t) => r.push((owned(BAGGAGE_TRACE_ID), t)),
        None => {},
    }
    let ghost r1 = r@;
    match &attrs.user_id {
        Some(u) => r.push((owned(BAGGAGE_USER_ID), copy_string(u))),
        None => {},
    }
    let ghost r2 = r@;
    match &attrs.session_id {
        Some(s) => r.push((owned(BAGGAGE_SESSION_ID), copy_string(s))),
        None => {},
    }
    let ghost r3 = r@;
    match &attrs.tags {
        Some(t) => r.push((owned(BAGGAGE_TAGS), render_string_list(t))),
        None => {},
    }
    proof {
        let a = attrs@;
        let s0: Seq<(Seq<char>, Seq<char>)> = Seq::empty();
        let s1 = match opt_view(trace_id) {
            Some(t) => s0.push((BAGGAGE_TRACE_ID@, t)),
            None => s0,
        };
        let s2 = match a.user_id {
            Some(u) => s1.push((BAGGAGE_USER_ID@, u)),
            None => s1,
        };
        let s3 = match a.session_id {
            Some(s) => s2.push((BAGGAGE_SESSION_ID@, s)),
            None => s2,
        };
        assert(entries_view(r1) =~= s1);
        assert(entries_view(r2) =~= s2);
        assert(entries_view(r3) =~= s3);
        assert(entries_view(r@) =~= baggage_spec(attrs@, opt_view(trace_id)));
        lemma_baggage_round_trip(attrs@, opt_view(trace_id));
    }
    r
}

/// The value of the last entry under `key`, if any: what a baggage holds for
/// `key` after the entries are inserted in order.
pub open spec fn entry_value(entries: Seq<(Seq<char>, Seq<char>)>, key: Seq<char>) -> Option<
    Seq<char>,
>
    decreases entries.len(),
{
    if entries.len() == 0 {
        None
    } else if entries.last().0 == key {
        Some(entries.last().1)
    } else {
        entry_value(entries.drop_last(), key)
    }
}

/// What baggage carries of `a`: its user, its session, and its tags when
/// the list is not empty; the other attributes do not travel in baggage.
pub open spec fn carried_by_baggage(a: PropagateView) -> PropagateView {
    PropagateView {
        user_id: a.user_id,
        session_id: a.session_id,
        tags: match a.tags {
            Some(t) => if t.len() > 0 {
                Some(t)
            } else {
                None
            },
            None => None,
        },
        ..no_attributes()
    }
}

/// What is read back from baggage entries, by the user, session and tags
/// keys.
pub open spec fn read_back(e: Seq<(Seq<char>, Seq<char>)>) -> PropagateView {
    from_baggage_spec(
        entry_value(e, BAGGAGE_USER_ID@),
        entry_value(e, BAGGAGE_SESSION_ID@),
        entry_value(e, BAGGAGE_TAGS@),
    )
}

/// Baggage written for `a` reads back as what baggage carries of `a`, given
/// that the JSON text of its tags reads back as the same list.
proof fn lemma_baggage_round_trip(a: PropagateView, trace_id: Option<Seq<char>>)
    requires
        a.tags matches Some(tags) ==> json_string_list(json_string_list_text(tags)) == Some(tags),
    ensures
        read_back(baggage_spec(a, trace_id)) == carried_by_baggage(a),
{
    reveal_strlit("langfuse.trace_id");
    reveal_strlit("langfuse.user_id");
    reveal_strlit("langfuse.session_id");
    reveal_strlit("langfuse.tags");
    assert(BAGGAGE_TRACE_ID@.len() == 17);
    assert(BAGGAGE_USER_ID@.len() == 16);
    assert(BAGGAGE_SESSION_ID@.len() == 19);
    assert(BAGGAGE_TAGS@.len() == 13);
    let s0: Seq<(Seq<char>, Seq<char>)> = Seq::empty();
    let s1 = match trace_id {
        Some(t) => s0.push((BAGGAGE_TRACE_ID@, t)),
        None => s0,
    };
    let s2 = match a.user_id {
        Some(u) => s1.push((BAGGAGE_USER_ID@, u)),
        None => s1,
    };
    let s3 = match a.session_id {
        Some(s) => s2.push((BAGGAGE_SESSION_ID@, s)),
        None => s2,
    };
    let e = baggage_spec(a, trace_id);
    assert(entry_value(s0, BAGGAGE_USER_ID@) is None);
    assert(entry_value(s0, BAGGAGE_SESSION_ID@) is None);
    assert(entry_value(s0, BAGGAGE_TAGS@) is None);
    if trace_id is Some {
        assert(s1.drop_last() =~= s0);
    }
    assert(entry_value(s1, BAGGAGE_USER_ID@) is None);
    assert(entry_value(s1, BAGGAGE_SESSION_ID@) is None);
    assert(entry_value(s1, BAGGAGE_TAGS@) is None);
    if a.user_id is Some {
        assert(s2.drop_last() =~= s1);
    }
    assert(entry_value(s2, BAGGAGE_USER_ID@) == a.user_id);
    assert(entry_value(s2, BAGGAGE_SESSION_ID@) is None);
    assert(entry_value(s2, BAGGAGE_TAGS@) is None);
    if a.session_id is Some {
        assert(s3.drop_last() =~= s2);
    }
    assert(entry_value(s3, BAGGAGE_USER_ID@) == a.user_id);
    assert(entry_value(s3, BAGGAGE_SESSION_ID@) == a.session_id);
    assert(entry_value(s3, BAGGAGE_TAGS@) is None);
    if a.tags is Some {
        assert(e.drop_last() =~= s3);
    }
    assert(entry_value(e, BAGGAGE_USER_ID@) == a.user_id);
    assert(entry_value(e, BAGGAGE_SESSION_ID@) == a.session_id);
    match a.tags {
        Some(t) => {
            assert(entry_value(e, BAGGAGE_TAGS@) == Some(json_string_list_text(t)));
        },
        None => {
            assert(entry_value(e, BAGGAGE_TAGS@) is None);
        },
    }
}

// ---------------------------------------------------------------------------
// Span attributes
// ---------------------------------------------------------------------------

/// Span attribute key of the user id.
pub const LANGFUSE_USER_ID: &'static str = "langfuse.user.id";
/// Span attribute key of the session id.
pub const LANGFUSE_SESSION_ID: &'static str = "langfuse.session.id";
/// Span attribute key of the observation metadata.
pub const LANGFUSE_METADATA: &'static str = "langfuse.observation.metadata";
/// Span attribute key of the version tag.
pub const LANGFUSE_VERSION: &'static str = "langfuse.version";
/// Span attribute key of the trace tags.
pub const LANGFUSE_TAGS: &'static str = "langfuse.trace.tags";
/// Span attribute key of the trace name.
pub const LANGFUSE_TRACE_NAME: &'static str = "langfuse.trace.name";
/// Span attribute key of the observation output.
pub const LANGFUSE_OUTPUT: &'static str = "langfuse.observation.output";
/// Span attribute key of the severity level.
pub const LANGFUSE_LEVEL: &'static str = "langfuse.observation.level";
/// Span attribute key of the status message.
pub const LANGFUSE_STATUS_MESSAGE: &'static str = "langfuse.observation.status_message";

/// The value of a span attribute, before it is written.
#[derive(Debug)]
pub enum AttributeValue {
    /// Stored as the plain string.
    Text(String),
    /// Stored as its JSON text.
    Json(serde_json::Value),
    /// Stored as a JSON array of strings.
    Tags(Vec<String>),
    /// Stored as the JSON string of the level.
    Level(SpanLevel),
}

/// An attribute value by its characters.
pub enum AttrView {
    /// A plain string.
    Text(Seq<char>),
    /// A JSON value.
    Json(serde_json::Value),
    /// A list of tags.
    Tags(Seq<Seq<char>>),
    /// A severity level.
    Level(SpanLevel),
}

/// The view of an attribute value.
pub open spec fn attr_view(v: AttributeValue) -> AttrView {
    match v {
        AttributeValue::Text(s) => AttrView::Text(s@),
        AttributeValue::Json(j) => AttrView::Json(j),
        AttributeValue::Tags(t) => AttrView::Tags(strings_view(t@)),
        AttributeValue::Level(l) => AttrView::Level(l),
    }
}

/// One attribute to set on a span.
#[derive(Debug)]
pub struct SpanAttribute {
    /// The attribute key.
    pub key: String,
    /// The value.
    pub value: AttributeValue,
}

/// The attributes by key and value view.
pub open spec fn attrs_view(v: Seq<SpanAttribute>) -> Seq<(Seq<char>, AttrView)> {
    v.map_values(|a: SpanAttribute| (a.key@, attr_view(a.value)))
}

/// `s` with `(key, f(x))` appended when `o` is `Some(x)`.
pub open spec fn push_some<T>(
    s: Seq<(Seq<char>, AttrView)>,
    key: Seq<char>,
    o: Option<T>,
    f: spec_fn(T) -> AttrView,
) -> Seq<(Seq<char>, AttrView)> {
    match o {
        Some(x) => s.push((key, f(x))),
        None => s,
    }
}

/// The span attributes that propagated attributes become, in order: user,
/// session, metadata, version, tags and trace name, each when present.
pub open spec fn propagated_spec(a: PropagateView) -> Seq<(Seq<char>, AttrView)> {
    let s1 = push_some(Seq::empty(), LANGFUSE_USER_ID@, a.user_id, |x: Seq<char>| AttrView::Text(x));
    let s2 = push_some(s1, LANGFUSE_SESSION_ID@, a.session_id, |x: Seq<char>| AttrView::Text(x));
    let s3 = push_some(s2, LANGFUSE_METADATA@, a.metadata, |x: serde_json::Value| AttrView::Json(x));
    let s4 = push_some(s3, LANGFUSE_VERSION@, a.version, |x: Seq<char>| AttrView::Text(x));
    let s5 = push_some(s4, LANGFUSE_TAGS@, a.tags, |x: Seq<Seq<char>>| AttrView::Tags(x));
    push_some(s5, LANGFUSE_TRACE_NAME@, a.trace_name, |x: Seq<char>| AttrView::Text(x))
}

/// The span attributes that propagated attributes become.
pub fn propagated_attributes(attrs: &PropagateAttributes) -> (r: Vec<SpanAttribute>)
    ensures
        attrs_view(r@) == propagated_spec(attrs@),
{
    let mut r: Vec<SpanAttribute> = Vec::new();
    let ghost a = attrs@;
    let ghost s1 = push_some(Seq::empty(), LANGFUSE_USER_ID@, a.user_id, |x: Seq<char>| AttrView::Text(x));
    let ghost s2 = push_some(s1, LANGFUSE_SESSION_ID@, a.session_id, |x: Seq<char>| AttrView::Text(x));
    let ghost s3 = push_some(s2, LANGFUSE_METADATA@, a.metadata, |x: serde_json::Value| AttrView::Json(x));
    let ghost s4 = push_some(s3, LANGFUSE_VERSION@, a.version, |x: Seq<char>| AttrView::Text(x));
    let ghost s5 = push_some(s4, LANGFUSE_TAGS@, a.tags, |x: Seq<Seq<char>>| AttrView::Tags(x));
    match &attrs.user_id {
        Some(u) => r.push(SpanAttribute { key: owned(LANGFUSE_USER_ID), value: AttributeValue::Text(copy_string(u)) }),
        None => {},
    }
    assert(attrs_view(r@) =~= s1);
    match &attrs.session_id {
        Some(s) => r.push(SpanAttribute { key: owned(LANGFUSE_SESSION_ID), value: AttributeValue::Text(copy_string(s)) }),
        None => {},
    }
    assert(attrs_view(r@) =~= s2);
    match &attrs.metadata {
        Some(m) => r.push(SpanAttribute { key: owned(LANGFUSE_METADATA), value: AttributeValue::Json(crate::json::clone_json(m)) }),
        None => {},
    }
    assert(attrs_view(r@) =~= s3);
    match &attrs.version {
        Some(v) => r.push(SpanAttribute { key: owned(LANGFUSE_VERSION), value: AttributeValue::Text(copy_string(v)) }),
        None => {},
    }
    assert(attrs_view(r@) =~= s4);
    match &attrs.tags {
        Some(t) => r.push(SpanAttribute { key: owned(LANGFUSE_TAGS), value: AttributeValue::Tags(copy_strings(t)) }),
        None => {},
    }
    assert(attrs_view(r@) =~= s5);
    match &attrs.trace_name {
        Some(n) => r.push(SpanAttribute { key: owned(LANGFUSE_TRACE_NAME), value: AttributeValue::Text(copy_string(n)) }),
        None => {},
    }
    assert(attrs_view(r@) =~= propagated_spec(attrs@));
    r
}

/// Parameters for batch-updating span attributes. Only `Some` fields are
/// applied; `None` fields leave the span unchanged.
#[derive(Debug)]
pub struct SpanUpdateParams {
    /// Output payload.
    pub output: Option<serde_json::Value>,
    /// Metadata.
    pub metadata: Option<serde_json::Value>,
    /// Severity level.
    pub level: Option<SpanLevel>,
    /// Status message.
    pub status_message: Option<String>,
    /// Version tag.
    pub version: Option<String>,
    /// Trace tags.
    pub tags: Option<Vec<String>>,
}

impl Default for SpanUpdateParams {
    fn default() -> (r: Self)
        ensures
            r.output is None && r.metadata is None && r.level is None && r.status_message is None
                && r.version is None && r.tags is None,
    {
        SpanUpdateParams {
            output: None,
            metadata: None,
            level: None,
            status_message: None,
            version: None,
            tags: None,
        }
    }
}

/// The span attributes that an update sets, in order: output, metadata,
/// level, status message, version and tags, each when given.
pub open spec fn update_spec(p: SpanUpdateParams) -> Seq<(Seq<char>, AttrView)> {
    let s1 = push_some(Seq::empty(), LANGFUSE_OUTPUT@, p.output, |x: serde_json::Value| AttrView::Json(x));
    let s2 = push_some(s1, LANGFUSE_METADATA@, p.metadata, |x: serde_json::Value| AttrView::Json(x));
    let s3 = push_some(s2, LANGFUSE_LEVEL@, p.level, |x: SpanLevel| AttrView::Level(x));
    let s4 = push_some(s3, LANGFUSE_STATUS_MESSAGE@, opt_view(p.status_message), |x: Seq<char>| AttrView::Text(x));
    let s5 = push_some(s4, LANGFUSE_VERSION@, opt_view(p.version), |x: Seq<char>| AttrView::Text(x));
    push_some(s5, LANGFUSE_TAGS@, opt_strings_view(p.tags), |x: Seq<Seq<char>>| AttrView::Tags(x))
}

/// The span attributes that a batch update sets.
pub fn update_attributes(params: SpanUpdateParams) -> (r: Vec<SpanAttribute>)
    ensures
        attrs_view(r@) == update_spec(params),
{
    let ghost p = params;
    let ghost s1 = push_some(Seq::empty(), LANGFUSE_OUTPUT@, p.output, |x: serde_json::Value| AttrView::Json(x));
    let ghost s2 = push_some(s1, LANGFUSE_METADATA@, p.metadata, |x: serde_json::Value| AttrView::Json(x));
    let ghost s3 = push_some(s2, LANGFUSE_LEVEL@, p.level, |x: SpanLevel| AttrView::Level(x));
    let ghost s4 = push_some(s3, LANGFUSE_STATUS_MESSAGE@, opt_view(p.status_message), |x: Seq<char>| AttrView::Text(x));
    let ghost s5 = push_some(s4, LANGFUSE_VERSION@, opt_view(p.version), |x: Seq<char>| AttrView::Text(x));
    let mut r: Vec<SpanAttribute> = Vec::new();
    match params.output {
        Some(o) => r.push(SpanAttribute { key: owned(LANGFUSE_OUTPUT), value: AttributeValue::Json(o) }),
        None => {},
    }
    assert(attrs_view(r@) =~= s1);
    match params.metadata {
        Some(m) => r.push(SpanAttribute { key: owned(LANGFUSE_METADATA), value: AttributeValue::Json(m) }),
        None => {},
    }
    assert(attrs_view(r@) =~= s2);
    match params.level {
        Some(l) => r.push(SpanAttribute { key: owned(LANGFUSE_LEVEL), value: AttributeValue::Level(l) }),
        None => {},
    }
    assert(attrs_view(r@) =~= s3);
    match params.status_message {
        Some(m) => r.push(SpanAttribute { key: owned(LANGFUSE_STATUS_MESSAGE), value: AttributeValue::Text(m) }),
        None => {},
    }
    assert(attrs_view(r@) =~= s4);
    match params.version {
        Some(v) => r.push(SpanAttribute { key: owned(LANGFUSE_VERSION), value: AttributeValue::Text(v) }),
        None => {},
    }
    assert(attrs_view(r@) =~= s5);
    match params.tags {
        Some(t) => r.push(SpanAttribute { key: owned(LANGFUSE_TAGS), value: AttributeValue::Tags(t) }),
        None => {},
    }
    assert(attrs_view(r@) =~= update_spec(p));
    r
}

} // verus!
