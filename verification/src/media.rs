//! Media objects: data URIs and inline media reference tokens.

use vstd::prelude::*;
use vstd::utf8::encode_utf8;

use crate::chars::{
    append_str, chars_of, find_in, find_pattern, lemma_find_pattern, lemma_find_pattern_bounds,
    lemma_find_pattern_first, occurs_at, owned, starts_with,
    starts_with_at, string_from_chars,
};
use crate::codec::{base64_standard_decode, base64_standard_encode, decode_base64, decode_error_text, decodes_to};
use crate::error::LangfuseError;

verus! {

broadcast use vstd::string::group_string_axioms;

/// A media object that can be uploaded to Langfuse.
#[derive(Debug, Clone)]
pub struct LangfuseMedia {
    /// MIME content type (e.g., `"image/png"`).
    pub content_type: String,
    /// Raw binary data.
    pub data: Vec<u8>,
}

/// How a data URI `data:<content_type>;base64,<payload>` splits: the text
/// before the first comma is the header, which must read
/// `data:<content_type>;base64`; the text after it is the payload.
pub enum DataUriShape {
    /// The URI has no comma.
    NoComma,
    /// The header is not `data:<content_type>;base64`.
    BadHeader,
    /// The content type and the Base64 payload.
    Parts(Seq<char>, Seq<char>),
}

/// The header prefix of a data URI.
pub open spec fn data_prefix() -> Seq<char> {
    "data:"@
}

/// The header suffix of a Base64 data URI.
pub open spec fn base64_suffix() -> Seq<char> {
    ";base64"@
}

/// `s` ends with `p`.
pub open spec fn ends_with(s: Seq<char>, p: Seq<char>) -> bool {
    p.len() <= s.len() && s.subrange(s.len() - p.len(), s.len() as int) == p
}

/// The shape of the data URI `s`.
pub open spec fn data_uri_shape(s: Seq<char>) -> DataUriShape {
    match find_pattern(s, seq![',']) {
        None => DataUriShape::NoComma,
        Some(i) => {
            let header = s.subrange(0, i);
            let payload = s.subrange(i + 1, s.len() as int);
            if starts_with(header, data_prefix()) && ends_with(
                header.subrange(data_prefix().len() as int, header.len() as int),
                base64_suffix(),
            ) {
                DataUriShape::Parts(
                    header.subrange(
                        data_prefix().len() as int,
                        header.len() - base64_suffix().len(),
                    ),
                    payload,
                )
            } else {
                DataUriShape::BadHeader
            }
        },
    }
}

/// `r` is the error `Media(text)` with the given text.
pub open spec fn is_media_error<T>(r: Result<T, LangfuseError>, text: Seq<char>) -> bool {
    r matches Err(LangfuseError::Media(m)) && m@ == text
}

/// Splits a data URI into its content type and its Base64 payload.
pub fn split_data_uri(data_uri: &str) -> (r: Result<(String, String), LangfuseError>)
    ensures
        match data_uri_shape(data_uri@) {
            DataUriShape::NoComma => is_media_error(r, "Invalid data URI"@),
            DataUriShape::BadHeader => is_media_error(r, "Invalid data URI format"@),
            DataUriShape::Parts(ct, payload) => r matches Ok((c, p)) && c@ == ct && p@ == payload,
        },
{
    let v = chars_of(data_uri);
    let comma = vec![','];
    assert(comma@ =~= seq![',']);
    let n = v.len();
    assert(v@.subrange(0, n as int) =~= v@);
    match find_in(&v, 0, n, &comma) {
        None => Err(LangfuseError::Media(owned("Invalid data URI"))),
        Some(i) => {
            let prefix = chars_of("data:");
            let suffix = chars_of(";base64");
            let ghost header = v@.subrange(0, i as int);
            if starts_with_at(&v, 0, i, &prefix) {
                let start = prefix.len();
                let ghost rest = header.subrange(start as int, header.len() as int);
                assert(rest =~= v@.subrange(start as int, i as int));
                if i - start >= suffix.len() && starts_with_at(&v, i - suffix.len(), i, &suffix) {
                    proof {
                        assert(rest.subrange(rest.len() - suffix@.len(), rest.len() as int)
                            =~= v@.subrange(i - suffix@.len(), i as int));
                        assert(v@.subrange(i - suffix@.len(), i as int).subrange(
                            0,
                            suffix@.len() as int,
                        ) =~= v@.subrange(i - suffix@.len(), i as int));
                    }
                    let ct = string_from_chars(&v, start, i - suffix.len());
                    let payload = string_from_chars(&v, i + 1, n);
                    assert(header.subrange(start as int, header.len() - suffix@.len())
                        =~= v@.subrange(start as int, i - suffix@.len()));
                    Ok((ct, payload))
                } else {
                    proof {
                        if i - start >= suffix@.len() {
                            assert(rest.subrange(rest.len() - suffix@.len(), rest.len() as int)
                                =~= v@.subrange(i - suffix@.len(), i as int));
                            assert(v@.subrange(i - suffix@.len(), i as int).subrange(
                                0,
                                suffix@.len() as int,
                            ) =~= v@.subrange(i - suffix@.len(), i as int));
                        }
                    }
                    Err(LangfuseError::Media(owned("Invalid data URI format")))
                }
            } else {
                Err(LangfuseError::Media(owned("Invalid data URI format")))
            }
        },
    }
}

/// The data URI of `data` with content type `ct`:
/// `data:<ct>;base64,<standard Base64 of data>`.
pub open spec fn data_uri_text(ct: Seq<char>, data: Seq<u8>) -> Seq<char> {
    data_prefix() + ct + base64_suffix() + seq![','] + base64_standard_encode(data)
}

/// A data URI built from a content type without a comma splits back into
/// that content type and the Base64 text of the data.
pub proof fn lemma_data_uri_text_shape(ct: Seq<char>, data: Seq<u8>)
    requires
        !ct.contains(','),
    ensures
        data_uri_shape(data_uri_text(ct, data)) == DataUriShape::Parts(
            ct,
            base64_standard_encode(data),
        ),
{
    reveal_strlit("data:");
    reveal_strlit(";base64");
    let s = data_uri_text(ct, data);
    let enc = base64_standard_encode(data);
    let i = (5 + ct.len() + 7) as int;
    let comma = seq![','];
    assert(s.subrange(i, i + 1) =~= comma);
    assert forall|j: int| 0 <= j < i implies !#[trigger] occurs_at(s, comma, j) by {
        if occurs_at(s, comma, j) {
            assert(s.subrange(j, j + 1)[0] == s[j]);
            if j >= 5 && j < 5 + ct.len() {
                assert(s[j] == ct[j - 5]);
            }
        }
    }
    lemma_find_pattern_first(s, comma, i);
    let header = s.subrange(0, i);
    assert(header.subrange(0, 5) =~= data_prefix());
    let rest = header.subrange(5, header.len() as int);
    assert(rest.subrange(rest.len() - 7, rest.len() as int) =~= base64_suffix());
    assert(header.subrange(5, header.len() - 7) =~= ct);
    assert(s.subrange(i + 1, s.len() as int) =~= enc);
}

impl LangfuseMedia {
    /// Create from a base64-encoded data URI (e.g., `"data:image/png;base64,..."`).
    ///
    /// A data URI built from a content type without a comma and the Base64
    /// text of some bytes gives back that content type and those bytes.
    pub fn from_data_uri(data_uri: &str) -> (r: Result<LangfuseMedia, LangfuseError>)
        ensures
            forall|ct: Seq<char>, d: Seq<u8>|
                #![trigger data_uri_text(ct, d)]
                data_uri@ == data_uri_text(ct, d) && !ct.contains(',') ==> (r matches Ok(m)
                    && m.content_type@ == ct && m.data@ == d),
            match data_uri_shape(data_uri@) {
                DataUriShape::NoComma => is_media_error(r, "Invalid data URI"@),
                DataUriShape::BadHeader => is_media_error(r, "Invalid data URI format"@),
                DataUriShape::Parts(ct, payload) => match base64_standard_decode(
                    encode_utf8(payload),
                ) {
                    Some(bytes) => r matches Ok(m) && m.content_type@ == ct && m.data@ == bytes,
                    None => r matches Err(LangfuseError::Media(msg)) && msg@.len() >= "Base64 decode error: "@.len()
                        && msg@.subrange(0, "Base64 decode error: "@.len() as int)
                        == "Base64 decode error: "@,
                },
            },
    {
        proof {
            assert forall|ct: Seq<char>, d: Seq<u8>|
                #![trigger data_uri_text(ct, d)]
                data_uri@ == data_uri_text(ct, d) && !ct.contains(',') implies data_uri_shape(
                    data_uri@,
                ) == DataUriShape::Parts(ct, base64_standard_encode(d)) by {
                lemma_data_uri_text_shape(ct, d);
            }
        }
        let (content_type, payload) = split_data_uri(data_uri)?;
        let bytes = payload.as_str().as_bytes();
        let decoded = decode_base64(bytes);
        proof {
            assert forall|ct: Seq<char>, d: Seq<u8>|
                #![trigger data_uri_text(ct, d)]
                data_uri@ == data_uri_text(ct, d) && !ct.contains(',') implies (decoded matches Ok(
                    v,
                ) && v@ == d && content_type@ == ct) by {
                assert(decodes_to(decoded, bytes@, base64_standard_encode(d), d));
            }
        }
        match decoded {
            Ok(data) => Ok(LangfuseMedia { content_type, data }),
            Err(e) => {
                let mut msg = owned("Base64 decode error: ");
                let detail = decode_error_text(&e);
                append_str(&mut msg, detail.as_str());
                assert(msg@.subrange(0, "Base64 decode error: "@.len() as int)
                    =~= "Base64 decode error: "@);
                Err(LangfuseError::Media(msg))
            },
        }
    }

    /// Create from raw bytes.
    pub fn from_bytes(content_type: &str, data: Vec<u8>) -> (r: LangfuseMedia)
        ensures
            r.content_type@ == content_type@,
            r.data@ == data@,
    {
        LangfuseMedia { content_type: owned(content_type), data }
    }

    /// Size in bytes.
    pub fn size(&self) -> (r: usize)
        ensures
            r == self.data@.len(),
    {
        self.data.len()
    }
}

/// A parsed media reference extracted from text.
#[derive(Debug, Clone, PartialEq, Eq)]
pub struct ParsedMediaReference {
    /// MIME content type.
    pub content_type: String,
    /// Langfuse media ID.
    pub media_id: String,
    /// Source descriptor (e.g., `"base64_data_uri"`).
    pub source: String,
}

impl View for ParsedMediaReference {
    type V = (Seq<char>, Seq<char>, Seq<char>);

    open spec fn view(&self) -> (Seq<char>, Seq<char>, Seq<char>) {
        (self.content_type@, self.media_id@, self.source@)
    }
}

/// The opening of a media reference token, up to its first field:
/// `@@@langfuseMedia:type=`.
pub open spec fn media_head() -> Seq<char> {
    "@@@langfuseMedia:type="@
}

/// The closing of a media reference token.
pub open spec fn media_close() -> Seq<char> {
    "@@@"@
}

/// The fields of a media reference: content type, media id, source.
pub type MediaRefView = (Seq<char>, Seq<char>, Seq<char>);

/// The media reference token that begins `s`, if one does, with its length.
///
/// Its shape is the documented pattern
/// `@@@langfuseMedia:type=([^|]+)\|id=([^|]+)\|source=([^@]+)@@@`: the type
/// runs to the first `|`, the id to the next `|`, the source to the first
/// `@` after `source=`; each is non-empty, and the separators and the
/// closing `@@@` must stand where the pattern puts them.
pub open spec fn token_at(s: Seq<char>) -> Option<(MediaRefView, int)> {
    if !starts_with(s, media_head()) {
        None
    } else {
        let r1 = s.subrange(22, s.len() as int);
        match find_pattern(r1, seq!['|']) {
            None => None,
            Some(i) => {
                let r2 = r1.subrange(i, r1.len() as int);
                if i == 0 || !starts_with(r2, "|id="@) {
                    None
                } else {
                    let r3 = r2.subrange(4, r2.len() as int);
                    match find_pattern(r3, seq!['|']) {
                        None => None,
                        Some(j) => {
                            let r4 = r3.subrange(j, r3.len() as int);
                            if j == 0 || !starts_with(r4, "|source="@) {
                                None
                            } else {
                                let r5 = r4.subrange(8, r4.len() as int);
                                match find_pattern(r5, seq!['@']) {
                                    None => None,
                                    Some(k) => {
                                        let r6 = r5.subrange(k, r5.len() as int);
                                        if k == 0 || !starts_with(r6, media_close()) {
                                            None
                                        } else {
                                            Some(
                                                (
                                                    (
                                                        r1.subrange(0, i),
                                                        r3.subrange(0, j),
                                                        r5.subrange(0, k),
                                                    ),
                                                    22 + i + 4 + j + 8 + k + 3,
                                                ),
                                            )
                                        }
                                    },
                                }
                            }
                        },
                    }
                }
            },
        }
    }
}

/// A token found at the start of `s` lies within `s`.
pub proof fn lemma_token_at_bounds(s: Seq<char>)
    ensures
        token_at(s) matches Some((f, n)) ==> 25 <= n <= s.len(),
{
    reveal_strlit("@@@langfuseMedia:type=");
    reveal_strlit("|id=");
    reveal_strlit("|source=");
    reveal_strlit("@@@");
    if starts_with(s, media_head()) {
        let r1 = s.subrange(22, s.len() as int);
        lemma_find_pattern_bounds(r1, seq!['|']);
        if let Some(i) = find_pattern(r1, seq!['|']) {
            let r2 = r1.subrange(i, r1.len() as int);
            if i > 0 && starts_with(r2, "|id="@) {
                let r3 = r2.subrange(4, r2.len() as int);
                lemma_find_pattern_bounds(r3, seq!['|']);
                if let Some(j) = find_pattern(r3, seq!['|']) {
                    let r4 = r3.subrange(j, r3.len() as int);
                    if j > 0 && starts_with(r4, "|source="@) {
                        let r5 = r4.subrange(8, r4.len() as int);
                        lemma_find_pattern_bounds(r5, seq!['@']);
                    }
                }
            }
        }
    }
}

/// The media references in `s`, in order, as the documented pattern finds
/// them: at the leftmost position where a token begins, that token is taken
/// and the search resumes after it; where none begins, one character on.
pub open spec fn media_refs_spec(s: Seq<char>) -> Seq<MediaRefView>
    decreases s.len(),
{
    if s.len() == 0 {
        Seq::empty()
    } else {
        match token_at(s) {
            Some((f, n)) => {
                proof {
                    lemma_token_at_bounds(s);
                }
                seq![f] + media_refs_spec(s.subrange(n, s.len() as int))
            },
            None => media_refs_spec(s.subrange(1, s.len() as int)),
        }
    }
}

/// The views of a list of references.
pub open spec fn refs_view(v: Seq<ParsedMediaReference>) -> Seq<MediaRefView> {
    v.map_values(|r: ParsedMediaReference| r@)
}

struct TokenPatterns {
    head: Vec<char>,
    id_sep: Vec<char>,
    source_sep: Vec<char>,
    close: Vec<char>,
    bar: Vec<char>,
    at: Vec<char>,
}

impl TokenPatterns {
    spec fn wf(&self) -> bool {
        &&& self.head@ == media_head()
        &&& self.id_sep@ == "|id="@
        &&& self.source_sep@ == "|source="@
        &&& self.close@ == media_close()
        &&& self.bar@ == seq!['|']
        &&& self.at@ == seq!['@']
        &&& self.head@.len() == 22
        &&& self.id_sep@.len() == 4
        &&& self.source_sep@.len() == 8
        &&& self.close@.len() == 3
    }
}

/// The token that begins `v[pos..n]`, if any, with the index just past it.
fn token_at_exec(v: &Vec<char>, pos: usize, n: usize, pats: &TokenPatterns) -> (r: Option<
    (String, String, String, usize),
>)
    requires
        pos <= n <= v@.len(),
        pats.wf(),
    ensures
        match token_at(v@.subrange(pos as int, n as int)) {
            None => r is None,
            Some((f, len)) => r matches Some((c, i, s, e)) && (c@, i@, s@) == f && e == pos + len,
        },
{
    let ghost s = v@.subrange(pos as int, n as int);
    if !starts_with_at(v, pos, n, &pats.head) {
        return None;
    }
    let a = pos + 22;
    let ghost r1 = s.subrange(22, s.len() as int);
    assert(r1 =~= v@.subrange(a as int, n as int));
    let i = match find_in(v, a, n, &pats.bar) {
        None => {
            return None;
        },
        Some(i) => i,
    };
    let ghost r2 = r1.subrange(i - a, r1.len() as int);
    assert(r2 =~= v@.subrange(i as int, n as int));
    if i == a || !starts_with_at(v, i, n, &pats.id_sep) {
        return None;
    }
    let b = i + 4;
    let ghost r3 = r2.subrange(4, r2.len() as int);
    assert(r3 =~= v@.subrange(b as int, n as int));
    let j = match find_in(v, b, n, &pats.bar) {
        None => {
            return None;
        },
        Some(j) => j,
    };
    let ghost r4 = r3.subrange(j - b, r3.len() as int);
    assert(r4 =~= v@.subrange(j as int, n as int));
    if j == b || !starts_with_at(v, j, n, &pats.source_sep) {
        return None;
    }
    let c = j + 8;
    let ghost r5 = r4.subrange(8, r4.len() as int);
    assert(r5 =~= v@.subrange(c as int, n as int));
    let k = match find_in(v, c, n, &pats.at) {
        None => {
            return None;
        },
        Some(k) => k,
    };
    let ghost r6 = r5.subrange(k - c, r5.len() as int);
    assert(r6 =~= v@.subrange(k as int, n as int));
    if k == c || !starts_with_at(v, k, n, &pats.close) {
        return None;
    }
    let content_type = string_from_chars(v, a, i);
    let media_id = string_from_chars(v, b, j);
    let source = string_from_chars(v, c, k);
    assert(r1.subrange(0, i - a) =~= v@.subrange(a as int, i as int));
    assert(r3.subrange(0, j - b) =~= v@.subrange(b as int, j as int));
    assert(r5.subrange(0, k - c) =~= v@.subrange(c as int, k as int));
    Some((content_type, media_id, source, k + 3))
}

/// Parse media reference tokens from a string.
///
/// Finds all occurrences of `@@@langfuseMedia:type=...|id=...|source=...@@@`
/// and returns the parsed components, in order. A token takes its three
/// fields in that order, each non-empty; the type and the id end at the next
/// `|`, the source at the next `@`.
///
/// The token built from a content type and an id without `|` and a source
/// without `@`, all non-empty, reads back as exactly that reference.
pub fn parse_media_references(text: &str) -> (r: Vec<ParsedMediaReference>)
    ensures
        refs_view(r@) == media_refs_spec(text@),
        forall|ct: Seq<char>, id: Seq<char>, src: Seq<char>|
            #![trigger media_token(ct, id, src)]
            text@ == media_token(ct, id, src) && token_fields_ok(ct, id, src) ==> refs_view(r@)
                == seq![(ct, id, src)],
{
    let v = chars_of(text);
    let pats = TokenPatterns {
        head: chars_of("@@@langfuseMedia:type="),
        id_sep: chars_of("|id="),
        source_sep: chars_of("|source="),
        close: chars_of("@@@"),
        bar: vec!['|'],
        at: vec!['@'],
    };
    proof {
        reveal_strlit("@@@langfuseMedia:type=");
        reveal_strlit("|id=");
        reveal_strlit("|source=");
        reveal_strlit("@@@");
        assert(pats.bar@ =~= seq!['|']);
        assert(pats.at@ =~= seq!['@']);
    }
    let n = v.len();
    let mut refs: Vec<ParsedMediaReference> = Vec::new();
    let mut pos: usize = 0;
    assert(v@.subrange(0, n as int) =~= v@);
    while pos < n
        invariant
            pos <= n == v@.len(),
            v@ == text@,
            pats.wf(),
            media_refs_spec(text@) == refs_view(refs@) + media_refs_spec(
                v@.subrange(pos as int, n as int),
            ),
        decreases n - pos,
    {
        let ghost s = v@.subrange(pos as int, n as int);
        let ghost before = refs@;
        match token_at_exec(&v, pos, n, &pats) {
            Some((ct, id, src, e)) => {
                proof {
                    lemma_token_at_bounds(s);
                    assert(s.subrange(e - pos, s.len() as int) =~= v@.subrange(e as int, n as int));
                }
                refs.push(ParsedMediaReference { content_type: ct, media_id: id, source: src });
                assert(refs_view(refs@) =~= refs_view(before).push(refs@[refs@.len() - 1]@));
                assert(refs_view(before) + (seq![refs@[refs@.len() - 1]@] + media_refs_spec(
                    v@.subrange(e as int, n as int),
                )) =~= refs_view(refs@) + media_refs_spec(v@.subrange(e as int, n as int)));
                pos = e;
            },
            None => {
                assert(s.subrange(1, s.len() as int) =~= v@.subrange(pos + 1, n as int));
                pos = pos + 1;
            },
        }
    }
    assert(v@.subrange(n as int, n as int) =~= Seq::<char>::empty());
    assert(refs_view(refs@) + Seq::<MediaRefView>::empty() =~= refs_view(refs@));
    proof {
        assert forall|ct: Seq<char>, id: Seq<char>, src: Seq<char>|
            #![trigger media_token(ct, id, src)]
            text@ == media_token(ct, id, src) && token_fields_ok(ct, id, src) implies refs_view(
            refs@,
        ) == seq![(ct, id, src)] by {
            lemma_media_token_round_trip(ct, id, src);
        }
    }
    refs
}

/// Fields that a token can carry and give back: all non-empty, the content
/// type and the id without `|`, the source without `@`.
pub open spec fn token_fields_ok(content_type: Seq<char>, media_id: Seq<char>, source: Seq<char>) -> bool {
    &&& content_type.len() > 0 && !content_type.contains('|')
    &&& media_id.len() > 0 && !media_id.contains('|')
    &&& source.len() > 0 && !source.contains('@')
}

/// The media reference token for a content type, a media id and a source:
/// `@@@langfuseMedia:type=<content_type>|id=<media_id>|source=<source>@@@`.
pub open spec fn media_token(content_type: Seq<char>, media_id: Seq<char>, source: Seq<char>) -> Seq<
    char,
> {
    media_head() + content_type + "|id="@ + media_id + "|source="@ + source + media_close()
}

/// Searching `a + b` for `p` finds it where it is first found in `b`, when
/// the first character of `p` does not occur in `a`.
proof fn lemma_find_past_free_prefix(a: Seq<char>, b: Seq<char>, p: Seq<char>)
    requires
        p.len() > 0,
        forall|i: int| 0 <= i < a.len() ==> #[trigger] a[i] != p[0],
    ensures
        find_pattern(a + b, p) == (match find_pattern(b, p) {
            Some(k) => Some(k + a.len()),
            None => None::<int>,
        }),
{
    let s = a + b;
    lemma_find_pattern(b, p);
    assert forall|j: int| 0 <= j < a.len() implies !#[trigger] occurs_at(s, p, j) by {
        if occurs_at(s, p, j) {
            assert(s.subrange(j, j + p.len())[0] == s[j]);
        }
    }
    assert forall|k: int| 0 <= k implies occurs_at(s, p, k + a.len()) == #[trigger] occurs_at(
        b,
        p,
        k,
    ) by {
        if k + p.len() <= b.len() {
            assert(s.subrange(k + a.len(), k + a.len() + p.len()) =~= b.subrange(k, k + p.len()));
        }
    }
    match find_pattern(b, p) {
        Some(k) => {
            assert(occurs_at(s, p, k + a.len()));
            assert forall|j: int| 0 <= j < k + a.len() implies !#[trigger] occurs_at(s, p, j) by {
                if j >= a.len() {
                    assert(occurs_at(s, p, (j - a.len()) + a.len()) == occurs_at(b, p, j - a.len()));
                }
            }
            lemma_find_pattern_first(s, p, k + a.len());
        },
        None => {
            lemma_find_pattern(s, p);
            if let Some(i) = find_pattern(s, p) {
                if i >= a.len() {
                    assert(occurs_at(s, p, (i - a.len()) + a.len()) == occurs_at(b, p, i - a.len()));
                }
            }
        },
    }
}

/// `x` found at the front of `p + rest`, for `p` a one-character pattern
/// `seq![x]`: the search finds it at once.
proof fn lemma_find_at_front(x: char, rest: Seq<char>)
    ensures
        find_pattern(seq![x] + rest, seq![x]) == Some(0int),
{
    assert((seq![x] + rest).subrange(0, 1) =~= seq![x]);
}

/// A token built from fields that fit the pattern reads back as exactly that
/// reference.
#[verifier::spinoff_prover]
#[verifier::rlimit(60)]
pub proof fn lemma_media_token_round_trip(
    content_type: Seq<char>,
    media_id: Seq<char>,
    source: Seq<char>,
)
    requires
        token_fields_ok(content_type, media_id, source),
    ensures
        token_at(media_token(content_type, media_id, source)) == Some(
            (
                (content_type, media_id, source),
                media_token(content_type, media_id, source).len() as int,
            ),
        ),
        media_refs_spec(media_token(content_type, media_id, source)) == seq![
            (content_type, media_id, source),
        ],
{
    reveal_strlit("@@@langfuseMedia:type=");
    reveal_strlit("|id=");
    reveal_strlit("|source=");
    reveal_strlit("@@@");
    let bar = seq!['|'];
    let at = seq!['@'];
    let token = media_token(content_type, media_id, source);
    let id_sep = "|id="@;
    let source_sep = "|source="@;
    let close = media_close();
    assert(id_sep =~= seq!['|', 'i', 'd', '=']);
    assert(source_sep =~= seq!['|', 's', 'o', 'u', 'r', 'c', 'e', '=']);
    assert(close =~= seq!['@', '@', '@']);
    // The pieces after each field.
    let r6 = close;
    let r4 = source_sep + source + close;
    let r2 = id_sep + media_id + r4;
    let r1 = content_type + r2;
    let r3 = media_id + r4;
    let r5 = source + close;
    assert(token =~= media_head() + r1);
    assert(token.subrange(0, 22) =~= media_head());
    assert(token.subrange(22, token.len() as int) =~= r1);
    // The type runs to the first `|`.
    assert(r2 =~= seq!['|'] + (seq!['i', 'd', '='] + media_id + r4));
    lemma_find_at_front('|', seq!['i', 'd', '='] + media_id + r4);
    assert forall|i: int| 0 <= i < content_type.len() implies #[trigger] content_type[i] != bar[0] by {
        assert(content_type.contains(content_type[i]));
    }
    lemma_find_past_free_prefix(content_type, r2, bar);
    assert(r1.subrange(content_type.len() as int, r1.len() as int) =~= r2);
    assert(r2.subrange(0, 4) =~= id_sep);
    assert(r2.subrange(4, r2.len() as int) =~= r3);
    // The id runs to the next `|`.
    assert(r4 =~= seq!['|'] + (seq!['s', 'o', 'u', 'r', 'c', 'e', '='] + source + close));
    lemma_find_at_front('|', seq!['s', 'o', 'u', 'r', 'c', 'e', '='] + source + close);
    assert forall|i: int| 0 <= i < media_id.len() implies #[trigger] media_id[i] != bar[0] by {
        assert(media_id.contains(media_id[i]));
    }
    lemma_find_past_free_prefix(media_id, r4, bar);
    assert(r3.subrange(media_id.len() as int, r3.len() as int) =~= r4);
    assert(r4.subrange(0, 8) =~= source_sep);
    assert(r4.subrange(8, r4.len() as int) =~= r5);
    // The source runs to the first `@`.
    assert(close =~= seq!['@'] + seq!['@', '@']);
    lemma_find_at_front('@', seq!['@', '@']);
    assert forall|i: int| 0 <= i < source.len() implies #[trigger] source[i] != at[0] by {
        assert(source.contains(source[i]));
    }
    lemma_find_past_free_prefix(source, close, at);
    assert(r5.subrange(source.len() as int, r5.len() as int) =~= r6);
    assert(r6.subrange(0, 3) =~= close);
    assert(r1.subrange(0, content_type.len() as int) =~= content_type);
    assert(r3.subrange(0, media_id.len() as int) =~= media_id);
    assert(r5.subrange(0, source.len() as int) =~= source);
    assert(token.len() == 22 + content_type.len() + 4 + media_id.len() + 8 + source.len() + 3);
    assert(token_at(token) == Some(
        ((content_type, media_id, source), token.len() as int),
    ));
    assert(token.subrange(token.len() as int, token.len() as int) =~= Seq::<char>::empty());
    assert(media_refs_spec(Seq::<char>::empty()) =~= Seq::<MediaRefView>::empty());
    assert(seq![(content_type, media_id, source)] + Seq::<MediaRefView>::empty() =~= seq![
        (content_type, media_id, source),
    ]);
}

} // verus!
