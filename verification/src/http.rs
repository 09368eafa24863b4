//! Which configured extra headers an HTTP client can carry.

use vstd::prelude::*;

use crate::chars::copy_string;
use crate::store::string_pairs_view;

verus! {

broadcast use vstd::string::group_string_axioms;

/// A character that may stand in a header name (RFC 9110 `tchar`): an
/// ASCII letter or digit, or one of `` !#$%&'*+-.^_`|~ ``.
pub open spec fn header_name_char(c: char) -> bool {
    ||| 'a' <= c <= 'z'
    ||| 'A' <= c <= 'Z'
    ||| '0' <= c <= '9'
    ||| c == '!' || c == '#' || c == '$' || c == '%' || c == '&' || c == '\''
    ||| c == '*' || c == '+' || c == '-' || c == '.' || c == '^' || c == '_'
    ||| c == '`' || c == '|' || c == '~'
}

/// Whether `http`'s `HeaderName::from_bytes` (re-exported by `reqwest`)
/// accepts the UTF-8 bytes of `name`: from 1 to 65535 of them, each a
/// header-name character (its table maps every other byte, and every byte
/// from 128 up, to 0, which it refuses).
pub open spec fn header_name_valid(name: Seq<char>) -> bool {
    &&& 0 < name.len() <= 65535
    &&& forall|i: int| 0 <= i < name.len() ==> header_name_char(#[trigger] name[i])
}

/// Trusted wrapper of `reqwest::header::HeaderName::from_bytes` on the bytes
/// of `name`: it succeeds exactly on a name of 1 to 65535 header-name
/// characters, as its lookup table and length checks decide.
#[verifier::external_body]
fn accepts_header_name(name: &str) -> (r: bool)
    ensures
        r == header_name_valid(name@),
{
    reqwest::header::HeaderName::from_bytes(name.as_bytes()).is_ok()
}

/// A byte that `HeaderValue::from_str` accepts: a tab, or any byte from 32
/// up other than 127 (DEL).
pub open spec fn header_value_byte_ok(b: u8) -> bool {
    (b >= 32 && b != 127) || b == 9
}

/// Every UTF-8 byte of `value` may stand in a header value.
pub open spec fn header_value_valid(value: Seq<char>) -> bool {
    forall|i: int|
        0 <= i < vstd::utf8::encode_utf8(value).len() ==> header_value_byte_ok(
            #[trigger] vstd::utf8::encode_utf8(value)[i],
        )
}

/// Trusted wrapper of `reqwest::header::HeaderValue::from_str`: it succeeds
/// exactly when every byte of the text is a tab or a byte from 32 up other
/// than 127, as its source checks byte by byte.
#[verifier::external_body]
fn accepts_header_value(value: &str) -> (r: bool)
    ensures
        r == header_value_valid(value@),
{
    reqwest::header::HeaderValue::from_str(value).is_ok()
}

/// The pair can be sent as a header.
pub open spec fn header_ok(p: (Seq<char>, Seq<char>)) -> bool {
    header_name_valid(p.0) && header_value_valid(p.1)
}

/// The configured extra headers that a client can send, in order: those
/// whose name and value both parse as HTTP header parts; the others are
/// left out.
pub fn accepted_headers(extra: &Vec<(String, String)>) -> (r: Vec<(String, String)>)
    ensures
        string_pairs_view(r@) == string_pairs_view(extra@).filter(|p: (Seq<char>, Seq<char>)| header_ok(p)),
{
    let ghost all = string_pairs_view(extra@);
    let ghost pred = |p: (Seq<char>, Seq<char>)| header_ok(p);
    let mut r: Vec<(String, String)> = Vec::new();
    let mut i: usize = 0;
    proof {
        reveal(Seq::filter);
        assert(all.take(0) =~= Seq::<(Seq<char>, Seq<char>)>::empty());
        assert(string_pairs_view(r@) =~= Seq::<(Seq<char>, Seq<char>)>::empty());
    }
    while i < extra.len()
        invariant
            i <= extra@.len(),
            all == string_pairs_view(extra@),
            pred == (|p: (Seq<char>, Seq<char>)| header_ok(p)),
            string_pairs_view(r@) == all.take(i as int).filter(pred),
        decreases extra.len() - i,
    {
        let (k, v) = (&extra[i].0, &extra[i].1);
        let ok = accepts_header_name(k.as_str()) && accepts_header_value(v.as_str());
        proof {
            reveal(Seq::filter);
            assert(all.take(i + 1).drop_last() =~= all.take(i as int));
            assert(all.take(i + 1).last() == (k@, v@));
            assert(ok == pred((k@, v@)));
        }
        if ok {
            let ghost before = r@;
            r.push((copy_string(k), copy_string(v)));
            proof {
                assert(string_pairs_view(r@) =~= string_pairs_view(before).push((k@, v@)));
            }
        }
        i = i + 1;
    }
    proof {
        assert(all.take(all.len() as int) =~= all);
    }
    r
}

} // verus!
