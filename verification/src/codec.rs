//! Base64 (standard alphabet, with padding), as the `base64` crate's
//! `STANDARD` engine computes it.

use vstd::prelude::*;

use base64::Engine as _;

verus! {

/// `base64::DecodeError`, the reason a decode was refused.
#[verifier::external_type_specification]
#[verifier::external_body]
pub struct ExDecodeError(base64::DecodeError);

/// The character of a 6-bit value in the standard Base64 alphabet
/// (RFC 4648): `A`-`Z`, `a`-`z`, `0`-`9`, `+`, `/`.
pub open spec fn base64_char(n: int) -> char {
    if n < 26 {
        ('A' as int + n) as char
    } else if n < 52 {
        ('a' as int + (n - 26)) as char
    } else if n < 62 {
        ('0' as int + (n - 52)) as char
    } else if n == 62 {
        '+'
    } else {
        '/'
    }
}

/// The standard Base64 encoding of `data` (RFC 4648 alphabet, `=` padding),
/// as `base64::engine::general_purpose::STANDARD.encode` computes it: each
/// group of three bytes becomes four characters of six bits each, and a last
/// group of one or two bytes becomes two or three characters and `=` padding.
pub open spec fn base64_standard_encode(data: Seq<u8>) -> Seq<char>
    decreases data.len(),
{
    let b0 = data[0] as int;
    let b1 = data[1] as int;
    let b2 = data[2] as int;
    if data.len() == 0 {
        Seq::empty()
    } else if data.len() == 1 {
        seq![base64_char(b0 / 4), base64_char((b0 % 4) * 16), '=', '=']
    } else if data.len() == 2 {
        seq![base64_char(b0 / 4), base64_char((b0 % 4) * 16 + b1 / 16), base64_char((b1 % 16) * 4), '=']
    } else {
        seq![
            base64_char(b0 / 4),
            base64_char((b0 % 4) * 16 + b1 / 16),
            base64_char((b1 % 16) * 4 + b2 / 64),
            base64_char(b2 % 64),
        ] + base64_standard_encode(data.subrange(3, data.len() as int))
    }
}

/// The bytes that standard Base64 text `data` decodes to, or `None` where
/// `base64::engine::general_purpose::STANDARD.decode` refuses it.
pub uninterp spec fn base64_standard_decode(data: Seq<u8>) -> Option<Seq<u8>>;

/// Trusted wrapper of `STANDARD.encode` of the `base64` crate: the result is
/// the standard padded encoding of the input bytes, and `STANDARD.decode` of
/// its (ASCII) bytes gives the input back, as the crate documents for its
/// engines.
#[verifier::external_body]
pub(crate) fn encode_base64(data: &[u8]) -> (r: String)
    ensures
        r@ == base64_standard_encode(data@),
        base64_standard_decode(vstd::utf8::encode_utf8(r@)) == Some(data@),
{
    base64::engine::general_purpose::STANDARD.encode(data)
}

/// Where `data` is the UTF-8 text `encoded`, the decoding `r` gives `x`.
pub open spec fn decodes_to(
    r: Result<Vec<u8>, base64::DecodeError>,
    data: Seq<u8>,
    encoded: Seq<char>,
    x: Seq<u8>,
) -> bool {
    data == vstd::utf8::encode_utf8(encoded) ==> (r matches Ok(v) && v@ == x)
}

/// Trusted wrapper of `STANDARD.decode` of the `base64` crate: it succeeds
/// exactly where the named decoding is defined, with the decoded bytes, and
/// the padded encoding of any bytes decodes back to them (the engine
/// requires canonical padding, which its own encoder writes). What the error
/// holds is not stated.
#[verifier::external_body]
pub(crate) fn decode_base64(data: &[u8]) -> (r: Result<Vec<u8>, base64::DecodeError>)
    ensures
        forall|x: Seq<u8>| #[trigger] decodes_to(r, data@, base64_standard_encode(x), x),
        match r {
            Ok(v) => base64_standard_decode(data@) == Some(v@),
            Err(_) => base64_standard_decode(data@) is None,
        },
{
    base64::engine::general_purpose::STANDARD.decode(data)
}

/// Trusted wrapper of `<base64::DecodeError as Display>::to_string`. Nothing
/// is stated of the text.
#[verifier::external_body]
pub(crate) fn decode_error_text(e: &base64::DecodeError) -> String {
    e.to_string()
}

} // verus!
