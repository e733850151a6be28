//! Percent-encoding (through `urlencoding`) and URI authority extraction
//! (through the `http` types that `axum` re-exports).
use vstd::prelude::*;
use vstd::utf8::encode_utf8;

verus! {

/// Bytes left as they are by `urlencoding::encode`: ASCII letters and digits
/// and `-`, `.`, `_`, `~`.
pub open spec fn unreserved_byte(b: u8) -> bool {
    (48 <= b <= 57) || (65 <= b <= 90) || (97 <= b <= 122) || b == 45 || b == 46 || b == 95
        || b == 126
}

/// Upper-case hexadecimal digit for a value below 16.
pub open spec fn hex_digit(d: u8) -> char {
    if d < 10 {
        (48 + d) as char
    } else {
        (55 + d) as char
    }
}

/// The encoding of one byte.
pub open spec fn encode_byte(b: u8) -> Seq<char> {
    if unreserved_byte(b) {
        seq![b as char]
    } else {
        seq!['%', hex_digit(b / 16), hex_digit(b % 16)]
    }
}

/// The percent-encoding of a byte sequence, one byte after another.
pub open spec fn encode_bytes(bs: Seq<u8>) -> Seq<char>
    decreases bs.len(),
{
    if bs.len() == 0 {
        Seq::empty()
    } else {
        encode_byte(bs[0]) + encode_bytes(bs.drop_first())
    }
}

/// The percent-encoding of the UTF-8 bytes of a string.
pub open spec fn percent_encoded(s: Seq<char>) -> Seq<char> {
    encode_bytes(encode_utf8(s))
}

/// `urlencoding::encode`. Claims what the crate's source shows: every UTF-8
/// byte of the input is kept when it is an ASCII letter, digit, `-`, `.`, `_`
/// or `~`, and is otherwise written as `%` and two upper-case hex digits.
#[verifier::external_body]
pub(crate) fn url_encode(s: &str) -> (r: String)
    ensures
        r@ == percent_encoded(s@),
{
    urlencoding::encode(s).into_owned()
}

/// The authority component that `http::Uri`'s parser finds in a string:
/// `None` when the string does not parse as a URI or has no authority.
pub uninterp spec fn uri_authority(s: Seq<char>) -> Option<Seq<char>>;

/// `str::parse::<axum::http::Uri>` followed by `Uri::authority`. The result is
/// named, not restated: parsing a URI is the `http` crate's business.
#[verifier::external_body]
pub(crate) fn parse_uri_authority(s: &str) -> (r: Option<String>)
    ensures
        match r {
            Some(a) => uri_authority(s@) == Some(a@),
            None => uri_authority(s@) is None,
        },
{
    match s.parse::<axum::http::Uri>() {
        Ok(uri) => uri.authority().map(|a| a.as_str().to_string()),
        Err(_) => None,
    }
}

} // verus!
