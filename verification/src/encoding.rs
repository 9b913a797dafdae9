//! Percent-encoding of text for URLs and forms, and reading URLs, through the
//! `urlencoding` and `url` crates.
use vstd::prelude::*;

use vstd::utf8::encode_utf8;

verus! {

broadcast use vstd::string::group_string_axioms;

/// The upper-case hexadecimal digit of `d` (0..=15).
pub open spec fn hex_digit(d: u8) -> char {
    if d < 10 {
        (('0' as u8) + d) as char
    } else {
        (('A' as u8) + d - 10) as char
    }
}

/// `%XX`: a byte written as two upper-case hexadecimal digits.
pub open spec fn percent_byte(b: u8) -> Seq<char> {
    seq!['%', hex_digit(b / 16), hex_digit(b % 16)]
}

/// ASCII letters and digits.
pub open spec fn is_ascii_alphanumeric_byte(b: u8) -> bool {
    (0x30 <= b <= 0x39) || (0x41 <= b <= 0x5a) || (0x61 <= b <= 0x7a)
}

/// The bytes that URL encoding leaves as they are: letters, digits and `-` `.` `_` `~`.
pub open spec fn url_unreserved(b: u8) -> bool {
    is_ascii_alphanumeric_byte(b) || b == 0x2d || b == 0x2e || b == 0x5f || b == 0x7e
}

/// The bytes that form encoding leaves as they are: letters, digits and `*` `-` `.` `_`.
pub open spec fn form_unchanged(b: u8) -> bool {
    is_ascii_alphanumeric_byte(b) || b == 0x2a || b == 0x2d || b == 0x2e || b == 0x5f
}

/// URL encoding of bytes: every byte but the unreserved ones written as `%XX`.
pub open spec fn url_encoded_bytes(bs: Seq<u8>) -> Seq<char>
    decreases bs.len(),
{
    if bs.len() == 0 {
        Seq::empty()
    } else {
        (if url_unreserved(bs[0]) {
            seq![bs[0] as char]
        } else {
            percent_byte(bs[0])
        }) + url_encoded_bytes(bs.drop_first())
    }
}

/// Form encoding of bytes: a space written as `+`, every other byte but the unchanged
/// ones written as `%XX`.
pub open spec fn form_encoded_bytes(bs: Seq<u8>) -> Seq<char>
    decreases bs.len(),
{
    if bs.len() == 0 {
        Seq::empty()
    } else {
        (if form_unchanged(bs[0]) {
            seq![bs[0] as char]
        } else if bs[0] == 0x20 {
            seq!['+']
        } else {
            percent_byte(bs[0])
        }) + form_encoded_bytes(bs.drop_first())
    }
}

/// URL encoding of a text (of its UTF-8 bytes).
pub open spec fn url_encoded(s: Seq<char>) -> Seq<char> {
    url_encoded_bytes(encode_utf8(s))
}

/// Form encoding of a text (of its UTF-8 bytes).
pub open spec fn form_encoded(s: Seq<char>) -> Seq<char> {
    form_encoded_bytes(encode_utf8(s))
}

/// `urlencoding::encode`: percent-encodes every UTF-8 byte of `s` except ASCII letters,
/// digits and `-` `.` `_` `~`, with upper-case hexadecimal digits.
#[verifier::external_body]
pub(crate) fn url_encode(s: &str) -> (r: String)
    ensures
        r@ == url_encoded(s@),
{
    urlencoding::encode(s).into_owned()
}

/// `url::form_urlencoded::byte_serialize` over the UTF-8 bytes of `s`: a space becomes
/// `+`, ASCII letters, digits and `*` `-` `.` `_` stay, every other byte becomes `%XX`
/// with upper-case hexadecimal digits.
#[verifier::external_body]
pub(crate) fn form_encode(s: &str) -> (r: String)
    ensures
        r@ == form_encoded(s@),
{
    url::form_urlencoded::byte_serialize(s.as_bytes()).collect()
}

/// What `url::Url::parse` reads from a text: `None` when it is not a URL, else its scheme,
/// host (if any), explicit non-default port (if any) and path.
pub uninterp spec fn url_components(text: Seq<char>) -> Option<
    (Seq<char>, Option<Seq<char>>, Option<u16>, Seq<char>),
>;

/// The parts of a URL that `url::Url::parse` reads from `text`: scheme, host, port and
/// path (`None` when the text is not a URL). The parse itself is named `url_components`.
#[verifier::external_body]
pub(crate) fn parse_url_components(text: &str) -> (r: Option<(String, Option<String>, Option<u16>, String)>)
    ensures
        match r {
            Some(p) => url_components(text@) == Some(
                (
                    p.0@,
                    match p.1 {
                        Some(h) => Some(h@),
                        None => None,
                    },
                    p.2,
                    p.3@,
                ),
            ),
            None => url_components(text@) is None,
        },
{
    match url::Url::parse(text) {
        Ok(u) => Some(
            (
                u.scheme().to_string(),
                u.host_str().map(|h| h.to_string()),
                u.port(),
                u.path().to_string(),
            ),
        ),
        Err(_) => None,
    }
}

/// The origin of a URL as `url::Url::parse(..).origin()` gives it: `None` when the text is
/// not a URL, `Some(None)` for an opaque origin (never equal to another), `Some(Some(o))`
/// for a scheme/host/port origin written as `o`.
pub uninterp spec fn url_origin(text: Seq<char>) -> Option<Option<Seq<char>>>;

/// The origin of a URL (`url::Url::parse` then `origin`): a scheme/host/port origin in
/// its ASCII serialization, or `Some(None)` for an opaque one.
#[verifier::external_body]
pub(crate) fn parse_url_origin(text: &str) -> (r: Option<Option<String>>)
    ensures
        match r {
            Some(Some(o)) => url_origin(text@) == Some(Some(o@)),
            Some(None) => url_origin(text@) == Some(None::<Seq<char>>),
            None => url_origin(text@) is None,
        },
{
    match url::Url::parse(text) {
        Ok(u) => match u.origin() {
            origin @ url::Origin::Tuple(..) => Some(Some(origin.ascii_serialization())),
            url::Origin::Opaque(_) => Some(None),
        },
        Err(_) => None,
    }
}

} // verus!
