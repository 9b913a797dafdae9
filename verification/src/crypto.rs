//! SHA-256, HMAC-SHA256 and hexadecimal text, through the `sha2`, `hmac` and `hex` crates.
use vstd::prelude::*;

use hmac::Mac;
use sha2::Digest;

verus! {

/// The SHA-256 digest of `data` (as `sha2::Sha256` computes it).
pub uninterp spec fn sha256_digest(data: Seq<u8>) -> Seq<u8>;

/// The HMAC-SHA256 tag of `msg` under `key` (as `hmac::Hmac<sha2::Sha256>` computes it).
pub uninterp spec fn hmac_sha256(key: Seq<u8>, msg: Seq<u8>) -> Seq<u8>;

/// The lower-case hexadecimal digit of `d` (0..=15).
pub open spec fn hex_digit_lower(d: u8) -> char {
    if d < 10 {
        (('0' as u8) + d) as char
    } else {
        (('a' as u8) + d - 10) as char
    }
}

/// Bytes written in lower-case hexadecimal, two digits per byte, high digit first.
pub open spec fn hex_lower(bs: Seq<u8>) -> Seq<char>
    decreases bs.len(),
{
    if bs.len() == 0 {
        Seq::empty()
    } else {
        seq![hex_digit_lower(bs[0] / 16), hex_digit_lower(bs[0] % 16)] + hex_lower(bs.drop_first())
    }
}

/// The value of a hexadecimal digit (either case), if `c` is one.
pub open spec fn hex_value(c: char) -> Option<u8> {
    if '0' <= c && c <= '9' {
        Some(((c as u32) - ('0' as u32)) as u8)
    } else if 'a' <= c && c <= 'f' {
        Some(((c as u32) - ('a' as u32) + 10) as u8)
    } else if 'A' <= c && c <= 'F' {
        Some(((c as u32) - ('A' as u32) + 10) as u8)
    } else {
        None
    }
}

/// The bytes a hexadecimal text stands for: `None` when its length is odd or one of its
/// characters is not a hexadecimal digit.
pub open spec fn hex_decoded(s: Seq<char>) -> Option<Seq<u8>>
    decreases s.len(),
{
    if s.len() == 0 {
        Some(Seq::empty())
    } else if s.len() == 1 {
        None
    } else {
        match (hex_value(s[0]), hex_value(s[1]), hex_decoded(s.skip(2))) {
            (Some(h), Some(l), Some(rest)) => Some(seq![(h * 16 + l) as u8] + rest),
            _ => None,
        }
    }
}

/// `sha2::Sha256::digest`: the SHA-256 digest of `data` (32 bytes).
#[verifier::external_body]
pub(crate) fn sha256(data: &[u8]) -> (r: Vec<u8>)
    ensures
        r@ == sha256_digest(data@),
        r@.len() == 32,
{
    sha2::Sha256::digest(data).to_vec()
}

/// `hmac::Hmac::<sha2::Sha256>::new_from_slice`, `update` and `finalize`: the HMAC-SHA256
/// tag of `msg` under `key`. `new_from_slice` accepts keys of every length.
#[verifier::external_body]
pub(crate) fn hmac_sha256_tag(key: &[u8], msg: &[u8]) -> (r: Result<Vec<u8>, String>)
    ensures
        r is Ok,
        r matches Ok(t) ==> t@ == hmac_sha256(key@, msg@),
{
    match hmac::Hmac::<sha2::Sha256>::new_from_slice(key) {
        Ok(mut mac) => {
            mac.update(msg);
            Ok(mac.finalize().into_bytes().to_vec())
        },
        Err(e) => Err(e.to_string()),
    }
}

/// `hmac::Hmac::<sha2::Sha256>::new_from_slice`, `update` and `verify_slice`: does `tag`
/// equal the HMAC-SHA256 tag of `msg` under `key`? (`Ok(false)` when it does not.)
#[verifier::external_body]
pub(crate) fn hmac_sha256_matches(key: &[u8], msg: &[u8], tag: &[u8]) -> (r: Result<bool, String>)
    ensures
        r is Ok,
        r matches Ok(b) ==> b == (hmac_sha256(key@, msg@) == tag@),
{
    match hmac::Hmac::<sha2::Sha256>::new_from_slice(key) {
        Ok(mut mac) => {
            mac.update(msg);
            Ok(mac.verify_slice(tag).is_ok())
        },
        Err(e) => Err(e.to_string()),
    }
}

/// `hex::encode`: the bytes in lower-case hexadecimal.
#[verifier::external_body]
pub(crate) fn hex_encode(data: &[u8]) -> (r: String)
    ensures
        r@ == hex_lower(data@),
{
    hex::encode(data)
}

/// `hex::decode`: the bytes a hexadecimal text (either case, even length) stands for.
#[verifier::external_body]
pub(crate) fn hex_decode(text: &str) -> (r: Option<Vec<u8>>)
    ensures
        match r {
            Some(v) => hex_decoded(text@) == Some(v@),
            None => hex_decoded(text@) is None,
        },
{
    hex::decode(text).ok()
}

/// A hexadecimal digit written by `hex_digit_lower` reads back as its value.
proof fn lemma_hex_digit_round_trip(d: u8)
    requires
        d < 16,
    ensures
        hex_value(hex_digit_lower(d)) == Some(d),
{
}

/// Bytes written in lower-case hexadecimal read back as the same bytes.
pub proof fn lemma_hex_round_trip(bs: Seq<u8>)
    ensures
        hex_decoded(hex_lower(bs)) == Some(bs),
    decreases bs.len(),
{
    if bs.len() > 0 {
        let b = bs[0];
        let h: u8 = b / 16;
        let l: u8 = b % 16;
        lemma_hex_digit_round_trip(h);
        lemma_hex_digit_round_trip(l);
        lemma_hex_round_trip(bs.drop_first());
        let text = hex_lower(bs);
        assert(text.skip(2) =~= hex_lower(bs.drop_first()));
        assert((h * 16 + l) as u8 == b);
        assert(seq![b] + bs.drop_first() =~= bs);
    }
}

} // verus!
