//! Decimal integers read from text, by the rule of `str::parse` for integer types:
//! an optional sign followed by at least one ASCII digit and nothing else, and a value
//! that fits the target type.
use vstd::prelude::*;

use crate::text::{all_ascii_digits, is_ascii_digit};

verus! {

broadcast use vstd::string::group_string_axioms;

/// The value of a digit character.
pub open spec fn digit_value(c: char) -> nat {
    ((c as u32) - ('0' as u32)) as nat
}

/// The value of a sequence of decimal digits, most significant first (0 when empty).
pub open spec fn digits_value(s: Seq<char>) -> nat
    decreases s.len(),
{
    if s.len() == 0 {
        0
    } else {
        digits_value(s.drop_last()) * 10 + digit_value(s.last())
    }
}

/// `s` with one leading `+` removed, if it has one.
pub open spec fn without_plus(s: Seq<char>) -> Seq<char> {
    if s.len() > 0 && s[0] == '+' {
        s.skip(1)
    } else {
        s
    }
}

/// The value of an unsigned decimal text: an optional `+` and at least one digit.
pub open spec fn unsigned_text_value(s: Seq<char>) -> Option<nat> {
    let body = without_plus(s);
    if body.len() > 0 && all_ascii_digits(body) {
        Some(digits_value(body))
    } else {
        None
    }
}

/// The value of a signed decimal text: an optional `+` or `-` and at least one digit.
pub open spec fn signed_text_value(s: Seq<char>) -> Option<int> {
    if s.len() > 0 && s[0] == '-' {
        let body = s.skip(1);
        if body.len() > 0 && all_ascii_digits(body) {
            Some(-(digits_value(body) as int))
        } else {
            None
        }
    } else {
        match unsigned_text_value(s) {
            Some(v) => Some(v as int),
            None => None,
        }
    }
}

/// What parsing into an unsigned type with largest value `max` gives.
pub open spec fn parsed_unsigned(s: Seq<char>, max: int) -> Option<nat> {
    match unsigned_text_value(s) {
        Some(v) => if v <= max {
            Some(v)
        } else {
            None
        },
        None => None,
    }
}

/// What parsing into a signed type with range `min..=max` gives.
pub open spec fn parsed_signed(s: Seq<char>, min: int, max: int) -> Option<int> {
    match signed_text_value(s) {
        Some(v) => if min <= v && v <= max {
            Some(v)
        } else {
            None
        },
        None => None,
    }
}

proof fn lemma_digits_value_step(s: Seq<char>, k: int)
    requires
        0 <= k < s.len(),
    ensures
        digits_value(s.take(k + 1)) == digits_value(s.take(k)) * 10 + digit_value(s[k]),
{
    assert(s.take(k + 1).drop_last() =~= s.take(k));
}

proof fn lemma_digits_value_grows(s: Seq<char>, k: int)
    requires
        0 <= k <= s.len(),
    ensures
        digits_value(s.take(k)) <= digits_value(s),
    decreases s.len() - k,
{
    if k < s.len() {
        lemma_digits_value_step(s, k);
        lemma_digits_value_grows(s, k + 1);
    } else {
        assert(s.take(k) =~= s);
    }
}

/// The value of the digits of `v[from..]`, when it is at most `max`.
fn digits_at_most(v: &Vec<char>, from: usize, max: u64) -> (r: Option<u64>)
    requires
        from <= v.len(),
    ensures
        ({
            let body = v@.skip(from as int);
            match r {
                Some(n) => body.len() > 0 && all_ascii_digits(body) && n == digits_value(body)
                    && n <= max,
                None => !(body.len() > 0 && all_ascii_digits(body) && digits_value(body)
                    <= max),
            }
        }),
{
    let ghost body = v@.skip(from as int);
    if from == v.len() {
        return None;
    }
    let mut acc: u64 = 0;
    let mut i: usize = from;
    while i < v.len()
        invariant
            from <= i <= v.len(),
            body == v@.skip(from as int),
            all_ascii_digits(body.take(i - from)),
            acc == digits_value(body.take(i - from)),
            acc <= max,
        decreases v.len() - i,
    {
        let c = v[i];
        let ghost k = i - from;
        assert(body[k] == c);
        if !('0' <= c && c <= '9') {
            assert(!all_ascii_digits(body)) by {
                assert(!is_ascii_digit(body[k]));
            }
            return None;
        }
        let d: u64 = ((c as u32) - ('0' as u32)) as u64;
        proof {
            lemma_digits_value_step(body, k);
        }
        if d > max || acc > (max - d) / 10 {
            proof {
                if d <= max {
                    assert(acc * 10 + d > max) by (nonlinear_arith)
                        requires
                            acc > (max - d) / 10,
                            d <= max,
                    ;
                }
                lemma_digits_value_grows(body, k + 1);
            }
            return None;
        }
        assert(acc * 10 + d <= max) by (nonlinear_arith)
            requires
                acc <= (max - d) / 10,
                d <= max,
        ;
        acc = acc * 10 + d;
        i = i + 1;
        assert(all_ascii_digits(body.take(i - from))) by {
            assert forall|j: int| 0 <= j < body.take(i - from).len() implies is_ascii_digit(
                #[trigger] body.take(i - from)[j],
            ) by {
                if j < k {
                    assert(body.take(i - from)[j] == body.take(k)[j]);
                }
            }
        }
    }
    assert(body.take(i - from) =~= body);
    Some(acc)
}

/// Reads an unsigned decimal text whose value is at most `max`.
pub fn parse_unsigned(s: &str, max: u64) -> (r: Option<u64>)
    ensures
        r matches Some(n) ==> parsed_unsigned(s@, max as int) == Some(n as nat),
        r is None ==> parsed_unsigned(s@, max as int) is None,
{
    let v = crate::text::chars_of(s);
    if v.len() > 0 && v[0] == '+' {
        assert(without_plus(s@) =~= v@.skip(1));
        digits_at_most(&v, 1, max)
    } else {
        assert(without_plus(s@) =~= v@.skip(0));
        digits_at_most(&v, 0, max)
    }
}

/// Reads a `u16` (`str::parse::<u16>`).
pub fn parse_u16(s: &str) -> (r: Option<u16>)
    ensures
        r matches Some(n) ==> parsed_unsigned(s@, u16::MAX as int) == Some(n as nat),
        r is None ==> parsed_unsigned(s@, u16::MAX as int) is None,
{
    match parse_unsigned(s, 0xffff) {
        Some(n) => Some(n as u16),
        None => None,
    }
}

/// Reads a `u32` (`str::parse::<u32>`).
pub fn parse_u32(s: &str) -> (r: Option<u32>)
    ensures
        r matches Some(n) ==> parsed_unsigned(s@, u32::MAX as int) == Some(n as nat),
        r is None ==> parsed_unsigned(s@, u32::MAX as int) is None,
{
    match parse_unsigned(s, 0xffff_ffff) {
        Some(n) => Some(n as u32),
        None => None,
    }
}

/// Reads a `u64` (`str::parse::<u64>`).
pub fn parse_u64(s: &str) -> (r: Option<u64>)
    ensures
        r matches Some(n) ==> parsed_unsigned(s@, u64::MAX as int) == Some(n as nat),
        r is None ==> parsed_unsigned(s@, u64::MAX as int) is None,
{
    parse_unsigned(s, 0xffff_ffff_ffff_ffff)
}

/// Reads an `i64` (`str::parse::<i64>`).
pub fn parse_i64(s: &str) -> (r: Option<i64>)
    ensures
        r matches Some(n) ==> parsed_signed(s@, i64::MIN as int, i64::MAX as int) == Some(
            n as int,
        ),
        r is None ==> parsed_signed(s@, i64::MIN as int, i64::MAX as int) is None,
{
    let v = crate::text::chars_of(s);
    if v.len() > 0 && v[0] == '-' {
        assert(s@.skip(1) =~= v@.skip(1));
        match digits_at_most(&v, 1, 0x8000_0000_0000_0000) {
            Some(n) => {
                if n == 0x8000_0000_0000_0000 {
                    Some(i64::MIN)
                } else {
                    Some(-(n as i64))
                }
            },
            None => None,
        }
    } else {
        match parse_unsigned(s, 0x7fff_ffff_ffff_ffff) {
            Some(n) => Some(n as i64),
            None => {
                proof {
                    if unsigned_text_value(s@) is Some {
                        assert(unsigned_text_value(s@)->0 > i64::MAX);
                    }
                }
                None
            },
        }
    }
}

} // verus!
