//! Character-level text operations on `Seq<char>`, with executable
//! counterparts on `Vec<char>`, `&str` and `String`.
use vstd::prelude::*;

verus! {

broadcast use vstd::string::group_string_axioms;

// ---------------------------------------------------------------------------
// Specifications
// ---------------------------------------------------------------------------

/// `pat` occurs in `s` starting at position `i`.
pub open spec fn occurs_at(s: Seq<char>, pat: Seq<char>, i: int) -> bool {
    0 <= i && i + pat.len() <= s.len() && s.subrange(i, i + pat.len()) == pat
}

/// `pat` occurs somewhere in `s`.
pub open spec fn contains_seq(s: Seq<char>, pat: Seq<char>) -> bool {
    exists|i: int| occurs_at(s, pat, i)
}

/// `s` starts with `p`.
pub open spec fn starts_with(s: Seq<char>, p: Seq<char>) -> bool {
    p.len() <= s.len() && s.take(p.len() as int) == p
}

/// `s` with every occurrence of a non-empty `pat`, found left to right and
/// never overlapping, replaced by `rep` (the rule of `str::replace`).
pub open spec fn replace_all(s: Seq<char>, pat: Seq<char>, rep: Seq<char>) -> Seq<char>
    decreases s.len(),
{
    if pat.len() == 0 || s.len() < pat.len() {
        s
    } else if s.take(pat.len() as int) == pat {
        rep + replace_all(s.skip(pat.len() as int), pat, rep)
    } else {
        seq![s[0]] + replace_all(s.skip(1), pat, rep)
    }
}

/// The Unicode `White_Space` property (the characters that `str::trim` removes).
pub open spec fn is_white_space(c: char) -> bool {
    ||| ('\u{9}' <= c && c <= '\u{d}')
    ||| c == ' '
    ||| c == '\u{85}'
    ||| c == '\u{a0}'
    ||| c == '\u{1680}'
    ||| ('\u{2000}' <= c && c <= '\u{200a}')
    ||| c == '\u{2028}'
    ||| c == '\u{2029}'
    ||| c == '\u{202f}'
    ||| c == '\u{205f}'
    ||| c == '\u{3000}'
}

/// Number of leading white-space characters of `s`.
pub open spec fn leading_ws(s: Seq<char>) -> nat
    decreases s.len(),
{
    if s.len() > 0 && is_white_space(s[0]) {
        1 + leading_ws(s.skip(1))
    } else {
        0
    }
}

/// Number of trailing white-space characters of `s`.
pub open spec fn trailing_ws(s: Seq<char>) -> nat
    decreases s.len(),
{
    if s.len() > 0 && is_white_space(s.last()) {
        1 + trailing_ws(s.drop_last())
    } else {
        0
    }
}

/// `s` without leading and trailing white space (the rule of `str::trim`).
pub open spec fn trim_seq(s: Seq<char>) -> Seq<char> {
    let a = leading_ws(s) as int;
    if a == s.len() {
        Seq::empty()
    } else {
        s.subrange(a, s.len() - trailing_ws(s) as int)
    }
}

/// The part of `s` before the first `sep`, or all of `s` when `sep` does not occur
/// (the first item of `str::split`).
pub open spec fn before_first(s: Seq<char>, sep: char) -> Seq<char>
    decreases s.len(),
{
    if s.len() == 0 {
        s
    } else if s[0] == sep {
        Seq::empty()
    } else {
        seq![s[0]] + before_first(s.skip(1), sep)
    }
}

/// ASCII decimal digit.
pub open spec fn is_ascii_digit(c: char) -> bool {
    '0' <= c && c <= '9'
}

/// Every character of `s` is an ASCII decimal digit.
pub open spec fn all_ascii_digits(s: Seq<char>) -> bool {
    forall|i: int| 0 <= i < s.len() ==> is_ascii_digit(#[trigger] s[i])
}

/// ASCII lower case of one character.
pub open spec fn ascii_lower_char(c: char) -> char {
    if 'A' <= c && c <= 'Z' {
        ((c as u32) + 32) as char
    } else {
        c
    }
}

/// Every character of `s` is ASCII.
pub open spec fn all_ascii(s: Seq<char>) -> bool {
    forall|i: int| 0 <= i < s.len() ==> (#[trigger] s[i] as u32) < 128
}

/// ASCII lower case of a whole sequence.
pub open spec fn ascii_lower(s: Seq<char>) -> Seq<char> {
    Seq::new(s.len(), |i: int| ascii_lower_char(s[i]))
}

/// The decimal digit character of `d` (0..=9).
pub open spec fn digit_char(d: nat) -> char {
    (('0' as u32) + d) as char
}

/// Decimal digits of a natural number, most significant first, without leading zeros
/// ("0" for zero).
pub open spec fn nat_digits(n: nat) -> Seq<char>
    decreases n,
{
    if n < 10 {
        seq![digit_char(n)]
    } else {
        nat_digits(n / 10).push(digit_char(n % 10))
    }
}

/// Decimal text of an integer as `Display` writes it: a leading `-` for negative values.
pub open spec fn decimal_text(n: int) -> Seq<char> {
    if n < 0 {
        seq!['-'] + nat_digits((-n) as nat)
    } else {
        nat_digits(n as nat)
    }
}

/// Lower-case text as `str::to_lowercase` returns it (Unicode `Lowercase` mapping).
pub uninterp spec fn unicode_lowercase(s: Seq<char>) -> Seq<char>;

// ---------------------------------------------------------------------------
// Calls into std that vstd does not specify
// ---------------------------------------------------------------------------

/// Appends one character: `String::push`.
#[verifier::external_body]
pub(crate) fn string_push(s: &mut String, c: char)
    ensures
        final(s)@ == old(s)@.push(c),
{
    s.push(c);
}

/// String equality: `<str as PartialEq>::eq`, which compares the characters.
#[verifier::external_body]
pub(crate) fn str_equal(a: &str, b: &str) -> (r: bool)
    ensures
        r == (a@ == b@),
{
    a == b
}

/// Lower case: `str::to_lowercase`. Its result is named `unicode_lowercase`; for a
/// string made of ASCII characters only, it is the ASCII lower case (the Unicode
/// mapping of every ASCII character is its ASCII lower case).
#[verifier::external_body]
pub(crate) fn to_lowercase(s: &str) -> (r: String)
    ensures
        r@ == unicode_lowercase(s@),
        all_ascii(s@) ==> r@ == ascii_lower(s@),
{
    s.to_lowercase()
}

/// The decimal digit character of `d`.
fn digit_of(d: u64) -> (c: char)
    requires
        d < 10,
    ensures
        c == digit_char(d as nat),
{
    let c = if d == 0 {
        '0'
    } else if d == 1 {
        '1'
    } else if d == 2 {
        '2'
    } else if d == 3 {
        '3'
    } else if d == 4 {
        '4'
    } else if d == 5 {
        '5'
    } else if d == 6 {
        '6'
    } else if d == 7 {
        '7'
    } else if d == 8 {
        '8'
    } else {
        '9'
    };
    c
}

/// Appends the decimal digits of `n`.
fn push_digits(s: &mut String, n: u64)
    ensures
        final(s)@ == old(s)@ + nat_digits(n as nat),
    decreases n,
{
    if n >= 10 {
        push_digits(s, n / 10);
    }
    string_push(s, digit_of(n % 10));
    proof {
        if n >= 10 {
            assert(nat_digits(n as nat) == nat_digits((n / 10) as nat).push(digit_char((n % 10) as nat)));
        }
    }
}

/// Decimal rendering of a `u64`, as `ToString` writes it.
pub(crate) fn u64_to_text(n: u64) -> (r: String)
    ensures
        r@ == decimal_text(n as int),
{
    let mut s = String::new();
    push_digits(&mut s, n);
    s
}

/// Decimal rendering of an `i64`, as `ToString` writes it.
pub(crate) fn i64_to_text(n: i64) -> (r: String)
    ensures
        r@ == decimal_text(n as int),
{
    let mut s = String::new();
    if n < 0 {
        string_push(&mut s, '-');
        let magnitude: u64 = if n == i64::MIN {
            9_223_372_036_854_775_808
        } else {
            (-n) as u64
        };
        push_digits(&mut s, magnitude);
    } else {
        push_digits(&mut s, n as u64);
    }
    s
}

/// Decimal rendering of an `i32`, as `ToString` writes it.
pub(crate) fn i32_to_text(n: i32) -> (r: String)
    ensures
        r@ == decimal_text(n as int),
{
    i64_to_text(n as i64)
}

/// Decimal rendering of a `u16`, as `ToString` writes it.
pub(crate) fn u16_to_text(n: u16) -> (r: String)
    ensures
        r@ == decimal_text(n as int),
{
    u64_to_text(n as u64)
}

// ---------------------------------------------------------------------------
// Executable helpers
// ---------------------------------------------------------------------------

/// The characters of `s`.
pub fn chars_of(s: &str) -> (v: Vec<char>)
    ensures
        v@ == s@,
{
    let mut v: Vec<char> = Vec::new();
    for c in it: s.chars()
        invariant
            v@ == it.seq().take(it.index() as int),
    {
        v.push(c);
    }
    assert(v@ =~= s@);
    v
}

/// A `String` holding exactly the characters of `v`.
pub fn string_of(v: &[char]) -> (s: String)
    ensures
        s@ == v@,
{
    let mut s = String::new();
    let mut i: usize = 0;
    while i < v.len()
        invariant
            i <= v.len(),
            s@ == v@.take(i as int),
        decreases v.len() - i,
    {
        string_push(&mut s, v[i]);
        i = i + 1;
        assert(s@ =~= v@.take(i as int));
    }
    assert(v@.take(v@.len() as int) =~= v@);
    s
}

/// A copy of `s` as an owned `String`.
pub fn owned(s: &str) -> (r: String)
    ensures
        r@ == s@,
{
    s.to_owned()
}

/// Appends all of `t` to `s`.
pub fn push_str(s: &mut String, t: &str)
    ensures
        final(s)@ == old(s)@ + t@,
{
    s.append(t);
}

/// Concatenation of two strings.
pub fn concat2(a: &str, b: &str) -> (r: String)
    ensures
        r@ == a@ + b@,
{
    let mut r = owned(a);
    push_str(&mut r, b);
    r
}

/// Concatenation of three strings.
pub fn concat3(a: &str, b: &str, c: &str) -> (r: String)
    ensures
        r@ == a@ + b@ + c@,
{
    let mut r = owned(a);
    push_str(&mut r, b);
    push_str(&mut r, c);
    r
}

/// Does `pat` occur in `s` at position `i`?
pub fn occurs_at_exec(s: &Vec<char>, pat: &Vec<char>, i: usize) -> (r: bool)
    requires
        i <= s.len(),
    ensures
        r == occurs_at(s@, pat@, i as int),
{
    if pat.len() > s.len() - i {
        return false;
    }
    let mut j: usize = 0;
    while j < pat.len()
        invariant
            j <= pat.len(),
            i + pat.len() <= s.len(),
            forall|k: int| 0 <= k < j ==> s@[i + k] == pat@[k],
        decreases pat.len() - j,
    {
        if s[i + j] != pat[j] {
            assert(s@.subrange(i as int, i + pat.len())[j as int] != pat@[j as int]);
            return false;
        }
        j = j + 1;
    }
    assert(s@.subrange(i as int, i + pat.len()) =~= pat@);
    true
}

/// Does `pat` occur anywhere in `s`?
pub fn contains_exec(s: &Vec<char>, pat: &Vec<char>) -> (r: bool)
    ensures
        r == contains_seq(s@, pat@),
{
    let mut i: usize = 0;
    while i < s.len()
        invariant
            i <= s.len(),
            forall|k: int| 0 <= k < i ==> !occurs_at(s@, pat@, k),
        decreases s.len() - i,
    {
        if occurs_at_exec(s, pat, i) {
            return true;
        }
        i = i + 1;
    }
    occurs_at_exec(s, pat, i)
}

/// Does `pat` occur anywhere in `s`? (string form)
pub fn str_contains(s: &str, pat: &str) -> (r: bool)
    ensures
        r == contains_seq(s@, pat@),
{
    let sv = chars_of(s);
    let pv = chars_of(pat);
    contains_exec(&sv, &pv)
}

/// Does `s` start with `p`?
pub fn str_starts_with(s: &str, p: &str) -> (r: bool)
    ensures
        r == starts_with(s@, p@),
{
    let sv = chars_of(s);
    let pv = chars_of(p);
    let r = occurs_at_exec(&sv, &pv, 0);
    assert(r == starts_with(s@, p@)) by {
        if pv@.len() <= sv@.len() {
            assert(sv@.subrange(0, pv@.len() as int) =~= sv@.take(pv@.len() as int));
        }
    }
    r
}

proof fn lemma_replace_step_match(s: Seq<char>, pat: Seq<char>, rep: Seq<char>, i: int)
    requires
        pat.len() > 0,
        occurs_at(s, pat, i),
    ensures
        replace_all(s.skip(i), pat, rep) == rep + replace_all(s.skip(i + pat.len()), pat, rep),
{
    let t = s.skip(i);
    assert(t.take(pat.len() as int) =~= s.subrange(i, i + pat.len()));
    assert(t.skip(pat.len() as int) =~= s.skip(i + pat.len()));
}

proof fn lemma_replace_step_other(s: Seq<char>, pat: Seq<char>, rep: Seq<char>, i: int)
    requires
        pat.len() > 0,
        0 <= i < s.len(),
        !occurs_at(s, pat, i),
    ensures
        replace_all(s.skip(i), pat, rep) == seq![s[i]] + replace_all(s.skip(i + 1), pat, rep),
{
    let t = s.skip(i);
    assert(t.skip(1) =~= s.skip(i + 1));
    if t.len() < pat.len() {
        assert(t.skip(1).len() < pat.len());
        assert(seq![s[i]] + t.skip(1) =~= t);
    } else {
        assert(t.take(pat.len() as int) =~= s.subrange(i, i + pat.len()));
    }
}

/// `s` with every occurrence of the non-empty `pat` replaced by `rep`.
pub fn replace_vec(s: &Vec<char>, pat: &Vec<char>, rep: &Vec<char>) -> (out: Vec<char>)
    requires
        pat.len() > 0,
    ensures
        out@ == replace_all(s@, pat@, rep@),
{
    let mut out: Vec<char> = Vec::new();
    let mut i: usize = 0;
    assert(s@.skip(0) =~= s@);
    while i < s.len()
        invariant
            i <= s.len(),
            pat.len() > 0,
            out@ + replace_all(s@.skip(i as int), pat@, rep@) == replace_all(s@, pat@, rep@),
        decreases s.len() - i,
    {
        if occurs_at_exec(s, pat, i) {
            proof {
                lemma_replace_step_match(s@, pat@, rep@, i as int);
            }
            let ghost before = out@;
            let mut k: usize = 0;
            while k < rep.len()
                invariant
                    k <= rep.len(),
                    out@ == before + rep@.take(k as int),
                decreases rep.len() - k,
            {
                out.push(rep[k]);
                k = k + 1;
                assert(out@ =~= before + rep@.take(k as int));
            }
            assert(rep@.take(rep@.len() as int) =~= rep@);
            assert(out@ + replace_all(s@.skip(i + pat.len()), pat@, rep@) =~= before + (rep@
                + replace_all(s@.skip(i + pat.len()), pat@, rep@)));
            i = i + pat.len();
        } else {
            proof {
                lemma_replace_step_other(s@, pat@, rep@, i as int);
            }
            let ghost before = out@;
            out.push(s[i]);
            assert(out@ + replace_all(s@.skip(i + 1), pat@, rep@) =~= before + (seq![s@[i as int]]
                + replace_all(s@.skip(i + 1), pat@, rep@)));
            i = i + 1;
        }
    }
    assert(s@.skip(i as int) =~= Seq::<char>::empty());
    assert(out@ + Seq::<char>::empty() =~= out@);
    out
}

/// `s` with every occurrence of the non-empty `pat` replaced by `rep` (`str::replace`).
pub fn replace_str(s: &str, pat: &str, rep: &str) -> (r: String)
    requires
        pat@.len() > 0,
    ensures
        r@ == replace_all(s@, pat@, rep@),
{
    let sv = chars_of(s);
    let pv = chars_of(pat);
    let rv = chars_of(rep);
    let out = replace_vec(&sv, &pv, &rv);
    string_of(out.as_slice())
}

/// Is `c` white space in the sense of `str::trim`?
pub fn is_white_space_exec(c: char) -> (r: bool)
    ensures
        r == is_white_space(c),
{
    ('\u{9}' <= c && c <= '\u{d}') || c == ' ' || c == '\u{85}' || c == '\u{a0}' || c
        == '\u{1680}' || ('\u{2000}' <= c && c <= '\u{200a}') || c == '\u{2028}' || c
        == '\u{2029}' || c == '\u{202f}' || c == '\u{205f}' || c == '\u{3000}'
}

proof fn lemma_leading_ws_bound(s: Seq<char>)
    ensures
        leading_ws(s) <= s.len(),
        forall|k: int| 0 <= k < leading_ws(s) ==> is_white_space(#[trigger] s[k]),
        leading_ws(s) < s.len() ==> !is_white_space(s[leading_ws(s) as int]),
    decreases s.len(),
{
    if s.len() > 0 && is_white_space(s[0]) {
        lemma_leading_ws_bound(s.skip(1));
        assert forall|k: int| 0 <= k < leading_ws(s) implies is_white_space(#[trigger] s[k]) by {
            if k > 0 {
                assert(s[k] == s.skip(1)[k - 1]);
            }
        }
        if leading_ws(s) < s.len() {
            assert(s[leading_ws(s) as int] == s.skip(1)[leading_ws(s.skip(1)) as int]);
        }
    }
}

proof fn lemma_leading_ws_char(s: Seq<char>, n: int)
    requires
        0 <= n <= s.len(),
        forall|k: int| 0 <= k < n ==> is_white_space(#[trigger] s[k]),
        n < s.len() ==> !is_white_space(s[n]),
    ensures
        leading_ws(s) == n,
    decreases n,
{
    if n > 0 {
        assert(is_white_space(s[0]));
        assert forall|k: int| 0 <= k < n - 1 implies is_white_space(#[trigger] s.skip(1)[k]) by {
            assert(s.skip(1)[k] == s[k + 1]);
        }
        if n - 1 < s.skip(1).len() {
            assert(s.skip(1)[n - 1] == s[n]);
        }
        lemma_leading_ws_char(s.skip(1), n - 1);
    }
}

proof fn lemma_trailing_ws_char(s: Seq<char>, n: int)
    requires
        0 <= n <= s.len(),
        forall|k: int| s.len() - n <= k < s.len() ==> is_white_space(#[trigger] s[k]),
        n < s.len() ==> !is_white_space(s[s.len() - n - 1]),
    ensures
        trailing_ws(s) == n,
    decreases n,
{
    if n > 0 {
        assert(is_white_space(s.last()));
        let d = s.drop_last();
        assert forall|k: int| d.len() - (n - 1) <= k < d.len() implies is_white_space(
            #[trigger] d[k],
        ) by {
            assert(d[k] == s[k]);
        }
        if n - 1 < d.len() {
            assert(d[d.len() - (n - 1) - 1] == s[s.len() - n - 1]);
        }
        lemma_trailing_ws_char(d, n - 1);
    } else {
        if s.len() > 0 {
            assert(!is_white_space(s.last()));
        }
    }
}

/// `s` without leading and trailing white space (`str::trim`).
pub fn trim_chars(s: &Vec<char>) -> (r: Vec<char>)
    ensures
        r@ == trim_seq(s@),
{
    let mut a: usize = 0;
    while a < s.len() && is_white_space_exec(s[a])
        invariant
            a <= s.len(),
            forall|k: int| 0 <= k < a ==> is_white_space(#[trigger] s@[k]),
        decreases s.len() - a,
    {
        a = a + 1;
    }
    proof {
        lemma_leading_ws_char(s@, a as int);
    }
    if a == s.len() {
        return Vec::new();
    }
    let mut b: usize = s.len();
    while b > a && is_white_space_exec(s[b - 1])
        invariant
            a < s.len(),
            a <= b <= s.len(),
            !is_white_space(s@[a as int]),
            forall|k: int| b <= k < s.len() ==> is_white_space(#[trigger] s@[k]),
        decreases b,
    {
        b = b - 1;
    }
    proof {
        lemma_trailing_ws_char(s@, s.len() - b);
    }
    let mut r: Vec<char> = Vec::new();
    let mut i: usize = a;
    while i < b
        invariant
            a <= i <= b <= s.len(),
            r@ == s@.subrange(a as int, i as int),
        decreases b - i,
    {
        r.push(s[i]);
        i = i + 1;
        assert(r@ =~= s@.subrange(a as int, i as int));
    }
    r
}

/// `s` without leading and trailing white space (`str::trim`), as a `String`.
pub fn trim_str(s: &str) -> (r: String)
    ensures
        r@ == trim_seq(s@),
{
    let v = chars_of(s);
    let t = trim_chars(&v);
    string_of(t.as_slice())
}

/// Is `s` empty once white space is trimmed?
pub fn is_blank(s: &str) -> (r: bool)
    ensures
        r == (trim_seq(s@).len() == 0),
{
    let t = trim_str(s);
    t.as_str().is_empty()
}

/// The part of `s` before the first `sep` (or all of it).
pub fn before_first_exec(s: &Vec<char>, sep: char) -> (r: Vec<char>)
    ensures
        r@ == before_first(s@, sep),
{
    let mut r: Vec<char> = Vec::new();
    let mut i: usize = 0;
    assert(s@.skip(0) =~= s@);
    while i < s.len() && s[i] != sep
        invariant
            i <= s.len(),
            r@ + before_first(s@.skip(i as int), sep) == before_first(s@, sep),
        decreases s.len() - i,
    {
        let ghost t = s@.skip(i as int);
        assert(t.skip(1) =~= s@.skip(i + 1));
        let ghost before = r@;
        r.push(s[i]);
        assert(r@ + before_first(s@.skip(i + 1), sep) =~= before + (seq![s@[i as int]]
            + before_first(s@.skip(i + 1), sep)));
        i = i + 1;
    }
    if i < s.len() {
        assert(before_first(s@.skip(i as int), sep) =~= Seq::<char>::empty());
    } else {
        assert(s@.skip(i as int) =~= Seq::<char>::empty());
    }
    assert(r@ + Seq::<char>::empty() =~= r@);
    r
}

/// Are all characters of `v` in positions `from..` ASCII digits?
pub fn all_digits_from(v: &Vec<char>, from: usize) -> (r: bool)
    requires
        from <= v.len(),
    ensures
        r == all_ascii_digits(v@.skip(from as int)),
{
    let mut i: usize = from;
    while i < v.len()
        invariant
            from <= i <= v.len(),
            forall|k: int| from <= k < i ==> is_ascii_digit(#[trigger] v@[k]),
        decreases v.len() - i,
    {
        if !('0' <= v[i] && v[i] <= '9') {
            assert(v@.skip(from as int)[i - from] == v@[i as int]);
            return false;
        }
        i = i + 1;
    }
    assert forall|k: int| 0 <= k < v@.skip(from as int).len() implies is_ascii_digit(
        #[trigger] v@.skip(from as int)[k],
    ) by {
        assert(v@.skip(from as int)[k] == v@[from + k]);
    }
    true
}

/// The position of the first `c` in `s`, if any.
pub open spec fn index_of(s: Seq<char>, c: char) -> Option<nat>
    decreases s.len(),
{
    if s.len() == 0 {
        None
    } else if s[0] == c {
        Some(0)
    } else {
        match index_of(s.skip(1), c) {
            Some(i) => Some(i + 1),
            None => None,
        }
    }
}

/// The position of the first `c` in `v`, if any.
pub fn find_char(v: &Vec<char>, c: char) -> (r: Option<usize>)
    ensures
        r matches Some(i) ==> index_of(v@, c) == Some(i as nat),
        r is None ==> index_of(v@, c) is None,
{
    let mut i: usize = 0;
    assert(v@.skip(0) =~= v@);
    while i < v.len()
        invariant
            i <= v.len(),
            forall|k: int| 0 <= k < i ==> v@[k] != c,
            index_of(v@, c) == match index_of(v@.skip(i as int), c) {
                Some(j) => Some((j + i) as nat),
                None => None,
            },
        decreases v.len() - i,
    {
        let ghost t = v@.skip(i as int);
        assert(t[0] == v@[i as int]);
        if v[i] == c {
            return Some(i);
        }
        assert(t.skip(1) =~= v@.skip(i + 1));
        i = i + 1;
    }
    assert(v@.skip(i as int) =~= Seq::<char>::empty());
    None
}


/// Lexicographic order of character sequences (code point by code point; a proper prefix
/// comes first). It is the order of `str` comparison, since UTF-8 keeps code point order.
pub open spec fn seq_less(a: Seq<char>, b: Seq<char>) -> bool
    decreases a.len(),
{
    if a.len() == 0 {
        b.len() > 0
    } else if b.len() == 0 {
        false
    } else if a[0] != b[0] {
        a[0] < b[0]
    } else {
        seq_less(a.skip(1), b.skip(1))
    }
}

proof fn lemma_skip_eq(a: Seq<char>, b: Seq<char>)
    requires
        a.len() > 0,
        b.len() > 0,
        a[0] == b[0],
        a.skip(1) == b.skip(1),
    ensures
        a == b,
{
    assert(a =~= seq![a[0]] + a.skip(1));
    assert(b =~= seq![b[0]] + b.skip(1));
}

/// The lexicographic order is a strict total order.
pub proof fn lemma_seq_less_order(a: Seq<char>, b: Seq<char>, c: Seq<char>)
    ensures
        !seq_less(a, a),
        seq_less(a, b) ==> !seq_less(b, a),
        a != b ==> seq_less(a, b) || seq_less(b, a),
        seq_less(a, b) && seq_less(b, c) ==> seq_less(a, c),
    decreases a.len(),
{
    if a.len() > 0 && b.len() > 0 && c.len() > 0 {
        lemma_seq_less_order(a.skip(1), b.skip(1), c.skip(1));
        if a != b && a[0] == b[0] {
            if a.skip(1) == b.skip(1) {
                lemma_skip_eq(a, b);
            }
        }
    } else if a.len() > 0 && b.len() > 0 {
        lemma_seq_less_order(a.skip(1), b.skip(1), a.skip(1));
        if a != b && a[0] == b[0] {
            if a.skip(1) == b.skip(1) {
                lemma_skip_eq(a, b);
            }
        }
    } else if a.len() > 0 {
        lemma_seq_less_order(a.skip(1), a.skip(1), a.skip(1));
    }
    if a.len() == 0 && b.len() == 0 {
        assert(a =~= b);
    }
}

/// Does `a` come before `b` in lexicographic order?
pub fn str_less(a: &str, b: &str) -> (r: bool)
    ensures
        r == seq_less(a@, b@),
{
    let av = chars_of(a);
    let bv = chars_of(b);
    let mut i: usize = 0;
    assert(av@.skip(0) =~= av@);
    assert(bv@.skip(0) =~= bv@);
    while i < av.len() && i < bv.len()
        invariant
            i <= av.len(),
            i <= bv.len(),
            av@ == a@,
            bv@ == b@,
            seq_less(av@.skip(i as int), bv@.skip(i as int)) == seq_less(av@, bv@),
        decreases av.len() - i,
    {
        let x = av[i];
        let y = bv[i];
        assert(av@.skip(i as int)[0] == x);
        assert(bv@.skip(i as int)[0] == y);
        if x != y {
            let ghost sa = av@.skip(i as int);
            let ghost sb = bv@.skip(i as int);
            assert(sa.len() > 0 && sb.len() > 0 && sa[0] != sb[0]);
            assert(seq_less(sa, sb) == (sa[0] < sb[0]));
            let lt = x < y;
            assert(lt == (x < y));
            assert(sa[0] == x && sb[0] == y);
            return lt;
        }
        assert(av@.skip(i as int).skip(1) =~= av@.skip(i + 1));
        assert(bv@.skip(i as int).skip(1) =~= bv@.skip(i + 1));
        i = i + 1;
    }
    i < bv.len()
}


/// The position of the first occurrence of `pat` in `s`, if any.
pub open spec fn find_seq(s: Seq<char>, pat: Seq<char>) -> Option<nat>
    decreases s.len(),
{
    if s.len() < pat.len() {
        None
    } else if s.take(pat.len() as int) == pat {
        Some(0)
    } else if s.len() == 0 {
        None
    } else {
        match find_seq(s.skip(1), pat) {
            Some(i) => Some(i + 1),
            None => None,
        }
    }
}

/// The first occurrence found is an occurrence.
pub proof fn lemma_find_seq_occurs(s: Seq<char>, pat: Seq<char>)
    ensures
        find_seq(s, pat) matches Some(i) ==> occurs_at(s, pat, i as int),
    decreases s.len(),
{
    if s.len() >= pat.len() && s.take(pat.len() as int) != pat && s.len() > 0 {
        lemma_find_seq_occurs(s.skip(1), pat);
        if let Some(i) = find_seq(s.skip(1), pat) {
            let k = i as int;
            assert(s.skip(1).subrange(k, k + pat.len()) =~= s.subrange(k + 1, k + 1 + pat.len()));
        }
    } else if s.len() >= pat.len() && s.take(pat.len() as int) == pat {
        assert(s.subrange(0, pat.len() as int) =~= s.take(pat.len() as int));
    }
}

/// The position of the first occurrence of `pat` in `v` at or after `from`, if any.
pub fn find_from(v: &Vec<char>, pat: &Vec<char>, from: usize) -> (r: Option<usize>)
    requires
        from <= v.len(),
    ensures
        match find_seq(v@.skip(from as int), pat@) {
            Some(i) => r == Some((i + from) as usize),
            None => r is None,
        },
{
    let mut i: usize = from;
    while i <= v.len()
        invariant
            from <= i <= v.len() + 1,
            i <= v.len() ==> find_seq(v@.skip(from as int), pat@) == match find_seq(
                v@.skip(i as int),
                pat@,
            ) {
                Some(j) => Some((j + i - from) as nat),
                None => None,
            },
            i > v.len() ==> find_seq(v@.skip(from as int), pat@) is None,
        decreases v.len() + 1 - i,
    {
        let ghost t = v@.skip(i as int);
        if occurs_at_exec(v, pat, i) {
            assert(t.take(pat@.len() as int) =~= v@.subrange(i as int, i + pat@.len()));
            return Some(i);
        }
        if pat.len() <= v.len() - i {
            assert(t.take(pat@.len() as int) =~= v@.subrange(i as int, i + pat@.len()));
        }
        if i == v.len() {
            assert(t.len() == 0);
            return None;
        }
        assert(t.skip(1) =~= v@.skip(i + 1));
        i = i + 1;
    }
    None
}

} // verus!
