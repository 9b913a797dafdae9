//! Telegram: checking a Login Widget payload, and the messages the bot sends.
use vstd::prelude::*;

use crate::crypto::{hex_encode, hex_lower, hmac_sha256, hmac_sha256_tag, sha256, sha256_digest};
use crate::error::AppError;
use crate::i18n::{lookup, pairs_lookup, pairs_view};
use crate::numbers::{parse_i64, parsed_signed};
use crate::text::{concat2, lemma_seq_less_order, owned, push_str, seq_less, str_equal, str_less};
use vstd::utf8::encode_utf8;

verus! {

broadcast use vstd::string::group_string_axioms;

/// A message for the bot to send.
#[derive(Debug, Clone, PartialEq, Eq)]
pub struct TelegramMessage {
    pub chat_id: String,
    pub text: String,
    pub parse_mode: Option<String>,
    pub disable_web_page_preview: bool,
    pub disable_notification: bool,
}

impl Default for TelegramMessage {
    fn default() -> (r: TelegramMessage)
        ensures
            r.chat_id@ == Seq::<char>::empty(),
            r.text@ == Seq::<char>::empty(),
            r.parse_mode matches Some(m) && m@ == "HTML"@,
            !r.disable_web_page_preview,
            !r.disable_notification,
    {
        TelegramMessage {
            chat_id: String::new(),
            text: String::new(),
            parse_mode: Some(owned("HTML")),
            disable_web_page_preview: false,
            disable_notification: false,
        }
    }
}

/// The message that delivers a rendered notification to a chat (HTML formatting).
pub fn notification_message(chat_id: &str, text: String) -> (r: TelegramMessage)
    ensures
        r.chat_id@ == chat_id@,
        r.text == text,
        r.parse_mode matches Some(m) && m@ == "HTML"@,
        !r.disable_web_page_preview,
        !r.disable_notification,
{
    TelegramMessage {
        chat_id: owned(chat_id),
        text,
        parse_mode: Some(owned("HTML")),
        disable_web_page_preview: false,
        disable_notification: false,
    }
}

/// The formatting a message asks for.
#[derive(Debug, Clone, Copy, PartialEq, Eq, Structural)]
pub enum ParseModeChoice {
    Html,
    MarkdownV2,
    Plain,
}

/// The formatting of a message: `HTML`, `Markdown` (sent as MarkdownV2), or none.
pub fn parse_mode_of(m: &TelegramMessage) -> (r: ParseModeChoice)
    ensures
        r == match m.parse_mode {
            Some(p) => if p@ == "HTML"@ {
                ParseModeChoice::Html
            } else if p@ == "Markdown"@ {
                ParseModeChoice::MarkdownV2
            } else {
                ParseModeChoice::Plain
            },
            None => ParseModeChoice::Plain,
        },
{
    match &m.parse_mode {
        Some(p) => {
            if str_equal(p.as_str(), "HTML") {
                ParseModeChoice::Html
            } else if str_equal(p.as_str(), "Markdown") {
                ParseModeChoice::MarkdownV2
            } else {
                ParseModeChoice::Plain
            }
        },
        None => ParseModeChoice::Plain,
    }
}

/// What a verified login tells about the account.
#[derive(Debug, Clone, PartialEq, Eq)]
pub struct TelegramLoginInfo {
    pub id: String,
    pub username: Option<String>,
    pub photo_url: Option<String>,
}

/// A key/value list without repeated keys (a map's entries).
pub open spec fn keys_distinct(p: Seq<(Seq<char>, Seq<char>)>) -> bool {
    forall|i: int, j: int| 0 <= i < j < p.len() ==> p[i].0 != p[j].0
}

/// Entries ordered by strictly increasing key.
pub open spec fn keys_strictly_sorted(s: Seq<(Seq<char>, Seq<char>)>) -> bool {
    forall|i: int, j: int| 0 <= i < j < s.len() ==> seq_less(s[i].0, s[j].0)
}

/// The entries of a login payload that are signed: all but `hash`.
pub open spec fn signed_entries(p: Seq<(Seq<char>, Seq<char>)>) -> Seq<(Seq<char>, Seq<char>)> {
    p.filter(|e: (Seq<char>, Seq<char>)| e.0 != "hash"@)
}

/// The signed entries in key order.
pub open spec fn sorted_signed_entries(p: Seq<(Seq<char>, Seq<char>)>) -> Seq<
    (Seq<char>, Seq<char>),
> {
    choose|s: Seq<(Seq<char>, Seq<char>)>|
        keys_strictly_sorted(s) && s.to_multiset() == signed_entries(p).to_multiset()
}

/// `key=value`.
pub open spec fn entry_line(e: (Seq<char>, Seq<char>)) -> Seq<char> {
    e.0 + "="@ + e.1
}

/// The lines `key=value` of the entries, joined by line breaks.
pub open spec fn joined_lines(s: Seq<(Seq<char>, Seq<char>)>) -> Seq<char>
    decreases s.len(),
{
    if s.len() == 0 {
        Seq::empty()
    } else if s.len() == 1 {
        entry_line(s[0])
    } else {
        joined_lines(s.drop_last()) + "\n"@ + entry_line(s.last())
    }
}

/// The text Telegram signs: the signed entries in key order, one `key=value` per line.
pub open spec fn data_check_string(p: Seq<(Seq<char>, Seq<char>)>) -> Seq<char> {
    joined_lines(sorted_signed_entries(p))
}

/// The hash a genuine payload carries for a bot: the hexadecimal HMAC-SHA256 of the
/// data-check string under the SHA-256 digest of the bot token.
pub open spec fn expected_login_hash(p: Seq<(Seq<char>, Seq<char>)>, bot_token: Seq<char>) -> Seq<
    char,
> {
    hex_lower(hmac_sha256(sha256_digest(encode_utf8(bot_token)), encode_utf8(data_check_string(p))))
}

/// Logins older than this (seconds) are refused.
pub open spec fn login_max_age() -> int {
    86400
}

/// Why a login payload is refused, if it is: the first of a missing hash, a hash that does
/// not match, a missing or unreadable `auth_date`, an `auth_date` more than a day before
/// `now`, a missing `id`.
pub open spec fn login_refusal(p: Seq<(Seq<char>, Seq<char>)>, bot_token: Seq<char>, now: i64) -> Option<
    Seq<char>,
> {
    match pairs_lookup(p, "hash"@) {
        None => Some("Missing hash in Telegram login payload"@),
        Some(h) => if h != expected_login_hash(p, bot_token) {
            Some("Invalid Telegram login data"@)
        } else {
            match pairs_lookup(p, "auth_date"@) {
                None => Some("Missing auth_date in Telegram login payload"@),
                Some(d) => match parsed_signed(d, i64::MIN as int, i64::MAX as int) {
                    None => Some("Invalid auth_date in Telegram login payload"@),
                    Some(t) => if now - t > login_max_age() {
                        Some("Telegram login data is too old"@)
                    } else if pairs_lookup(p, "id"@) is None {
                        Some("Missing id in Telegram login payload"@)
                    } else {
                        None
                    },
                },
            }
        },
    }
}

proof fn lemma_sorted_unique(s: Seq<(Seq<char>, Seq<char>)>, t: Seq<(Seq<char>, Seq<char>)>)
    requires
        keys_strictly_sorted(s),
        keys_strictly_sorted(t),
        s.to_multiset() == t.to_multiset(),
    ensures
        s == t,
    decreases s.len(),
{
    broadcast use vstd::seq_lib::group_to_multiset_ensures;

    s.to_multiset_ensures();
    t.to_multiset_ensures();
    assert(s.len() == t.len());
    if s.len() > 0 {
        assert(t.to_multiset().count(s[0]) > 0);
        assert(t.contains(s[0]));
        let k = choose|k: int| 0 <= k < t.len() && t[k] == s[0];
        assert(s.to_multiset().count(t[0]) > 0);
        assert(s.contains(t[0]));
        let m = choose|m: int| 0 <= m < s.len() && s[m] == t[0];
        if k > 0 {
            assert(seq_less(t[0].0, t[k].0));
            lemma_seq_less_order(t[0].0, s[0].0, t[0].0);
            if m > 0 {
                assert(seq_less(s[0].0, s[m].0));
            }
            assert(false);
        }
        assert(s[0] == t[0]);
        assert(s.remove(0).to_multiset() == s.to_multiset().remove(s[0]));
        assert(t.remove(0).to_multiset() == t.to_multiset().remove(t[0]));
        assert(s.remove(0) =~= s.drop_first());
        assert(t.remove(0) =~= t.drop_first());
        lemma_sorted_unique(s.drop_first(), t.drop_first());
        assert(s =~= seq![s[0]] + s.drop_first());
        assert(t =~= seq![t[0]] + t.drop_first());
    }
}

/// The signed entries of `payload` in key order.
fn sorted_signed(payload: &Vec<(String, String)>) -> (r: Vec<(String, String)>)
    requires
        keys_distinct(pairs_view(payload@)),
    ensures
        pairs_view(r@) == sorted_signed_entries(pairs_view(payload@)),
{
    let ghost p = pairs_view(payload@);
    let mut out: Vec<(String, String)> = Vec::new();
    let mut i: usize = 0;
    proof {
        reveal(Seq::filter);
        assert(p.take(0) =~= Seq::<(Seq<char>, Seq<char>)>::empty());
        assert(signed_entries(p.take(0)) =~= Seq::<(Seq<char>, Seq<char>)>::empty());
        assert(pairs_view(out@) =~= Seq::<(Seq<char>, Seq<char>)>::empty());
    }
    while i < payload.len()
        invariant
            i <= payload.len(),
            p == pairs_view(payload@),
            keys_distinct(p),
            keys_strictly_sorted(pairs_view(out@)),
            pairs_view(out@).to_multiset() == signed_entries(p.take(i as int)).to_multiset(),
        decreases payload.len() - i,
    {
        broadcast use vstd::seq_lib::group_to_multiset_ensures;
        let ghost before = pairs_view(out@);
        let ghost e = p[i as int];
        proof {
            assert(p.take(i + 1) =~= p.take(i as int).push(e));
            p.take(i as int).lemma_filter_push(e, |x: (Seq<char>, Seq<char>)| x.0 != "hash"@);
        }
        if !str_equal(payload[i].0.as_str(), "hash") {
            let key = payload[i].0.as_str();
            let mut j: usize = 0;
            while j < out.len() && !str_less(key, out[j].0.as_str())
                invariant
                    j <= out.len(),
                    before == pairs_view(out@),
                    forall|k: int| 0 <= k < j ==> !seq_less(key@, #[trigger] before[k].0),
                decreases out.len() - j,
            {
                j = j + 1;
            }
            proof {
                // no entry kept so far has this key: the keys of the payload are distinct
                assert forall|k: int| 0 <= k < before.len() implies before[k].0 != key@ by {
                    assert(before.to_multiset().count(before[k]) > 0);
                    assert(signed_entries(p.take(i as int)).contains(before[k]));
                    p.take(i as int).lemma_filter_contains_rev(
                        |x: (Seq<char>, Seq<char>)| x.0 != "hash"@,
                        before[k],
                    );
                    assert(p.take(i as int).contains(before[k]));
                    let z = choose|z: int| 0 <= z < i && p.take(i as int)[z] == before[k];
                    assert(p[z] == before[k]);
                }
            }
            let entry = (payload[i].0.clone(), payload[i].1.clone());
            proof {
                assert((entry.0@, entry.1@) == e);
            }
            out.insert(j, entry);
            proof {
                let after = pairs_view(out@);
                assert(after =~= before.insert(j as int, e));
                vstd::seq_lib::to_multiset_insert(before, j as int, e);
                assert forall|a: int, b: int| 0 <= a < b < after.len() implies seq_less(
                    after[a].0,
                    after[b].0,
                ) by {
                    if b < j {
                    } else if a < j && b == j {
                        lemma_seq_less_order(before[a].0, e.0, e.0);
                        assert(!seq_less(e.0, before[a].0));
                    } else if a < j && b > j {
                        assert(after[b] == before[b - 1]);
                    } else if a == j {
                        assert(after[b] == before[b - 1]);
                        if j < before.len() {
                            assert(seq_less(e.0, before[j as int].0));
                            if b - 1 > j {
                                lemma_seq_less_order(e.0, before[j as int].0, before[b - 1].0);
                            }
                        }
                    } else {
                        assert(after[a] == before[a - 1]);
                        assert(after[b] == before[b - 1]);
                    }
                }
            }
        }
        i = i + 1;
    }
    proof {
        assert(p.take(i as int) =~= p);
        let got = pairs_view(out@);
        let want = sorted_signed_entries(p);
        assert(keys_strictly_sorted(want) && want.to_multiset() == signed_entries(p).to_multiset());
        lemma_sorted_unique(got, want);
    }
    out
}

/// The lines `key=value` of the entries, joined by line breaks.
fn join_lines(items: &Vec<(String, String)>) -> (r: String)
    ensures
        r@ == joined_lines(pairs_view(items@)),
{
    let ghost v = pairs_view(items@);
    let mut out = String::new();
    let mut i: usize = 0;
    while i < items.len()
        invariant
            i <= items.len(),
            v == pairs_view(items@),
            out@ == joined_lines(v.take(i as int)),
        decreases items.len() - i,
    {
        let ghost prev = out@;
        if i > 0 {
            push_str(&mut out, "\n");
        }
        push_str(&mut out, items[i].0.as_str());
        push_str(&mut out, "=");
        push_str(&mut out, items[i].1.as_str());
        proof {
            let t = v.take(i + 1);
            assert(t.drop_last() =~= v.take(i as int));
            assert(t.last() == v[i as int]);
            if i == 0 {
                assert(out@ =~= entry_line(v[0]));
            } else {
                assert(out@ =~= prev + "\n"@ + entry_line(v[i as int]));
            }
        }
        i = i + 1;
    }
    assert(v.take(i as int) =~= v);
    out
}

/// Checks a Telegram Login Widget payload for a bot: the `hash` must be the HMAC-SHA256 of
/// the other entries (sorted, `key=value` per line) under the SHA-256 digest of the bot
/// token, and the login at most a day old at `now` (seconds since the epoch).
pub fn verify_telegram_login_payload(
    payload: &Vec<(String, String)>,
    bot_token: &str,
    now: i64,
) -> (r: Result<TelegramLoginInfo, AppError>)
    requires
        keys_distinct(pairs_view(payload@)),
    ensures
        ({
            let p = pairs_view(payload@);
            match login_refusal(p, bot_token@, now) {
                Some(reason) => r matches Err(AppError::BadRequest(m)) && m@ == reason,
                None => r matches Ok(info) && Some(info.id@) == pairs_lookup(p, "id"@) && match info.username {
                    Some(u) => pairs_lookup(p, "username"@) == Some(u@),
                    None => pairs_lookup(p, "username"@) is None,
                } && match info.photo_url {
                    Some(u) => pairs_lookup(p, "photo_url"@) == Some(u@),
                    None => pairs_lookup(p, "photo_url"@) is None,
                },
            }
        }),
{
    let received = match lookup(payload, "hash") {
        Some(h) => h,
        None => {
            return Err(AppError::BadRequest(owned("Missing hash in Telegram login payload")));
        },
    };
    let items = sorted_signed(payload);
    let data_check = join_lines(&items);
    let secret = sha256(bot_token.as_bytes());
    let computed = match hmac_sha256_tag(secret.as_slice(), data_check.as_str().as_bytes()) {
        Ok(t) => t,
        Err(e) => {
            return Err(AppError::Telegram(concat2("Failed to initialize HMAC: ", e.as_str())));
        },
    };
    let computed_hex = hex_encode(computed.as_slice());
    if !str_equal(computed_hex.as_str(), received.as_str()) {
        return Err(AppError::BadRequest(owned("Invalid Telegram login data")));
    }
    let auth_date_text = match lookup(payload, "auth_date") {
        Some(d) => d,
        None => {
            return Err(
                AppError::BadRequest(owned("Missing auth_date in Telegram login payload")),
            );
        },
    };
    let auth_date = match parse_i64(auth_date_text.as_str()) {
        Some(t) => t,
        None => {
            return Err(
                AppError::BadRequest(owned("Invalid auth_date in Telegram login payload")),
            );
        },
    };
    if (now as i128) - (auth_date as i128) > 86400 {
        return Err(AppError::BadRequest(owned("Telegram login data is too old")));
    }
    let id = match lookup(payload, "id") {
        Some(v) => v,
        None => {
            return Err(AppError::BadRequest(owned("Missing id in Telegram login payload")));
        },
    };
    Ok(
        TelegramLoginInfo {
            id,
            username: lookup(payload, "username"),
            photo_url: lookup(payload, "photo_url"),
        },
    )
}

/// An entry of a login payload: key and value.
pub type PayloadEntry = (Seq<char>, Seq<char>);

/// Entries sorted by key, with one more entry whose key none of them has, put in its place.
proof fn sorted_insert(s: Seq<PayloadEntry>, e: PayloadEntry) -> (r: Seq<PayloadEntry>)
    requires
        keys_strictly_sorted(s),
        forall|i: int| 0 <= i < s.len() ==> s[i].0 != e.0,
    ensures
        keys_strictly_sorted(r),
        r.to_multiset() == s.to_multiset().insert(e),
        forall|i: int| 0 <= i < r.len() ==> r[i] == e || s.contains(#[trigger] r[i]),
    decreases s.len(),
{
    if s.len() == 0 || seq_less(e.0, s[0].0) {
        let r = s.insert(0, e);
        vstd::seq_lib::to_multiset_insert(s, 0, e);
        assert forall|a: int, b: int| 0 <= a < b < r.len() implies seq_less(r[a].0, r[b].0) by {
            if a == 0 {
                assert(r[b] == s[b - 1]);
                if b - 1 > 0 {
                    lemma_seq_less_order(e.0, s[0].0, s[b - 1].0);
                }
            } else {
                assert(r[a] == s[a - 1] && r[b] == s[b - 1]);
            }
        }
        assert forall|i: int| 0 <= i < r.len() implies r[i] == e || s.contains(#[trigger] r[i]) by {
            if i > 0 {
                assert(r[i] == s[i - 1]);
            }
        }
        r
    } else {
        lemma_seq_less_order(s[0].0, e.0, e.0);
        assert(seq_less(s[0].0, e.0));
        let rest = s.drop_first();
        let t = sorted_insert(rest, e);
        let r = t.insert(0, s[0]);
        vstd::seq_lib::to_multiset_insert(t, 0, s[0]);
        vstd::seq_lib::to_multiset_insert(rest, 0, s[0]);
        assert(rest.insert(0, s[0]) =~= s);
        assert(t.to_multiset().insert(s[0]) =~= rest.to_multiset().insert(s[0]).insert(e));
        assert forall|a: int, b: int| 0 <= a < b < r.len() implies seq_less(r[a].0, r[b].0) by {
            if a == 0 {
                assert(r[b] == t[b - 1]);
                if t[b - 1] != e {
                    let k = choose|k: int| 0 <= k < rest.len() && rest[k] == t[b - 1];
                    assert(rest[k] == s[k + 1]);
                }
            } else {
                assert(r[a] == t[a - 1] && r[b] == t[b - 1]);
            }
        }
        assert forall|i: int| 0 <= i < r.len() implies r[i] == e || s.contains(#[trigger] r[i]) by {
            if i == 0 {
                assert(s[0] == r[0]);
            } else {
                assert(r[i] == t[i - 1]);
                if t[i - 1] != e {
                    let k = choose|k: int| 0 <= k < rest.len() && rest[k] == t[i - 1];
                    assert(s[k + 1] == r[i]);
                }
            }
        }
        r
    }
}

/// The signed entries of a payload without repeated keys can be put in key order.
proof fn lemma_sorted_signed_witness(p: Seq<PayloadEntry>) -> (r: Seq<PayloadEntry>)
    requires
        keys_distinct(p),
    ensures
        keys_strictly_sorted(r),
        r.to_multiset() == signed_entries(p).to_multiset(),
    decreases p.len(),
{
    broadcast use vstd::seq_lib::group_to_multiset_ensures;

    let pred = |x: PayloadEntry| x.0 != "hash"@;
    if p.len() == 0 {
        assert(signed_entries(p) =~= p);
        Seq::empty()
    } else {
        let init = p.drop_last();
        let e = p.last();
        assert(p =~= init.push(e));
        init.lemma_filter_push(e, pred);
        let t = lemma_sorted_signed_witness(init);
        if e.0 == "hash"@ {
            t
        } else {
            assert forall|i: int| 0 <= i < t.len() implies t[i].0 != e.0 by {
                assert(t.to_multiset().count(t[i]) > 0);
                assert(signed_entries(init).contains(t[i]));
                init.lemma_filter_contains_rev(pred, t[i]);
                let z = choose|z: int| 0 <= z < init.len() && init[z] == t[i];
                assert(p[z] == t[i]);
            }
            let r = sorted_insert(t, e);
            assert(signed_entries(p) == signed_entries(init).push(e));
            r
        }
    }
}

/// The signed entries hold each entry as often as the payload does, unless its key is
/// `hash`.
proof fn lemma_signed_entries_count(s: Seq<PayloadEntry>, x: PayloadEntry)
    ensures
        signed_entries(s).to_multiset().count(x) == if x.0 != "hash"@ {
            s.to_multiset().count(x)
        } else {
            0
        },
    decreases s.len(),
{
    broadcast use vstd::seq_lib::group_to_multiset_ensures;
    broadcast use vstd::multiset::group_multiset_axioms;

    let pred = |y: PayloadEntry| y.0 != "hash"@;
    if s.len() == 0 {
        assert(signed_entries(s) =~= s);
        assert(!s.contains(x));
    } else {
        let init = s.drop_last();
        let e = s.last();
        assert(s =~= init.push(e));
        init.lemma_filter_push(e, pred);
        lemma_signed_entries_count(init, x);
        if x.0 == "hash"@ {
            assert(!signed_entries(init).contains(x));
            assert(!signed_entries(s).contains(x)) by {
                if signed_entries(s).contains(x) {
                    let k = choose|k: int| 0 <= k < signed_entries(s).len() && signed_entries(s)[k] == x;
                    if e.0 != "hash"@ && k == signed_entries(init).len() {
                    } else {
                        assert(signed_entries(init)[k] == x);
                    }
                }
            }
        }
    }
}

/// The entry with a key, in a payload without repeated keys, is what a lookup finds.
proof fn lemma_lookup_entry(p: Seq<PayloadEntry>, i: int)
    requires
        keys_distinct(p),
        0 <= i < p.len(),
    ensures
        pairs_lookup(p, p[i].0) == Some(p[i].1),
    decreases i,
{
    if i > 0 {
        let rest = p.skip(1);
        assert(rest[i - 1] == p[i]);
        assert(keys_distinct(rest)) by {
            assert forall|a: int, b: int| 0 <= a < b < rest.len() implies rest[a].0 != rest[b].0 by {
                assert(rest[a] == p[a + 1] && rest[b] == p[b + 1]);
            }
        }
        lemma_lookup_entry(rest, i - 1);
    }
}

/// A key no entry has is not found.
proof fn lemma_lookup_missing(p: Seq<PayloadEntry>, k: Seq<char>)
    requires
        forall|i: int| 0 <= i < p.len() ==> p[i].0 != k,
    ensures
        pairs_lookup(p, k) is None,
    decreases p.len(),
{
    if p.len() > 0 {
        let rest = p.skip(1);
        assert forall|i: int| 0 <= i < rest.len() implies rest[i].0 != k by {
            assert(rest[i] == p[i + 1]);
        }
        lemma_lookup_missing(rest, k);
    }
}

/// In payloads without repeated keys holding the same entries, every key finds the same
/// value.
proof fn lemma_lookup_same(p: Seq<PayloadEntry>, q: Seq<PayloadEntry>, k: Seq<char>)
    requires
        keys_distinct(p),
        keys_distinct(q),
        p.to_multiset() == q.to_multiset(),
    ensures
        pairs_lookup(p, k) == pairs_lookup(q, k),
{
    broadcast use vstd::seq_lib::group_to_multiset_ensures;

    if exists|i: int| 0 <= i < p.len() && p[i].0 == k {
        let i = choose|i: int| 0 <= i < p.len() && p[i].0 == k;
        assert(p.contains(p[i]));
        assert(q.to_multiset().count(p[i]) > 0);
        let j = choose|j: int| 0 <= j < q.len() && q[j] == p[i];
        lemma_lookup_entry(p, i);
        lemma_lookup_entry(q, j);
    } else {
        assert forall|j: int| 0 <= j < q.len() implies q[j].0 != k by {
            assert(q.contains(q[j]));
            assert(p.to_multiset().count(q[j]) > 0);
            let i = choose|i: int| 0 <= i < p.len() && p[i] == q[j];
            assert(p[i].0 == q[j].0);
        }
        lemma_lookup_missing(p, k);
        lemma_lookup_missing(q, k);
    }
}

/// The verdict on a Telegram login does not depend on the order of the payload's entries:
/// two payloads without repeated keys that hold the same entries are refused for the same
/// reason, or both accepted, and every key finds the same value in both.
pub proof fn law_login_verdict_ignores_entry_order(
    p: Seq<PayloadEntry>,
    q: Seq<PayloadEntry>,
    bot_token: Seq<char>,
    now: i64,
)
    requires
        keys_distinct(p),
        keys_distinct(q),
        p.to_multiset() == q.to_multiset(),
    ensures
        login_refusal(p, bot_token, now) == login_refusal(q, bot_token, now),
        forall|k: Seq<char>| pairs_lookup(p, k) == pairs_lookup(q, k),
{
    assert forall|k: Seq<char>| pairs_lookup(p, k) == pairs_lookup(q, k) by {
        lemma_lookup_same(p, q, k);
    }
    assert(signed_entries(p).to_multiset() =~= signed_entries(q).to_multiset()) by {
        assert forall|x: PayloadEntry| signed_entries(p).to_multiset().count(x)
            == signed_entries(q).to_multiset().count(x) by {
            lemma_signed_entries_count(p, x);
            lemma_signed_entries_count(q, x);
        }
    }
    let _witness_p = lemma_sorted_signed_witness(p);
    let _witness_q = lemma_sorted_signed_witness(q);
    let sp = sorted_signed_entries(p);
    let sq = sorted_signed_entries(q);
    assert(keys_strictly_sorted(sp) && sp.to_multiset() == signed_entries(p).to_multiset());
    assert(keys_strictly_sorted(sq) && sq.to_multiset() == signed_entries(q).to_multiset());
    lemma_sorted_unique(sp, sq);
    assert(data_check_string(p) == data_check_string(q));
    assert(expected_login_hash(p, bot_token) == expected_login_hash(q, bot_token));
    assert(pairs_lookup(p, "hash"@) == pairs_lookup(q, "hash"@));
    assert(pairs_lookup(p, "auth_date"@) == pairs_lookup(q, "auth_date"@));
    assert(pairs_lookup(p, "id"@) == pairs_lookup(q, "id"@));
}

} // verus!
