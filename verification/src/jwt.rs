//! Signed tokens (JWT, HS256): the claims of a session and of the OAuth states as the
//! key/value lists that `jsonwebtoken` signs and reads back, and how a list read back
//! is turned into claims, its expiry included.
use vstd::prelude::*;

use crate::auth::{Claims, DiscordOAuthState, OAuthState};
use crate::error::AppError;
use crate::text::{owned, str_equal};

verus! {

/// A claim's value: a string, a JSON number (`Some` when it is an unsigned 64-bit
/// integer), `null`, or anything else.
#[derive(Debug, Clone, PartialEq, Eq)]
pub enum ClaimValue {
    Text(String),
    Number(Option<u64>),
    Null,
    Other,
}

/// What a `ClaimValue` holds, as a mathematical value.
pub enum ClaimView {
    Text(Seq<char>),
    Number(Option<u64>),
    Null,
    Other,
}

impl View for ClaimValue {
    type V = ClaimView;

    open spec fn view(&self) -> ClaimView {
        match self {
            ClaimValue::Text(s) => ClaimView::Text(s@),
            ClaimValue::Number(n) => ClaimView::Number(*n),
            ClaimValue::Null => ClaimView::Null,
            ClaimValue::Other => ClaimView::Other,
        }
    }
}

/// The views of a list of claims.
pub open spec fn entries_view(v: Seq<(String, ClaimValue)>) -> Seq<(Seq<char>, ClaimView)> {
    v.map_values(|e: (String, ClaimValue)| (e.0@, e.1@))
}

/// The claims that `jsonwebtoken::decode` reads from `token` signed (HS256) with
/// `secret`, under its default validation without the expiry check, as a JSON object
/// listed in key order; `None` when it refuses the token.
pub uninterp spec fn jwt_payload(token: Seq<char>, secret: Seq<char>) -> Option<
    Seq<(Seq<char>, ClaimView)>,
>;

/// The token that `jsonwebtoken::encode` makes of `claims` (a JSON object) with the
/// default header (HS256) and `secret`.
pub uninterp spec fn jwt_token(claims: Seq<(Seq<char>, ClaimView)>, secret: Seq<char>) -> Seq<
    char,
>;

/// Reads a token: `jsonwebtoken::decode` into a `serde_json::Map`, with the default
/// validation (HS256, `exp` required, no `aud`) but for the expiry, which the caller
/// checks against its clock. What comes back is named `jwt_payload`; on a refusal the
/// error's text is handed on, and nothing is claimed of that text.
#[verifier::external_body]
pub(crate) fn jwt_decode(token: &str, secret: &str) -> (r: Result<Vec<(String, ClaimValue)>, String>)
    ensures
        r matches Ok(v) ==> jwt_payload(token@, secret@) == Some(entries_view(v@)),
        r is Err ==> jwt_payload(token@, secret@) is None,
{
    let mut validation = jsonwebtoken::Validation::default();
    validation.validate_exp = false;
    let key = jsonwebtoken::DecodingKey::from_secret(secret.as_bytes());
    match jsonwebtoken::decode::<serde_json::Map<String, serde_json::Value>>(token, &key, &validation) {
        Ok(data) => Ok(data.claims.into_iter().map(|(k, v)| (k, match v {
            serde_json::Value::String(s) => ClaimValue::Text(s),
            serde_json::Value::Number(n) => ClaimValue::Number(n.as_u64()),
            serde_json::Value::Null => ClaimValue::Null,
            _ => ClaimValue::Other,
        })).collect()),
        Err(e) => Err(e.to_string()),
    }
}

/// The value of the last claim named `key`: in a JSON object a later member of the same
/// name replaces an earlier one.
pub open spec fn last_claim(entries: Seq<(Seq<char>, ClaimView)>, key: Seq<char>) -> Option<
    ClaimView,
>
    decreases entries.len(),
{
    if entries.len() == 0 {
        None
    } else if entries.last().0 == key {
        Some(entries.last().1)
    } else {
        last_claim(entries.drop_last(), key)
    }
}

/// How a claim's value is read back after signing: a string or an unsigned number as
/// it was, anything else as `null`.
pub open spec fn signed_claim(v: Option<ClaimView>) -> Option<ClaimView> {
    match v {
        None => None,
        Some(ClaimView::Text(s)) => Some(ClaimView::Text(s)),
        Some(ClaimView::Number(Some(n))) => Some(ClaimView::Number(Some(n))),
        Some(_) => Some(ClaimView::Null),
    }
}

/// Claims that the default validation accepts whatever the time: an unsigned number
/// `exp`, and no `aud`.
pub open spec fn accepted_claims(entries: Seq<(Seq<char>, ClaimView)>) -> bool {
    &&& last_claim(entries, "exp"@) matches Some(ClaimView::Number(Some(_)))
    &&& last_claim(entries, "aud"@) is None
}

/// Signs claims: `jsonwebtoken::encode` of them as a `serde_json::Map` with the default
/// header and an HMAC key made from `secret`. The token is named `jwt_token`. It never
/// fails: the key's family matches HS256, HMAC takes a key of any length, and a map of
/// strings, numbers and nulls always serialises. Read back with the same secret by
/// `jwt_decode` (signature checked with the same key, `exp` present, no `aud`), the
/// token gives each claim's last value, strings and unsigned numbers unchanged and
/// anything else as `null`.
#[verifier::external_body]
fn jwt_encode(claims: &Vec<(String, ClaimValue)>, secret: &str) -> (r: Option<String>)
    ensures
        r is Some,
        r matches Some(t) ==> t@ == jwt_token(entries_view(claims@), secret@),
        r matches Some(t) ==> (accepted_claims(entries_view(claims@)) ==> (jwt_payload(t@, secret@) matches Some(p)
            && forall|key: Seq<char>| #[trigger] claim_lookup(p, key) == signed_claim(last_claim(entries_view(claims@), key)))),
{
    let map: serde_json::Map<String, serde_json::Value> = claims.iter().map(|(k, v)| (k.clone(), match v {
        ClaimValue::Text(s) => serde_json::Value::from(s.as_str()),
        ClaimValue::Number(n) => serde_json::Value::from(*n),
        _ => serde_json::Value::Null,
    })).collect();
    let key = jsonwebtoken::EncodingKey::from_secret(secret.as_bytes());
    jsonwebtoken::encode(&jsonwebtoken::Header::default(), &map, &key).ok()
}

/// How far past its `exp` a token is still accepted (seconds), as `jsonwebtoken`'s
/// default validation allows.
pub const JWT_LEEWAY_SECONDS: i64 = 60;

/// The value of the first claim named `key`.
pub open spec fn claim_lookup(entries: Seq<(Seq<char>, ClaimView)>, key: Seq<char>) -> Option<
    ClaimView,
>
    decreases entries.len(),
{
    if entries.len() == 0 {
        None
    } else if entries[0].0 == key {
        Some(entries[0].1)
    } else {
        claim_lookup(entries.drop_first(), key)
    }
}

/// A claim that must be a string.
pub open spec fn text_claim(c: Option<ClaimView>) -> Option<Seq<char>> {
    match c {
        Some(ClaimView::Text(s)) => Some(s),
        _ => None,
    }
}

/// A claim that may be missing or null (`Some(None)`), or a string; `None` otherwise.
pub open spec fn optional_text_claim(c: Option<ClaimView>) -> Option<Option<Seq<char>>> {
    match c {
        None => Some(None),
        Some(ClaimView::Null) => Some(None),
        Some(ClaimView::Text(s)) => Some(Some(s)),
        _ => None,
    }
}

/// A claim that must be a number of seconds that fits a `usize`.
pub open spec fn seconds_claim(c: Option<ClaimView>) -> Option<int> {
    match c {
        Some(ClaimView::Number(Some(n))) => if n <= usize::MAX {
            Some(n as int)
        } else {
            None
        },
        _ => None,
    }
}

/// A token expiring at `exp` is still accepted at `now`.
pub open spec fn still_valid(exp: int, now: int) -> bool {
    now <= exp + JWT_LEEWAY_SECONDS
}

/// The session claims `(sub, iat, exp)` of a claim list read at `now`, or the text of
/// the refusal.
pub open spec fn session_claims_of(entries: Seq<(Seq<char>, ClaimView)>, now: int) -> Result<
    (Seq<char>, int, int),
    Seq<char>,
> {
    let sub = text_claim(claim_lookup(entries, "sub"@));
    let iat = seconds_claim(claim_lookup(entries, "iat"@));
    let exp = seconds_claim(claim_lookup(entries, "exp"@));
    if sub is None || iat is None || exp is None {
        Err("InvalidToken"@)
    } else if !still_valid(exp->0, now) {
        Err("ExpiredSignature"@)
    } else {
        Ok((sub->0, iat->0, exp->0))
    }
}

/// The Twitch sign-in state `(csrf_token, redirect_to, lang, iat, exp)` of a claim list
/// read at `now`, or the text of the refusal.
pub open spec fn oauth_state_of(entries: Seq<(Seq<char>, ClaimView)>, now: int) -> Result<
    (Seq<char>, Option<Seq<char>>, Option<Seq<char>>, int, int),
    Seq<char>,
> {
    let csrf = text_claim(claim_lookup(entries, "csrf_token"@));
    let redirect = optional_text_claim(claim_lookup(entries, "redirect_to"@));
    let lang = optional_text_claim(claim_lookup(entries, "lang"@));
    let iat = seconds_claim(claim_lookup(entries, "iat"@));
    let exp = seconds_claim(claim_lookup(entries, "exp"@));
    if csrf is None || redirect is None || lang is None || iat is None || exp is None {
        Err("InvalidToken"@)
    } else if !still_valid(exp->0, now) {
        Err("ExpiredSignature"@)
    } else {
        Ok((csrf->0, redirect->0, lang->0, iat->0, exp->0))
    }
}

/// The Discord linking state `(csrf_token, user_id, redirect_to, iat, exp)` of a claim
/// list read at `now`, or the text of the refusal.
pub open spec fn discord_state_of(entries: Seq<(Seq<char>, ClaimView)>, now: int) -> Result<
    (Seq<char>, Seq<char>, Option<Seq<char>>, int, int),
    Seq<char>,
> {
    let csrf = text_claim(claim_lookup(entries, "csrf_token"@));
    let user = text_claim(claim_lookup(entries, "user_id"@));
    let redirect = optional_text_claim(claim_lookup(entries, "redirect_to"@));
    let iat = seconds_claim(claim_lookup(entries, "iat"@));
    let exp = seconds_claim(claim_lookup(entries, "exp"@));
    if csrf is None || user is None || redirect is None || iat is None || exp is None {
        Err("InvalidToken"@)
    } else if !still_valid(exp->0, now) {
        Err("ExpiredSignature"@)
    } else {
        Ok((csrf->0, user->0, redirect->0, iat->0, exp->0))
    }
}

/// The value of the first claim named `key`.
fn find_claim<'a>(entries: &'a Vec<(String, ClaimValue)>, key: &str) -> (r: Option<&'a ClaimValue>)
    ensures
        match r {
            Some(c) => claim_lookup(entries_view(entries@), key@) == Some(c@),
            None => claim_lookup(entries_view(entries@), key@) is None,
        },
{
    let ghost all = entries_view(entries@);
    let mut i: usize = 0;
    assert(all.skip(0) =~= all);
    while i < entries.len()
        invariant
            i <= entries.len(),
            all == entries_view(entries@),
            claim_lookup(all, key@) == claim_lookup(all.skip(i as int), key@),
        decreases entries.len() - i,
    {
        assert(all.skip(i as int).drop_first() =~= all.skip(i + 1));
        if str_equal(entries[i].0.as_str(), key) {
            return Some(&entries[i].1);
        }
        i = i + 1;
    }
    assert(all.skip(i as int).len() == 0);
    None
}

/// A claim that must be a string.
fn text_field(entries: &Vec<(String, ClaimValue)>, key: &str) -> (r: Option<String>)
    ensures
        match r {
            Some(s) => text_claim(claim_lookup(entries_view(entries@), key@)) == Some(s@),
            None => text_claim(claim_lookup(entries_view(entries@), key@)) is None,
        },
{
    match find_claim(entries, key) {
        Some(ClaimValue::Text(s)) => Some(s.clone()),
        _ => None,
    }
}

/// A claim that may be missing or null, or a string.
fn optional_text_field(entries: &Vec<(String, ClaimValue)>, key: &str) -> (r: Option<Option<String>>)
    ensures
        match r {
            Some(Some(s)) => optional_text_claim(claim_lookup(entries_view(entries@), key@)) == Some(Some(s@)),
            Some(None) => optional_text_claim(claim_lookup(entries_view(entries@), key@)) == Some(None::<Seq<char>>),
            None => optional_text_claim(claim_lookup(entries_view(entries@), key@)) is None,
        },
{
    match find_claim(entries, key) {
        None => Some(None),
        Some(ClaimValue::Null) => Some(None),
        Some(ClaimValue::Text(s)) => Some(Some(s.clone())),
        _ => None,
    }
}

/// A claim that must be a number of seconds fitting a `usize`.
fn seconds_field(entries: &Vec<(String, ClaimValue)>, key: &str) -> (r: Option<usize>)
    ensures
        match r {
            Some(n) => seconds_claim(claim_lookup(entries_view(entries@), key@)) == Some(n as int),
            None => seconds_claim(claim_lookup(entries_view(entries@), key@)) is None,
        },
{
    match find_claim(entries, key) {
        Some(ClaimValue::Number(Some(n))) => if *n <= (usize::MAX as u64) {
            Some(*n as usize)
        } else {
            None
        },
        _ => None,
    }
}

/// Whether a token expiring at `exp` is still accepted at `now`.
fn not_expired(exp: usize, now: i64) -> (r: bool)
    ensures
        r == still_valid(exp as int, now as int),
{
    (now as i128) <= (exp as i128) + (JWT_LEEWAY_SECONDS as i128)
}

/// The refusal of a token whose claims are not what was signed.
fn refused(expired: bool) -> (r: AppError)
    ensures
        r matches AppError::Jwt(m) && m@ == (if expired { "ExpiredSignature"@ } else { "InvalidToken"@ }),
{
    if expired {
        AppError::Jwt(owned("ExpiredSignature"))
    } else {
        AppError::Jwt(owned("InvalidToken"))
    }
}

/// The claims of a session read back at `now` (seconds): a string `sub` and the numbers
/// `iat` and `exp`, accepted up to a minute after `exp`.
pub fn session_from_claims(entries: &Vec<(String, ClaimValue)>, now: i64) -> (r: Result<Claims, AppError>)
    ensures
        match r {
            Ok(c) => session_claims_of(entries_view(entries@), now as int) == Ok::<_, Seq<char>>(
                (c.sub@, c.iat as int, c.exp as int),
            ),
            Err(e) => session_claims_of(entries_view(entries@), now as int) matches Err(m) && e
                matches AppError::Jwt(t) && t@ == m,
        },
{
    let sub = text_field(entries, "sub");
    let iat = seconds_field(entries, "iat");
    let exp = seconds_field(entries, "exp");
    match (sub, iat, exp) {
        (Some(sub), Some(iat), Some(exp)) => if not_expired(exp, now) {
            Ok(Claims { sub, iat, exp })
        } else {
            Err(refused(true))
        },
        _ => Err(refused(false)),
    }
}

/// The state of a Twitch sign-in read back at `now` (seconds).
pub fn oauth_state_from_claims(entries: &Vec<(String, ClaimValue)>, now: i64) -> (r: Result<OAuthState, AppError>)
    ensures
        match r {
            Ok(s) => oauth_state_of(entries_view(entries@), now as int) == Ok::<_, Seq<char>>(
                (s.csrf_token@, opt_view(s.redirect_to), opt_view(s.lang), s.iat as int, s.exp as int),
            ),
            Err(e) => oauth_state_of(entries_view(entries@), now as int) matches Err(m) && e
                matches AppError::Jwt(t) && t@ == m,
        },
{
    let csrf = text_field(entries, "csrf_token");
    let redirect = optional_text_field(entries, "redirect_to");
    let lang = optional_text_field(entries, "lang");
    let iat = seconds_field(entries, "iat");
    let exp = seconds_field(entries, "exp");
    match (csrf, redirect, lang, iat, exp) {
        (Some(csrf_token), Some(redirect_to), Some(lang), Some(iat), Some(exp)) => if not_expired(
            exp,
            now,
        ) {
            Ok(OAuthState { csrf_token, redirect_to, lang, iat, exp })
        } else {
            Err(refused(true))
        },
        _ => Err(refused(false)),
    }
}

/// The state of a Discord linking read back at `now` (seconds).
pub fn discord_state_from_claims(entries: &Vec<(String, ClaimValue)>, now: i64) -> (r: Result<DiscordOAuthState, AppError>)
    ensures
        match r {
            Ok(s) => discord_state_of(entries_view(entries@), now as int) == Ok::<_, Seq<char>>(
                (s.csrf_token@, s.user_id@, opt_view(s.redirect_to), s.iat as int, s.exp as int),
            ),
            Err(e) => discord_state_of(entries_view(entries@), now as int) matches Err(m) && e
                matches AppError::Jwt(t) && t@ == m,
        },
{
    let csrf = text_field(entries, "csrf_token");
    let user = text_field(entries, "user_id");
    let redirect = optional_text_field(entries, "redirect_to");
    let iat = seconds_field(entries, "iat");
    let exp = seconds_field(entries, "exp");
    match (csrf, user, redirect, iat, exp) {
        (Some(csrf_token), Some(user_id), Some(redirect_to), Some(iat), Some(exp)) => if not_expired(
            exp,
            now,
        ) {
            Ok(DiscordOAuthState { csrf_token, user_id, redirect_to, iat, exp })
        } else {
            Err(refused(true))
        },
        _ => Err(refused(false)),
    }
}

/// The view of an optional string.
pub open spec fn opt_view(o: Option<String>) -> Option<Seq<char>> {
    match o {
        Some(s) => Some(s@),
        None => None,
    }
}

/// The claim list of a session: `sub`, `exp`, `iat`.
pub open spec fn session_entries(c: Claims) -> Seq<(Seq<char>, ClaimView)> {
    seq![
        ("sub"@, ClaimView::Text(c.sub@)),
        ("exp"@, ClaimView::Number(Some(c.exp as u64))),
        ("iat"@, ClaimView::Number(Some(c.iat as u64))),
    ]
}

/// An optional string as a claim: the string, or `null`.
pub open spec fn optional_text_view(o: Option<String>) -> ClaimView {
    match o {
        Some(s) => ClaimView::Text(s@),
        None => ClaimView::Null,
    }
}

/// The claim list of a Twitch sign-in state.
pub open spec fn oauth_state_entries(s: OAuthState) -> Seq<(Seq<char>, ClaimView)> {
    seq![
        ("csrf_token"@, ClaimView::Text(s.csrf_token@)),
        ("redirect_to"@, optional_text_view(s.redirect_to)),
        ("lang"@, optional_text_view(s.lang)),
        ("iat"@, ClaimView::Number(Some(s.iat as u64))),
        ("exp"@, ClaimView::Number(Some(s.exp as u64))),
    ]
}

/// The claim list of a Discord linking state.
pub open spec fn discord_state_entries(s: DiscordOAuthState) -> Seq<(Seq<char>, ClaimView)> {
    seq![
        ("csrf_token"@, ClaimView::Text(s.csrf_token@)),
        ("user_id"@, ClaimView::Text(s.user_id@)),
        ("redirect_to"@, optional_text_view(s.redirect_to)),
        ("iat"@, ClaimView::Number(Some(s.iat as u64))),
        ("exp"@, ClaimView::Number(Some(s.exp as u64))),
    ]
}

fn text_claim_value(s: &str) -> (r: ClaimValue)
    ensures
        r@ == ClaimView::Text(s@),
{
    ClaimValue::Text(owned(s))
}

fn optional_claim_value(o: &Option<String>) -> (r: ClaimValue)
    ensures
        r@ == optional_text_view(*o),
{
    match o {
        Some(s) => ClaimValue::Text(s.clone()),
        None => ClaimValue::Null,
    }
}

fn seconds_claim_value(n: usize) -> (r: ClaimValue)
    ensures
        r@ == ClaimView::Number(Some(n as u64)),
{
    ClaimValue::Number(Some(n as u64))
}

/// Signs a claim list made by one of the functions below.
fn sign_entries(entries: &Vec<(String, ClaimValue)>, secret: &str) -> (r: String)
    ensures
        r@ == jwt_token(entries_view(entries@), secret@),
        accepted_claims(entries_view(entries@)) ==> (jwt_payload(r@, secret@) matches Some(p)
            && forall|key: Seq<char>| #[trigger] claim_lookup(p, key) == signed_claim(last_claim(entries_view(entries@), key))),
{
    match jwt_encode(entries, secret) {
        Some(t) => t,
        None => owned(""),
    }
}

/// The signed token of session claims.
pub fn sign_session(claims: &Claims, secret: &str) -> (r: String)
    ensures
        r@ == jwt_token(session_entries(*claims), secret@),
        jwt_payload(r@, secret@) matches Some(p) && forall|now: int| session_claims_of(p, now) == if still_valid(
            claims.exp as int,
            now,
        ) {
            Ok::<_, Seq<char>>((claims.sub@, claims.iat as int, claims.exp as int))
        } else {
            Err("ExpiredSignature"@)
        },
{
    let entries = vec![
        (owned("sub"), text_claim_value(claims.sub.as_str())),
        (owned("exp"), seconds_claim_value(claims.exp)),
        (owned("iat"), seconds_claim_value(claims.iat)),
    ];
    assert(entries_view(entries@) =~= session_entries(*claims));
    proof {
        reveal_strlit("sub");
        reveal_strlit("exp");
        reveal_strlit("iat");
        reveal_strlit("aud");
        let e = session_entries(*claims);
        lemma_claim_at(e, "sub"@, 0);
        lemma_claim_at(e, "exp"@, 1);
        lemma_claim_at(e, "iat"@, 2);
        lemma_claim_absent(e, "aud"@);
    }
    sign_entries(&entries, secret)
}

/// In a claim list whose names differ from `key` in their first character but at `i`,
/// the last claim named `key` is the one at `i`.
proof fn lemma_claim_at(entries: Seq<(Seq<char>, ClaimView)>, key: Seq<char>, i: int)
    requires
        0 <= i < entries.len(),
        entries[i].0 == key,
        key.len() > 0,
        forall|j: int|
            0 <= j < entries.len() && j != i ==> (#[trigger] entries[j]).0.len() > 0 && entries[j].0[0]
                != key[0],
    ensures
        last_claim(entries, key) == Some(entries[i].1),
    decreases entries.len(),
{
    if i != entries.len() - 1 {
        let last = entries[entries.len() - 1];
        assert(last.0[0] != key[0]);
        lemma_claim_at(entries.drop_last(), key, i);
    }
}

/// A claim list whose names all differ from `key` in their first character has no
/// claim named `key`.
proof fn lemma_claim_absent(entries: Seq<(Seq<char>, ClaimView)>, key: Seq<char>)
    requires
        key.len() > 0,
        forall|j: int|
            0 <= j < entries.len() ==> (#[trigger] entries[j]).0.len() > 0 && entries[j].0[0] != key[0],
    ensures
        last_claim(entries, key) is None,
    decreases entries.len(),
{
    if entries.len() > 0 {
        let last = entries[entries.len() - 1];
        assert(last.0[0] != key[0]);
        lemma_claim_absent(entries.drop_last(), key);
    }
}

/// The signed token of a Twitch sign-in state.
pub fn sign_oauth_state(s: &OAuthState, secret: &str) -> (r: String)
    ensures
        r@ == jwt_token(oauth_state_entries(*s), secret@),
        jwt_payload(r@, secret@) matches Some(p) && forall|now: int| oauth_state_of(p, now) == if still_valid(
            s.exp as int,
            now,
        ) {
            Ok::<_, Seq<char>>(
                (s.csrf_token@, opt_view(s.redirect_to), opt_view(s.lang), s.iat as int, s.exp as int),
            )
        } else {
            Err("ExpiredSignature"@)
        },
{
    let entries = vec![
        (owned("csrf_token"), text_claim_value(s.csrf_token.as_str())),
        (owned("redirect_to"), optional_claim_value(&s.redirect_to)),
        (owned("lang"), optional_claim_value(&s.lang)),
        (owned("iat"), seconds_claim_value(s.iat)),
        (owned("exp"), seconds_claim_value(s.exp)),
    ];
    assert(entries_view(entries@) =~= oauth_state_entries(*s));
    proof {
        reveal_strlit("csrf_token");
        reveal_strlit("redirect_to");
        reveal_strlit("lang");
        reveal_strlit("iat");
        reveal_strlit("exp");
        reveal_strlit("aud");
        let e = oauth_state_entries(*s);
        lemma_claim_at(e, "csrf_token"@, 0);
        lemma_claim_at(e, "redirect_to"@, 1);
        lemma_claim_at(e, "lang"@, 2);
        lemma_claim_at(e, "iat"@, 3);
        lemma_claim_at(e, "exp"@, 4);
        lemma_claim_absent(e, "aud"@);
    }
    sign_entries(&entries, secret)
}

/// The signed token of a Discord linking state.
pub fn sign_discord_state(s: &DiscordOAuthState, secret: &str) -> (r: String)
    ensures
        r@ == jwt_token(discord_state_entries(*s), secret@),
        jwt_payload(r@, secret@) matches Some(p) && forall|now: int| discord_state_of(p, now) == if still_valid(
            s.exp as int,
            now,
        ) {
            Ok::<_, Seq<char>>(
                (s.csrf_token@, s.user_id@, opt_view(s.redirect_to), s.iat as int, s.exp as int),
            )
        } else {
            Err("ExpiredSignature"@)
        },
{
    let entries = vec![
        (owned("csrf_token"), text_claim_value(s.csrf_token.as_str())),
        (owned("user_id"), text_claim_value(s.user_id.as_str())),
        (owned("redirect_to"), optional_claim_value(&s.redirect_to)),
        (owned("iat"), seconds_claim_value(s.iat)),
        (owned("exp"), seconds_claim_value(s.exp)),
    ];
    assert(entries_view(entries@) =~= discord_state_entries(*s));
    proof {
        reveal_strlit("csrf_token");
        reveal_strlit("user_id");
        reveal_strlit("redirect_to");
        reveal_strlit("iat");
        reveal_strlit("exp");
        reveal_strlit("aud");
        let e = discord_state_entries(*s);
        lemma_claim_at(e, "csrf_token"@, 0);
        lemma_claim_at(e, "user_id"@, 1);
        lemma_claim_at(e, "redirect_to"@, 2);
        lemma_claim_at(e, "iat"@, 3);
        lemma_claim_at(e, "exp"@, 4);
        lemma_claim_absent(e, "aud"@);
    }
    sign_entries(&entries, secret)
}

} // verus!
