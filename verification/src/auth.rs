//! Signing in: OAuth state and session claims, where a user is sent back to, random
//! tokens, and where a linked Telegram account's photo is fetched from and kept.
use rand::Rng;
use vstd::prelude::*;

use crate::error::AppError;
use crate::jwt::{
    discord_state_entries, discord_state_from_claims, discord_state_of, jwt_decode, jwt_payload,
    jwt_token, oauth_state_entries, oauth_state_from_claims, oauth_state_of, opt_view,
    session_claims_of, session_from_claims, sign_discord_state, sign_oauth_state, sign_session,
    still_valid,
    ClaimView,
};
use crate::encoding::{form_encode, form_encoded, parse_url_origin, url_encode, url_encoded, url_origin};
use crate::text::{
    chars_of, concat2, concat3, decimal_text, i64_to_text, owned, push_str, starts_with,
    str_equal, str_starts_with, string_of, string_push,
};

verus! {

broadcast use vstd::string::group_string_axioms;

/// The state carried through the Twitch sign-in.
#[derive(Debug, Clone, PartialEq, Eq)]
pub struct OAuthState {
    pub csrf_token: String,
    pub redirect_to: Option<String>,
    pub lang: Option<String>,
    pub iat: usize,
    pub exp: usize,
}

/// The state carried through linking a Discord account.
#[derive(Debug, Clone, PartialEq, Eq)]
pub struct DiscordOAuthState {
    pub csrf_token: String,
    pub user_id: String,
    pub redirect_to: Option<String>,
    pub iat: usize,
    pub exp: usize,
}

/// The claims of a session token.
#[derive(Debug, Clone, PartialEq, Eq)]
pub struct Claims {
    pub sub: String,
    pub exp: usize,
    pub iat: usize,
}

/// Signing in and linking accounts.
pub struct AuthService;

/// How long an OAuth state stays valid (seconds).
pub const OAUTH_STATE_LIFETIME_SECONDS: i64 = 600;

/// The state of a Twitch sign-in started at `now` (seconds since the epoch): valid for
/// ten minutes.
pub fn oauth_state_claims(
    csrf_token: String,
    redirect_to: Option<String>,
    lang: Option<String>,
    now: i64,
) -> (r: OAuthState)
    requires
        0 <= now,
        now + OAUTH_STATE_LIFETIME_SECONDS <= usize::MAX,
    ensures
        r.csrf_token == csrf_token,
        r.redirect_to == redirect_to,
        r.lang == lang,
        r.iat == now,
        r.exp == now + OAUTH_STATE_LIFETIME_SECONDS,
{
    OAuthState {
        csrf_token,
        redirect_to,
        lang,
        iat: now as usize,
        exp: ((now as i128) + (OAUTH_STATE_LIFETIME_SECONDS as i128)) as usize,
    }
}

/// The state of a Discord linking started at `now` (seconds): valid for ten minutes.
pub fn discord_oauth_state_claims(
    csrf_token: String,
    user_id: String,
    redirect_to: Option<String>,
    now: i64,
) -> (r: DiscordOAuthState)
    requires
        0 <= now,
        now + OAUTH_STATE_LIFETIME_SECONDS <= usize::MAX,
    ensures
        r.csrf_token == csrf_token,
        r.user_id == user_id,
        r.redirect_to == redirect_to,
        r.iat == now,
        r.exp == now + OAUTH_STATE_LIFETIME_SECONDS,
{
    DiscordOAuthState {
        csrf_token,
        user_id,
        redirect_to,
        iat: now as usize,
        exp: ((now as i128) + (OAUTH_STATE_LIFETIME_SECONDS as i128)) as usize,
    }
}

/// The claims of a session token for `user_id` issued at `now` (seconds), expiring after
/// `expiration_hours`.
pub fn session_claims(user_id: &str, now: i64, expiration_hours: i64) -> (r: Claims)
    requires
        0 <= now <= usize::MAX,
        0 <= now + expiration_hours * 3600 <= usize::MAX,
    ensures
        r.sub@ == user_id@,
        r.iat == now,
        r.exp == now + expiration_hours * 3600,
{
    Claims {
        sub: owned(user_id),
        iat: now as usize,
        exp: ((now as i128) + (expiration_hours as i128) * 3600) as usize,
    }
}

// ---------------------------------------------------------------------------
// Where the user is sent back to
// ---------------------------------------------------------------------------

/// `s` without its trailing `/` characters.
pub open spec fn trim_trailing_slashes(s: Seq<char>) -> Seq<char>
    decreases s.len(),
{
    if s.len() > 0 && s.last() == '/' {
        trim_trailing_slashes(s.drop_last())
    } else {
        s
    }
}

/// `s` without its trailing `/` characters.
pub fn trim_end_slashes(s: &str) -> (r: String)
    ensures
        r@ == trim_trailing_slashes(s@),
{
    let v = chars_of(s);
    let mut n: usize = v.len();
    assert(v@.take(n as int) =~= v@);
    while n > 0 && v[n - 1] == '/'
        invariant
            n <= v.len(),
            trim_trailing_slashes(v@.take(n as int)) == trim_trailing_slashes(v@),
        decreases n,
    {
        assert(v@.take(n as int).drop_last() =~= v@.take(n - 1));
        n = n - 1;
    }
    let mut out: Vec<char> = Vec::new();
    let mut i: usize = 0;
    while i < n
        invariant
            i <= n <= v.len(),
            out@ == v@.take(i as int),
        decreases n - i,
    {
        out.push(v[i]);
        i = i + 1;
        assert(out@ =~= v@.take(i as int));
    }
    string_of(out.as_slice())
}

/// Where a user is sent after linking an account: an absolute `http(s)` address as it is,
/// a path under the frontend, or the frontend's callback page when none is given.
pub open spec fn redirect_target(frontend_base: Seq<char>, redirect_to: Option<Seq<char>>) -> Seq<
    char,
> {
    let frontend = trim_trailing_slashes(frontend_base);
    match redirect_to {
        Some(r) => if r.len() == 0 {
            frontend + "/auth/callback"@
        } else if starts_with(r, "http://"@) || starts_with(r, "https://"@) {
            r
        } else if starts_with(r, "/"@) {
            frontend + r
        } else {
            frontend + "/"@ + r
        },
        None => frontend + "/auth/callback"@,
    }
}

impl AuthService {
    /// Where a user is sent after linking an account.
    pub fn compose_redirect_url(frontend_base: &str, redirect_to: Option<&str>) -> (r: String)
        ensures
            r@ == redirect_target(
                frontend_base@,
                match redirect_to {
                    Some(s) => Some(s@),
                    None => None,
                },
            ),
    {
        let frontend = trim_end_slashes(frontend_base);
        match redirect_to {
            Some(r) => {
                if r.is_empty() {
                    concat2(frontend.as_str(), "/auth/callback")
                } else if str_starts_with(r, "http://") || str_starts_with(r, "https://") {
                    owned(r)
                } else if str_starts_with(r, "/") {
                    concat2(frontend.as_str(), r)
                } else {
                    concat3(frontend.as_str(), "/", r)
                }
            },
            None => concat2(frontend.as_str(), "/auth/callback"),
        }
    }

    /// May a user be sent to `redirect` after signing in? A path on this site (starting
    /// with `/` but not `//`), or an address with the same origin as the frontend.
    pub fn is_safe_redirect(redirect: &str, frontend_base: &str) -> (r: bool)
        ensures
            r == safe_redirect(redirect@, frontend_base@),
    {
        if str_starts_with(redirect, "/") && !str_starts_with(redirect, "//") {
            return true;
        }
        match parse_url_origin(redirect) {
            Some(u) => match parse_url_origin(frontend_base) {
                Some(f) => match (u, f) {
                    (Some(a), Some(b)) => str_equal(a.as_str(), b.as_str()),
                    _ => false,
                },
                None => false,
            },
            None => false,
        }
    }
}

/// May a user be sent to `redirect` after signing in?
pub open spec fn safe_redirect(redirect: Seq<char>, frontend_base: Seq<char>) -> bool {
    (starts_with(redirect, "/"@) && !starts_with(redirect, "//"@)) || match (
        url_origin(redirect),
        url_origin(frontend_base),
    ) {
        (Some(Some(a)), Some(Some(b))) => a == b,
        _ => false,
    }
}

/// The page a user is sent to after signing in: the one asked for when it is safe for
/// the frontend at `base`, else the dashboard.
pub open spec fn sign_in_target(base: Seq<char>, redirect_to: Option<Seq<char>>) -> Seq<char> {
    let raw = match redirect_to {
        Some(r) => r,
        None => "/dashboard"@,
    };
    if safe_redirect(raw, base) {
        raw
    } else {
        "/dashboard"@
    }
}

/// Signing in never sends a user to a page they may not be sent to: the page is the one
/// asked for only when it is safe, and otherwise the dashboard, which is.
pub proof fn law_sign_in_target_is_safe(base: Seq<char>, redirect_to: Option<Seq<char>>)
    ensures
        safe_redirect(sign_in_target(base, redirect_to), base),
        redirect_to matches Some(r) ==> (safe_redirect(r, base) ==> sign_in_target(base, redirect_to) == r),
{
    reveal_strlit("/dashboard");
    reveal_strlit("/");
    reveal_strlit("//");
    assert("/dashboard"@.take(1) =~= "/"@);
    assert(starts_with("/dashboard"@, "/"@));
    assert(!starts_with("/dashboard"@, "//"@)) by {
        assert("/dashboard"@.take(2) != "//"@) by {
            assert("/dashboard"@.take(2)[1] != "//"@[1]);
        }
    }
}

/// Where the frontend receives the session after a Twitch sign-in: its callback page,
/// with the token, its type, its expiry and the (safe) page to go to in the fragment.
pub open spec fn sign_in_fragment_url(
    frontend_url: Seq<char>,
    token: Seq<char>,
    expires_at: i64,
    redirect_to: Option<Seq<char>>,
) -> Seq<char> {
    let base = trim_trailing_slashes(frontend_url);
    let target = sign_in_target(base, redirect_to);
    base + "/auth/callback"@ + "#access_token="@ + form_encoded(token)
        + "&token_type=Bearer&expires_at="@ + decimal_text(expires_at as int) + "&redirect_to="@
        + url_encoded(target)
}

/// Where the frontend receives the session after a Twitch sign-in (`expires_at`: seconds
/// since the epoch).
pub fn sign_in_redirect(
    frontend_url: &str,
    token: &str,
    expires_at: i64,
    redirect_to: Option<&str>,
) -> (r: String)
    ensures
        r@ == sign_in_fragment_url(
            frontend_url@,
            token@,
            expires_at,
            match redirect_to {
                Some(s) => Some(s@),
                None => None,
            },
        ),
{
    let base = trim_end_slashes(frontend_url);
    let raw: &str = match redirect_to {
        Some(r) => r,
        None => "/dashboard",
    };
    let target: &str = if AuthService::is_safe_redirect(raw, base.as_str()) {
        raw
    } else {
        "/dashboard"
    };
    let mut out = concat2(base.as_str(), "/auth/callback");
    push_str(&mut out, "#access_token=");
    let t = form_encode(token);
    push_str(&mut out, t.as_str());
    push_str(&mut out, "&token_type=Bearer&expires_at=");
    let e = i64_to_text(expires_at);
    push_str(&mut out, e.as_str());
    push_str(&mut out, "&redirect_to=");
    let d = url_encode(target);
    push_str(&mut out, d.as_str());
    out
}

/// The address Discord sends a linking user back to.
pub fn discord_callback_url(webhook_url: &str) -> (r: String)
    ensures
        r@ == trim_trailing_slashes(webhook_url@) + "/api/auth/discord/callback"@,
{
    let base = trim_end_slashes(webhook_url);
    concat2(base.as_str(), "/api/auth/discord/callback")
}

// ---------------------------------------------------------------------------
// Random tokens
// ---------------------------------------------------------------------------

/// The characters random tokens are made of.
pub open spec fn token_charset() -> Seq<char> {
    "ABCDEFGHIJKLMNOPQRSTUVWXYZabcdefghijklmnopqrstuvwxyz0123456789"@
}

/// `rand::thread_rng().gen_range(0..bound)`: a random number below `bound` (which is
/// positive).
#[verifier::external_body]
fn random_below(bound: usize) -> (r: usize)
    requires
        bound > 0,
    ensures
        r < bound,
{
    rand::thread_rng().gen_range(0..bound)
}

impl AuthService {
    /// A random token of `length` letters and digits.
    pub fn generate_random_string(length: usize) -> (r: String)
        ensures
            r@.len() == length,
            forall|i: int| 0 <= i < r@.len() ==> token_charset().contains(#[trigger] r@[i]),
    {
        let charset = chars_of("ABCDEFGHIJKLMNOPQRSTUVWXYZabcdefghijklmnopqrstuvwxyz0123456789");
        proof {
            reveal_strlit("ABCDEFGHIJKLMNOPQRSTUVWXYZabcdefghijklmnopqrstuvwxyz0123456789");
        }
        let mut out = String::new();
        let mut i: usize = 0;
        while i < length
            invariant
                i <= length,
                charset@ == token_charset(),
                charset@.len() == 62,
                out@.len() == i,
                forall|k: int| 0 <= k < out@.len() ==> token_charset().contains(#[trigger] out@[k]),
            decreases length - i,
        {
            let idx = random_below(charset.len());
            let ghost before = out@;
            string_push(&mut out, charset[idx]);
            proof {
                assert(token_charset()[idx as int] == charset@[idx as int]);
                assert forall|k: int| 0 <= k < out@.len() implies token_charset().contains(
                    #[trigger] out@[k],
                ) by {
                    if k < before.len() {
                        assert(out@[k] == before[k]);
                    } else {
                        assert(out@[k] == token_charset()[idx as int]);
                    }
                }
            }
            i = i + 1;
        }
        out
    }

    /// A signed session token for `user_id`, issued at `now` (seconds) and valid for
    /// `expiration_hours`. Read back with the same secret at any time `t`, it gives
    /// these claims until a minute after it expires, and `ExpiredSignature` after.
    pub fn create_jwt(user_id: &str, secret: &str, now: i64, expiration_hours: i64) -> (r: String)
        requires
            0 <= now <= usize::MAX,
            0 <= now + expiration_hours * 3600 <= usize::MAX,
        ensures
            r@ == jwt_token(
                seq![
                    ("sub"@, ClaimView::Text(user_id@)),
                    ("exp"@, ClaimView::Number(Some((now + expiration_hours * 3600) as u64))),
                    ("iat"@, ClaimView::Number(Some(now as u64))),
                ],
                secret@,
            ),
            jwt_payload(r@, secret@) matches Some(p) && forall|t: int|
                session_claims_of(p, t) == if still_valid(now + expiration_hours * 3600, t) {
                    Ok::<_, Seq<char>>((user_id@, now as int, now + expiration_hours * 3600))
                } else {
                    Err("ExpiredSignature"@)
                },
    {
        let claims = session_claims(user_id, now, expiration_hours);
        sign_session(&claims, secret)
    }

    /// A signed Twitch sign-in state with a fresh 32-character CSRF token, issued at
    /// `now` (seconds) and valid for ten minutes; read back with the same secret, it
    /// gives that state until a minute after it expires.
    pub fn generate_oauth_state(
        redirect_to: Option<String>,
        lang: Option<String>,
        secret: &str,
        now: i64,
    ) -> (r: String)
        requires
            0 <= now,
            now + OAUTH_STATE_LIFETIME_SECONDS <= usize::MAX,
        ensures
            exists|s: OAuthState|
                #![auto]
                s.csrf_token@.len() == 32 && s.redirect_to == redirect_to && s.lang == lang
                    && s.iat == now && s.exp == now + OAUTH_STATE_LIFETIME_SECONDS
                    && r@ == jwt_token(oauth_state_entries(s), secret@)
                    && (jwt_payload(r@, secret@) matches Some(p) && forall|t: int|
                    oauth_state_of(p, t) == if still_valid(s.exp as int, t) {
                    Ok::<_, Seq<char>>(
                        (s.csrf_token@, opt_view(redirect_to), opt_view(lang), now as int, s.exp as int),
                    )
                } else {
                    Err("ExpiredSignature"@)
                }),
    {
        let csrf_token = Self::generate_random_string(32);
        let claims = oauth_state_claims(csrf_token, redirect_to, lang, now);
        sign_oauth_state(&claims, secret)
    }

    /// A signed Discord linking state for `user_id` with a fresh 32-character CSRF
    /// token, issued at `now` (seconds) and valid for ten minutes; read back with the
    /// same secret, it gives that state until a minute after it expires.
    pub fn generate_discord_oauth_state(
        user_id: String,
        redirect_to: Option<String>,
        secret: &str,
        now: i64,
    ) -> (r: String)
        requires
            0 <= now,
            now + OAUTH_STATE_LIFETIME_SECONDS <= usize::MAX,
        ensures
            exists|s: DiscordOAuthState|
                #![auto]
                s.csrf_token@.len() == 32 && s.user_id == user_id && s.redirect_to == redirect_to
                    && s.iat == now && s.exp == now + OAUTH_STATE_LIFETIME_SECONDS
                    && r@ == jwt_token(discord_state_entries(s), secret@)
                    && (jwt_payload(r@, secret@) matches Some(p) && forall|t: int|
                    discord_state_of(p, t) == if still_valid(s.exp as int, t) {
                    Ok::<_, Seq<char>>(
                        (s.csrf_token@, user_id@, opt_view(redirect_to), now as int, s.exp as int),
                    )
                } else {
                    Err("ExpiredSignature"@)
                }),
    {
        let csrf_token = Self::generate_random_string(32);
        let claims = discord_oauth_state_claims(csrf_token, user_id, redirect_to, now);
        sign_discord_state(&claims, secret)
    }

    /// The claims of a session token read at `now` (seconds); a token that the reader
    /// refuses is answered with the reader's own words.
    pub fn decode_jwt(token: &str, secret: &str, now: i64) -> (r: Result<Claims, AppError>)
        ensures
            match jwt_payload(token@, secret@) {
                None => r matches Err(AppError::Jwt(_)),
                Some(entries) => match r {
                    Ok(c) => session_claims_of(entries, now as int) == Ok::<_, Seq<char>>(
                        (c.sub@, c.iat as int, c.exp as int),
                    ),
                    Err(e) => session_claims_of(entries, now as int) matches Err(m) && e
                        matches AppError::Jwt(t) && t@ == m,
                },
            },
    {
        match jwt_decode(token, secret) {
            Ok(entries) => session_from_claims(&entries, now),
            Err(m) => Err(AppError::Jwt(m)),
        }
    }

    /// The Twitch sign-in state read from a token at `now`.
    pub fn decode_oauth_state(token: &str, secret: &str, now: i64) -> (r: Result<OAuthState, AppError>)
        ensures
            match jwt_payload(token@, secret@) {
                None => r matches Err(AppError::Jwt(_)),
                Some(entries) => match r {
                    Ok(s) => oauth_state_of(entries, now as int) == Ok::<_, Seq<char>>(
                        (s.csrf_token@, opt_view(s.redirect_to), opt_view(s.lang), s.iat as int, s.exp as int),
                    ),
                    Err(e) => oauth_state_of(entries, now as int) matches Err(m) && e
                        matches AppError::Jwt(t) && t@ == m,
                },
            },
    {
        match jwt_decode(token, secret) {
            Ok(entries) => oauth_state_from_claims(&entries, now),
            Err(m) => Err(AppError::Jwt(m)),
        }
    }

    /// The Discord linking state read from a token at `now`.
    pub fn decode_discord_oauth_state(token: &str, secret: &str, now: i64) -> (r: Result<DiscordOAuthState, AppError>)
        ensures
            match jwt_payload(token@, secret@) {
                None => r matches Err(AppError::Jwt(_)),
                Some(entries) => match r {
                    Ok(s) => discord_state_of(entries, now as int) == Ok::<_, Seq<char>>(
                        (s.csrf_token@, s.user_id@, opt_view(s.redirect_to), s.iat as int, s.exp as int),
                    ),
                    Err(e) => discord_state_of(entries, now as int) matches Err(m) && e
                        matches AppError::Jwt(t) && t@ == m,
                },
            },
    {
        match jwt_decode(token, secret) {
            Ok(entries) => discord_state_from_claims(&entries, now),
            Err(m) => Err(AppError::Jwt(m)),
        }
    }
}

// ---------------------------------------------------------------------------
// Telegram profile photos
// ---------------------------------------------------------------------------

/// The media type of a `Content-Type` value: the part before the first `;`.
pub open spec fn media_type(content_type: Seq<char>) -> Seq<char> {
    crate::text::before_first(content_type, ';')
}

/// The file extension a downloaded image is stored under, from its `Content-Type`:
/// `None` when it is not an image; `jpg`, `png` or `webp` for those subtypes
/// (`jpeg` too gives `jpg`); `jpg` for any other image.
pub open spec fn image_extension_spec(content_type: Seq<char>) -> Option<Seq<char>> {
    let mime = media_type(content_type);
    if !starts_with(mime, "image/"@) {
        None
    } else {
        let subtype = crate::text::before_first(mime.skip(6), '/');
        if subtype == "png"@ {
            Some("png"@)
        } else if subtype == "webp"@ {
            Some("webp"@)
        } else {
            Some("jpg"@)
        }
    }
}

/// The file extension a downloaded image is stored under, from its `Content-Type`.
pub fn image_extension(content_type: &str) -> (r: Option<String>)
    ensures
        match r {
            Some(e) => image_extension_spec(content_type@) == Some(e@),
            None => image_extension_spec(content_type@) is None,
        },
{
    proof {
        reveal_strlit("image/");
    }
    let v = chars_of(content_type);
    let mime_v = crate::text::before_first_exec(&v, ';');
    let mime = string_of(mime_v.as_slice());
    if !str_starts_with(mime.as_str(), "image/") {
        return None;
    }
    let mut rest: Vec<char> = Vec::new();
    let mut i: usize = 6;
    while i < mime_v.len()
        invariant
            6 <= i <= mime_v.len(),
            rest@ == mime_v@.subrange(6, i as int),
        decreases mime_v.len() - i,
    {
        rest.push(mime_v[i]);
        i = i + 1;
        assert(rest@ =~= mime_v@.subrange(6, i as int));
    }
    assert(rest@ =~= mime@.skip(6));
    let sub_v = crate::text::before_first_exec(&rest, '/');
    let subtype = string_of(sub_v.as_slice());
    if str_equal(subtype.as_str(), "png") {
        Some(owned("png"))
    } else if str_equal(subtype.as_str(), "webp") {
        Some(owned("webp"))
    } else {
        Some(owned("jpg"))
    }
}

/// The part of `s` after its last `c` (all of `s` when there is none).
pub open spec fn after_last(s: Seq<char>, c: char) -> Seq<char>
    decreases s.len(),
{
    if s.len() == 0 {
        s
    } else if s.last() == c {
        Seq::empty()
    } else {
        after_last(s.drop_last(), c).push(s.last())
    }
}

/// The extension of a file path from the Bot API: the part after the last `.`.
pub fn file_extension(file_path: &str) -> (r: String)
    ensures
        r@ == after_last(file_path@, '.'),
{
    let v = chars_of(file_path);
    let mut n: usize = v.len();
    assert(v@.take(n as int) =~= v@);
    assert(v@.subrange(n as int, v@.len() as int) =~= Seq::<char>::empty());
    assert(after_last(v@, '.') + Seq::<char>::empty() =~= after_last(v@, '.'));
    while n > 0 && v[n - 1] != '.'
        invariant
            n <= v.len(),
            after_last(v@, '.') == after_last(v@.take(n as int), '.') + v@.subrange(
                n as int,
                v@.len() as int,
            ),
        decreases n,
    {
        let ghost t = v@.take(n as int);
        assert(t.drop_last() =~= v@.take(n - 1));
        assert(after_last(t, '.') == after_last(v@.take(n - 1), '.').push(v@[n - 1]));
        assert(v@.subrange(n - 1, v@.len() as int) =~= seq![v@[n - 1]] + v@.subrange(
            n as int,
            v@.len() as int,
        ));
        assert(after_last(v@.take(n - 1), '.').push(v@[n - 1]) + v@.subrange(
            n as int,
            v@.len() as int,
        ) =~= after_last(v@.take(n - 1), '.') + v@.subrange(n - 1, v@.len() as int));
        n = n - 1;
    }
    assert(after_last(v@.take(n as int), '.') =~= Seq::<char>::empty()) by {
        if n == 0 {
            assert(v@.take(0) =~= Seq::<char>::empty());
        }
    }
    let mut out: Vec<char> = Vec::new();
    let mut i: usize = n;
    while i < v.len()
        invariant
            n <= i <= v.len(),
            out@ == v@.subrange(n as int, i as int),
        decreases v.len() - i,
    {
        out.push(v[i]);
        i = i + 1;
        assert(out@ =~= v@.subrange(n as int, i as int));
    }
    assert(Seq::<char>::empty() + out@ =~= out@);
    string_of(out.as_slice())
}

/// The Bot API address listing a user's profile photos (the latest one).
pub fn profile_photos_url(bot_token: &str, telegram_user_id: &str) -> (r: String)
    ensures
        r@ == "https://api.telegram.org/bot"@ + bot_token@ + "/getUserProfilePhotos?user_id="@
            + telegram_user_id@ + "&limit=1"@,
{
    let a = concat3("https://api.telegram.org/bot", bot_token, "/getUserProfilePhotos?user_id=");
    concat3(a.as_str(), telegram_user_id, "&limit=1")
}

/// The Bot API address describing a file.
pub fn get_file_url(bot_token: &str, file_id: &str) -> (r: String)
    ensures
        r@ == "https://api.telegram.org/bot"@ + bot_token@ + "/getFile?file_id="@ + file_id@,
{
    let a = concat3("https://api.telegram.org/bot", bot_token, "/getFile?file_id=");
    concat2(a.as_str(), file_id)
}

/// The Bot API address of a file's content.
pub fn file_download_url(bot_token: &str, file_path: &str) -> (r: String)
    ensures
        r@ == "https://api.telegram.org/file/bot"@ + bot_token@ + "/"@ + file_path@,
{
    let a = concat3("https://api.telegram.org/file/bot", bot_token, "/");
    concat2(a.as_str(), file_path)
}

/// The file name a user's photo is stored under: `<telegram id>.<extension>`.
pub fn photo_file_name(telegram_user_id: &str, ext: &str) -> (r: String)
    ensures
        r@ == telegram_user_id@ + "."@ + ext@,
{
    concat3(telegram_user_id, ".", ext)
}

/// The public address of a user's stored photo.
pub fn photo_public_url(webhook_url: &str, telegram_user_id: &str) -> (r: String)
    ensures
        r@ == trim_trailing_slashes(webhook_url@) + "/api/auth/telegram/photo/"@
            + telegram_user_id@,
{
    let base = trim_end_slashes(webhook_url);
    concat3(base.as_str(), "/api/auth/telegram/photo/", telegram_user_id)
}

/// Where the photo download stands.
#[derive(Debug, Clone, PartialEq, Eq)]
pub enum PhotoStep {
    /// Fetch the photo from the address the login gave.
    FetchDirect(String),
    /// List the user's profile photos through the Bot API.
    ListPhotos(String),
    /// Ask the Bot API where a file is.
    DescribeFile(String),
    /// Download a file's content (and store it under this extension).
    Download { url: String, ext: String },
    /// Store the bytes just received under this extension.
    Store(String),
    /// No photo could be had.
    NoPhoto,
}

/// What a photo request gave.
#[derive(Debug, Clone, PartialEq, Eq)]
pub enum PhotoEvent {
    Start,
    /// The direct download answered with success and this `Content-Type` (empty if absent).
    DirectAnswered(String),
    /// The direct download failed or did not succeed.
    DirectFailed,
    /// The latest photo's largest size, when the listing succeeded and had one.
    PhotoListed(Option<String>),
    /// The file's path, when describing it succeeded.
    FileDescribed(Option<String>),
    /// The file's content was received (to be stored under this extension).
    Downloaded(String),
    /// Downloading the file's content failed.
    DownloadFailed,
}

/// The next step of fetching a user's photo: the address the login gave first (kept
/// only when it answers with an image), then the Bot API (when a bot token is set).
pub fn photo_step(
    photo_url: Option<&str>,
    bot_token: Option<&str>,
    telegram_user_id: &str,
    event: PhotoEvent,
) -> (r: PhotoStep)
    ensures
        match event {
            PhotoEvent::Start => match photo_url {
                Some(u) => r matches PhotoStep::FetchDirect(x) && x@ == u@,
                None => fallback_step(bot_token, telegram_user_id, r),
            },
            PhotoEvent::DirectAnswered(ct) => match image_extension_spec(ct@) {
                Some(e) => r matches PhotoStep::Store(x) && x@ == e,
                None => fallback_step(bot_token, telegram_user_id, r),
            },
            PhotoEvent::DirectFailed => fallback_step(bot_token, telegram_user_id, r),
            PhotoEvent::PhotoListed(file_id) => match (file_id, bot_token) {
                (Some(f), Some(t)) => r matches PhotoStep::DescribeFile(x) && x@
                    == "https://api.telegram.org/bot"@ + t@ + "/getFile?file_id="@ + f@,
                _ => r == PhotoStep::NoPhoto,
            },
            PhotoEvent::FileDescribed(path) => match (path, bot_token) {
                (Some(p), Some(t)) => r matches PhotoStep::Download { url, ext } && url@
                    == "https://api.telegram.org/file/bot"@ + t@ + "/"@ + p@ && ext@ == after_last(
                    p@,
                    '.',
                ),
                _ => r == PhotoStep::NoPhoto,
            },
            PhotoEvent::Downloaded(ext) => r == PhotoStep::Store(ext),
            _ => r == PhotoStep::NoPhoto,
        },
{
    match event {
        PhotoEvent::Start => match photo_url {
            Some(u) => PhotoStep::FetchDirect(owned(u)),
            None => fallback(bot_token, telegram_user_id),
        },
        PhotoEvent::DirectAnswered(ct) => match image_extension(ct.as_str()) {
            Some(e) => PhotoStep::Store(e),
            None => fallback(bot_token, telegram_user_id),
        },
        PhotoEvent::DirectFailed => fallback(bot_token, telegram_user_id),
        PhotoEvent::PhotoListed(file_id) => match (file_id, bot_token) {
            (Some(f), Some(t)) => PhotoStep::DescribeFile(get_file_url(t, f.as_str())),
            _ => PhotoStep::NoPhoto,
        },
        PhotoEvent::FileDescribed(path) => match (path, bot_token) {
            (Some(p), Some(t)) => PhotoStep::Download {
                url: file_download_url(t, p.as_str()),
                ext: file_extension(p.as_str()),
            },
            _ => PhotoStep::NoPhoto,
        },
        PhotoEvent::Downloaded(ext) => PhotoStep::Store(ext),
        _ => PhotoStep::NoPhoto,
    }
}

/// Is `r` the step taken when the direct address gave no image: the Bot API listing when a
/// bot token is set, else no photo?
pub open spec fn fallback_step(bot_token: Option<&str>, telegram_user_id: &str, r: PhotoStep) -> bool {
    match bot_token {
        Some(t) => r matches PhotoStep::ListPhotos(x) && x@ == "https://api.telegram.org/bot"@
            + t@ + "/getUserProfilePhotos?user_id="@ + telegram_user_id@ + "&limit=1"@,
        None => r == PhotoStep::NoPhoto,
    }
}

fn fallback(bot_token: Option<&str>, telegram_user_id: &str) -> (r: PhotoStep)
    ensures
        fallback_step(bot_token, telegram_user_id, r),
{
    match bot_token {
        Some(t) => PhotoStep::ListPhotos(profile_photos_url(t, telegram_user_id)),
        None => PhotoStep::NoPhoto,
    }
}

} // verus!
