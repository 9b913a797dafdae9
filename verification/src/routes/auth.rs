//! Sign-in requests: the query of a sign-in, the answer of an OAuth provider, the bearer
//! token of a request, the profile sent back, and linking Telegram and Discord.
use vstd::prelude::*;

use crate::auth::{discord_callback_url, trim_trailing_slashes};
use crate::encoding::{url_encode, url_encoded};
use crate::error::AppError;
use crate::i18n::{
    is_supported_language, normalize_language, normalized_language, str_pairs_view,
    supported_language, t, t_with, translate,
};
use crate::models::User;
use crate::telegram::keys_distinct;
use crate::i18n::pairs_view;
use crate::text::{
    ascii_lower, ascii_lower_char, chars_of, concat2, decimal_text, i64_to_text, owned, push_str,
    starts_with, str_equal, string_of, trim_chars, trim_seq,
};

verus! {

broadcast use vstd::string::group_string_axioms;

/// The query that starts a sign-in (or a Discord link): where to go afterwards, and the
/// preferred language.
#[derive(Debug, Clone, PartialEq, Eq)]
pub struct LoginQuery {
    pub redirect_to: Option<String>,
    pub lang: Option<String>,
}

/// A text that is given and not empty.
pub open spec fn given_text(o: Option<String>) -> Option<Seq<char>> {
    match o {
        Some(s) => if s@.len() > 0 {
            Some(s@)
        } else {
            None
        },
        None => None,
    }
}

/// The language a sign-in asks for: given, not empty, and supported once normalized.
pub open spec fn requested_language(o: Option<String>) -> Option<Seq<char>> {
    match o {
        Some(l) => if l@.len() > 0 && supported_language(normalized_language(l@)) {
            Some(normalized_language(l@))
        } else {
            None
        },
        None => None,
    }
}

pub open spec fn string_opt_view(o: Option<String>) -> Option<Seq<char>> {
    match o {
        Some(s) => Some(s@),
        None => None,
    }
}

fn given(o: &Option<String>) -> (r: Option<String>)
    ensures
        string_opt_view(r) == given_text(*o),
{
    match o {
        Some(s) => if s.as_str().is_empty() {
            None
        } else {
            Some(s.clone())
        },
        None => None,
    }
}

impl LoginQuery {
    /// Where to send the user after signing in, and the language to remember: an empty
    /// target is no target; a language is kept only when, normalized, it has a table.
    pub fn sign_in_params(&self) -> (r: (Option<String>, Option<String>))
        ensures
            string_opt_view(r.0) == given_text(self.redirect_to),
            string_opt_view(r.1) == requested_language(self.lang),
    {
        let redirect_to = given(&self.redirect_to);
        let lang = match &self.lang {
            Some(l) => if l.as_str().is_empty() {
                None
            } else {
                let n = normalize_language(l.as_str());
                if is_supported_language(n.as_str()) {
                    Some(n)
                } else {
                    None
                }
            },
            None => None,
        };
        (redirect_to, lang)
    }
}

/// What an OAuth provider sends back to the callback.
#[derive(Debug, Clone, PartialEq, Eq)]
pub struct CallbackQuery {
    pub code: Option<String>,
    pub state: Option<String>,
    pub error: Option<String>,
    pub error_description: Option<String>,
}

/// Why a callback is refused, if it is: the provider reported an error; or the code, or
/// the state, is missing.
pub open spec fn callback_refusal(q: CallbackQuery) -> Option<Seq<char>> {
    if q.error is Some {
        Some(
            "OAuth error: "@ + match q.error_description {
                Some(d) => d@,
                None => Seq::empty(),
            },
        )
    } else if q.code is None {
        Some("Missing authorization code"@)
    } else if q.state is None {
        Some("Missing state parameter"@)
    } else {
        None
    }
}

impl CallbackQuery {
    /// The authorization code and the state of a callback; a bad request when the
    /// provider reported an error (with its description) or either is missing.
    pub fn code_and_state(&self) -> (r: Result<(String, String), AppError>)
        ensures
            match callback_refusal(*self) {
                Some(m) => r matches Err(AppError::BadRequest(x)) && x@ == m,
                None => r matches Ok((c, s)) && Some(c) == self.code && Some(s) == self.state,
            },
    {
        if self.error.is_some() {
            let description = match &self.error_description {
                Some(d) => d.clone(),
                None => String::new(),
            };
            return Err(AppError::BadRequest(concat2("OAuth error: ", description.as_str())));
        }
        let code = match &self.code {
            Some(c) => c.clone(),
            None => {
                return Err(AppError::BadRequest(owned("Missing authorization code")));
            },
        };
        let state = match &self.state {
            Some(s) => s.clone(),
            None => {
                return Err(AppError::BadRequest(owned("Missing state parameter")));
            },
        };
        Ok((code, state))
    }
}

/// The signed-in user's profile as the API returns it.
#[derive(Debug, Clone, PartialEq, Eq)]
pub struct UserResponse {
    pub id: String,
    pub twitch_id: String,
    pub twitch_login: String,
    pub twitch_display_name: String,
    pub twitch_profile_image_url: Option<String>,
    pub telegram_user_id: Option<String>,
    pub telegram_username: Option<String>,
    pub telegram_photo_url: Option<String>,
    pub discord_user_id: Option<String>,
    pub discord_username: Option<String>,
    pub discord_avatar_url: Option<String>,
    pub lang: Option<String>,
}

impl UserResponse {
    /// The profile of a user; an empty profile image is no image.
    pub fn from_user(user: User) -> (r: UserResponse)
        ensures
            r.id == user.id,
            r.twitch_id == user.twitch_id,
            r.twitch_login == user.twitch_login,
            r.twitch_display_name == user.twitch_display_name,
            if user.twitch_profile_image_url@.len() == 0 {
                r.twitch_profile_image_url is None
            } else {
                r.twitch_profile_image_url == Some(user.twitch_profile_image_url)
            },
            r.telegram_user_id == user.telegram_user_id,
            r.telegram_username == user.telegram_username,
            r.telegram_photo_url == user.telegram_photo_url,
            r.discord_user_id == user.discord_user_id,
            r.discord_username == user.discord_username,
            r.discord_avatar_url == user.discord_avatar_url,
            r.lang == user.lang,
    {
        let profile_image = if user.twitch_profile_image_url.as_str().is_empty() {
            None
        } else {
            Some(user.twitch_profile_image_url)
        };
        UserResponse {
            id: user.id,
            twitch_id: user.twitch_id,
            twitch_login: user.twitch_login,
            twitch_display_name: user.twitch_display_name,
            twitch_profile_image_url: profile_image,
            telegram_user_id: user.telegram_user_id,
            telegram_username: user.telegram_username,
            telegram_photo_url: user.telegram_photo_url,
            discord_user_id: user.discord_user_id,
            discord_username: user.discord_username,
            discord_avatar_url: user.discord_avatar_url,
            lang: user.lang,
        }
    }
}

/// What the Telegram Login Widget hands over when a user links Telegram.
#[derive(Debug, Clone, PartialEq, Eq)]
pub struct TelegramLoginRequest {
    pub id: String,
    pub first_name: Option<String>,
    pub last_name: Option<String>,
    pub username: Option<String>,
    pub photo_url: Option<String>,
    pub auth_date: i64,
    pub hash: String,
}

/// The entry `key=value` when the value is given.
pub open spec fn optional_entry(key: Seq<char>, v: Option<String>) -> Seq<(Seq<char>, Seq<char>)> {
    match v {
        Some(x) => seq![(key, x@)],
        None => Seq::empty(),
    }
}

/// The payload whose signature is checked: the id, the names, the photo and the date
/// that were given, and the hash.
pub open spec fn login_payload(r: TelegramLoginRequest) -> Seq<(Seq<char>, Seq<char>)> {
    seq![("id"@, r.id@)] + optional_entry("first_name"@, r.first_name) + optional_entry(
        "last_name"@,
        r.last_name,
    ) + optional_entry("username"@, r.username) + optional_entry("photo_url"@, r.photo_url)
        + seq![("auth_date"@, decimal_text(r.auth_date as int)), ("hash"@, r.hash@)]
}

/// The position of a payload key in the widget's order (past the end for other keys).
pub open spec fn payload_rank(k: Seq<char>) -> int {
    if k == "id"@ {
        0
    } else if k == "first_name"@ {
        1
    } else if k == "last_name"@ {
        2
    } else if k == "username"@ {
        3
    } else if k == "photo_url"@ {
        4
    } else if k == "auth_date"@ {
        5
    } else if k == "hash"@ {
        6
    } else {
        7
    }
}

proof fn lemma_payload_ranks()
    ensures
        payload_rank("id"@) == 0,
        payload_rank("first_name"@) == 1,
        payload_rank("last_name"@) == 2,
        payload_rank("username"@) == 3,
        payload_rank("photo_url"@) == 4,
        payload_rank("auth_date"@) == 5,
        payload_rank("hash"@) == 6,
{
    reveal_strlit("id");
    reveal_strlit("first_name");
    reveal_strlit("last_name");
    reveal_strlit("username");
    reveal_strlit("photo_url");
    reveal_strlit("auth_date");
    reveal_strlit("hash");
    assert("first_name"@ != "id"@) by {
        assert("first_name"@.len() != "id"@.len());
    }
    assert("last_name"@ != "id"@) by {
        assert("last_name"@.len() != "id"@.len());
    }
    assert("last_name"@ != "first_name"@) by {
        assert("last_name"@.len() != "first_name"@.len());
    }
    assert("username"@ != "id"@) by {
        assert("username"@.len() != "id"@.len());
    }
    assert("username"@ != "first_name"@) by {
        assert("username"@.len() != "first_name"@.len());
    }
    assert("username"@ != "last_name"@) by {
        assert("username"@.len() != "last_name"@.len());
    }
    assert("photo_url"@ != "id"@) by {
        assert("photo_url"@.len() != "id"@.len());
    }
    assert("photo_url"@ != "first_name"@) by {
        assert("photo_url"@.len() != "first_name"@.len());
    }
    assert("photo_url"@ != "last_name"@) by {
        assert("photo_url"@[0] != "last_name"@[0]);
    }
    assert("photo_url"@ != "username"@) by {
        assert("photo_url"@.len() != "username"@.len());
    }
    assert("auth_date"@ != "id"@) by {
        assert("auth_date"@.len() != "id"@.len());
    }
    assert("auth_date"@ != "first_name"@) by {
        assert("auth_date"@.len() != "first_name"@.len());
    }
    assert("auth_date"@ != "last_name"@) by {
        assert("auth_date"@[0] != "last_name"@[0]);
    }
    assert("auth_date"@ != "username"@) by {
        assert("auth_date"@.len() != "username"@.len());
    }
    assert("auth_date"@ != "photo_url"@) by {
        assert("auth_date"@[0] != "photo_url"@[0]);
    }
    assert("hash"@ != "id"@) by {
        assert("hash"@.len() != "id"@.len());
    }
    assert("hash"@ != "first_name"@) by {
        assert("hash"@.len() != "first_name"@.len());
    }
    assert("hash"@ != "last_name"@) by {
        assert("hash"@.len() != "last_name"@.len());
    }
    assert("hash"@ != "username"@) by {
        assert("hash"@.len() != "username"@.len());
    }
    assert("hash"@ != "photo_url"@) by {
        assert("hash"@.len() != "photo_url"@.len());
    }
    assert("hash"@ != "auth_date"@) by {
        assert("hash"@.len() != "auth_date"@.len());
    }
}

/// Entries whose keys come in strictly increasing widget order, each below `bound`.
pub open spec fn ranked_below(p: Seq<(Seq<char>, Seq<char>)>, bound: int) -> bool {
    &&& forall|i: int, j: int| 0 <= i < j < p.len() ==> payload_rank(p[i].0) < payload_rank(p[j].0)
    &&& forall|i: int| 0 <= i < p.len() ==> payload_rank(#[trigger] p[i].0) < bound
}

proof fn lemma_ranked_push(p: Seq<(Seq<char>, Seq<char>)>, bound: int, e: (Seq<char>, Seq<char>))
    requires
        ranked_below(p, bound),
        bound <= payload_rank(e.0),
    ensures
        ranked_below(p.push(e), payload_rank(e.0) + 1),
{
    let q = p.push(e);
    assert forall|i: int, j: int| 0 <= i < j < q.len() implies payload_rank(q[i].0) < payload_rank(
        q[j].0,
    ) by {
        if j < p.len() {
            assert(q[i] == p[i] && q[j] == p[j]);
        } else {
            assert(q[i] == p[i]);
            assert(payload_rank(p[i].0) < bound);
        }
    }
    assert forall|i: int| 0 <= i < q.len() implies payload_rank(#[trigger] q[i].0) < payload_rank(
        e.0,
    ) + 1 by {
        if i < p.len() {
            assert(q[i] == p[i]);
            assert(payload_rank(p[i].0) < bound);
        }
    }
}

proof fn lemma_ranked_distinct(p: Seq<(Seq<char>, Seq<char>)>, bound: int)
    requires
        ranked_below(p, bound),
    ensures
        keys_distinct(p),
{
    assert forall|i: int, j: int| 0 <= i < j < p.len() implies p[i].0 != p[j].0 by {
        assert(payload_rank(p[i].0) < payload_rank(p[j].0));
    }
}

fn push_pair(v: &mut Vec<(String, String)>, key: &str, value: &String)
    ensures
        pairs_view(final(v)@) == pairs_view(old(v)@).push((key@, value@)),
{
    let ghost before = v@;
    v.push((owned(key), value.clone()));
    proof {
        assert(pairs_view(v@) =~= pairs_view(before).push((key@, value@)));
    }
}

fn push_optional(
    v: &mut Vec<(String, String)>,
    key: &str,
    value: &Option<String>,
    Ghost(bound): Ghost<int>,
) -> (next: Ghost<int>)
    requires
        ranked_below(pairs_view(old(v)@), bound),
        bound <= payload_rank(key@),
    ensures
        pairs_view(final(v)@) == pairs_view(old(v)@) + optional_entry(key@, *value),
        ranked_below(pairs_view(final(v)@), next@),
        next@ <= payload_rank(key@) + 1,
{
    let ghost before = pairs_view(v@);
    match value {
        Some(x) => {
            push_pair(v, key, x);
            proof {
                lemma_ranked_push(before, bound, (key@, x@));
                assert(pairs_view(v@) =~= before + optional_entry(key@, *value));
            }
            Ghost(payload_rank(key@) + 1)
        },
        None => {
            assert(pairs_view(v@) =~= before + optional_entry(key@, *value));
            Ghost(bound)
        },
    }
}

impl TelegramLoginRequest {
    /// The payload whose signature is checked, in the widget's order; its keys are
    /// distinct.
    pub fn payload(&self) -> (r: Vec<(String, String)>)
        ensures
            pairs_view(r@) == login_payload(*self),
            keys_distinct(pairs_view(r@)),
    {
        proof {
            lemma_payload_ranks();
        }
        let mut v: Vec<(String, String)> = Vec::new();
        push_pair(&mut v, "id", &self.id);
        proof {
            lemma_ranked_push(Seq::empty(), 0, ("id"@, self.id@));
            assert(Seq::<(Seq<char>, Seq<char>)>::empty().push(("id"@, self.id@)) =~= pairs_view(v@));
        }
        let b = push_optional(&mut v, "first_name", &self.first_name, Ghost(1));
        let b = push_optional(&mut v, "last_name", &self.last_name, b);
        let b = push_optional(&mut v, "username", &self.username, b);
        let b = push_optional(&mut v, "photo_url", &self.photo_url, b);
        let ghost before_date = pairs_view(v@);
        let date = i64_to_text(self.auth_date);
        push_pair(&mut v, "auth_date", &date);
        proof {
            lemma_ranked_push(before_date, b@, ("auth_date"@, date@));
        }
        let ghost before_hash = pairs_view(v@);
        push_pair(&mut v, "hash", &self.hash);
        proof {
            lemma_ranked_push(before_hash, 6, ("hash"@, self.hash@));
            lemma_ranked_distinct(pairs_view(v@), 7);
            assert(pairs_view(v@) =~= login_payload(*self));
        }
        v
    }

    /// Is this the Telegram account the user has linked already?
    pub fn already_linked(&self, user: &User) -> (r: bool)
        ensures
            r == (user.telegram_user_id matches Some(x) && x@ == self.id@),
    {
        match &user.telegram_user_id {
            Some(existing) => str_equal(existing.as_str(), self.id.as_str()),
            None => false,
        }
    }
}

/// A change of the signed-in user's profile.
#[derive(Debug, Clone, PartialEq, Eq)]
pub struct UpdateMeRequest {
    pub lang: Option<String>,
}

impl UpdateMeRequest {
    /// The language to store: none clears it; a given one is normalized and must have a
    /// table, else the request is refused with the localized "unsupported language" text.
    pub fn language_to_set(&self) -> (r: Result<Option<String>, AppError>)
        ensures
            match self.lang {
                None => r matches Ok(None),
                Some(l) => {
                    let n = normalized_language(l@);
                    if supported_language(n) {
                        r matches Ok(Some(x)) && x@ == n
                    } else {
                        r matches Err(AppError::BadRequest(m)) && m@ == translate(
                            None,
                            "error.unsupported_language"@,
                            Some(seq![("lang"@, n)]),
                        )
                    }
                },
            },
    {
        match &self.lang {
            None => Ok(None),
            Some(l) => {
                let n = normalize_language(l.as_str());
                if is_supported_language(n.as_str()) {
                    Ok(Some(n))
                } else {
                    let params = [("lang", n.as_str())];
                    let m = t_with("error.unsupported_language", &params);
                    proof {
                        assert(str_pairs_view(params@) =~= seq![("lang"@, n@)]);
                    }
                    Err(AppError::BadRequest(m))
                }
            },
        }
    }
}

/// The user a request is made by, known from its bearer token.
#[derive(Debug, Clone, PartialEq, Eq)]
pub struct AuthUser(pub User);

/// The token of an `Authorization` header: it must start with `Bearer ` (in any case of
/// ASCII letters), and what follows, trimmed, must not be empty.
pub open spec fn bearer_token_of(header: Option<Seq<char>>) -> Option<Seq<char>> {
    match header {
        Some(h) => if h.len() >= 7 && ascii_lower(h.take(7)) == "bearer "@ && trim_seq(h.skip(7)).len() > 0 {
            Some(trim_seq(h.skip(7)))
        } else {
            None
        },
        None => None,
    }
}

fn same_ignoring_ascii_case(c: char, lower: char) -> (r: bool)
    requires
        ('a' <= lower && lower <= 'z') || lower == ' ',
    ensures
        r == (ascii_lower_char(c) == lower),
{
    if c == lower {
        true
    } else if 'A' <= c && c <= 'Z' {
        (c as u32) + 32 == (lower as u32)
    } else {
        false
    }
}

impl AuthUser {
    /// The bearer token of a request's `Authorization` header, or `Unauthorized`.
    pub fn bearer_token(header: Option<&str>) -> (r: Result<String, AppError>)
        ensures
            match bearer_token_of(crate::i18n::opt_view(header)) {
                Some(tok) => r matches Ok(x) && x@ == tok,
                None => r matches Err(AppError::Unauthorized),
            },
    {
        let h = match header {
            Some(h) => h,
            None => {
                return Err(AppError::Unauthorized);
            },
        };
        let v = chars_of(h);
        if v.len() < 7 {
            return Err(AppError::Unauthorized);
        }
        let prefix: [char; 7] = ['b', 'e', 'a', 'r', 'e', 'r', ' '];
        proof {
            reveal_strlit("bearer ");
            assert(prefix@ =~= "bearer "@);
        }
        let mut i: usize = 0;
        while i < 7
            invariant
                i <= 7,
                header == Some(h),
                v@ == h@,
                v@.len() >= 7,
                prefix@ == "bearer "@,
                forall|j: int| 0 <= j < 7 ==> ('a' <= #[trigger] prefix@[j] && prefix@[j] <= 'z') || prefix@[j] == ' ',
                forall|j: int| 0 <= j < i ==> ascii_lower_char(#[trigger] v@[j]) == prefix@[j],
            decreases 7 - i,
        {
            if !same_ignoring_ascii_case(v[i], prefix[i]) {
                proof {
                    assert(h@.take(7)[i as int] == v@[i as int]);
                    assert(ascii_lower(h@.take(7))[i as int] == ascii_lower_char(v@[i as int]));
                    assert(prefix@[i as int] == "bearer "@[i as int]);
                    assert(ascii_lower(h@.take(7))[i as int] != "bearer "@[i as int]);
                    assert(bearer_token_of(Some(h@)) is None);
                }
                return Err(AppError::Unauthorized);
            }
            i = i + 1;
        }
        assert(ascii_lower(h@.take(7)) =~= "bearer "@);
        let mut rest: Vec<char> = Vec::new();
        let mut k: usize = 7;
        while k < v.len()
            invariant
                7 <= k <= v.len(),
                v@ == h@,
                rest@ == h@.subrange(7, k as int),
            decreases v.len() - k,
        {
            rest.push(v[k]);
            k = k + 1;
        }
        assert(rest@ =~= h@.skip(7));
        let token = trim_chars(&rest);
        if token.len() == 0 {
            return Err(AppError::Unauthorized);
        }
        Ok(string_of(token.as_slice()))
    }
}

/// The Discord client a link needs: without one, linking is unavailable.
pub fn discord_client(client_id: Option<&str>) -> (r: Result<String, AppError>)
    ensures
        match client_id {
            Some(c) => r matches Ok(x) && x@ == c@,
            None => r matches Err(AppError::ServiceUnavailable(m)) && m@ == "Discord OAuth not configured"@,
        },
{
    match client_id {
        Some(c) => Ok(owned(c)),
        None => Err(AppError::ServiceUnavailable(owned("Discord OAuth not configured"))),
    }
}

/// The Discord page that asks a user to link their account.
pub open spec fn discord_authorize_address(
    client_id: Seq<char>,
    webhook_url: Seq<char>,
    state: Seq<char>,
) -> Seq<char> {
    "https://discord.com/api/oauth2/authorize?client_id="@ + url_encoded(client_id)
        + "&redirect_uri="@ + url_encoded(
        trim_trailing_slashes(webhook_url) + "/api/auth/discord/callback"@,
    ) + "&response_type=code&scope=identify&state="@ + url_encoded(state)
}

/// The Discord page that asks a user to link their account, with the callback on this
/// server and the signed state.
pub fn discord_authorize_url(client_id: &str, webhook_url: &str, state: &str) -> (r: String)
    ensures
        r@ == discord_authorize_address(client_id@, webhook_url@, state@),
{
    let callback = discord_callback_url(webhook_url);
    let mut out = owned("https://discord.com/api/oauth2/authorize?client_id=");
    let a = url_encode(client_id);
    push_str(&mut out, a.as_str());
    push_str(&mut out, "&redirect_uri=");
    let b = url_encode(callback.as_str());
    push_str(&mut out, b.as_str());
    push_str(&mut out, "&response_type=code&scope=identify&state=");
    let c = url_encode(state);
    push_str(&mut out, c.as_str());
    out
}

/// Why refreshing the Telegram photo failed: the download itself failed (service
/// unavailable); no photo came back and no bot is configured (bad request); no photo
/// came back (not found). Each with its localized text.
pub fn photo_refresh_error(bot_configured: bool, download_failed: bool) -> (r: AppError)
    ensures
        download_failed ==> (r matches AppError::ServiceUnavailable(m) && m@ == translate(
            None,
            "error.refresh_telegram_photo.service_unavailable"@,
            None,
        )),
        !download_failed && !bot_configured ==> (r matches AppError::BadRequest(m) && m@
            == translate(None, "error.refresh_telegram_photo.download_failed"@, None)),
        !download_failed && bot_configured ==> (r matches AppError::NotFound(m) && m@ == translate(
            None,
            "error.refresh_telegram_photo.not_found"@,
            None,
        )),
{
    if download_failed {
        AppError::ServiceUnavailable(t("error.refresh_telegram_photo.service_unavailable"))
    } else if !bot_configured {
        AppError::BadRequest(t("error.refresh_telegram_photo.download_failed"))
    } else {
        AppError::NotFound(t("error.refresh_telegram_photo.not_found"))
    }
}

/// The file extensions a stored photo is looked up under, in order.
pub fn photo_extensions() -> (r: Vec<&'static str>)
    ensures
        r@.len() == 4,
        r@[0]@ == "jpg"@,
        r@[1]@ == "jpeg"@,
        r@[2]@ == "png"@,
        r@[3]@ == "webp"@,
{
    vec!["jpg", "jpeg", "png", "webp"]
}

/// The content type a stored photo is served with, by its extension.
pub open spec fn photo_content_type_of(ext: Seq<char>) -> Seq<char> {
    if ext == "jpg"@ || ext == "jpeg"@ {
        "image/jpeg"@
    } else if ext == "png"@ {
        "image/png"@
    } else if ext == "webp"@ {
        "image/webp"@
    } else {
        "application/octet-stream"@
    }
}

/// The content type a stored photo is served with, by its extension.
pub fn photo_content_type(ext: &str) -> (r: &'static str)
    ensures
        r@ == photo_content_type_of(ext@),
{
    if str_equal(ext, "jpg") || str_equal(ext, "jpeg") {
        "image/jpeg"
    } else if str_equal(ext, "png") {
        "image/png"
    } else if str_equal(ext, "webp") {
        "image/webp"
    } else {
        "application/octet-stream"
    }
}

} // verus!
