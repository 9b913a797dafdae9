//! Twitch: the data its API answers with, the sign-in address, and the rules for retrying
//! requests and refreshing the application token.
use vstd::prelude::*;

use crate::encoding::{url_encode, url_encoded};
use crate::numbers::{parse_u64, parsed_unsigned};
use crate::text::{concat2, owned, push_str, str_equal};

verus! {

broadcast use vstd::string::group_string_axioms;

/// Tokens answered by the OAuth token endpoint.
#[derive(Debug, Clone, PartialEq, Eq)]
pub struct TokenResponse {
    pub access_token: String,
    pub refresh_token: String,
    pub expires_in: i64,
    pub scope: Vec<String>,
    pub token_type: String,
}

/// An application token.
#[derive(Debug, Clone, PartialEq, Eq)]
pub struct AppAccessTokenResponse {
    pub access_token: String,
    pub expires_in: i64,
}

#[derive(Debug, Clone, PartialEq, Eq)]
pub struct TwitchUsersResponse {
    pub data: Vec<TwitchUser>,
}

/// A Twitch account.
#[derive(Debug, Clone, PartialEq, Eq)]
pub struct TwitchUser {
    pub id: String,
    pub login: String,
    pub display_name: String,
    pub email: Option<String>,
    pub profile_image_url: Option<String>,
    pub broadcaster_type: Option<String>,
    pub description: Option<String>,
    pub created_at: Option<String>,
}

#[derive(Debug, Clone, PartialEq, Eq)]
pub struct StreamsResponse {
    pub data: Vec<Stream>,
}

/// A live stream.
#[derive(Debug, Clone, PartialEq, Eq)]
pub struct Stream {
    pub id: String,
    pub user_id: String,
    pub user_login: String,
    pub user_name: String,
    pub game_id: String,
    pub game_name: String,
    pub stream_type: String,
    pub title: String,
    pub viewer_count: i32,
    pub started_at: String,
    pub language: String,
    pub thumbnail_url: String,
    pub is_mature: bool,
}

#[derive(Debug, Clone, PartialEq, Eq)]
pub struct ChannelInfoResponse {
    pub data: Vec<ChannelInfo>,
}

/// A channel's current settings.
#[derive(Debug, Clone, PartialEq, Eq)]
pub struct ChannelInfo {
    pub broadcaster_id: String,
    pub broadcaster_login: String,
    pub broadcaster_name: String,
    pub broadcaster_language: String,
    pub game_id: String,
    pub game_name: String,
    pub title: String,
    pub delay: i32,
    pub tags: Vec<String>,
}

/// How EventSub delivers events.
#[derive(Debug, Clone, PartialEq, Eq)]
pub struct EventSubTransport {
    pub method: String,
    pub callback: String,
    pub secret: Option<String>,
}

#[derive(Debug, Clone, PartialEq, Eq)]
pub struct CustomRewardsResponse {
    pub data: Vec<CustomReward>,
}

/// A channel-points reward.
#[derive(Debug, Clone, PartialEq, Eq)]
pub struct CustomReward {
    pub id: String,
    pub broadcaster_id: String,
    pub broadcaster_login: String,
    pub broadcaster_name: String,
    pub title: String,
    pub prompt: Option<String>,
    pub cost: i32,
    pub is_enabled: bool,
    pub is_paused: bool,
    pub is_in_stock: bool,
    pub background_color: Option<String>,
    pub image: Option<RewardImage>,
    pub default_image: Option<RewardImage>,
}

#[derive(Debug, Clone, PartialEq, Eq)]
pub struct RewardImage {
    pub url_1x: String,
    pub url_2x: String,
    pub url_4x: String,
}

#[derive(Debug, Clone, PartialEq, Eq)]
pub struct ScheduleResponse {
    pub data: ScheduleData,
}

/// A channel's schedule.
#[derive(Debug, Clone, PartialEq, Eq)]
pub struct ScheduleData {
    pub segments: Vec<ScheduleSegment>,
    pub broadcaster_id: String,
    pub broadcaster_name: String,
    pub broadcaster_login: String,
    pub vacation: Option<Vacation>,
}

/// One scheduled broadcast (times are RFC 3339 texts).
#[derive(Debug, Clone, PartialEq, Eq)]
pub struct ScheduleSegment {
    pub id: String,
    pub start_time: String,
    pub end_time: Option<String>,
    pub title: String,
    pub canceled_until: Option<String>,
    pub category: Option<ScheduleCategory>,
    pub is_recurring: bool,
}

#[derive(Debug, Clone, PartialEq, Eq)]
pub struct ScheduleCategory {
    pub id: String,
    pub name: String,
}

#[derive(Debug, Clone, PartialEq, Eq)]
pub struct Vacation {
    pub start_time: String,
    pub end_time: String,
}

/// A chat message sent by the bot account.
#[derive(Debug, Clone, PartialEq, Eq)]
pub struct SendChatMessageRequest {
    pub broadcaster_id: String,
    pub sender_id: String,
    pub message: String,
}

#[derive(Debug, Clone, PartialEq, Eq)]
pub struct SendChatMessageResponse {
    pub data: Vec<ChatMessageResult>,
}

#[derive(Debug, Clone, PartialEq, Eq)]
pub struct ChatMessageResult {
    pub message_id: String,
    pub is_sent: bool,
    pub drop_reason: Option<DropReason>,
}

#[derive(Debug, Clone, PartialEq, Eq)]
pub struct DropReason {
    pub code: String,
    pub message: String,
}

// ---------------------------------------------------------------------------
// Sign-in
// ---------------------------------------------------------------------------

/// The permissions the service asks a streamer for.
pub open spec fn required_scope_list() -> Seq<Seq<char>> {
    seq![
        "user:read:email"@,
        "channel:read:subscriptions"@,
        "channel:read:redemptions"@,
        "channel:manage:redemptions"@,
        "moderator:read:followers"@,
        "user:read:chat"@,
        "user:write:chat"@,
    ]
}

/// The permissions the service asks a streamer for.
pub fn get_required_scopes() -> (r: Vec<&'static str>)
    ensures
        r@.len() == required_scope_list().len(),
        forall|i: int| 0 <= i < r@.len() ==> #[trigger] r@[i]@ == required_scope_list()[i],
{
    let mut r: Vec<&'static str> = Vec::new();
    r.push("user:read:email");
    r.push("channel:read:subscriptions");
    r.push("channel:read:redemptions");
    r.push("channel:manage:redemptions");
    r.push("moderator:read:followers");
    r.push("user:read:chat");
    r.push("user:write:chat");
    r
}

/// Items joined by `sep`.
pub open spec fn joined(items: Seq<Seq<char>>, sep: Seq<char>) -> Seq<char>
    decreases items.len(),
{
    if items.len() == 0 {
        Seq::empty()
    } else if items.len() == 1 {
        items[0]
    } else {
        joined(items.drop_last(), sep) + sep + items.last()
    }
}

/// Items joined by `sep`.
pub fn join_strs(items: &[&str], sep: &str) -> (r: String)
    ensures
        r@ == joined(items@.map_values(|s: &str| s@), sep@),
{
    let ghost v = items@.map_values(|s: &str| s@);
    let mut out = String::new();
    let mut i: usize = 0;
    while i < items.len()
        invariant
            i <= items.len(),
            v == items@.map_values(|s: &str| s@),
            out@ == joined(v.take(i as int), sep@),
        decreases items.len() - i,
    {
        let ghost prev = out@;
        if i > 0 {
            push_str(&mut out, sep);
        }
        push_str(&mut out, items[i]);
        proof {
            let t = v.take(i + 1);
            assert(t.drop_last() =~= v.take(i as int));
            if i == 0 {
                assert(out@ =~= v[0]);
            } else {
                assert(out@ =~= prev + sep@ + v[i as int]);
            }
        }
        i = i + 1;
    }
    assert(v.take(i as int) =~= v);
    out
}

/// The address a streamer is sent to for signing in with Twitch.
pub open spec fn auth_url_text(
    client_id: Seq<char>,
    redirect_uri: Seq<char>,
    state: Seq<char>,
    scopes: Seq<Seq<char>>,
) -> Seq<char> {
    "https://id.twitch.tv/oauth2/authorize?client_id="@ + client_id + "&redirect_uri="@
        + url_encoded(redirect_uri) + "&response_type=code&scope="@ + url_encoded(
        joined(scopes, " "@),
    ) + "&state="@ + url_encoded(state)
}

/// The address a streamer is sent to for signing in with Twitch.
pub fn get_auth_url(client_id: &str, redirect_uri: &str, state: &str, scopes: &[&str]) -> (r:
    String)
    ensures
        r@ == auth_url_text(client_id@, redirect_uri@, state@, scopes@.map_values(|s: &str| s@)),
{
    let scope = join_strs(scopes, " ");
    let mut out = concat2("https://id.twitch.tv/oauth2/authorize?client_id=", client_id);
    push_str(&mut out, "&redirect_uri=");
    let r = url_encode(redirect_uri);
    push_str(&mut out, r.as_str());
    push_str(&mut out, "&response_type=code&scope=");
    let s = url_encode(scope.as_str());
    push_str(&mut out, s.as_str());
    push_str(&mut out, "&state=");
    let st = url_encode(state);
    push_str(&mut out, st.as_str());
    out
}

/// The EventSub version of a subscription type.
pub fn subscription_version(subscription_type: &str) -> (r: &'static str)
    ensures
        subscription_type@ == "channel.update"@ ==> r@ == "2"@,
        subscription_type@ != "channel.update"@ ==> r@ == "1"@,
{
    if str_equal(subscription_type, "channel.update") {
        "2"
    } else {
        "1"
    }
}

/// `<prefix><value>` for every value, joined by `&` (a repeated query parameter).
pub open spec fn repeated_query(prefix: Seq<char>, values: Seq<Seq<char>>) -> Seq<char> {
    joined(values.map_values(|v: Seq<char>| prefix + v), "&"@)
}

/// `<prefix><value>` for every value, joined by `&`.
pub fn repeated_query_param(prefix: &str, values: &[&str]) -> (r: String)
    ensures
        r@ == repeated_query(prefix@, values@.map_values(|s: &str| s@)),
{
    let ghost v = values@.map_values(|s: &str| s@);
    let ghost w = v.map_values(|x: Seq<char>| prefix@ + x);
    let mut out = String::new();
    let mut i: usize = 0;
    while i < values.len()
        invariant
            i <= values.len(),
            v == values@.map_values(|s: &str| s@),
            w == v.map_values(|x: Seq<char>| prefix@ + x),
            out@ == joined(w.take(i as int), "&"@),
        decreases values.len() - i,
    {
        let ghost prev = out@;
        if i > 0 {
            push_str(&mut out, "&");
        }
        push_str(&mut out, prefix);
        push_str(&mut out, values[i]);
        proof {
            let t = w.take(i + 1);
            assert(t.drop_last() =~= w.take(i as int));
            assert(w[i as int] == prefix@ + values@[i as int]@);
            if i == 0 {
                assert(out@ =~= w[0]);
            } else {
                assert(out@ =~= prev + "&"@ + w[i as int]);
            }
        }
        i = i + 1;
    }
    assert(w.take(i as int) =~= w);
    out
}

// ---------------------------------------------------------------------------
// Retrying requests
// ---------------------------------------------------------------------------

/// Attempts made before a request is given up.
pub const MAX_REQUEST_ATTEMPTS: usize = 5;

/// Cap of the delay between request attempts (seconds).
pub const MAX_REQUEST_BACKOFF_SECONDS: u64 = 60;

/// What an attempt at a request gave.
#[derive(Debug, Clone, PartialEq, Eq)]
pub enum AttemptOutcome {
    /// An answer with this HTTP status and, if present, its `Retry-After` header.
    Answered { status: u16, retry_after: Option<String> },
    /// The request did not reach Twitch.
    NetworkError,
}

/// What to do after an attempt.
#[derive(Debug, Clone, Copy, PartialEq, Eq, Structural)]
pub enum RetryDecision {
    /// Hand the answer to the caller (also for non-success statuses other than 429/5xx).
    Accept,
    /// Wait this many seconds and try again.
    RetryAfter(u64),
    /// Give up on a rate-limit or server-error answer.
    GiveUpAnswer,
    /// Give up on a network error.
    GiveUpNetwork,
}

/// Is an HTTP status worth retrying (rate limit or server error)?
pub open spec fn transient_status(status: u16) -> bool {
    status == 429 || (500 <= status <= 599)
}

/// The decision after attempt number `attempt` (from 0) with the current backoff: a
/// rate-limit or server-error answer is retried after its `Retry-After` seconds (or the
/// backoff), a network error after the backoff, until five attempts were made.
pub open spec fn retry_decision_spec(
    attempt: nat,
    backoff: u64,
    outcome: AttemptOutcome,
) -> RetryDecision {
    match outcome {
        AttemptOutcome::Answered { status, retry_after } => if !transient_status(status) {
            RetryDecision::Accept
        } else if attempt + 1 >= MAX_REQUEST_ATTEMPTS {
            RetryDecision::GiveUpAnswer
        } else {
            RetryDecision::RetryAfter(
                match retry_after {
                    Some(h) => match parsed_unsigned(h@, u64::MAX as int) {
                        Some(n) => n as u64,
                        None => backoff,
                    },
                    None => backoff,
                },
            )
        },
        AttemptOutcome::NetworkError => if attempt + 1 >= MAX_REQUEST_ATTEMPTS {
            RetryDecision::GiveUpNetwork
        } else {
            RetryDecision::RetryAfter(backoff)
        },
    }
}

/// The decision after attempt number `attempt` (from 0) with the current backoff.
pub fn request_retry_decision(attempt: usize, backoff: u64, outcome: &AttemptOutcome) -> (r:
    RetryDecision)
    ensures
        r == retry_decision_spec(attempt as nat, backoff, *outcome),
{
    match outcome {
        AttemptOutcome::Answered { status, retry_after } => {
            let s = *status;
            if !(s == 429 || (500 <= s && s <= 599)) {
                RetryDecision::Accept
            } else if attempt >= MAX_REQUEST_ATTEMPTS - 1 {
                RetryDecision::GiveUpAnswer
            } else {
                let wait = match retry_after {
                    Some(h) => match parse_u64(h.as_str()) {
                        Some(n) => n,
                        None => backoff,
                    },
                    None => backoff,
                };
                RetryDecision::RetryAfter(wait)
            }
        },
        AttemptOutcome::NetworkError => {
            if attempt >= MAX_REQUEST_ATTEMPTS - 1 {
                RetryDecision::GiveUpNetwork
            } else {
                RetryDecision::RetryAfter(backoff)
            }
        },
    }
}

/// The backoff after a retried attempt: doubled, at most a minute.
pub fn next_request_backoff(backoff: u64) -> (r: u64)
    ensures
        r as int == if 2 * backoff < MAX_REQUEST_BACKOFF_SECONDS {
            2 * backoff
        } else {
            MAX_REQUEST_BACKOFF_SECONDS as int
        },
{
    if backoff < MAX_REQUEST_BACKOFF_SECONDS / 2 {
        backoff * 2
    } else {
        proof {
            assert(2 * backoff >= MAX_REQUEST_BACKOFF_SECONDS);
        }
        MAX_REQUEST_BACKOFF_SECONDS
    }
}

/// The error of a request given up on a rate-limit or server-error answer.
pub fn attempts_exhausted_message(attempts: usize, body: &str) -> (r: String)
    ensures
        r@ == "Failed after "@ + crate::text::decimal_text(attempts as int) + " attempts: "@
            + body@,
{
    let mut out = owned("Failed after ");
    let n = crate::text::u64_to_text(attempts as u64);
    push_str(&mut out, n.as_str());
    push_str(&mut out, " attempts: ");
    push_str(&mut out, body);
    out
}

// ---------------------------------------------------------------------------
// The application token
// ---------------------------------------------------------------------------

/// When a token lasting `expires_in` seconds from `now` expires (milliseconds since the
/// epoch), or `None` when that instant does not fit.
pub fn calculate_token_expiry(now: i64, expires_in: i64) -> (r: Option<i64>)
    ensures
        match r {
            Some(t) => t == now + expires_in * 1000,
            None => !(i64::MIN <= now + expires_in * 1000 <= i64::MAX),
        },
{
    let t: i128 = (now as i128) + (expires_in as i128) * 1000;
    if i64::MIN as i128 <= t && t <= i64::MAX as i128 {
        Some(t as i64)
    } else {
        None
    }
}

/// How long before expiry the application token is refreshed (milliseconds).
pub open spec fn refresh_margin_ms() -> int {
    60000
}

/// Is an application token expiring at `expires_at` still good at `now` (more than a
/// minute left; both in milliseconds)?
pub fn app_token_fresh(expires_at: i64, now: i64) -> (r: bool)
    ensures
        r == (expires_at - refresh_margin_ms() > now),
{
    (expires_at as i128) - 60000 > (now as i128)
}

/// Seconds the refresher waits before refreshing a token expiring at `expires_at`
/// (`None`: no token yet), at `now` (milliseconds): until a minute before expiry, in
/// whole seconds, and not at all when that moment has passed.
pub fn refresh_wait_seconds(expires_at: Option<i64>, now: i64) -> (r: u64)
    ensures
        match expires_at {
            None => r == 0,
            Some(e) => if e - refresh_margin_ms() <= now {
                r == 0
            } else {
                r == (e - refresh_margin_ms() - now) / 1000
            },
        },
{
    match expires_at {
        None => 0,
        Some(e) => {
            let at: i128 = (e as i128) - 60000;
            if at <= (now as i128) {
                0
            } else {
                let secs: i128 = (at - (now as i128)) / 1000;
                assert(secs <= u64::MAX);
                secs as u64
            }
        },
    }
}

/// The refresher's backoff after a failed refresh: doubled, at most ten minutes.
pub fn next_refresh_backoff(backoff: u64) -> (r: u64)
    ensures
        r as int == if 2 * backoff < 600 {
            2 * backoff
        } else {
            600
        },
{
    if backoff < 300 {
        backoff * 2
    } else {
        600
    }
}

} // verus!
