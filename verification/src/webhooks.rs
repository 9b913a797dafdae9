//! Twitch EventSub webhooks: checking a delivery's signature and age, the events it
//! carries, and what a channel update or a redemption leads to.
use vstd::prelude::*;

use crate::crypto::{hex_decode, hex_decoded, hex_lower, hmac_sha256, hmac_sha256_matches, lemma_hex_round_trip};
use crate::error::AppError;
use crate::notifications::{CategoryChangeData, TitleChangeData};
use crate::text::{concat2, contains_seq, decimal_text, i32_to_text, owned, replace_all, replace_str, starts_with, str_contains, str_equal, str_starts_with};
use vstd::utf8::encode_utf8;

verus! {

broadcast use vstd::string::group_string_axioms;

/// A stream went live.
#[derive(Debug, Clone, PartialEq, Eq)]
pub struct StreamOnlineEvent {
    pub broadcaster_user_id: String,
    pub broadcaster_user_name: String,
}

/// A stream ended.
#[derive(Debug, Clone, PartialEq, Eq)]
pub struct StreamOfflineEvent {
    pub broadcaster_user_id: String,
    pub broadcaster_user_name: String,
}

/// The channel's title or category changed.
#[derive(Debug, Clone, PartialEq, Eq)]
pub struct ChannelUpdateEvent {
    pub broadcaster_user_id: String,
    pub broadcaster_user_name: String,
    pub title: String,
    pub category_id: String,
    pub category_name: String,
}

/// A viewer redeemed a channel-points reward.
#[derive(Debug, Clone, PartialEq, Eq)]
pub struct ChannelPointsRedemptionEvent {
    pub broadcaster_user_id: String,
    pub broadcaster_user_name: String,
    pub user_name: String,
    pub user_input: Option<String>,
    pub reward: RewardInfo,
}

/// The redeemed reward.
#[derive(Debug, Clone, PartialEq, Eq)]
pub struct RewardInfo {
    pub title: String,
    pub cost: i32,
}

/// The webhook handlers.
pub struct WebhookService;

/// Header carrying the delivery id.
pub const MESSAGE_ID_HEADER: &'static str = "twitch-eventsub-message-id";

/// Header carrying the delivery time (RFC 3339).
pub const MESSAGE_TIMESTAMP_HEADER: &'static str = "twitch-eventsub-message-timestamp";

/// Header carrying the signature (`sha256=<hex>`).
pub const MESSAGE_SIGNATURE_HEADER: &'static str = "twitch-eventsub-message-signature";

/// Header carrying the kind of delivery.
pub const MESSAGE_TYPE_HEADER: &'static str = "twitch-eventsub-message-type";

/// The answer to a missing header.
pub fn missing_header_error(name: &str) -> (r: AppError)
    ensures
        r matches AppError::BadRequest(m) && m@ == "Missing header: "@ + name@,
{
    AppError::BadRequest(concat2("Missing header: ", name))
}

/// The instant an RFC 3339 text stands for, in milliseconds since the epoch, as
/// `chrono::DateTime::parse_from_rfc3339` reads it (`None` when it does not parse).
pub uninterp spec fn rfc3339_millis(text: Seq<char>) -> Option<int>;

/// `chrono::DateTime::parse_from_rfc3339`, then `timestamp_millis`: the instant of an
/// RFC 3339 text in milliseconds since the epoch.
#[verifier::external_body]
pub(crate) fn parse_rfc3339_millis(text: &str) -> (r: Option<i64>)
    ensures
        match r {
            Some(t) => rfc3339_millis(text@) == Some(t as int),
            None => rfc3339_millis(text@) is None,
        },
{
    match chrono::DateTime::parse_from_rfc3339(text) {
        Ok(dt) => Some(dt.timestamp_millis()),
        Err(_) => None,
    }
}

/// The bytes a delivery is signed over: its id, its timestamp and its body.
pub open spec fn signed_message(message_id: Seq<char>, timestamp: Seq<char>, body: Seq<u8>) -> Seq<
    u8,
> {
    encode_utf8(message_id) + encode_utf8(timestamp) + body
}

/// Whole minutes between two instants, rounded toward zero, without sign.
pub open spec fn minutes_apart(now: int, then: int) -> int {
    let d = now - then;
    if d >= 0 {
        d / 60000
    } else {
        (-d) / 60000
    }
}

/// Why a delivery is refused.
#[derive(Debug, Clone, Copy, PartialEq, Eq, Structural)]
pub enum SignatureRefusal {
    /// The signature is not of the form `sha256=<hex>`.
    BadFormat,
    /// The signature does not match.
    Mismatch,
    /// The delivery is more than ten minutes away from now.
    TooOld,
}

/// Why a delivery is refused, if it is: a signature not of the form `sha256=<hex>`, a
/// signature that does not match the HMAC-SHA256 of the delivery under the secret, a
/// timestamp more than ten whole minutes away from `now` (a timestamp that does not parse
/// is not checked).
pub open spec fn signature_refusal(
    secret: Seq<char>,
    message_id: Seq<char>,
    timestamp: Seq<char>,
    body: Seq<u8>,
    signature: Seq<char>,
    now: int,
) -> Option<SignatureRefusal> {
    if !starts_with(signature, "sha256="@) {
        Some(SignatureRefusal::BadFormat)
    } else {
        match hex_decoded(signature.skip(7)) {
            None => Some(SignatureRefusal::BadFormat),
            Some(expected) => if hmac_sha256(
                encode_utf8(secret),
                signed_message(message_id, timestamp, body),
            ) != expected {
                Some(SignatureRefusal::Mismatch)
            } else {
                match rfc3339_millis(timestamp) {
                    Some(t) => if minutes_apart(now, t) > 10 {
                        Some(SignatureRefusal::TooOld)
                    } else {
                        None
                    },
                    None => None,
                }
            },
        }
    }
}

/// The error a refusal is answered with.
pub open spec fn refusal_error_is(e: AppError, why: SignatureRefusal) -> bool {
    match why {
        SignatureRefusal::BadFormat => e matches AppError::BadRequest(m) && m@
            == "Invalid signature format"@,
        SignatureRefusal::Mismatch => e == AppError::Unauthorized,
        SignatureRefusal::TooOld => e matches AppError::BadRequest(m) && m@ == "Message too old"@,
    }
}

/// Checks that a webhook delivery comes from Twitch (its signature) and is recent
/// (`now`: milliseconds since the epoch).
pub fn verify_signature(
    secret: &str,
    message_id: &str,
    timestamp: &str,
    body: &[u8],
    signature: &str,
    now: i64,
) -> (r: Result<(), AppError>)
    ensures
        match signature_refusal(secret@, message_id@, timestamp@, body@, signature@, now as int) {
            None => r is Ok,
            Some(why) => r matches Err(e) && refusal_error_is(e, why),
        },
{
    proof {
        reveal_strlit("sha256=");
    }
    let mut message: Vec<u8> = Vec::new();
    let mut k: usize = 0;
    let idb = message_id.as_bytes();
    let tsb = timestamp.as_bytes();
    while k < idb.len()
        invariant
            k <= idb.len(),
            message@ == idb@.take(k as int),
        decreases idb.len() - k,
    {
        message.push(idb[k]);
        k = k + 1;
        assert(message@ =~= idb@.take(k as int));
    }
    let mut k: usize = 0;
    while k < tsb.len()
        invariant
            k <= tsb.len(),
            message@ == idb@ + tsb@.take(k as int),
        decreases tsb.len() - k,
    {
        message.push(tsb[k]);
        k = k + 1;
        assert(message@ =~= idb@ + tsb@.take(k as int));
    }
    let mut k: usize = 0;
    while k < body.len()
        invariant
            k <= body.len(),
            message@ == idb@ + tsb@ + body@.take(k as int),
        decreases body.len() - k,
    {
        message.push(body[k]);
        k = k + 1;
        assert(message@ =~= idb@ + tsb@ + body@.take(k as int));
    }
    assert(idb@.take(idb@.len() as int) =~= idb@);
    assert(tsb@.take(tsb@.len() as int) =~= tsb@);
    assert(body@.take(body@.len() as int) =~= body@);
    assert(message@ =~= signed_message(message_id@, timestamp@, body@));
    if !str_starts_with(signature, "sha256=") {
        return Err(AppError::BadRequest(owned("Invalid signature format")));
    }
    let sv = crate::text::chars_of(signature);
    let mut hex_part: Vec<char> = Vec::new();
    let mut i: usize = 7;
    while i < sv.len()
        invariant
            7 <= i <= sv.len(),
            hex_part@ == sv@.subrange(7, i as int),
        decreases sv.len() - i,
    {
        hex_part.push(sv[i]);
        i = i + 1;
        assert(hex_part@ =~= sv@.subrange(7, i as int));
    }
    assert(hex_part@ =~= signature@.skip(7));
    let hex_text = crate::text::string_of(hex_part.as_slice());
    let expected = match hex_decode(hex_text.as_str()) {
        Some(b) => b,
        None => {
            return Err(AppError::BadRequest(owned("Invalid signature format")));
        },
    };
    match hmac_sha256_matches(secret.as_bytes(), message.as_slice(), expected.as_slice()) {
        Ok(true) => {},
        _ => {
            return Err(AppError::Unauthorized);
        },
    }
    match parse_rfc3339_millis(timestamp) {
        Some(t) => {
            let d: i128 = (now as i128) - (t as i128);
            let mins: i128 = if d >= 0 {
                d / 60000
            } else {
                (-d) / 60000
            };
            if mins > 10 {
                return Err(AppError::BadRequest(owned("Message too old")));
            }
        },
        None => {},
    }
    Ok(())
}

// ---------------------------------------------------------------------------
// What an event leads to
// ---------------------------------------------------------------------------

/// What changed in a channel update, given the title and category id last seen for the
/// channel (empty when none was seen): `(title changed, category changed)`. A first
/// update changes nothing.
pub open spec fn channel_changes_spec(
    previous: Option<(Seq<char>, Seq<char>)>,
    title: Seq<char>,
    category_id: Seq<char>,
) -> (bool, bool) {
    let (pt, pc) = match previous {
        Some(p) => p,
        None => (Seq::empty(), Seq::empty()),
    };
    (pt.len() > 0 && pt != title, pc.len() > 0 && pc != category_id)
}

/// What changed in a channel update: `(title changed, category changed)`.
pub fn channel_changes(previous: Option<&(String, String)>, event: &ChannelUpdateEvent) -> (r: (
    bool,
    bool,
))
    ensures
        r == channel_changes_spec(
            match previous {
                Some(p) => Some((p.0@, p.1@)),
                None => None,
            },
            event.title@,
            event.category_id@,
        ),
{
    match previous {
        Some(p) => (
            !p.0.as_str().is_empty() && !str_equal(p.0.as_str(), event.title.as_str()),
            !p.1.as_str().is_empty() && !str_equal(p.1.as_str(), event.category_id.as_str()),
        ),
        None => (false, false),
    }
}

/// Is a cached stream state (cached at `cached_at`) still trusted at `now` (both in
/// milliseconds)? For one minute: whole seconds of age at most 60.
pub fn cache_fresh(cached_at: i64, now: i64) -> (r: bool)
    ensures
        r == ({
            let d = now - cached_at;
            if d >= 0 {
                d / 1000 <= 60
            } else {
                true
            }
        }),
{
    let d: i128 = (now as i128) - (cached_at as i128);
    if d >= 0 {
        d / 1000 <= 60
    } else {
        true
    }
}

/// Does a user access token expiring at `expires_at` need a refresh at `now` (within a
/// minute of expiry; both in milliseconds)?
pub fn token_needs_refresh(expires_at: i64, now: i64) -> (r: bool)
    ensures
        r == (expires_at - 60000 <= now),
{
    (expires_at as i128) - 60000 <= (now as i128)
}

/// Does a Twitch API error say the token was refused?
pub fn is_unauthorized_message(msg: &str) -> (r: bool)
    ensures
        r == (contains_seq(msg@, "401"@) || contains_seq(msg@, "Unauthorized"@)),
{
    str_contains(msg, "401") || str_contains(msg, "Unauthorized")
}

/// The avatar shown for a streamer: the profile image, unless it is empty.
pub fn streamer_avatar(profile_image_url: &str) -> (r: Option<String>)
    ensures
        profile_image_url@.len() == 0 ==> r is None,
        profile_image_url@.len() > 0 ==> (r matches Some(a) && a@ == profile_image_url@),
{
    if profile_image_url.is_empty() {
        None
    } else {
        Some(owned(profile_image_url))
    }
}

/// Title, category and thumbnail of a live stream, or the stand-ins used when the stream
/// could not be read.
pub fn stream_info_or_default(stream: Option<&crate::twitch::Stream>) -> (r: (
    String,
    String,
    Option<String>,
))
    ensures
        match stream {
            Some(s) => r.0 == s.title && r.1 == s.game_name && r.2 == Some(s.thumbnail_url),
            None => r.0@ == "Stream started!"@ && r.1@ == "Unknown"@ && r.2 is None,
        },
{
    match stream {
        Some(s) => (s.title.clone(), s.game_name.clone(), Some(s.thumbnail_url.clone())),
        None => (owned("Stream started!"), owned("Unknown"), None),
    }
}

/// The chat message announcing a redemption, from the user's template.
pub fn reward_chat_message(template: &str, redeemer: &str, reward: &str, cost: i32) -> (r: String)
    ensures
        r@ == replace_all(
            replace_all(replace_all(template@, "{user}"@, redeemer@), "{reward}"@, reward@),
            "{cost}"@,
            decimal_text(cost as int),
        ),
{
    proof {
        reveal_strlit("{user}");
        reveal_strlit("{reward}");
        reveal_strlit("{cost}");
    }
    let s = replace_str(template, "{user}", redeemer);
    let s = replace_str(s.as_str(), "{reward}", reward);
    let c = i32_to_text(cost);
    replace_str(s.as_str(), "{cost}", c.as_str())
}

/// Which handler an event of a subscription type goes to.
#[derive(Debug, Clone, Copy, PartialEq, Eq, Structural)]
pub enum EventKind {
    StreamOnline,
    StreamOffline,
    ChannelUpdate,
    RewardRedemption,
    Unhandled,
}

/// The handler of events of a subscription type.
pub fn event_kind(subscription_type: &str) -> (r: EventKind)
    ensures
        r == if subscription_type@ == "stream.online"@ {
            EventKind::StreamOnline
        } else if subscription_type@ == "stream.offline"@ {
            EventKind::StreamOffline
        } else if subscription_type@ == "channel.update"@ {
            EventKind::ChannelUpdate
        } else if subscription_type@ == "channel.channel_points_custom_reward_redemption.add"@ {
            EventKind::RewardRedemption
        } else {
            EventKind::Unhandled
        },
{
    if str_equal(subscription_type, "stream.online") {
        EventKind::StreamOnline
    } else if str_equal(subscription_type, "stream.offline") {
        EventKind::StreamOffline
    } else if str_equal(subscription_type, "channel.update") {
        EventKind::ChannelUpdate
    } else if str_equal(subscription_type, "channel.channel_points_custom_reward_redemption.add") {
        EventKind::RewardRedemption
    } else {
        EventKind::Unhandled
    }
}

/// The signature Twitch sends with a delivery: `sha256=` and the lower-case hexadecimal
/// HMAC-SHA256 of its id, timestamp and body under the shared secret.
pub open spec fn genuine_signature(
    secret: Seq<char>,
    message_id: Seq<char>,
    timestamp: Seq<char>,
    body: Seq<u8>,
) -> Seq<char> {
    "sha256="@ + hex_lower(hmac_sha256(encode_utf8(secret), signed_message(message_id, timestamp, body)))
}

/// A delivery carrying its genuine signature is accepted when its timestamp does not parse
/// or is at most ten minutes from now; a well-formed signature of any other bytes is
/// refused as a mismatch.
pub proof fn law_genuine_signature_accepted(
    secret: Seq<char>,
    message_id: Seq<char>,
    timestamp: Seq<char>,
    body: Seq<u8>,
    now: int,
    forged: Seq<u8>,
)
    requires
        match rfc3339_millis(timestamp) {
            Some(t) => minutes_apart(now, t) <= 10,
            None => true,
        },
        forged != hmac_sha256(encode_utf8(secret), signed_message(message_id, timestamp, body)),
    ensures
        signature_refusal(
            secret,
            message_id,
            timestamp,
            body,
            genuine_signature(secret, message_id, timestamp, body),
            now,
        ) is None,
        signature_refusal(secret, message_id, timestamp, body, "sha256="@ + hex_lower(forged), now)
            == Some(SignatureRefusal::Mismatch),
{
    reveal_strlit("sha256=");
    let tag = hmac_sha256(encode_utf8(secret), signed_message(message_id, timestamp, body));
    lemma_hex_round_trip(tag);
    lemma_hex_round_trip(forged);
    let good = genuine_signature(secret, message_id, timestamp, body);
    let bad = "sha256="@ + hex_lower(forged);
    assert(good.take(7) =~= "sha256="@);
    assert(good.skip(7) =~= hex_lower(tag));
    assert(bad.take(7) =~= "sha256="@);
    assert(bad.skip(7) =~= hex_lower(forged));
}

// ---------------------------------------------------------------------------
// A channel update, one outside call at a time
// ---------------------------------------------------------------------------

/// Where the handling of a channel update stands.
#[derive(Debug, Clone, PartialEq, Eq)]
pub enum ChannelUpdatePhase {
    /// The title and category last seen for the channel are being read.
    Start(ChannelUpdateEvent),
    /// The new title and category are being remembered for the channel.
    Remembering { update: ChannelUpdateEvent, title_changed: bool, category_changed: bool },
    /// The channel's user is being looked up.
    AwaitUser { update: ChannelUpdateEvent, title_changed: bool, category_changed: bool },
    /// Whether the channel is live is being checked.
    AwaitLive { update: ChannelUpdateEvent, title_changed: bool, category_changed: bool },
    /// The title change is being sent.
    AwaitTitleSent { update: ChannelUpdateEvent, category_changed: bool },
    /// The category change is being sent.
    AwaitCategorySent,
    /// Nothing is left to do.
    Done,
}

/// What the outside world answered.
#[derive(Debug, Clone, PartialEq, Eq)]
pub enum ChannelUpdateAnswer {
    /// The title and category id last seen for the channel, if any.
    Seen(Option<(String, String)>),
    /// The new title and category were remembered.
    Remembered,
    /// Whether the channel's user exists.
    UserFound(bool),
    /// Whether the channel is live.
    Live(bool),
    /// Whether the notification was sent without an error.
    Sent(bool),
}

/// What to do next.
#[derive(Debug, Clone, PartialEq, Eq)]
pub enum ChannelUpdateAction {
    /// Remember this title and category id as the channel's last seen ones.
    Remember { title: String, category_id: String },
    /// Look up the user of the channel.
    LoadUser,
    /// Check whether the channel is live.
    CheckLive,
    /// Send a title change.
    SendTitleChange(TitleChangeData),
    /// Send a category change.
    SendCategoryChange(CategoryChangeData),
    /// The handling is over.
    Finish,
}

/// The views of a cache entry.
pub open spec fn seen_view(seen: Option<(String, String)>) -> Option<(Seq<char>, Seq<char>)> {
    match seen {
        Some(p) => Some((p.0@, p.1@)),
        None => None,
    }
}

/// The title change sent for `u`.
pub open spec fn is_title_change_of(d: TitleChangeData, u: ChannelUpdateEvent) -> bool {
    d.streamer_name@ == u.broadcaster_user_name@ && d.new_title@ == u.title@ && d.category_name@
        == u.category_name@
}

/// The category change sent for `u`.
pub open spec fn is_category_change_of(d: CategoryChangeData, u: ChannelUpdateEvent) -> bool {
    d.streamer_name@ == u.broadcaster_user_name@ && d.new_category@ == u.category_name@
}

/// Sending what changed once the user is known to exist and to be live: the title
/// change first, then the category change.
pub open spec fn channel_sends_from(
    update: ChannelUpdateEvent,
    title_changed: bool,
    category_changed: bool,
    r: (ChannelUpdatePhase, ChannelUpdateAction),
) -> bool {
    if title_changed {
        &&& r.0 == (ChannelUpdatePhase::AwaitTitleSent { update, category_changed })
        &&& r.1 matches ChannelUpdateAction::SendTitleChange(d) && is_title_change_of(d, update)
    } else if category_changed {
        &&& r.0 == ChannelUpdatePhase::AwaitCategorySent
        &&& r.1 matches ChannelUpdateAction::SendCategoryChange(d) && is_category_change_of(d, update)
    } else {
        r == (ChannelUpdatePhase::Done, ChannelUpdateAction::Finish)
    }
}

/// One step of handling a channel update. The channel's new title and category are
/// always remembered; a change is sent only when a non-empty value was seen before and
/// differs, the user exists and the channel is live; the first update seen never
/// sends anything, and a failed send stops the handling.
pub open spec fn channel_update_step_is(
    phase: ChannelUpdatePhase,
    answer: ChannelUpdateAnswer,
    r: (ChannelUpdatePhase, ChannelUpdateAction),
) -> bool {
    match (phase, answer) {
        (ChannelUpdatePhase::Start(update), ChannelUpdateAnswer::Seen(seen)) => {
            let changes = channel_changes_spec(seen_view(seen), update.title@, update.category_id@);
            &&& r.0 == (ChannelUpdatePhase::Remembering {
                update,
                title_changed: changes.0,
                category_changed: changes.1,
            })
            &&& r.1 matches ChannelUpdateAction::Remember { title, category_id } && title@
                == update.title@ && category_id@ == update.category_id@
        },
        (
            ChannelUpdatePhase::Remembering { update, title_changed, category_changed },
            ChannelUpdateAnswer::Remembered,
        ) => if title_changed || category_changed {
            r == (ChannelUpdatePhase::AwaitUser { update, title_changed, category_changed }, ChannelUpdateAction::LoadUser)
        } else {
            r == (ChannelUpdatePhase::Done, ChannelUpdateAction::Finish)
        },
        (
            ChannelUpdatePhase::AwaitUser { update, title_changed, category_changed },
            ChannelUpdateAnswer::UserFound(found),
        ) => if found {
            r == (ChannelUpdatePhase::AwaitLive { update, title_changed, category_changed }, ChannelUpdateAction::CheckLive)
        } else {
            r == (ChannelUpdatePhase::Done, ChannelUpdateAction::Finish)
        },
        (
            ChannelUpdatePhase::AwaitLive { update, title_changed, category_changed },
            ChannelUpdateAnswer::Live(live),
        ) => if live {
            channel_sends_from(update, title_changed, category_changed, r)
        } else {
            r == (ChannelUpdatePhase::Done, ChannelUpdateAction::Finish)
        },
        (ChannelUpdatePhase::AwaitTitleSent { update, category_changed }, ChannelUpdateAnswer::Sent(ok)) => if ok {
            channel_sends_from(update, false, category_changed, r)
        } else {
            r == (ChannelUpdatePhase::Done, ChannelUpdateAction::Finish)
        },
        _ => r == (ChannelUpdatePhase::Done, ChannelUpdateAction::Finish),
    }
}

fn title_change_of(u: &ChannelUpdateEvent) -> (d: TitleChangeData)
    ensures
        is_title_change_of(d, *u),
{
    TitleChangeData {
        streamer_name: u.broadcaster_user_name.clone(),
        new_title: u.title.clone(),
        category_name: u.category_name.clone(),
    }
}

fn category_change_of(u: &ChannelUpdateEvent) -> (d: CategoryChangeData)
    ensures
        is_category_change_of(d, *u),
{
    CategoryChangeData { streamer_name: u.broadcaster_user_name.clone(), new_category: u.category_name.clone() }
}

fn channel_sends(update: ChannelUpdateEvent, title_changed: bool, category_changed: bool) -> (r: (
    ChannelUpdatePhase,
    ChannelUpdateAction,
))
    ensures
        channel_sends_from(update, title_changed, category_changed, r),
{
    if title_changed {
        let d = title_change_of(&update);
        (ChannelUpdatePhase::AwaitTitleSent { update, category_changed }, ChannelUpdateAction::SendTitleChange(d))
    } else if category_changed {
        let d = category_change_of(&update);
        (ChannelUpdatePhase::AwaitCategorySent, ChannelUpdateAction::SendCategoryChange(d))
    } else {
        (ChannelUpdatePhase::Done, ChannelUpdateAction::Finish)
    }
}

/// One step of handling a channel update: from where it stands and what the outside
/// world answered to the next phase and the next outside call.
pub fn channel_update_step(phase: ChannelUpdatePhase, answer: ChannelUpdateAnswer) -> (r: (
    ChannelUpdatePhase,
    ChannelUpdateAction,
))
    ensures
        channel_update_step_is(phase, answer, r),
{
    match (phase, answer) {
        (ChannelUpdatePhase::Start(update), ChannelUpdateAnswer::Seen(seen)) => {
            let (title_changed, category_changed) = channel_changes(seen.as_ref(), &update);
            let title = update.title.clone();
            let category_id = update.category_id.clone();
            (
                ChannelUpdatePhase::Remembering { update, title_changed, category_changed },
                ChannelUpdateAction::Remember { title, category_id },
            )
        },
        (
            ChannelUpdatePhase::Remembering { update, title_changed, category_changed },
            ChannelUpdateAnswer::Remembered,
        ) => if title_changed || category_changed {
            (ChannelUpdatePhase::AwaitUser { update, title_changed, category_changed }, ChannelUpdateAction::LoadUser)
        } else {
            (ChannelUpdatePhase::Done, ChannelUpdateAction::Finish)
        },
        (
            ChannelUpdatePhase::AwaitUser { update, title_changed, category_changed },
            ChannelUpdateAnswer::UserFound(found),
        ) => if found {
            (ChannelUpdatePhase::AwaitLive { update, title_changed, category_changed }, ChannelUpdateAction::CheckLive)
        } else {
            (ChannelUpdatePhase::Done, ChannelUpdateAction::Finish)
        },
        (
            ChannelUpdatePhase::AwaitLive { update, title_changed, category_changed },
            ChannelUpdateAnswer::Live(live),
        ) => if live {
            channel_sends(update, title_changed, category_changed)
        } else {
            (ChannelUpdatePhase::Done, ChannelUpdateAction::Finish)
        },
        (ChannelUpdatePhase::AwaitTitleSent { update, category_changed }, ChannelUpdateAnswer::Sent(ok)) => if ok {
            channel_sends(update, false, category_changed)
        } else {
            (ChannelUpdatePhase::Done, ChannelUpdateAction::Finish)
        },
        _ => (ChannelUpdatePhase::Done, ChannelUpdateAction::Finish),
    }
}

/// A category change is sent while the channel is live: when the category id seen
/// before is non-empty and differs from the update's, the handling looks the user up
/// and checks the stream, and, the user existing and the stream live, sends the
/// category change: at once when the title did not change, right after the title
/// change when it did.
pub proof fn law_category_change_is_sent(
    update: ChannelUpdateEvent,
    seen_title: String,
    seen_category: String,
    r1: (ChannelUpdatePhase, ChannelUpdateAction),
    r2: (ChannelUpdatePhase, ChannelUpdateAction),
    r3: (ChannelUpdatePhase, ChannelUpdateAction),
    r4: (ChannelUpdatePhase, ChannelUpdateAction),
    r5: (ChannelUpdatePhase, ChannelUpdateAction),
)
    requires
        seen_category@.len() > 0,
        seen_category@ != update.category_id@,
        channel_update_step_is(
            ChannelUpdatePhase::Start(update),
            ChannelUpdateAnswer::Seen(Some((seen_title, seen_category))),
            r1,
        ),
        channel_update_step_is(r1.0, ChannelUpdateAnswer::Remembered, r2),
        channel_update_step_is(r2.0, ChannelUpdateAnswer::UserFound(true), r3),
        channel_update_step_is(r3.0, ChannelUpdateAnswer::Live(true), r4),
        channel_update_step_is(r4.0, ChannelUpdateAnswer::Sent(true), r5),
    ensures
        r2.1 == ChannelUpdateAction::LoadUser,
        r3.1 == ChannelUpdateAction::CheckLive,
        seen_title@.len() == 0 || seen_title@ == update.title@ ==> (r4.1 matches ChannelUpdateAction::SendCategoryChange(d)
            && d.new_category@ == update.category_name@ && d.streamer_name@ == update.broadcaster_user_name@),
        seen_title@.len() > 0 && seen_title@ != update.title@ ==> (r4.1 matches ChannelUpdateAction::SendTitleChange(t)
            && t.new_title@ == update.title@) && (r5.1 matches ChannelUpdateAction::SendCategoryChange(d)
            && d.new_category@ == update.category_name@ && d.streamer_name@ == update.broadcaster_user_name@),
{
}

/// The first update seen for a channel sends nothing: with nothing seen before, the
/// handling remembers the new values and then finishes.
pub proof fn law_first_channel_update_is_silent(update: ChannelUpdateEvent, r1: (ChannelUpdatePhase, ChannelUpdateAction), r2: (ChannelUpdatePhase, ChannelUpdateAction))
    requires
        channel_update_step_is(ChannelUpdatePhase::Start(update), ChannelUpdateAnswer::Seen(None), r1),
        channel_update_step_is(r1.0, ChannelUpdateAnswer::Remembered, r2),
    ensures
        r1.1 matches ChannelUpdateAction::Remember { title, category_id } && title@ == update.title@
            && category_id@ == update.category_id@,
        r2 == (ChannelUpdatePhase::Done, ChannelUpdateAction::Finish),
{
}

// ---------------------------------------------------------------------------
// A Twitch call made with the user's token, one outside call at a time
// ---------------------------------------------------------------------------

/// Where a Twitch call made with a user's token stands.
#[derive(Debug, Clone, PartialEq, Eq)]
pub enum TokenCallPhase {
    /// Nothing asked yet.
    Start,
    /// The token, about to expire, is being refreshed before the call.
    AwaitEarlyRefresh { access_token: String, refresh_token: String },
    /// The call is being made; `refresh_token` is the one to use if Twitch refuses it.
    AwaitAnswer { refresh_token: String },
    /// Twitch refused the token; it is being refreshed for one more try.
    AwaitRetryRefresh,
    /// The call is being made once more with the refreshed token.
    AwaitRetry,
    /// The last answer is the call's answer.
    Done,
}

/// What the outside world answered.
#[derive(Debug, Clone, PartialEq, Eq)]
pub enum TokenCallEvent {
    /// The user's tokens, when the access token expires (milliseconds), and the time.
    Begin { access_token: String, refresh_token: String, expires_at: i64, now: i64 },
    /// The refreshed tokens `(access, refresh)`, or `None` when refreshing failed.
    Refreshed(Option<(String, String)>),
    /// The call was answered; `twitch_error` holds the message of a Twitch API error.
    Answered { twitch_error: Option<String> },
}

/// What to do next.
#[derive(Debug, Clone, PartialEq, Eq)]
pub enum TokenCallAction {
    /// Refresh the tokens with this refresh token (and store them).
    Refresh(String),
    /// Make the call with this access token.
    Call(String),
    /// The last answer stands.
    Finish,
}

/// Is this a Twitch error that refused the token?
pub open spec fn refused_token(twitch_error: Option<String>) -> bool {
    match twitch_error {
        Some(m) => contains_seq(m@, "401"@) || contains_seq(m@, "Unauthorized"@),
        None => false,
    }
}

/// One step of a Twitch call made with a user's token. A token that expires within a
/// minute is refreshed first (a failed refresh keeps the old one); when Twitch refuses
/// the token, it is refreshed once more and the call made again, whose answer stands;
/// when that refresh fails, the refusal stands.
pub open spec fn token_call_step_is(phase: TokenCallPhase, event: TokenCallEvent, r: (TokenCallPhase, TokenCallAction)) -> bool {
    match (phase, event) {
        (TokenCallPhase::Start, TokenCallEvent::Begin { access_token, refresh_token, expires_at, now }) => if expires_at
            - 60000 <= now {
            r == (
                TokenCallPhase::AwaitEarlyRefresh { access_token, refresh_token },
                TokenCallAction::Refresh(refresh_token),
            )
        } else {
            r == (TokenCallPhase::AwaitAnswer { refresh_token }, TokenCallAction::Call(access_token))
        },
        (TokenCallPhase::AwaitEarlyRefresh { access_token, refresh_token }, TokenCallEvent::Refreshed(fresh)) => match fresh {
            Some((a, f)) => r == (TokenCallPhase::AwaitAnswer { refresh_token: f }, TokenCallAction::Call(a)),
            None => r == (TokenCallPhase::AwaitAnswer { refresh_token }, TokenCallAction::Call(access_token)),
        },
        (TokenCallPhase::AwaitAnswer { refresh_token }, TokenCallEvent::Answered { twitch_error }) => if refused_token(
            twitch_error,
        ) {
            r == (TokenCallPhase::AwaitRetryRefresh, TokenCallAction::Refresh(refresh_token))
        } else {
            r == (TokenCallPhase::Done, TokenCallAction::Finish)
        },
        (TokenCallPhase::AwaitRetryRefresh, TokenCallEvent::Refreshed(Some((a, _)))) => r == (
            TokenCallPhase::AwaitRetry,
            TokenCallAction::Call(a),
        ),
        _ => r == (TokenCallPhase::Done, TokenCallAction::Finish),
    }
}

/// One step of a Twitch call made with a user's token: from where it stands and what
/// the outside world answered to the next phase and the next outside call.
pub fn token_call_step(phase: TokenCallPhase, event: TokenCallEvent) -> (r: (TokenCallPhase, TokenCallAction))
    ensures
        token_call_step_is(phase, event, r),
{
    match (phase, event) {
        (TokenCallPhase::Start, TokenCallEvent::Begin { access_token, refresh_token, expires_at, now }) => if token_needs_refresh(
            expires_at,
            now,
        ) {
            let again = refresh_token.clone();
            (
                TokenCallPhase::AwaitEarlyRefresh { access_token, refresh_token },
                TokenCallAction::Refresh(again),
            )
        } else {
            (TokenCallPhase::AwaitAnswer { refresh_token }, TokenCallAction::Call(access_token))
        },
        (TokenCallPhase::AwaitEarlyRefresh { access_token, refresh_token }, TokenCallEvent::Refreshed(fresh)) => match fresh {
            Some((a, f)) => (TokenCallPhase::AwaitAnswer { refresh_token: f }, TokenCallAction::Call(a)),
            None => (TokenCallPhase::AwaitAnswer { refresh_token }, TokenCallAction::Call(access_token)),
        },
        (TokenCallPhase::AwaitAnswer { refresh_token }, TokenCallEvent::Answered { twitch_error }) => {
            let refused = match &twitch_error {
                Some(m) => is_unauthorized_message(m.as_str()),
                None => false,
            };
            if refused {
                (TokenCallPhase::AwaitRetryRefresh, TokenCallAction::Refresh(refresh_token))
            } else {
                (TokenCallPhase::Done, TokenCallAction::Finish)
            }
        },
        (TokenCallPhase::AwaitRetryRefresh, TokenCallEvent::Refreshed(Some((a, _)))) => (
            TokenCallPhase::AwaitRetry,
            TokenCallAction::Call(a),
        ),
        _ => (TokenCallPhase::Done, TokenCallAction::Finish),
    }
}

} // verus!
