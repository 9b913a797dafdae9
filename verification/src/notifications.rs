//! Stream notifications: what each kind of event carries, how a user's template is
//! filled in, which integrations receive it, how a failed delivery is judged and retried.
use vstd::prelude::*;

use crate::config::NotificationRetryConfig;
use vstd::arithmetic::power2::{lemma_pow2_strictly_increases, lemma_pow2_unfold, pow2};
use crate::models::{
    CreateNotificationLog, CreateNotificationTask, DiscordIntegration, NotificationLog, NotificationTask,
    NotificationSettings, TelegramIntegration,
};
use crate::numbers::{parse_u16, parsed_unsigned};
use crate::text::{
    chars_of, contains_seq, decimal_text, find_char, i32_to_text, index_of, owned, replace_all,
    replace_str, str_contains, str_equal, string_of, to_lowercase, unicode_lowercase,
};

verus! {

broadcast use vstd::string::group_string_axioms;

/// The kinds of notification.
#[derive(Debug, Clone, Copy, PartialEq, Eq, Structural)]
pub enum NotificationType {
    StreamOnline,
    StreamOffline,
    TitleChange,
    CategoryChange,
    RewardRedemption,
}

/// The name a kind is stored and logged under.
pub open spec fn notification_type_name(t: NotificationType) -> Seq<char> {
    match t {
        NotificationType::StreamOnline => "stream_online"@,
        NotificationType::StreamOffline => "stream_offline"@,
        NotificationType::TitleChange => "title_change"@,
        NotificationType::CategoryChange => "category_change"@,
        NotificationType::RewardRedemption => "reward_redemption"@,
    }
}

/// The kind stored under `name`, if any.
pub open spec fn notification_type_named(name: Seq<char>) -> Option<NotificationType> {
    if name == "stream_online"@ {
        Some(NotificationType::StreamOnline)
    } else if name == "stream_offline"@ {
        Some(NotificationType::StreamOffline)
    } else if name == "title_change"@ {
        Some(NotificationType::TitleChange)
    } else if name == "category_change"@ {
        Some(NotificationType::CategoryChange)
    } else if name == "reward_redemption"@ {
        Some(NotificationType::RewardRedemption)
    } else {
        None
    }
}

impl NotificationType {
    /// The name the kind is stored and logged under.
    pub fn as_str(&self) -> (r: &'static str)
        ensures
            r@ == notification_type_name(*self),
    {
        match self {
            NotificationType::StreamOnline => "stream_online",
            NotificationType::StreamOffline => "stream_offline",
            NotificationType::TitleChange => "title_change",
            NotificationType::CategoryChange => "category_change",
            NotificationType::RewardRedemption => "reward_redemption",
        }
    }

    /// The kind stored under `name`, if any.
    pub fn from_name(name: &str) -> (r: Option<NotificationType>)
        ensures
            r == notification_type_named(name@),
    {
        if str_equal(name, "stream_online") {
            Some(NotificationType::StreamOnline)
        } else if str_equal(name, "stream_offline") {
            Some(NotificationType::StreamOffline)
        } else if str_equal(name, "title_change") {
            Some(NotificationType::TitleChange)
        } else if str_equal(name, "category_change") {
            Some(NotificationType::CategoryChange)
        } else if str_equal(name, "reward_redemption") {
            Some(NotificationType::RewardRedemption)
        } else {
            None
        }
    }
}

/// Reading back the name of any notification kind gives that kind.
pub proof fn law_notification_type_name_round_trip(t: NotificationType)
    ensures
        notification_type_named(notification_type_name(t)) == Some(t),
{
    reveal_strlit("stream_online");
    reveal_strlit("stream_offline");
    reveal_strlit("title_change");
    reveal_strlit("category_change");
    reveal_strlit("reward_redemption");
    assert("stream_online"@.len() == 13 && "stream_offline"@.len() == 14);
    assert("title_change"@.len() == 12 && "category_change"@.len() == 15);
    assert("reward_redemption"@.len() == 17);
}

/// A stream went live.
#[derive(Debug, Clone, PartialEq, Eq)]
pub struct StreamOnlineData {
    pub streamer_name: String,
    pub streamer_avatar: Option<String>,
    pub title: String,
    pub category: String,
    pub thumbnail_url: Option<String>,
}

/// A stream ended.
#[derive(Debug, Clone, PartialEq, Eq)]
pub struct StreamOfflineData {
    pub streamer_name: String,
}

/// The stream's title changed.
#[derive(Debug, Clone, PartialEq, Eq)]
pub struct TitleChangeData {
    pub streamer_name: String,
    pub new_title: String,
    /// The current category (empty in payloads queued before it was recorded).
    pub category_name: String,
}

/// The stream's category changed.
#[derive(Debug, Clone, PartialEq, Eq)]
pub struct CategoryChangeData {
    pub streamer_name: String,
    pub new_category: String,
}

/// A viewer redeemed a channel-points reward.
#[derive(Debug, Clone, PartialEq, Eq)]
pub struct RewardRedemptionData {
    pub redeemer_name: String,
    pub reward_name: String,
    pub reward_cost: i32,
    pub user_input: Option<String>,
    pub broadcaster_name: String,
}

/// A notification, borrowing the data of its kind.
#[derive(Debug, Clone, Copy)]
pub enum NotificationContent<'a> {
    StreamOnline(&'a StreamOnlineData),
    StreamOffline(&'a StreamOfflineData),
    TitleChange(&'a TitleChangeData),
    CategoryChange(&'a CategoryChangeData),
    RewardRedemption(&'a RewardRedemptionData),
}

/// A notification owning the data of its kind (as a queued task holds it).
#[derive(Debug, Clone, PartialEq, Eq)]
pub enum NotificationPayload {
    StreamOnline(StreamOnlineData),
    StreamOffline(StreamOfflineData),
    TitleChange(TitleChangeData),
    CategoryChange(CategoryChangeData),
    RewardRedemption(RewardRedemptionData),
}

/// Where one delivery goes: a chat or channel id and, for Discord, an optional webhook.
#[derive(Debug, Clone, PartialEq, Eq)]
pub struct IntegrationContext {
    pub destination_id: String,
    pub webhook_url: Option<String>,
}

/// The outcome of one delivery.
#[derive(Debug, Clone, PartialEq, Eq)]
pub struct NotificationResult {
    pub destination_type: String,
    pub destination_id: String,
    pub success: bool,
    pub error: Option<String>,
}

/// The kind of a notification.
pub open spec fn content_kind(c: NotificationContent) -> NotificationType {
    match c {
        NotificationContent::StreamOnline(_) => NotificationType::StreamOnline,
        NotificationContent::StreamOffline(_) => NotificationType::StreamOffline,
        NotificationContent::TitleChange(_) => NotificationType::TitleChange,
        NotificationContent::CategoryChange(_) => NotificationType::CategoryChange,
        NotificationContent::RewardRedemption(_) => NotificationType::RewardRedemption,
    }
}

/// The kind of a notification.
pub fn notification_kind(content: NotificationContent) -> (r: NotificationType)
    ensures
        r == content_kind(content),
{
    match content {
        NotificationContent::StreamOnline(_) => NotificationType::StreamOnline,
        NotificationContent::StreamOffline(_) => NotificationType::StreamOffline,
        NotificationContent::TitleChange(_) => NotificationType::TitleChange,
        NotificationContent::CategoryChange(_) => NotificationType::CategoryChange,
        NotificationContent::RewardRedemption(_) => NotificationType::RewardRedemption,
    }
}

impl NotificationPayload {
    /// The payload seen as a borrowed notification.
    pub fn as_content(&self) -> (r: NotificationContent<'_>)
        ensures
            r == payload_content(*self),
    {
        match self {
            NotificationPayload::StreamOnline(d) => NotificationContent::StreamOnline(d),
            NotificationPayload::StreamOffline(d) => NotificationContent::StreamOffline(d),
            NotificationPayload::TitleChange(d) => NotificationContent::TitleChange(d),
            NotificationPayload::CategoryChange(d) => NotificationContent::CategoryChange(d),
            NotificationPayload::RewardRedemption(d) => NotificationContent::RewardRedemption(d),
        }
    }
}

/// A payload seen as a borrowed notification.
pub open spec fn payload_content(p: NotificationPayload) -> NotificationContent<'static> {
    match p {
        NotificationPayload::StreamOnline(d) => NotificationContent::StreamOnline(&d),
        NotificationPayload::StreamOffline(d) => NotificationContent::StreamOffline(&d),
        NotificationPayload::TitleChange(d) => NotificationContent::TitleChange(&d),
        NotificationPayload::CategoryChange(d) => NotificationContent::CategoryChange(&d),
        NotificationPayload::RewardRedemption(d) => NotificationContent::RewardRedemption(&d),
    }
}

// ---------------------------------------------------------------------------
// Message templates
// ---------------------------------------------------------------------------

/// The stream link handed to a template (empty when there is none).
pub open spec fn url_text(stream_url: Option<Seq<char>>) -> Seq<char> {
    match stream_url {
        Some(u) => u,
        None => Seq::empty(),
    }
}

/// The message a user's template gives for a notification: the template of its kind with
/// the placeholders replaced, in this order, by the notification's values.
pub open spec fn rendered_message(
    settings: NotificationSettings,
    content: NotificationContent,
    stream_url: Option<Seq<char>>,
) -> Seq<char> {
    let url = url_text(stream_url);
    match content {
        NotificationContent::StreamOnline(d) => replace_all(
            replace_all(
                replace_all(
                    replace_all(
                        replace_all(settings.stream_online_message@, "{streamer}"@, d.streamer_name@),
                        "{title}"@,
                        d.title@,
                    ),
                    "{category}"@,
                    d.category@,
                ),
                "{game}"@,
                d.category@,
            ),
            "{url}"@,
            url,
        ),
        NotificationContent::StreamOffline(d) => replace_all(
            settings.stream_offline_message@,
            "{streamer}"@,
            d.streamer_name@,
        ),
        NotificationContent::TitleChange(d) => replace_all(
            replace_all(
                replace_all(
                    replace_all(
                        replace_all(
                            settings.stream_title_change_message@,
                            "{streamer}"@,
                            d.streamer_name@,
                        ),
                        "{title}"@,
                        d.new_title@,
                    ),
                    "{category}"@,
                    d.category_name@,
                ),
                "{game}"@,
                d.category_name@,
            ),
            "{url}"@,
            url,
        ),
        NotificationContent::CategoryChange(d) => replace_all(
            replace_all(
                replace_all(
                    replace_all(
                        settings.stream_category_change_message@,
                        "{streamer}"@,
                        d.streamer_name@,
                    ),
                    "{category}"@,
                    d.new_category@,
                ),
                "{game}"@,
                d.new_category@,
            ),
            "{url}"@,
            url,
        ),
        NotificationContent::RewardRedemption(d) => replace_all(
            replace_all(
                replace_all(settings.reward_redemption_message@, "{user}"@, d.redeemer_name@),
                "{reward}"@,
                d.reward_name@,
            ),
            "{cost}"@,
            decimal_text(d.reward_cost as int),
        ),
    }
}

/// The option-valued view of an optional string.
pub open spec fn opt_str_view(o: Option<&str>) -> Option<Seq<char>> {
    match o {
        Some(s) => Some(s@),
        None => None,
    }
}

proof fn lemma_placeholders_nonempty()
    ensures
        "{streamer}"@.len() > 0,
        "{title}"@.len() > 0,
        "{category}"@.len() > 0,
        "{game}"@.len() > 0,
        "{url}"@.len() > 0,
        "{user}"@.len() > 0,
        "{reward}"@.len() > 0,
        "{cost}"@.len() > 0,
{
    reveal_strlit("{streamer}");
    reveal_strlit("{title}");
    reveal_strlit("{category}");
    reveal_strlit("{game}");
    reveal_strlit("{url}");
    reveal_strlit("{user}");
    reveal_strlit("{reward}");
    reveal_strlit("{cost}");
}

/// The template the user set for a notification's kind.
pub open spec fn template_for(settings: NotificationSettings, content: NotificationContent) -> Seq<
    char,
> {
    match content {
        NotificationContent::StreamOnline(_) => settings.stream_online_message@,
        NotificationContent::StreamOffline(_) => settings.stream_offline_message@,
        NotificationContent::TitleChange(_) => settings.stream_title_change_message@,
        NotificationContent::CategoryChange(_) => settings.stream_category_change_message@,
        NotificationContent::RewardRedemption(_) => settings.reward_redemption_message@,
    }
}

/// Replacing a placeholder that starts with `{` leaves a text without `{` as it is.
proof fn lemma_replace_absent_brace(s: Seq<char>, pat: Seq<char>, rep: Seq<char>)
    requires
        pat.len() > 0,
        pat[0] == '{',
        !s.contains('{'),
    ensures
        replace_all(s, pat, rep) == s,
    decreases s.len(),
{
    if s.len() >= pat.len() {
        assert(s.take(pat.len() as int)[0] == s[0]);
        assert(s.take(pat.len() as int) != pat);
        assert forall|i: int| 0 <= i < s.skip(1).len() implies s.skip(1)[i] != '{' by {
            assert(s.skip(1)[i] == s[i + 1]);
        }
        lemma_replace_absent_brace(s.skip(1), pat, rep);
        assert(seq![s[0]] + s.skip(1) =~= s);
    }
}

/// A placeholder longer than a text does not occur in it.
proof fn lemma_replace_longer(s: Seq<char>, pat: Seq<char>, rep: Seq<char>)
    requires
        s.len() < pat.len(),
    ensures
        replace_all(s, pat, rep) == s,
{
}

/// A text that is exactly the placeholder becomes the replacement.
proof fn lemma_replace_whole(pat: Seq<char>, rep: Seq<char>)
    requires
        pat.len() > 0,
    ensures
        replace_all(pat, pat, rep) == rep,
{
    assert(pat.take(pat.len() as int) =~= pat);
    assert(pat.skip(pat.len() as int) =~= Seq::<char>::empty());
    assert(replace_all(Seq::<char>::empty(), pat, rep) == Seq::<char>::empty());
    assert(rep + Seq::<char>::empty() =~= rep);
}

/// Replacing a placeholder leaves another placeholder as it is: both start with `{`,
/// differ in their second character, and the text has no other `{`.
proof fn lemma_replace_other_placeholder(s: Seq<char>, pat: Seq<char>, rep: Seq<char>)
    requires
        s.len() >= 2,
        pat.len() >= 2,
        s[0] == '{',
        pat[0] == '{',
        s[1] != pat[1],
        forall|i: int| 1 <= i < s.len() ==> s[i] != '{',
    ensures
        replace_all(s, pat, rep) == s,
{
    if s.len() >= pat.len() {
        assert(s.take(pat.len() as int)[1] == s[1]);
        assert(s.take(pat.len() as int) != pat);
        assert(!s.skip(1).contains('{')) by {
            if s.skip(1).contains('{') {
                let i = choose|i: int| 0 <= i < s.skip(1).len() && s.skip(1)[i] == '{';
                assert(s[i + 1] == '{');
            }
        }
        lemma_replace_absent_brace(s.skip(1), pat, rep);
        assert(seq![s[0]] + s.skip(1) =~= s);
    }
}

/// The decimal digits of a number hold no `{`.
proof fn lemma_digits_no_brace(n: nat)
    ensures
        !crate::text::nat_digits(n).contains('{'),
    decreases n,
{
    if n >= 10 {
        lemma_digits_no_brace(n / 10);
        let d = crate::text::nat_digits(n / 10);
        let c = crate::text::digit_char(n % 10);
        assert(c != '{');
        assert forall|i: int| 0 <= i < d.push(c).len() implies d.push(c)[i] != '{' by {
            if i < d.len() {
                assert(d.push(c)[i] == d[i]);
            }
        }
    } else {
        assert(crate::text::digit_char(n) != '{');
        assert(seq![crate::text::digit_char(n)][0] != '{');
    }
}

/// The decimal text of a number holds no `{`.
proof fn lemma_decimal_no_brace(n: int)
    ensures
        !decimal_text(n).contains('{'),
{
    if n < 0 {
        lemma_digits_no_brace((-n) as nat);
        let d = crate::text::nat_digits((-n) as nat);
        assert forall|i: int| 0 <= i < (seq!['-'] + d).len() implies (seq!['-'] + d)[i] != '{' by {
            if i > 0 {
                assert((seq!['-'] + d)[i] == d[i - 1]);
            }
        }
    } else {
        lemma_digits_no_brace(n as nat);
    }
}

/// Every placeholder of a stream-online template is filled with its value: a template
/// that is just `{streamer}`, `{title}`, `{category}`, `{game}` or `{url}` is sent as
/// the streamer's name, the title, the category (for both) or the link, when these hold
/// no `{`.
pub proof fn law_stream_online_fills_placeholders(
    settings: NotificationSettings,
    d: &StreamOnlineData,
    stream_url: Option<Seq<char>>,
)
    requires
        !d.streamer_name@.contains('{'),
        !d.title@.contains('{'),
        !d.category@.contains('{'),
        !url_text(stream_url).contains('{'),
    ensures
        ({
            let m = settings.stream_online_message@;
            let r = rendered_message(settings, NotificationContent::StreamOnline(d), stream_url);
            &&& m == "{streamer}"@ ==> r == d.streamer_name@
            &&& m == "{title}"@ ==> r == d.title@
            &&& m == "{category}"@ ==> r == d.category@
            &&& m == "{game}"@ ==> r == d.category@
            &&& m == "{url}"@ ==> r == url_text(stream_url)
        }),
{
    reveal_strlit("{streamer}");
    reveal_strlit("{title}");
    reveal_strlit("{category}");
    reveal_strlit("{game}");
    reveal_strlit("{url}");
    let m = settings.stream_online_message@;
    let (ps, pt, pc, pg, pu) = ("{streamer}"@, "{title}"@, "{category}"@, "{game}"@, "{url}"@);
    let (vs, vt, vc, vu) = (d.streamer_name@, d.title@, d.category@, url_text(stream_url));
    if m == ps {
        lemma_replace_whole(ps, vs);
        lemma_replace_absent_brace(vs, pt, vt);
        lemma_replace_absent_brace(vs, pc, vc);
        lemma_replace_absent_brace(vs, pg, vc);
        lemma_replace_absent_brace(vs, pu, vu);
    } else if m == pt {
        lemma_replace_other_placeholder(pt, ps, vs);
        lemma_replace_whole(pt, vt);
        lemma_replace_absent_brace(vt, pc, vc);
        lemma_replace_absent_brace(vt, pg, vc);
        lemma_replace_absent_brace(vt, pu, vu);
    } else if m == pc {
        lemma_replace_other_placeholder(pc, ps, vs);
        lemma_replace_other_placeholder(pc, pt, vt);
        lemma_replace_whole(pc, vc);
        lemma_replace_absent_brace(vc, pg, vc);
        lemma_replace_absent_brace(vc, pu, vu);
    } else if m == pg {
        lemma_replace_other_placeholder(pg, ps, vs);
        lemma_replace_other_placeholder(pg, pt, vt);
        lemma_replace_other_placeholder(pg, pc, vc);
        lemma_replace_whole(pg, vc);
        lemma_replace_absent_brace(vc, pu, vu);
    } else if m == pu {
        lemma_replace_other_placeholder(pu, ps, vs);
        lemma_replace_other_placeholder(pu, pt, vt);
        lemma_replace_other_placeholder(pu, pc, vc);
        lemma_replace_other_placeholder(pu, pg, vc);
        lemma_replace_whole(pu, vu);
    }
}

/// Every placeholder of a title-change template is filled with its value: a template
/// that is just `{streamer}`, `{title}`, `{category}`, `{game}` or `{url}` is sent as
/// the streamer's name, the new title, the category (for both) or the link, when these
/// hold no `{`.
pub proof fn law_title_change_fills_placeholders(
    settings: NotificationSettings,
    d: &TitleChangeData,
    stream_url: Option<Seq<char>>,
)
    requires
        !d.streamer_name@.contains('{'),
        !d.new_title@.contains('{'),
        !d.category_name@.contains('{'),
        !url_text(stream_url).contains('{'),
    ensures
        ({
            let m = settings.stream_title_change_message@;
            let r = rendered_message(settings, NotificationContent::TitleChange(d), stream_url);
            &&& m == "{streamer}"@ ==> r == d.streamer_name@
            &&& m == "{title}"@ ==> r == d.new_title@
            &&& m == "{category}"@ ==> r == d.category_name@
            &&& m == "{game}"@ ==> r == d.category_name@
            &&& m == "{url}"@ ==> r == url_text(stream_url)
        }),
{
    reveal_strlit("{streamer}");
    reveal_strlit("{title}");
    reveal_strlit("{category}");
    reveal_strlit("{game}");
    reveal_strlit("{url}");
    let m = settings.stream_title_change_message@;
    let (ps, pt, pc, pg, pu) = ("{streamer}"@, "{title}"@, "{category}"@, "{game}"@, "{url}"@);
    let (vs, vt, vc, vu) = (d.streamer_name@, d.new_title@, d.category_name@, url_text(stream_url));
    if m == ps {
        lemma_replace_whole(ps, vs);
        lemma_replace_absent_brace(vs, pt, vt);
        lemma_replace_absent_brace(vs, pc, vc);
        lemma_replace_absent_brace(vs, pg, vc);
        lemma_replace_absent_brace(vs, pu, vu);
    } else if m == pt {
        lemma_replace_other_placeholder(pt, ps, vs);
        lemma_replace_whole(pt, vt);
        lemma_replace_absent_brace(vt, pc, vc);
        lemma_replace_absent_brace(vt, pg, vc);
        lemma_replace_absent_brace(vt, pu, vu);
    } else if m == pc {
        lemma_replace_other_placeholder(pc, ps, vs);
        lemma_replace_other_placeholder(pc, pt, vt);
        lemma_replace_whole(pc, vc);
        lemma_replace_absent_brace(vc, pg, vc);
        lemma_replace_absent_brace(vc, pu, vu);
    } else if m == pg {
        lemma_replace_other_placeholder(pg, ps, vs);
        lemma_replace_other_placeholder(pg, pt, vt);
        lemma_replace_other_placeholder(pg, pc, vc);
        lemma_replace_whole(pg, vc);
        lemma_replace_absent_brace(vc, pu, vu);
    } else if m == pu {
        lemma_replace_other_placeholder(pu, ps, vs);
        lemma_replace_other_placeholder(pu, pt, vt);
        lemma_replace_other_placeholder(pu, pc, vc);
        lemma_replace_other_placeholder(pu, pg, vc);
        lemma_replace_whole(pu, vu);
    }
}

/// Every placeholder of a category-change template is filled with its value: a
/// template that is just `{streamer}`, `{category}`, `{game}` or `{url}` is sent as the
/// streamer's name, the new category (for both) or the link, when these hold no `{`.
pub proof fn law_category_change_fills_placeholders(
    settings: NotificationSettings,
    d: &CategoryChangeData,
    stream_url: Option<Seq<char>>,
)
    requires
        !d.streamer_name@.contains('{'),
        !d.new_category@.contains('{'),
        !url_text(stream_url).contains('{'),
    ensures
        ({
            let m = settings.stream_category_change_message@;
            let r = rendered_message(settings, NotificationContent::CategoryChange(d), stream_url);
            &&& m == "{streamer}"@ ==> r == d.streamer_name@
            &&& m == "{category}"@ ==> r == d.new_category@
            &&& m == "{game}"@ ==> r == d.new_category@
            &&& m == "{url}"@ ==> r == url_text(stream_url)
        }),
{
    reveal_strlit("{streamer}");
    reveal_strlit("{category}");
    reveal_strlit("{game}");
    reveal_strlit("{url}");
    let m = settings.stream_category_change_message@;
    let (ps, pc, pg, pu) = ("{streamer}"@, "{category}"@, "{game}"@, "{url}"@);
    let (vs, vc, vu) = (d.streamer_name@, d.new_category@, url_text(stream_url));
    if m == ps {
        lemma_replace_whole(ps, vs);
        lemma_replace_absent_brace(vs, pc, vc);
        lemma_replace_absent_brace(vs, pg, vc);
        lemma_replace_absent_brace(vs, pu, vu);
    } else if m == pc {
        lemma_replace_other_placeholder(pc, ps, vs);
        lemma_replace_whole(pc, vc);
        lemma_replace_absent_brace(vc, pg, vc);
        lemma_replace_absent_brace(vc, pu, vu);
    } else if m == pg {
        lemma_replace_other_placeholder(pg, ps, vs);
        lemma_replace_other_placeholder(pg, pc, vc);
        lemma_replace_whole(pg, vc);
        lemma_replace_absent_brace(vc, pu, vu);
    } else if m == pu {
        lemma_replace_other_placeholder(pu, ps, vs);
        lemma_replace_other_placeholder(pu, pc, vc);
        lemma_replace_other_placeholder(pu, pg, vc);
        lemma_replace_whole(pu, vu);
    }
}

/// A stream-offline template that is just `{streamer}` is sent as the streamer's name.
pub proof fn law_stream_offline_fills_streamer(
    settings: NotificationSettings,
    d: &StreamOfflineData,
    stream_url: Option<Seq<char>>,
)
    requires
        settings.stream_offline_message@ == "{streamer}"@,
    ensures
        rendered_message(settings, NotificationContent::StreamOffline(d), stream_url) == d.streamer_name@,
{
    reveal_strlit("{streamer}");
    lemma_replace_whole("{streamer}"@, d.streamer_name@);
}

/// Every placeholder of a reward template is filled with its value: a template that is
/// just `{user}`, `{reward}` or `{cost}` is sent as the viewer's name, the reward's name
/// or the cost in decimal, when the names hold no `{`.
pub proof fn law_reward_fills_placeholders(
    settings: NotificationSettings,
    d: &RewardRedemptionData,
    stream_url: Option<Seq<char>>,
)
    requires
        !d.redeemer_name@.contains('{'),
        !d.reward_name@.contains('{'),
    ensures
        ({
            let m = settings.reward_redemption_message@;
            let r = rendered_message(settings, NotificationContent::RewardRedemption(d), stream_url);
            &&& m == "{user}"@ ==> r == d.redeemer_name@
            &&& m == "{reward}"@ ==> r == d.reward_name@
            &&& m == "{cost}"@ ==> r == decimal_text(d.reward_cost as int)
        }),
{
    reveal_strlit("{user}");
    reveal_strlit("{reward}");
    reveal_strlit("{cost}");
    let m = settings.reward_redemption_message@;
    let (pu, pr, pc) = ("{user}"@, "{reward}"@, "{cost}"@);
    let (vu, vr, vc) = (d.redeemer_name@, d.reward_name@, decimal_text(d.reward_cost as int));
    lemma_decimal_no_brace(d.reward_cost as int);
    if m == pu {
        lemma_replace_whole(pu, vu);
        lemma_replace_absent_brace(vu, pr, vr);
        lemma_replace_absent_brace(vu, pc, vc);
    } else if m == pr {
        lemma_replace_other_placeholder(pr, pu, vu);
        lemma_replace_whole(pr, vr);
        lemma_replace_absent_brace(vr, pc, vc);
    } else if m == pc {
        lemma_replace_other_placeholder(pc, pu, vu);
        lemma_replace_other_placeholder(pc, pr, vr);
        lemma_replace_whole(pc, vc);
    }
}

/// A title change fills in the new title: the template `{title}` is sent as exactly the
/// new title, whatever the streamer, category and link, when the title holds no `{`.
pub proof fn law_title_change_fills_title(
    settings: NotificationSettings,
    d: &TitleChangeData,
    stream_url: Option<Seq<char>>,
)
    requires
        settings.stream_title_change_message@ == "{title}"@,
        !d.new_title@.contains('{'),
    ensures
        rendered_message(settings, NotificationContent::TitleChange(d), stream_url) == d.new_title@,
{
    reveal_strlit("{streamer}");
    reveal_strlit("{title}");
    reveal_strlit("{category}");
    reveal_strlit("{game}");
    reveal_strlit("{url}");
    let t = d.new_title@;
    lemma_replace_longer("{title}"@, "{streamer}"@, d.streamer_name@);
    lemma_replace_whole("{title}"@, t);
    lemma_replace_absent_brace(t, "{category}"@, d.category_name@);
    lemma_replace_absent_brace(t, "{game}"@, d.category_name@);
    lemma_replace_absent_brace(t, "{url}"@, url_text(stream_url));
}

/// A template without `{` holds no placeholder: it is sent as written, whatever the
/// notification carries.
pub proof fn law_template_without_braces_is_sent_verbatim(
    settings: NotificationSettings,
    content: NotificationContent,
    stream_url: Option<Seq<char>>,
)
    requires
        !template_for(settings, content).contains('{'),
    ensures
        rendered_message(settings, content, stream_url) == template_for(settings, content),
{
    reveal_strlit("{streamer}");
    reveal_strlit("{title}");
    reveal_strlit("{category}");
    reveal_strlit("{game}");
    reveal_strlit("{url}");
    reveal_strlit("{user}");
    reveal_strlit("{reward}");
    reveal_strlit("{cost}");
    let m = template_for(settings, content);
    let url = url_text(stream_url);
    match content {
        NotificationContent::StreamOnline(d) => {
            lemma_replace_absent_brace(m, "{streamer}"@, d.streamer_name@);
            lemma_replace_absent_brace(m, "{title}"@, d.title@);
            lemma_replace_absent_brace(m, "{category}"@, d.category@);
            lemma_replace_absent_brace(m, "{game}"@, d.category@);
            lemma_replace_absent_brace(m, "{url}"@, url);
        },
        NotificationContent::StreamOffline(d) => {
            lemma_replace_absent_brace(m, "{streamer}"@, d.streamer_name@);
        },
        NotificationContent::TitleChange(d) => {
            lemma_replace_absent_brace(m, "{streamer}"@, d.streamer_name@);
            lemma_replace_absent_brace(m, "{title}"@, d.new_title@);
            lemma_replace_absent_brace(m, "{category}"@, d.category_name@);
            lemma_replace_absent_brace(m, "{game}"@, d.category_name@);
            lemma_replace_absent_brace(m, "{url}"@, url);
        },
        NotificationContent::CategoryChange(d) => {
            lemma_replace_absent_brace(m, "{streamer}"@, d.streamer_name@);
            lemma_replace_absent_brace(m, "{category}"@, d.new_category@);
            lemma_replace_absent_brace(m, "{game}"@, d.new_category@);
            lemma_replace_absent_brace(m, "{url}"@, url);
        },
        NotificationContent::RewardRedemption(d) => {
            lemma_replace_absent_brace(m, "{user}"@, d.redeemer_name@);
            lemma_replace_absent_brace(m, "{reward}"@, d.reward_name@);
            lemma_replace_absent_brace(m, "{cost}"@, decimal_text(d.reward_cost as int));
        },
    }
}

/// Fills in the user's template for a notification (used for the first delivery and for
/// every retry, so that all placeholders are always replaced).
pub fn render_notification_message(
    settings: &NotificationSettings,
    content: NotificationContent,
    stream_url: Option<&str>,
) -> (r: String)
    ensures
        r@ == rendered_message(*settings, content, opt_str_view(stream_url)),
{
    proof {
        lemma_placeholders_nonempty();
    }
    let url: &str = match stream_url {
        Some(u) => u,
        None => "",
    };
    proof {
        reveal_strlit("");
        assert(url@ =~= url_text(opt_str_view(stream_url)));
    }
    match content {
        NotificationContent::StreamOnline(d) => {
            let s = replace_str(
                settings.stream_online_message.as_str(),
                "{streamer}",
                d.streamer_name.as_str(),
            );
            let s = replace_str(s.as_str(), "{title}", d.title.as_str());
            let s = replace_str(s.as_str(), "{category}", d.category.as_str());
            let s = replace_str(s.as_str(), "{game}", d.category.as_str());
            replace_str(s.as_str(), "{url}", url)
        },
        NotificationContent::StreamOffline(d) => replace_str(
            settings.stream_offline_message.as_str(),
            "{streamer}",
            d.streamer_name.as_str(),
        ),
        NotificationContent::TitleChange(d) => {
            let s = replace_str(
                settings.stream_title_change_message.as_str(),
                "{streamer}",
                d.streamer_name.as_str(),
            );
            let s = replace_str(s.as_str(), "{title}", d.new_title.as_str());
            let s = replace_str(s.as_str(), "{category}", d.category_name.as_str());
            let s = replace_str(s.as_str(), "{game}", d.category_name.as_str());
            replace_str(s.as_str(), "{url}", url)
        },
        NotificationContent::CategoryChange(d) => {
            let s = replace_str(
                settings.stream_category_change_message.as_str(),
                "{streamer}",
                d.streamer_name.as_str(),
            );
            let s = replace_str(s.as_str(), "{category}", d.new_category.as_str());
            let s = replace_str(s.as_str(), "{game}", d.new_category.as_str());
            replace_str(s.as_str(), "{url}", url)
        },
        NotificationContent::RewardRedemption(d) => {
            let s = replace_str(
                settings.reward_redemption_message.as_str(),
                "{user}",
                d.redeemer_name.as_str(),
            );
            let s = replace_str(s.as_str(), "{reward}", d.reward_name.as_str());
            let cost = i32_to_text(d.reward_cost);
            replace_str(s.as_str(), "{cost}", cost.as_str())
        },
    }
}

// ---------------------------------------------------------------------------
// Judging a failed delivery
// ---------------------------------------------------------------------------

/// Error texts (in lower case) that mark a failure as passing.
pub open spec fn has_transient_marker(e: Seq<char>) -> bool {
    ||| contains_seq(e, "too many requests"@)
    ||| contains_seq(e, "429"@)
    ||| contains_seq(e, "timeout"@)
    ||| contains_seq(e, "timed out"@)
    ||| contains_seq(e, "temporarily unavailable"@)
    ||| contains_seq(e, "service unavailable"@)
    ||| contains_seq(e, "bad gateway"@)
    ||| contains_seq(e, "connection reset"@)
    ||| contains_seq(e, "failed to send"@)
}

/// The status code between the first `(` and the next `)` of an error text, when it is
/// a `u16`.
pub open spec fn bracketed_status(e: Seq<char>) -> Option<nat> {
    match index_of(e, '(') {
        Some(open) => {
            let rest = e.skip(open + 1int);
            match index_of(rest, ')') {
                Some(close) => parsed_unsigned(rest.take(close as int), u16::MAX as int),
                None => None,
            }
        },
        None => None,
    }
}

/// Is a failed delivery worth retrying? An error whose lower-case text has a transient
/// marker is; so is a Discord API or webhook error whose status is 429 or a server error.
pub open spec fn is_retryable(err: Option<Seq<char>>, destination_type: Seq<char>) -> bool {
    match err {
        None => false,
        Some(x) => {
            let e = unicode_lowercase(x);
            ||| has_transient_marker(e)
            ||| destination_type == "discord"@ && (contains_seq(e, "discord api error ("@)
                || contains_seq(e, "discord webhook error ("@)) && match bracketed_status(e) {
                Some(code) => code == 429 || code >= 500,
                None => false,
            }
        },
    }
}

/// The characters of `v` from position `from` on.
fn chars_from(v: &Vec<char>, from: usize) -> (r: Vec<char>)
    requires
        from <= v.len(),
    ensures
        r@ == v@.skip(from as int),
{
    let mut r: Vec<char> = Vec::new();
    let mut i: usize = from;
    while i < v.len()
        invariant
            from <= i <= v.len(),
            r@ == v@.subrange(from as int, i as int),
        decreases v.len() - i,
    {
        r.push(v[i]);
        i = i + 1;
        assert(r@ =~= v@.subrange(from as int, i as int));
    }
    assert(v@.subrange(from as int, i as int) =~= v@.skip(from as int));
    r
}

/// The first `n` characters of `v`.
fn chars_take(v: &Vec<char>, n: usize) -> (r: Vec<char>)
    requires
        n <= v.len(),
    ensures
        r@ == v@.take(n as int),
{
    let mut r: Vec<char> = Vec::new();
    let mut i: usize = 0;
    while i < n
        invariant
            i <= n <= v.len(),
            r@ == v@.take(i as int),
        decreases n - i,
    {
        r.push(v[i]);
        i = i + 1;
        assert(r@ =~= v@.take(i as int));
    }
    r
}

proof fn lemma_index_of_bound(s: Seq<char>, c: char)
    ensures
        index_of(s, c) matches Some(i) ==> i < s.len() && s[i as int] == c,
    decreases s.len(),
{
    if s.len() > 0 && s[0] != c {
        lemma_index_of_bound(s.skip(1), c);
    }
}

/// The status code between the first `(` and the next `)` of an error text.
fn bracketed_status_exec(e: &str) -> (r: Option<u16>)
    ensures
        r matches Some(n) ==> bracketed_status(e@) == Some(n as nat),
        r is None ==> bracketed_status(e@) is None,
{
    let v = chars_of(e);
    match find_char(&v, '(') {
        Some(open) => {
            proof {
                lemma_index_of_bound(v@, '(');
            }
            let rest = chars_from(&v, open + 1);
            match find_char(&rest, ')') {
                Some(close) => {
                    proof {
                        lemma_index_of_bound(rest@, ')');
                    }
                    let code = chars_take(&rest, close);
                    let text = string_of(code.as_slice());
                    parse_u16(text.as_str())
                },
                None => None,
            }
        },
        None => None,
    }
}

/// Decides whether a failed delivery is likely to succeed later.
pub fn is_retryable_error(err: Option<&str>, destination_type: &str) -> (r: bool)
    ensures
        r == is_retryable(opt_str_view(err), destination_type@),
{
    let e = match err {
        Some(v) => to_lowercase(v),
        None => {
            return false;
        },
    };
    let s = e.as_str();
    if str_contains(s, "too many requests") || str_contains(s, "429") || str_contains(
        s,
        "timeout",
    ) || str_contains(s, "timed out") || str_contains(s, "temporarily unavailable")
        || str_contains(s, "service unavailable") || str_contains(s, "bad gateway")
        || str_contains(s, "connection reset") || str_contains(s, "failed to send") {
        return true;
    }
    if str_equal(destination_type, "discord") && (str_contains(s, "discord api error (")
        || str_contains(s, "discord webhook error (")) {
        match bracketed_status_exec(s) {
            Some(code) => code == 429 || code >= 500,
            None => false,
        }
    } else {
        false
    }
}

// ---------------------------------------------------------------------------
// Retry schedule
// ---------------------------------------------------------------------------

/// The delay before a retry that follows `attempts` failed attempts: the initial backoff
/// doubled once per attempt, capped at the maximum backoff.
pub open spec fn backoff_delay(initial: nat, max: nat, attempts: nat) -> nat {
    let d = initial * vstd::arithmetic::power2::pow2(attempts);
    if d < max {
        d
    } else {
        max
    }
}

/// The delay (seconds) before the next retry of a task that has failed `attempts` times.
pub fn backoff_delay_seconds(initial: u64, max: u64, attempts: u32) -> (r: u64)
    ensures
        r == backoff_delay(initial as nat, max as nat, attempts as nat),
{
    proof {
        vstd::arithmetic::power2::lemma_pow2_pos(attempts as nat);
        vstd::arithmetic::mul::lemma_mul_inequality(
            1,
            vstd::arithmetic::power2::pow2(attempts as nat) as int,
            initial as int,
        );
        vstd::arithmetic::mul::lemma_mul_is_commutative(
            initial as int,
            vstd::arithmetic::power2::pow2(attempts as nat) as int,
        );
    }
    if initial >= max {
        return max;
    }
    if initial == 0 {
        assert(initial * vstd::arithmetic::power2::pow2(attempts as nat) == 0);
        return 0;
    }
    let mut d: u64 = initial;
    let mut i: u32 = 0;
    assert(vstd::arithmetic::power2::pow2(0) == 1) by {
        vstd::arithmetic::power2::lemma_pow2(0);
        vstd::arithmetic::power::lemma_pow0(2);
    }
    while i < attempts
        invariant
            i <= attempts,
            0 < d < max,
            d == initial * vstd::arithmetic::power2::pow2(i as nat),
        decreases attempts - i,
    {
        proof {
            vstd::arithmetic::power2::lemma_pow2_unfold((i + 1) as nat);
            vstd::arithmetic::mul::lemma_mul_is_associative(
                initial as int,
                2,
                vstd::arithmetic::power2::pow2(i as nat) as int,
            );
            vstd::arithmetic::mul::lemma_mul_is_associative(
                initial as int,
                vstd::arithmetic::power2::pow2(i as nat) as int,
                2,
            );
            vstd::arithmetic::mul::lemma_mul_is_commutative(
                2,
                vstd::arithmetic::power2::pow2(i as nat) as int,
            );
        }
        if d >= max - d {
            proof {
                let next = initial * vstd::arithmetic::power2::pow2((i + 1) as nat);
                assert(next == 2 * d);
                if i + 1 < attempts {
                    vstd::arithmetic::power2::lemma_pow2_strictly_increases(
                        (i + 1) as nat,
                        attempts as nat,
                    );
                }
                vstd::arithmetic::mul::lemma_mul_inequality(
                    vstd::arithmetic::power2::pow2((i + 1) as nat) as int,
                    vstd::arithmetic::power2::pow2(attempts as nat) as int,
                    initial as int,
                );
                vstd::arithmetic::mul::lemma_mul_is_commutative(
                    initial as int,
                    vstd::arithmetic::power2::pow2((i + 1) as nat) as int,
                );
                vstd::arithmetic::mul::lemma_mul_is_commutative(
                    initial as int,
                    vstd::arithmetic::power2::pow2(attempts as nat) as int,
                );
            }
            return max;
        }
        d = d * 2;
        i = i + 1;
    }
    d
}

/// How long (seconds) a queued notification of the kind named `notification_type` stays
/// worth delivering.
pub open spec fn retry_ttl(cfg: NotificationRetryConfig, notification_type: Seq<char>) -> u64 {
    if notification_type == "stream_online"@ {
        cfg.stream_online_ttl_seconds
    } else if notification_type == "title_change"@ {
        cfg.title_change_ttl_seconds
    } else if notification_type == "category_change"@ {
        cfg.category_change_ttl_seconds
    } else if notification_type == "reward_redemption"@ {
        cfg.reward_redemption_ttl_seconds
    } else {
        cfg.default_ttl_seconds
    }
}

/// How long (seconds) a queued notification of the kind named `notification_type` stays
/// worth delivering.
pub fn retry_ttl_seconds(cfg: &NotificationRetryConfig, notification_type: &str) -> (r: u64)
    ensures
        r == retry_ttl(*cfg, notification_type@),
{
    if str_equal(notification_type, "stream_online") {
        cfg.stream_online_ttl_seconds
    } else if str_equal(notification_type, "title_change") {
        cfg.title_change_ttl_seconds
    } else if str_equal(notification_type, "category_change") {
        cfg.category_change_ttl_seconds
    } else if str_equal(notification_type, "reward_redemption") {
        cfg.reward_redemption_ttl_seconds
    } else {
        cfg.default_ttl_seconds
    }
}

/// The instant `seconds` after `now` (both in milliseconds since the epoch).
pub open spec fn after_seconds(now: int, seconds: int) -> int {
    now + seconds * 1000
}

/// The queued task that retries a failed delivery: first attempt after the initial backoff,
/// given up after the kind's time to live, at most the configured number of attempts.
pub fn retry_task(
    log: &NotificationLog,
    destination_type: &str,
    ctx: &IntegrationContext,
    notification_type: String,
    content_json: String,
    message: &str,
    cfg: &NotificationRetryConfig,
    now: i64,
) -> (r: CreateNotificationTask)
    requires
        0 <= now,
        after_seconds(now as int, cfg.initial_backoff_seconds as int) <= i64::MAX,
        after_seconds(now as int, retry_ttl(*cfg, notification_type@) as int) <= i64::MAX,
        cfg.max_attempts <= i32::MAX,
    ensures
        r.notification_log_id == Some(log.id),
        r.user_id == log.user_id,
        r.notification_type == notification_type,
        r.content_json == content_json,
        r.message@ == message@,
        r.destination_type@ == destination_type@,
        r.destination_id == ctx.destination_id,
        r.webhook_url == ctx.webhook_url,
        r.max_attempts == Some(cfg.max_attempts as i32),
        r.next_attempt_at == Some(
            after_seconds(now as int, cfg.initial_backoff_seconds as int) as i64,
        ),
        r.expires_at == Some(
            after_seconds(now as int, retry_ttl(*cfg, notification_type@) as int) as i64,
        ),
{
    let ttl = retry_ttl_seconds(cfg, notification_type.as_str());
    let next: i64 = now + (cfg.initial_backoff_seconds as i64) * 1000;
    let expires: i64 = now + (ttl as i64) * 1000;
    CreateNotificationTask {
        notification_log_id: Some(log.id.clone()),
        user_id: log.user_id.clone(),
        notification_type,
        content_json,
        message: owned(message),
        destination_type: owned(destination_type),
        destination_id: ctx.destination_id.clone(),
        webhook_url: ctx.webhook_url.clone(),
        max_attempts: Some(cfg.max_attempts as i32),
        next_attempt_at: Some(next),
        expires_at: Some(expires),
    }
}


// ---------------------------------------------------------------------------
// Sending to the user's integrations
// ---------------------------------------------------------------------------

/// Does an integration with these switches take a notification of kind `kind`?
/// Only the integration's own switches decide.
pub open spec fn switches_allow(
    online: bool,
    offline: bool,
    title: bool,
    category: bool,
    reward: bool,
    kind: NotificationType,
) -> bool {
    match kind {
        NotificationType::StreamOnline => online,
        NotificationType::StreamOffline => offline,
        NotificationType::TitleChange => title,
        NotificationType::CategoryChange => category,
        NotificationType::RewardRedemption => reward,
    }
}

/// Does a Telegram integration take notifications of kind `kind`?
pub open spec fn telegram_takes(i: TelegramIntegration, kind: NotificationType) -> bool {
    switches_allow(
        i.notify_stream_online,
        i.notify_stream_offline,
        i.notify_title_change,
        i.notify_category_change,
        i.notify_reward_redemption,
        kind,
    )
}

/// Does a Discord integration take notifications of kind `kind`?
pub open spec fn discord_takes(i: DiscordIntegration, kind: NotificationType) -> bool {
    switches_allow(
        i.notify_stream_online,
        i.notify_stream_offline,
        i.notify_title_change,
        i.notify_category_change,
        i.notify_reward_redemption,
        kind,
    )
}

/// Does a Telegram integration take notifications of kind `kind`?
pub fn telegram_wants(i: &TelegramIntegration, kind: NotificationType) -> (r: bool)
    ensures
        r == telegram_takes(*i, kind),
{
    match kind {
        NotificationType::StreamOnline => i.notify_stream_online,
        NotificationType::StreamOffline => i.notify_stream_offline,
        NotificationType::TitleChange => i.notify_title_change,
        NotificationType::CategoryChange => i.notify_category_change,
        NotificationType::RewardRedemption => i.notify_reward_redemption,
    }
}

/// Does a Discord integration take notifications of kind `kind`?
pub fn discord_wants(i: &DiscordIntegration, kind: NotificationType) -> (r: bool)
    ensures
        r == discord_takes(*i, kind),
{
    match kind {
        NotificationType::StreamOnline => i.notify_stream_online,
        NotificationType::StreamOffline => i.notify_stream_offline,
        NotificationType::TitleChange => i.notify_title_change,
        NotificationType::CategoryChange => i.notify_category_change,
        NotificationType::RewardRedemption => i.notify_reward_redemption,
    }
}

/// One delivery of a notification: the position of the integration in its list.
#[derive(Debug, Clone, Copy, PartialEq, Eq, Structural)]
pub enum Delivery {
    Telegram(usize),
    Discord(usize),
}

/// The deliveries to the first `n` Telegram integrations, in their order.
pub open spec fn telegram_plan(tg: Seq<TelegramIntegration>, kind: NotificationType, n: int) -> Seq<
    Delivery,
>
    decreases n,
{
    if n <= 0 {
        Seq::empty()
    } else if telegram_takes(tg[n - 1], kind) {
        telegram_plan(tg, kind, n - 1).push(Delivery::Telegram((n - 1) as usize))
    } else {
        telegram_plan(tg, kind, n - 1)
    }
}

/// The deliveries to the first `n` Discord integrations, in their order.
pub open spec fn discord_plan(dc: Seq<DiscordIntegration>, kind: NotificationType, n: int) -> Seq<
    Delivery,
>
    decreases n,
{
    if n <= 0 {
        Seq::empty()
    } else if discord_takes(dc[n - 1], kind) {
        discord_plan(dc, kind, n - 1).push(Delivery::Discord((n - 1) as usize))
    } else {
        discord_plan(dc, kind, n - 1)
    }
}

/// All deliveries of a notification: the Telegram integrations that take it, then the
/// Discord integrations that take it, each list in its order.
pub open spec fn delivery_plan(
    tg: Seq<TelegramIntegration>,
    dc: Seq<DiscordIntegration>,
    kind: NotificationType,
) -> Seq<Delivery> {
    telegram_plan(tg, kind, tg.len() as int) + discord_plan(dc, kind, dc.len() as int)
}

/// The deliveries of a notification of kind `kind` to a user's enabled integrations.
pub fn plan_deliveries(
    telegram: &Vec<TelegramIntegration>,
    discord: &Vec<DiscordIntegration>,
    kind: NotificationType,
) -> (r: Vec<Delivery>)
    ensures
        r@ == delivery_plan(telegram@, discord@, kind),
{
    let mut r: Vec<Delivery> = Vec::new();
    let mut i: usize = 0;
    while i < telegram.len()
        invariant
            i <= telegram.len(),
            r@ == telegram_plan(telegram@, kind, i as int),
        decreases telegram.len() - i,
    {
        if telegram_wants(&telegram[i], kind) {
            r.push(Delivery::Telegram(i));
        }
        i = i + 1;
    }
    let mut j: usize = 0;
    while j < discord.len()
        invariant
            j <= discord.len(),
            i == telegram.len(),
            r@ == telegram_plan(telegram@, kind, i as int) + discord_plan(discord@, kind, j as int),
        decreases discord.len() - j,
    {
        if discord_wants(&discord[j], kind) {
            let ghost before = r@;
            r.push(Delivery::Discord(j));
            assert(r@ =~= telegram_plan(telegram@, kind, i as int) + discord_plan(
                discord@,
                kind,
                j + 1,
            ));
        }
        j = j + 1;
    }
    r
}

proof fn lemma_telegram_plan_members(
    tg: Seq<TelegramIntegration>,
    kind: NotificationType,
    n: int,
    d: Delivery,
)
    requires
        0 <= n <= tg.len(),
        tg.len() <= usize::MAX,
    ensures
        telegram_plan(tg, kind, n).contains(d) <==> (d matches Delivery::Telegram(k) && k < n
            && telegram_takes(tg[k as int], kind)),
        forall|a: int, b: int|
            0 <= a < b < telegram_plan(tg, kind, n).len() ==> telegram_plan(tg, kind, n)[a]
                != telegram_plan(tg, kind, n)[b],
    decreases n,
{
    if n > 0 {
        lemma_telegram_plan_members(tg, kind, n - 1, d);
        lemma_telegram_plan_members(tg, kind, n - 1, Delivery::Telegram((n - 1) as usize));
        let p = telegram_plan(tg, kind, n - 1);
        if telegram_takes(tg[n - 1], kind) {
            let x = Delivery::Telegram((n - 1) as usize);
            let pp = p.push(x);
            assert(pp.contains(d) <==> (p.contains(d) || d == x)) by {
                if pp.contains(d) {
                    let w = choose|w: int| 0 <= w < pp.len() && #[trigger] pp[w] == d;
                    if w < p.len() {
                        assert(p[w] == d);
                    }
                }
                if p.contains(d) {
                    let w = choose|w: int| 0 <= w < p.len() && #[trigger] p[w] == d;
                    assert(pp[w] == d);
                }
                if d == x {
                    assert(pp[p.len() as int] == d);
                }
            }
            assert forall|a: int, b: int| 0 <= a < b < pp.len() implies pp[a] != pp[b] by {
                if b == p.len() {
                    assert(pp[a] == p[a]);
                    assert(p.contains(p[a]));
                } else {
                    assert(pp[a] == p[a] && pp[b] == p[b]);
                }
            }
        }
    }
}

proof fn lemma_discord_plan_members(
    dc: Seq<DiscordIntegration>,
    kind: NotificationType,
    n: int,
    d: Delivery,
)
    requires
        0 <= n <= dc.len(),
        dc.len() <= usize::MAX,
    ensures
        discord_plan(dc, kind, n).contains(d) <==> (d matches Delivery::Discord(k) && k < n
            && discord_takes(dc[k as int], kind)),
        forall|a: int, b: int|
            0 <= a < b < discord_plan(dc, kind, n).len() ==> discord_plan(dc, kind, n)[a]
                != discord_plan(dc, kind, n)[b],
    decreases n,
{
    if n > 0 {
        lemma_discord_plan_members(dc, kind, n - 1, d);
        lemma_discord_plan_members(dc, kind, n - 1, Delivery::Discord((n - 1) as usize));
        let p = discord_plan(dc, kind, n - 1);
        if discord_takes(dc[n - 1], kind) {
            let x = Delivery::Discord((n - 1) as usize);
            let pp = p.push(x);
            assert(pp.contains(d) <==> (p.contains(d) || d == x)) by {
                if pp.contains(d) {
                    let w = choose|w: int| 0 <= w < pp.len() && #[trigger] pp[w] == d;
                    if w < p.len() {
                        assert(p[w] == d);
                    }
                }
                if p.contains(d) {
                    let w = choose|w: int| 0 <= w < p.len() && #[trigger] p[w] == d;
                    assert(pp[w] == d);
                }
                if d == x {
                    assert(pp[p.len() as int] == d);
                }
            }
            assert forall|a: int, b: int| 0 <= a < b < pp.len() implies pp[a] != pp[b] by {
                if b == p.len() {
                    assert(pp[a] == p[a]);
                    assert(p.contains(p[a]));
                } else {
                    assert(pp[a] == p[a] && pp[b] == p[b]);
                }
            }
        }
    }
}

/// A notification goes to exactly the integrations whose own switch for its kind is on
/// (the user's chat-bot setting plays no part), and to each of them once.
pub proof fn law_deliveries_follow_integration_switches(
    tg: Seq<TelegramIntegration>,
    dc: Seq<DiscordIntegration>,
    kind: NotificationType,
    d: Delivery,
)
    requires
        tg.len() <= usize::MAX,
        dc.len() <= usize::MAX,
    ensures
        delivery_plan(tg, dc, kind).contains(d) <==> match d {
            Delivery::Telegram(k) => k < tg.len() && telegram_takes(tg[k as int], kind),
            Delivery::Discord(k) => k < dc.len() && discord_takes(dc[k as int], kind),
        },
        forall|a: int, b: int|
            0 <= a < b < delivery_plan(tg, dc, kind).len() ==> delivery_plan(tg, dc, kind)[a]
                != delivery_plan(tg, dc, kind)[b],
{
    let p = telegram_plan(tg, kind, tg.len() as int);
    let q = discord_plan(dc, kind, dc.len() as int);
    lemma_telegram_plan_members(tg, kind, tg.len() as int, d);
    lemma_discord_plan_members(dc, kind, dc.len() as int, d);
    assert((p + q).contains(d) <==> (p.contains(d) || q.contains(d))) by {
        if (p + q).contains(d) {
            let w = choose|w: int| 0 <= w < (p + q).len() && #[trigger] (p + q)[w] == d;
            if w < p.len() {
                assert(p[w] == d);
            } else {
                assert(q[w - p.len()] == d);
            }
        }
        if p.contains(d) {
            let w = choose|w: int| 0 <= w < p.len() && #[trigger] p[w] == d;
            assert((p + q)[w] == d);
        }
        if q.contains(d) {
            let w = choose|w: int| 0 <= w < q.len() && #[trigger] q[w] == d;
            assert((p + q)[w + p.len()] == d);
        }
    }
    assert forall|a: int, b: int| 0 <= a < b < (p + q).len() implies (p + q)[a] != (p + q)[b] by {
        if a < p.len() && b >= p.len() {
            lemma_telegram_plan_members(tg, kind, tg.len() as int, p[a]);
            lemma_discord_plan_members(dc, kind, dc.len() as int, q[b - p.len()]);
            assert(p.contains(p[a]));
            assert(q.contains(q[b - p.len()]));
        }
    }
}

/// The public link of a channel: `https://twitch.tv/<login>`.
pub open spec fn stream_link(login: Seq<char>) -> Seq<char> {
    "https://twitch.tv/"@ + login
}

/// The public link of a channel.
pub fn stream_url_for(login: &str) -> (r: String)
    ensures
        r@ == stream_link(login@),
{
    crate::text::concat2("https://twitch.tv/", login)
}

/// The outcome of one delivery to `destination_id`, given what the messenger answered.
pub fn delivery_result(
    destination_type: &str,
    destination_id: String,
    outcome: Result<(), String>,
) -> (r: NotificationResult)
    ensures
        r.destination_type@ == destination_type@,
        r.destination_id == destination_id,
        r.success == outcome is Ok,
        outcome matches Err(e) ==> r.error == Some(e),
        outcome is Ok ==> r.error is None,
{
    match outcome {
        Ok(()) => NotificationResult {
            destination_type: owned(destination_type),
            destination_id,
            success: true,
            error: None,
        },
        Err(e) => NotificationResult {
            destination_type: owned(destination_type),
            destination_id,
            success: false,
            error: Some(e),
        },
    }
}

/// The outcome of a delivery whose messenger is not set up on the server.
pub fn service_missing_result(destination_type: &str, destination_id: String) -> (r:
    NotificationResult)
    ensures
        r.destination_type@ == destination_type@,
        r.destination_id == destination_id,
        !r.success,
        r.error matches Some(e) && e@ == service_missing_text(destination_type@),
{
    let e = service_missing_message(destination_type);
    NotificationResult {
        destination_type: owned(destination_type),
        destination_id,
        success: false,
        error: Some(e),
    }
}

/// What is said when the messenger of a destination is not set up.
pub open spec fn service_missing_text(destination_type: Seq<char>) -> Seq<char> {
    if destination_type == "telegram"@ {
        "Telegram service not initialized"@
    } else {
        "Discord service not initialized"@
    }
}

/// What is said when the messenger of a destination is not set up.
pub fn service_missing_message(destination_type: &str) -> (r: String)
    ensures
        r@ == service_missing_text(destination_type@),
{
    if str_equal(destination_type, "telegram") {
        owned("Telegram service not initialized")
    } else {
        owned("Discord service not initialized")
    }
}

/// Is a failed delivery retried?
pub open spec fn delivery_retried(r: NotificationResult) -> bool {
    !r.success && is_retryable(
        match r.error {
            Some(e) => Some(e@),
            None => None,
        },
        r.destination_type@,
    )
}

/// Is a delivery retried later? (It failed, and its error is a passing one.)
pub fn should_retry_delivery(result: &NotificationResult) -> (r: bool)
    ensures
        r == delivery_retried(*result),
{
    if result.success {
        return false;
    }
    let err: Option<&str> = match &result.error {
        Some(e) => Some(e.as_str()),
        None => None,
    };
    is_retryable_error(err, result.destination_type.as_str())
}

/// The status a delivery is logged with: `sent` on success, else the given status, else
/// `failed`.
pub open spec fn log_status_text(success: bool, status_override: Option<Seq<char>>) -> Seq<char> {
    if success {
        "sent"@
    } else {
        match status_override {
            Some(s) => s,
            None => "failed"@,
        }
    }
}

/// The log entry of a delivery (`pending` when it will be retried).
pub fn log_entry(
    user_id: &str,
    notification_type: NotificationType,
    result: &NotificationResult,
    message: &str,
    status_override: Option<&str>,
) -> (r: CreateNotificationLog)
    ensures
        r.user_id@ == user_id@,
        r.notification_type@ == notification_type_name(notification_type),
        r.destination_type == result.destination_type,
        r.destination_id == result.destination_id,
        r.content@ == message@,
        r.status@ == log_status_text(result.success, opt_str_view(status_override)),
        r.error_message == result.error,
{
    let status = if result.success {
        owned("sent")
    } else {
        match status_override {
            Some(s) => owned(s),
            None => owned("failed"),
        }
    };
    CreateNotificationLog {
        user_id: owned(user_id),
        notification_type: owned(notification_type.as_str()),
        destination_type: result.destination_type.clone(),
        destination_id: result.destination_id.clone(),
        content: owned(message),
        status,
        error_message: result.error.clone(),
    }
}

/// How one delivery is recorded: its log entry, and whether a retry is queued for it.
/// A retryable failure is logged `pending` and queued; a success is logged `sent` and
/// any other failure `failed`, and neither is queued. So a retry is queued exactly
/// when the entry's status is `pending`.
pub fn delivery_record(
    user_id: &str,
    notification_type: NotificationType,
    result: &NotificationResult,
    message: &str,
) -> (r: (CreateNotificationLog, bool))
    ensures
        r.0.user_id@ == user_id@,
        r.0.notification_type@ == notification_type_name(notification_type),
        r.0.destination_type == result.destination_type,
        r.0.destination_id == result.destination_id,
        r.0.content@ == message@,
        r.0.error_message == result.error,
        r.0.status@ == log_status_text(
            result.success,
            if delivery_retried(*result) { Some("pending"@) } else { None },
        ),
        r.1 == delivery_retried(*result),
        r.1 <==> r.0.status@ == "pending"@,
{
    let retry = should_retry_delivery(result);
    let entry = log_entry(user_id, notification_type, result, message, if retry { Some("pending") } else { None });
    proof {
        reveal_strlit("pending");
        reveal_strlit("sent");
        reveal_strlit("failed");
        assert("sent"@[0] != "pending"@[0]);
        assert("failed"@[0] != "pending"@[0]);
    }
    (entry, retry)
}

/// The message a queued task delivers: the user's current template filled in with the
/// task's data, so that every placeholder is replaced.
pub fn worker_render_message(
    settings: &NotificationSettings,
    payload: &NotificationPayload,
    stream_url: &str,
) -> (r: String)
    ensures
        r@ == rendered_message(*settings, payload_content(*payload), Some(stream_url@)),
{
    render_notification_message(settings, payload.as_content(), Some(stream_url))
}


// ---------------------------------------------------------------------------
// The retry worker's handling of one queued task
// ---------------------------------------------------------------------------

/// A change to a queued task.
#[derive(Debug, Clone, PartialEq, Eq)]
pub enum QueueUpdate {
    /// Leave the task as it is.
    Keep,
    /// Give the task up (dead-letter it) for the given reason.
    MarkDead(String),
    /// The task was delivered.
    MarkSucceeded,
    /// Count a failed attempt and try again after `delay_seconds` (the queue gives the task
    /// up instead once its attempts are used up).
    Reschedule { delay_seconds: u64, error: String },
}

/// A change to the log entry of the delivery a task retries.
#[derive(Debug, Clone, PartialEq, Eq)]
pub struct LogUpdate {
    pub log_id: String,
    pub status: String,
    pub error: Option<String>,
}

/// The messenger a task is delivered through.
#[derive(Debug, Clone, Copy, PartialEq, Eq, Structural)]
pub enum DestinationKind {
    Telegram,
    Discord,
}

/// What the worker is asked to do next for a task.
#[derive(Debug, PartialEq, Eq)]
pub enum TaskAction {
    /// Load the owner's settings (answer `SettingsLoaded` or `SettingsFailed`).
    LoadSettings,
    /// Load the owner (answer `UserFound`, `UserMissing` or `UserFailed`).
    LoadUser,
    /// Read the task's data as a payload of this kind and fill in the template with this
    /// stream link (answer `Rendered` or `DecodeFailed`).
    Render { kind: NotificationType, stream_url: String },
    /// Deliver the message (answer `Delivered`, `DeliveryFailed` or `ServiceMissing`).
    Send { destination: DestinationKind, message: String },
    /// Apply these changes (answer `Updated`).
    Update { queue: QueueUpdate, log: Option<LogUpdate> },
    /// The task is handled; the run ends with this result.
    Finish(Result<(), crate::error::AppError>),
}

/// What happened after the last action.
#[derive(Debug, Clone, PartialEq, Eq)]
pub enum TaskEvent {
    Started,
    SettingsLoaded,
    SettingsFailed(String),
    UserFound { twitch_login: String },
    UserMissing,
    UserFailed(String),
    Rendered(String),
    DecodeFailed(String),
    ServiceMissing,
    Delivered,
    DeliveryFailed(String),
    /// The changes were applied; for a reschedule, the task's status afterwards
    /// (`None` when the queue could not be updated).
    Updated { status: Option<String> },
}

/// Where the handling of a task stands.
#[derive(Debug, Clone, PartialEq, Eq)]
pub enum TaskPhase {
    Start,
    AwaitSettings,
    AwaitUser,
    AwaitRender,
    AwaitSend,
    /// A retry was scheduled after this error.
    AwaitReschedule(String),
    /// The task was given up for good; the run then ends with this error.
    AwaitDeadLetter(crate::error::AppError),
    AwaitUpdate,
    Done,
}

/// Is the task past its time to live at `now`?
pub open spec fn task_expired(task: NotificationTask, now: i64) -> bool {
    task.expires_at matches Some(exp) && exp <= now
}

/// Is `l` the update of the task's log entry (if it has one) to `status` and `error`?
pub open spec fn log_update_is(
    task: NotificationTask,
    l: Option<LogUpdate>,
    status: Seq<char>,
    error: Option<Seq<char>>,
) -> bool {
    match task.notification_log_id {
        Some(id) => l matches Some(u) && u.log_id == id && u.status@ == status && match error {
            Some(e) => (u.error matches Some(x) && x@ == e),
            None => u.error is None,
        },
        None => l is None,
    }
}

/// Is `a` the update that gives the task up for `reason`, with the log entry set to
/// `status` and `error`?
pub open spec fn gives_up(
    task: NotificationTask,
    a: TaskAction,
    reason: Seq<char>,
    status: Seq<char>,
    error: Option<Seq<char>>,
) -> bool {
    a matches TaskAction::Update { queue, log } && (queue matches QueueUpdate::MarkDead(r) && r@
        == reason) && log_update_is(task, log, status, error)
}

/// Is `a` the update that retries the task after `delay` seconds, recording `error`?
pub open spec fn retries(a: TaskAction, delay: nat, error: Seq<char>) -> bool {
    a matches TaskAction::Update { queue, log } && log is None && (queue matches QueueUpdate::Reschedule {
        delay_seconds,
        error: e,
    } && delay_seconds == delay && e@ == error)
}

/// The delay before retrying a task after a failed delivery.
pub open spec fn task_retry_delay(task: NotificationTask, cfg: NotificationRetryConfig) -> nat {
    backoff_delay(
        cfg.initial_backoff_seconds as nat,
        cfg.max_backoff_seconds as nat,
        (task.attempts as u32) as nat,
    )
}

/// Is `a` the delivery of `msg` through `destination`?
pub open spec fn sends(a: TaskAction, destination: DestinationKind, msg: String) -> bool {
    a matches TaskAction::Send { destination: d, message } && d == destination && message == msg
}

/// Is `a` the request to fill in a template of kind `k` with the link `url`?
pub open spec fn renders(a: TaskAction, k: NotificationType, url: Seq<char>) -> bool {
    a matches TaskAction::Render { kind, stream_url } && kind == k && stream_url@ == url
}

/// Is `a` the update that leaves the queue as it is and sets the log entry?
pub open spec fn only_logs(
    task: NotificationTask,
    a: TaskAction,
    status: Seq<char>,
    error: Option<Seq<char>>,
) -> bool {
    a matches TaskAction::Update { queue, log } && queue == QueueUpdate::Keep && log_update_is(
        task,
        log,
        status,
        error,
    )
}

/// Is `a` the update that records the delivery, with the log entry set to `sent`?
pub open spec fn succeeds(task: NotificationTask, a: TaskAction) -> bool {
    a matches TaskAction::Update { queue, log } && queue == QueueUpdate::MarkSucceeded
        && log_update_is(task, log, "sent"@, None)
}

/// Is `r` the next phase and action of the worker for a task, after `event` in `phase`?
pub open spec fn task_step_is(
    task: NotificationTask,
    cfg: NotificationRetryConfig,
    now: i64,
    phase: TaskPhase,
    event: TaskEvent,
    r: (TaskPhase, TaskAction),
) -> bool {
    let initial = cfg.initial_backoff_seconds as nat;
    match (phase, event) {
        (TaskPhase::Start, TaskEvent::Started) => if task_expired(task, now) {
            r.0 == TaskPhase::AwaitUpdate && gives_up(
                task,
                r.1,
                "expired"@,
                "expired"@,
                Some("Notification expired"@),
            )
        } else {
            r == (TaskPhase::AwaitSettings, TaskAction::LoadSettings)
        },
        (TaskPhase::AwaitSettings, TaskEvent::SettingsFailed(e)) => r.0 == TaskPhase::AwaitUpdate
            && retries(r.1, initial, "Failed to load settings: "@ + e@),
        (TaskPhase::AwaitSettings, TaskEvent::SettingsLoaded) => r == (
            TaskPhase::AwaitUser,
            TaskAction::LoadUser,
        ),
        (TaskPhase::AwaitUser, TaskEvent::UserMissing) => r.0 == TaskPhase::AwaitUpdate
            && gives_up(task, r.1, "user not found"@, "failed"@, Some("User not found"@)),
        (TaskPhase::AwaitUser, TaskEvent::UserFailed(e)) => r.0 == TaskPhase::AwaitUpdate
            && retries(r.1, initial, "Failed to fetch user: "@ + e@),
        (TaskPhase::AwaitUser, TaskEvent::UserFound { twitch_login }) => match notification_type_named(
            task.notification_type@,
        ) {
            Some(k) => r.0 == TaskPhase::AwaitRender && renders(
                r.1,
                k,
                stream_link(twitch_login@),
            ),
            None => {
                let reason = "Unknown notification type: "@ + task.notification_type@;
                (r.0 matches TaskPhase::AwaitDeadLetter(err) && (err matches crate::error::AppError::BadRequest(
                    m,
                ) && m@ == reason)) && gives_up(task, r.1, reason, "failed"@, Some(reason))
            },
        },
        (TaskPhase::AwaitRender, TaskEvent::DecodeFailed(e)) => r.0 == TaskPhase::AwaitDeadLetter(
            crate::error::AppError::Internal(e),
        ) && gives_up(task, r.1, e@, "failed"@, Some(e@)),
        (TaskPhase::AwaitDeadLetter(err), TaskEvent::Updated { .. }) => r == (
            TaskPhase::Done,
            TaskAction::Finish(Err(err)),
        ),
        (TaskPhase::AwaitRender, TaskEvent::Rendered(msg)) => if task.destination_type@
            == "telegram"@ {
            r.0 == TaskPhase::AwaitSend && sends(r.1, DestinationKind::Telegram, msg)
        } else if task.destination_type@ == "discord"@ {
            r.0 == TaskPhase::AwaitSend && sends(r.1, DestinationKind::Discord, msg)
        } else {
            r.0 == TaskPhase::AwaitUpdate && gives_up(
                task,
                r.1,
                "Unknown destination type: "@ + task.destination_type@,
                "failed"@,
                Some("Unknown destination type: "@ + task.destination_type@),
            )
        },
        (TaskPhase::AwaitSend, TaskEvent::ServiceMissing) => r.0 == TaskPhase::AwaitUpdate
            && retries(r.1, initial, service_missing_text(task.destination_type@)),
        (TaskPhase::AwaitSend, TaskEvent::Delivered) => r.0 == TaskPhase::AwaitUpdate && succeeds(
            task,
            r.1,
        ),
        (TaskPhase::AwaitSend, TaskEvent::DeliveryFailed(e)) => if is_retryable(
            Some(e@),
            task.destination_type@,
        ) {
            r.0 == TaskPhase::AwaitReschedule(e) && retries(
                r.1,
                task_retry_delay(task, cfg),
                e@,
            )
        } else {
            r.0 == TaskPhase::AwaitUpdate && gives_up(task, r.1, e@, "failed"@, Some(e@))
        },
        (TaskPhase::AwaitReschedule(e), TaskEvent::Updated { status }) => match status {
            Some(st) => r.0 == TaskPhase::AwaitUpdate && only_logs(
                task,
                r.1,
                if st@ == "dead"@ {
                    "failed"@
                } else {
                    "pending"@
                },
                Some(e@),
            ),
            None => r == (TaskPhase::Done, TaskAction::Finish(Ok(()))),
        },
        _ => r == (TaskPhase::Done, TaskAction::Finish(Ok(()))),
    }
}

/// The update of the task's log entry, if it has one.
fn log_update_for(task: &NotificationTask, status: &str, error: Option<String>) -> (r: Option<
    LogUpdate,
>)
    ensures
        log_update_is(
            *task,
            r,
            status@,
            match error {
                Some(e) => Some(e@),
                None => None,
            },
        ),
{
    match &task.notification_log_id {
        Some(id) => Some(LogUpdate { log_id: id.clone(), status: owned(status), error }),
        None => None,
    }
}

/// What a delivery attempt of a queued task leads to: a delivered task is marked
/// succeeded and its log `sent`; a failure that may pass is retried after the backoff
/// for the attempts made so far (the initial delay doubled per attempt, capped), with
/// the log left for later; any other failure dead-letters the task with the error and
/// marks its log `failed` with it.
pub proof fn law_delivery_outcome(
    task: NotificationTask,
    cfg: NotificationRetryConfig,
    now: i64,
    event: TaskEvent,
    r: (TaskPhase, TaskAction),
)
    requires
        task_step_is(task, cfg, now, TaskPhase::AwaitSend, event, r),
    ensures
        event == TaskEvent::Delivered ==> (r.1 matches TaskAction::Update { queue, log }
            && queue == QueueUpdate::MarkSucceeded && match task.notification_log_id {
            Some(id) => log matches Some(u) && u.log_id == id && u.status@ == "sent"@ && u.error is None,
            None => log is None,
        }),
        event matches TaskEvent::DeliveryFailed(e) ==> (if is_retryable(Some(e@), task.destination_type@) {
            r.1 matches TaskAction::Update { queue, log } && log is None && (queue matches QueueUpdate::Reschedule {
                delay_seconds,
                error,
            } && error@ == e@ && delay_seconds == backoff_delay(
                cfg.initial_backoff_seconds as nat,
                cfg.max_backoff_seconds as nat,
                (task.attempts as u32) as nat,
            ))
        } else {
            r.1 matches TaskAction::Update { queue, log } && (queue matches QueueUpdate::MarkDead(m) && m@ == e@)
                && match task.notification_log_id {
                Some(id) => log matches Some(u) && u.log_id == id && u.status@ == "failed"@ && (u.error matches Some(x)
                    && x@ == e@),
                None => log is None,
            }
        }),
{
}

/// A rendered queued task is sent through the messenger its destination names: a
/// `discord` task to Discord, a `telegram` task to Telegram, with the rendered message.
pub proof fn law_rendered_task_goes_to_its_messenger(
    task: NotificationTask,
    cfg: NotificationRetryConfig,
    now: i64,
    msg: String,
    r: (TaskPhase, TaskAction),
)
    requires
        task_step_is(task, cfg, now, TaskPhase::AwaitRender, TaskEvent::Rendered(msg), r),
    ensures
        task.destination_type@ == "discord"@ ==> r.1 == (TaskAction::Send {
            destination: DestinationKind::Discord,
            message: msg,
        }),
        task.destination_type@ == "telegram"@ ==> r.1 == (TaskAction::Send {
            destination: DestinationKind::Telegram,
            message: msg,
        }),
{
    reveal_strlit("discord");
    reveal_strlit("telegram");
    assert("discord"@[0] != "telegram"@[0]);
}

/// The worker's next phase and action for a queued task, after `event` in `phase`.
/// An event that does not answer the last action ends the run.
pub fn task_step(
    task: &NotificationTask,
    cfg: &NotificationRetryConfig,
    now: i64,
    phase: TaskPhase,
    event: TaskEvent,
) -> (r: (TaskPhase, TaskAction))
    ensures
        task_step_is(*task, *cfg, now, phase, event, r),
{
    let initial = cfg.initial_backoff_seconds;
    match (phase, event) {
        (TaskPhase::Start, TaskEvent::Started) => {
            let expired = match task.expires_at {
                Some(exp) => exp <= now,
                None => false,
            };
            if expired {
                let log = log_update_for(task, "expired", Some(owned("Notification expired")));
                (
                    TaskPhase::AwaitUpdate,
                    TaskAction::Update { queue: QueueUpdate::MarkDead(owned("expired")), log },
                )
            } else {
                (TaskPhase::AwaitSettings, TaskAction::LoadSettings)
            }
        },
        (TaskPhase::AwaitSettings, TaskEvent::SettingsFailed(e)) => {
            let error = crate::text::concat2("Failed to load settings: ", e.as_str());
            (
                TaskPhase::AwaitUpdate,
                TaskAction::Update {
                    queue: QueueUpdate::Reschedule { delay_seconds: initial, error },
                    log: None,
                },
            )
        },
        (TaskPhase::AwaitSettings, TaskEvent::SettingsLoaded) => (
            TaskPhase::AwaitUser,
            TaskAction::LoadUser,
        ),
        (TaskPhase::AwaitUser, TaskEvent::UserMissing) => {
            let log = log_update_for(task, "failed", Some(owned("User not found")));
            (
                TaskPhase::AwaitUpdate,
                TaskAction::Update { queue: QueueUpdate::MarkDead(owned("user not found")), log },
            )
        },
        (TaskPhase::AwaitUser, TaskEvent::UserFailed(e)) => {
            let error = crate::text::concat2("Failed to fetch user: ", e.as_str());
            (
                TaskPhase::AwaitUpdate,
                TaskAction::Update {
                    queue: QueueUpdate::Reschedule { delay_seconds: initial, error },
                    log: None,
                },
            )
        },
        (TaskPhase::AwaitUser, TaskEvent::UserFound { twitch_login }) => {
            match NotificationType::from_name(task.notification_type.as_str()) {
                Some(kind) => {
                    let stream_url = stream_url_for(twitch_login.as_str());
                    (TaskPhase::AwaitRender, TaskAction::Render { kind, stream_url })
                },
                None => {
                    let m = crate::text::concat2(
                        "Unknown notification type: ",
                        task.notification_type.as_str(),
                    );
                    let log = log_update_for(task, "failed", Some(m.clone()));
                    (
                        TaskPhase::AwaitDeadLetter(crate::error::AppError::BadRequest(m.clone())),
                        TaskAction::Update { queue: QueueUpdate::MarkDead(m), log },
                    )
                },
            }
        },
        (TaskPhase::AwaitRender, TaskEvent::DecodeFailed(e)) => {
            let log = log_update_for(task, "failed", Some(e.clone()));
            (
                TaskPhase::AwaitDeadLetter(crate::error::AppError::Internal(e.clone())),
                TaskAction::Update { queue: QueueUpdate::MarkDead(e), log },
            )
        },
        (TaskPhase::AwaitDeadLetter(err), TaskEvent::Updated { .. }) => (
            TaskPhase::Done,
            TaskAction::Finish(Err(err)),
        ),
        (TaskPhase::AwaitRender, TaskEvent::Rendered(message)) => {
            if str_equal(task.destination_type.as_str(), "telegram") {
                (
                    TaskPhase::AwaitSend,
                    TaskAction::Send { destination: DestinationKind::Telegram, message },
                )
            } else if str_equal(task.destination_type.as_str(), "discord") {
                (
                    TaskPhase::AwaitSend,
                    TaskAction::Send { destination: DestinationKind::Discord, message },
                )
            } else {
                let reason = crate::text::concat2(
                    "Unknown destination type: ",
                    task.destination_type.as_str(),
                );
                let log = log_update_for(task, "failed", Some(reason.clone()));
                (
                    TaskPhase::AwaitUpdate,
                    TaskAction::Update { queue: QueueUpdate::MarkDead(reason), log },
                )
            }
        },
        (TaskPhase::AwaitSend, TaskEvent::ServiceMissing) => {
            let error = service_missing_message(task.destination_type.as_str());
            (
                TaskPhase::AwaitUpdate,
                TaskAction::Update {
                    queue: QueueUpdate::Reschedule { delay_seconds: initial, error },
                    log: None,
                },
            )
        },
        (TaskPhase::AwaitSend, TaskEvent::Delivered) => {
            let log = log_update_for(task, "sent", None);
            (TaskPhase::AwaitUpdate, TaskAction::Update { queue: QueueUpdate::MarkSucceeded, log })
        },
        (TaskPhase::AwaitSend, TaskEvent::DeliveryFailed(e)) => {
            if is_retryable_error(Some(e.as_str()), task.destination_type.as_str()) {
                let delay = backoff_delay_seconds(
                    cfg.initial_backoff_seconds,
                    cfg.max_backoff_seconds,
                    task.attempts as u32,
                );
                let error = e.clone();
                (
                    TaskPhase::AwaitReschedule(e),
                    TaskAction::Update {
                        queue: QueueUpdate::Reschedule { delay_seconds: delay, error },
                        log: None,
                    },
                )
            } else {
                let log = log_update_for(task, "failed", Some(e.clone()));
                (TaskPhase::AwaitUpdate, TaskAction::Update { queue: QueueUpdate::MarkDead(e), log })
            }
        },
        (TaskPhase::AwaitReschedule(e), TaskEvent::Updated { status }) => match status {
            Some(st) => {
                let log_status: &str = if str_equal(st.as_str(), "dead") {
                    "failed"
                } else {
                    "pending"
                };
                let log = log_update_for(task, log_status, Some(e));
                (TaskPhase::AwaitUpdate, TaskAction::Update { queue: QueueUpdate::Keep, log })
            },
            None => (TaskPhase::Done, TaskAction::Finish(Ok(()))),
        },
        _ => (TaskPhase::Done, TaskAction::Finish(Ok(()))),
    }
}


/// The retry delay never exceeds the cap, never shrinks as attempts accumulate, and
/// doubles from one attempt to the next until it reaches the cap.
pub proof fn law_backoff_grows_to_cap(initial: nat, max: nat, a: nat, b: nat)
    requires
        a <= b,
    ensures
        backoff_delay(initial, max, a) <= max,
        backoff_delay(initial, max, a) <= backoff_delay(initial, max, b),
        backoff_delay(initial, max, a + 1) < max ==> backoff_delay(initial, max, a + 1) == 2
            * backoff_delay(initial, max, a),
{
    if a < b {
        lemma_pow2_strictly_increases(a, b);
    }
    vstd::arithmetic::mul::lemma_mul_inequality(pow2(a) as int, pow2(b) as int, initial as int);
    vstd::arithmetic::mul::lemma_mul_is_commutative(pow2(a) as int, initial as int);
    vstd::arithmetic::mul::lemma_mul_is_commutative(pow2(b) as int, initial as int);
    lemma_pow2_unfold(a + 1);
    vstd::arithmetic::mul::lemma_mul_is_associative(initial as int, 2, pow2(a) as int);
    vstd::arithmetic::mul::lemma_mul_is_commutative(initial as int, 2);
    vstd::arithmetic::mul::lemma_mul_is_associative(2, initial as int, pow2(a) as int);
    lemma_pow2_strictly_increases(a, a + 1);
    vstd::arithmetic::mul::lemma_mul_inequality(
        pow2(a) as int,
        pow2(a + 1) as int,
        initial as int,
    );
    vstd::arithmetic::mul::lemma_mul_is_commutative(pow2(a + 1) as int, initial as int);
}

} // verus!
