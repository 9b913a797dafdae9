//! A user's message templates: checking and normalizing them, the placeholders they may
//! use, and what the user's integrations switch on overall.
use vstd::prelude::*;

use crate::error::AppError;
use crate::models::{
    DiscordIntegration, NotificationSettings, TelegramIntegration, UpdateNotificationSettings,
};
use crate::text::{
    chars_of, concat2, contains_seq, find_from, find_seq, lemma_find_seq_occurs, occurs_at, owned,
    string_of, string_push,
};
use vstd::utf8::encode_utf8;

verus! {

broadcast use vstd::string::group_string_axioms;

/// Checks and defaults of a user's settings.
pub struct SettingsService;

/// Longest message template (in UTF-8 bytes).
pub const MAX_MESSAGE_BYTES: usize = 4096;

/// Why a template is refused, if it is: it is empty, or longer than 4096 bytes.
pub open spec fn message_refusal(message: Seq<char>, message_type: Seq<char>) -> Option<Seq<char>> {
    if message.len() == 0 {
        Some(message_type + " message cannot be empty"@)
    } else if encode_utf8(message).len() > 4096 {
        Some(message_type + " message cannot exceed 4096 characters"@)
    } else {
        None
    }
}

/// Checks a message template: not empty, at most 4096 bytes.
pub fn validate_message(message: &str, message_type: &str) -> (r: Result<(), AppError>)
    ensures
        match message_refusal(message@, message_type@) {
            Some(m) => r matches Err(e) && (e matches AppError::Validation(x) && x@ == m),
            None => r is Ok,
        },
{
    if chars_of(message).len() == 0 {
        return Err(AppError::Validation(concat2(message_type, " message cannot be empty")));
    }
    if message.as_bytes().len() > MAX_MESSAGE_BYTES {
        return Err(
            AppError::Validation(concat2(message_type, " message cannot exceed 4096 characters")),
        );
    }
    Ok(())
}

impl SettingsService {
    /// Checks a message template: not empty, at most 4096 bytes.
    pub fn validate_message(message: &str, message_type: &str) -> (r: Result<(), AppError>)
        ensures
            match message_refusal(message@, message_type@) {
                Some(m) => r matches Err(e) && (e matches AppError::Validation(x) && x@ == m),
                None => r is Ok,
            },
    {
        validate_message(message, message_type)
    }
}

/// A template with each `{{name}}` turned into `{name}`, left to right; from an `{{`
/// without a later `}}` on, the text stays as it is.
pub open spec fn normalized_placeholders(s: Seq<char>) -> Seq<char>
    decreases s.len(),
{
    match find_seq(s, "{{"@) {
        None => s,
        Some(open) => match find_seq(s.skip(open + 2int), "}}"@) {
            None => s,
            Some(close) => {
                proof {
                    reveal_strlit("{{");
                    reveal_strlit("}}");
                    lemma_find_seq_bound(s, "{{"@);
                    lemma_find_seq_bound(s.skip(open + 2int), "}}"@);
                }
                s.take(open as int) + seq!['{'] + s.subrange(
                open + 2int,
                open + 2int + close,
            ) + seq!['}'] + normalized_placeholders(s.skip(open + 2int + close + 2int))
            },
        },
    }
}

pub proof fn lemma_find_seq_bound(s: Seq<char>, pat: Seq<char>)
    ensures
        find_seq(s, pat) matches Some(i) ==> i + pat.len() <= s.len(),
    decreases s.len(),
{
    if s.len() >= pat.len() && s.take(pat.len() as int) != pat && s.len() > 0 {
        lemma_find_seq_bound(s.skip(1), pat);
    }
}

/// A template without `{{` is stored exactly as it was written.
pub proof fn law_plain_template_unchanged(s: Seq<char>)
    requires
        !contains_seq(s, "{{"@),
    ensures
        normalized_placeholders(s) == s,
{
    lemma_find_seq_occurs(s, "{{"@);
    if let Some(i) = find_seq(s, "{{"@) {
        assert(occurs_at(s, "{{"@, i as int));
    }
}

/// Normalizing never lengthens a template, and each placeholder it rewrites loses
/// exactly two braces: the length shrinks by an even number.
pub proof fn law_placeholder_length(s: Seq<char>)
    ensures
        normalized_placeholders(s).len() <= s.len(),
        (s.len() - normalized_placeholders(s).len()) % 2 == 0,
    decreases s.len(),
{
    reveal_strlit("{{");
    reveal_strlit("}}");
    if let Some(open) = find_seq(s, "{{"@) {
        lemma_find_seq_bound(s, "{{"@);
        lemma_find_seq_bound(s.skip(open + 2int), "}}"@);
        if let Some(close) = find_seq(s.skip(open + 2int), "}}"@) {
            law_placeholder_length(s.skip(open + 2int + close + 2int));
        }
    }
}

/// The first `}}` of `name + "}}"` is the one appended, when `name` holds no `}`.
proof fn lemma_closing_braces_found(name: Seq<char>)
    requires
        forall|i: int| 0 <= i < name.len() ==> name[i] != '}',
    ensures
        find_seq(name + "}}"@, "}}"@) == Some(name.len()),
    decreases name.len(),
{
    reveal_strlit("}}");
    let t = name + "}}"@;
    if name.len() == 0 {
        assert(t.take(2) =~= "}}"@);
    } else {
        assert(t.take(2)[0] != "}}"@[0]);
        assert(t.skip(1) =~= name.skip(1) + "}}"@);
        lemma_closing_braces_found(name.skip(1));
    }
}

/// A name written between doubled braces comes out between single braces, when the
/// name holds no `}`: `{{name}}` becomes `{name}`.
pub proof fn law_double_braced_name(name: Seq<char>)
    requires
        forall|i: int| 0 <= i < name.len() ==> name[i] != '}',
    ensures
        normalized_placeholders("{{"@ + name + "}}"@) == seq!['{'] + name + seq!['}'],
{
    reveal_strlit("{{");
    reveal_strlit("}}");
    let s = "{{"@ + name + "}}"@;
    assert(s.take(2) =~= "{{"@);
    assert(find_seq(s, "{{"@) == Some(0nat));
    assert(s.skip(2) =~= name + "}}"@);
    lemma_closing_braces_found(name);
    let n = name.len() as int;
    let rest = s.skip(2 + n + 2);
    assert(rest.len() == 0);
    assert(normalized_placeholders(rest) == rest);
    assert(s.subrange(2, 2 + n) =~= name);
    assert(s.take(0) + seq!['{'] + s.subrange(2, 2 + n) + seq!['}'] + rest =~= seq!['{'] + name + seq!['}']);
}

/// Turns `{{name}}` placeholders into `{name}`.
pub fn normalize_placeholders(msg: &str) -> (r: String)
    ensures
        r@ == normalized_placeholders(msg@),
{
    proof {
        reveal_strlit("{{");
        reveal_strlit("}}");
    }
    let v = chars_of(msg);
    let open_pat = chars_of("{{");
    let close_pat = chars_of("}}");
    let mut out: Vec<char> = Vec::new();
    let mut start: usize = 0;
    assert(v@.skip(0) =~= v@);
    while start <= v.len()
        invariant
            start <= v.len(),
            open_pat@ == "{{"@,
            close_pat@ == "}}"@,
            out@ + normalized_placeholders(v@.skip(start as int)) == normalized_placeholders(v@),
        ensures
            start <= v.len(),
            out@ + v@.skip(start as int) == normalized_placeholders(v@),
        decreases v.len() - start,
    {
        let ghost rest = v@.skip(start as int);
        match find_from(&v, &open_pat, start) {
            None => {
                assert(normalized_placeholders(rest) == rest);
                break;
            },
            Some(open) => {
                proof {
                    reveal_strlit("{{");
                    reveal_strlit("}}");
                    lemma_find_seq_bound(rest, "{{"@);
                    assert(find_seq(rest, "{{"@) == Some((open - start) as nat));
                    assert(open + 2 <= v.len());
                }
                let inner_start = open + 2;
                match find_from(&v, &close_pat, inner_start) {
                    None => {
                        proof {
                            let o = (open - start) as int;
                            assert(rest.skip(o + 2) =~= v@.skip(inner_start as int));
                            assert(normalized_placeholders(rest) == rest);
                        }
                        break;
                    },
                    Some(close) => {
                        proof {
                            lemma_find_seq_bound(v@.skip(inner_start as int), "}}"@);
                            assert(find_seq(v@.skip(inner_start as int), "}}"@) == Some(
                                (close - inner_start) as nat,
                            ));
                            assert(close + 2 <= v.len());
                        }
                        let ghost before = out@;
                        let mut k: usize = start;
                        while k < open
                            invariant
                                start <= k <= open <= v.len(),
                                out@ == before + v@.subrange(start as int, k as int),
                            decreases open - k,
                        {
                            out.push(v[k]);
                            k = k + 1;
                            assert(out@ =~= before + v@.subrange(start as int, k as int));
                        }
                        out.push('{');
                        let mut k: usize = inner_start;
                        let ghost mid = out@;
                        while k < close
                            invariant
                                inner_start <= k <= close <= v.len(),
                                out@ == mid + v@.subrange(inner_start as int, k as int),
                            decreases close - k,
                        {
                            out.push(v[k]);
                            k = k + 1;
                            assert(out@ =~= mid + v@.subrange(inner_start as int, k as int));
                        }
                        out.push('}');
                        proof {
                            let o = (open - start) as int;
                            let c = (close - inner_start) as int;
                            assert(rest.skip(o + 2) =~= v@.skip(inner_start as int));
                            assert(rest.take(o) =~= v@.subrange(start as int, open as int));
                            assert(rest.subrange(o + 2, o + 2 + c) =~= v@.subrange(
                                inner_start as int,
                                close as int,
                            ));
                            assert(rest.skip(o + 2 + c + 2) =~= v@.skip(close + 2));
                            assert(out@ + normalized_placeholders(v@.skip(close + 2)) =~= before
                                + normalized_placeholders(rest));
                        }
                        start = close + 2;
                    },
                }
            },
        }
    }
    let mut k: usize = start;
    let ghost before = out@;
    while k < v.len()
        invariant
            start <= k <= v.len(),
            out@ == before + v@.subrange(start as int, k as int),
        decreases v.len() - k,
    {
        out.push(v[k]);
        k = k + 1;
        assert(out@ =~= before + v@.subrange(start as int, k as int));
    }
    assert(v@.subrange(start as int, v.len() as int) =~= v@.skip(start as int));
    string_of(out.as_slice())
}

// ---------------------------------------------------------------------------
// Placeholders
// ---------------------------------------------------------------------------

/// A placeholder a template may use.
#[derive(Debug, Clone, PartialEq, Eq)]
pub struct PlaceholderInfo {
    pub name: String,
    pub description: String,
    pub example: String,
}

/// The placeholders of stream templates and of reward templates.
#[derive(Debug, Clone, PartialEq, Eq)]
pub struct PlaceholdersInfo {
    pub stream: Vec<PlaceholderInfo>,
    pub reward: Vec<PlaceholderInfo>,
}

/// Is `p` the placeholder `name`, described and exemplified so?
pub open spec fn placeholder_is(
    p: PlaceholderInfo,
    name: Seq<char>,
    description: Seq<char>,
    example: Seq<char>,
) -> bool {
    p.name@ == name && p.description@ == description && p.example@ == example
}

fn placeholder(name: &str, description: &str, example: &str) -> (r: PlaceholderInfo)
    ensures
        placeholder_is(r, name@, description@, example@),
{
    PlaceholderInfo { name: owned(name), description: owned(description), example: owned(example) }
}

/// The placeholders shown to users: `{streamer}`, `{title}`, `{game}`, `{url}` for stream
/// templates and `{user}`, `{reward}` for reward templates.
pub fn get_placeholders_info() -> (r: PlaceholdersInfo)
    ensures
        r.stream@.len() == 4,
        placeholder_is(r.stream@[0], "{streamer}"@, "Streamer's display name"@, "xQc"@),
        placeholder_is(r.stream@[1], "{title}"@, "Stream title"@, "Just Chatting"@),
        placeholder_is(r.stream@[2], "{game}"@, "Game category"@, "Just Chatting"@),
        placeholder_is(r.stream@[3], "{url}"@, "Stream URL"@, "https://twitch.tv/xqc"@),
        r.reward@.len() == 2,
        placeholder_is(
            r.reward@[0],
            "{user}"@,
            "Username who redeemed the reward"@,
            "viewer123"@,
        ),
        placeholder_is(r.reward@[1], "{reward}"@, "Reward title"@, "Custom Reward Name"@),
{
    let mut stream: Vec<PlaceholderInfo> = Vec::new();
    stream.push(placeholder("{streamer}", "Streamer's display name", "xQc"));
    stream.push(placeholder("{title}", "Stream title", "Just Chatting"));
    stream.push(placeholder("{game}", "Game category", "Just Chatting"));
    stream.push(placeholder("{url}", "Stream URL", "https://twitch.tv/xqc"));
    let mut reward: Vec<PlaceholderInfo> = Vec::new();
    reward.push(placeholder("{user}", "Username who redeemed the reward", "viewer123"));
    reward.push(placeholder("{reward}", "Reward title", "Custom Reward Name"));
    PlaceholdersInfo { stream, reward }
}

// ---------------------------------------------------------------------------
// Overall switches
// ---------------------------------------------------------------------------

/// Does some integration have the switch of `kind` on?
pub open spec fn any_switch_on(
    tg: Seq<TelegramIntegration>,
    dc: Seq<DiscordIntegration>,
    kind: crate::notifications::NotificationType,
) -> bool {
    (exists|i: int| 0 <= i < tg.len() && crate::notifications::telegram_takes(#[trigger] tg[i], kind))
        || (exists|i: int| 0 <= i < dc.len() && crate::notifications::discord_takes(#[trigger] dc[i], kind))
}

fn any_on(
    tg: &Vec<TelegramIntegration>,
    dc: &Vec<DiscordIntegration>,
    kind: crate::notifications::NotificationType,
) -> (r: bool)
    ensures
        r == any_switch_on(tg@, dc@, kind),
{
    let mut i: usize = 0;
    while i < tg.len()
        invariant
            i <= tg.len(),
            forall|j: int| 0 <= j < i ==> !crate::notifications::telegram_takes(#[trigger] tg@[j], kind),
        decreases tg.len() - i,
    {
        if crate::notifications::telegram_wants(&tg[i], kind) {
            return true;
        }
        i = i + 1;
    }
    let mut i: usize = 0;
    while i < dc.len()
        invariant
            i <= dc.len(),
            forall|j: int| 0 <= j < tg@.len() ==> !crate::notifications::telegram_takes(#[trigger] tg@[j], kind),
            forall|j: int| 0 <= j < i ==> !crate::notifications::discord_takes(#[trigger] dc@[j], kind),
        decreases dc.len() - i,
    {
        if crate::notifications::discord_wants(&dc[i], kind) {
            return true;
        }
        i = i + 1;
    }
    false
}

impl SettingsService {
    /// What the user's integrations switch on overall: for stream online, stream offline,
    /// title change and category change, whether some integration has that switch on.
    pub fn get_aggregated_notify_flags(
        telegram: &Vec<TelegramIntegration>,
        discord: &Vec<DiscordIntegration>,
    ) -> (r: (bool, bool, bool, bool))
        ensures
            r.0 == any_switch_on(telegram@, discord@, crate::notifications::NotificationType::StreamOnline),
            r.1 == any_switch_on(telegram@, discord@, crate::notifications::NotificationType::StreamOffline),
            r.2 == any_switch_on(telegram@, discord@, crate::notifications::NotificationType::TitleChange),
            r.3 == any_switch_on(telegram@, discord@, crate::notifications::NotificationType::CategoryChange),
    {
        (
            any_on(telegram, discord, crate::notifications::NotificationType::StreamOnline),
            any_on(telegram, discord, crate::notifications::NotificationType::StreamOffline),
            any_on(telegram, discord, crate::notifications::NotificationType::TitleChange),
            any_on(telegram, discord, crate::notifications::NotificationType::CategoryChange),
        )
    }

    /// The update that resets a user's templates and chat-bot switch to the defaults.
    pub fn reset_update(defaults: &NotificationSettings) -> (r: UpdateNotificationSettings)
        ensures
            r.stream_online_message == Some(defaults.stream_online_message),
            r.stream_offline_message == Some(defaults.stream_offline_message),
            r.stream_title_change_message == Some(defaults.stream_title_change_message),
            r.stream_category_change_message == Some(defaults.stream_category_change_message),
            r.reward_redemption_message == Some(defaults.reward_redemption_message),
            r.notify_reward_redemption == Some(defaults.notify_reward_redemption),
    {
        UpdateNotificationSettings {
            stream_online_message: Some(defaults.stream_online_message.clone()),
            stream_offline_message: Some(defaults.stream_offline_message.clone()),
            stream_title_change_message: Some(defaults.stream_title_change_message.clone()),
            stream_category_change_message: Some(defaults.stream_category_change_message.clone()),
            reward_redemption_message: Some(defaults.reward_redemption_message.clone()),
            notify_reward_redemption: Some(defaults.notify_reward_redemption),
        }
    }

    /// The update that sets only the chat-bot switch.
    pub fn notify_reward_update(notify_reward_redemption: Option<bool>) -> (r:
        UpdateNotificationSettings)
        ensures
            r.stream_online_message is None && r.stream_offline_message is None
                && r.stream_title_change_message is None && r.stream_category_change_message is None
                && r.reward_redemption_message is None,
            r.notify_reward_redemption == notify_reward_redemption,
    {
        UpdateNotificationSettings {
            stream_online_message: None,
            stream_offline_message: None,
            stream_title_change_message: None,
            stream_category_change_message: None,
            reward_redemption_message: None,
            notify_reward_redemption,
        }
    }
}

/// Why an optional template is refused, if given and refused (after normalizing it).
pub open spec fn template_refusal(m: Option<&str>, kind: Seq<char>) -> Option<Seq<char>> {
    match m {
        Some(t) => message_refusal(normalized_placeholders(t@), kind),
        None => None,
    }
}

/// The first refusal among template updates, in the order online, offline, title change,
/// category change, redemption.
pub open spec fn messages_refusal(
    stream_online: Option<&str>,
    stream_offline: Option<&str>,
    title_change: Option<&str>,
    category_change: Option<&str>,
    reward: Option<&str>,
) -> Option<Seq<char>> {
    if template_refusal(stream_online, "stream_online"@) is Some {
        template_refusal(stream_online, "stream_online"@)
    } else if template_refusal(stream_offline, "stream_offline"@) is Some {
        template_refusal(stream_offline, "stream_offline"@)
    } else if template_refusal(title_change, "stream_title_change"@) is Some {
        template_refusal(title_change, "stream_title_change"@)
    } else if template_refusal(category_change, "stream_category"@) is Some {
        template_refusal(category_change, "stream_category"@)
    } else {
        template_refusal(reward, "reward_redemption"@)
    }
}

/// Template updates as received: each one normalized (`{{name}}` to `{name}`), then
/// checked in the order online, offline, title change, category change, redemption.
pub fn messages_update(
    stream_online: Option<&str>,
    stream_offline: Option<&str>,
    title_change: Option<&str>,
    category_change: Option<&str>,
    reward: Option<&str>,
) -> (r: Result<UpdateNotificationSettings, AppError>)
    ensures
        match messages_refusal(stream_online, stream_offline, title_change, category_change, reward) {
            Some(m) => r matches Err(e) && (e matches AppError::Validation(x) && x@ == m),
            None => r matches Ok(u) && normalized_field(stream_online, u.stream_online_message)
                && normalized_field(stream_offline, u.stream_offline_message) && normalized_field(
                title_change,
                u.stream_title_change_message,
            ) && normalized_field(category_change, u.stream_category_change_message)
                && normalized_field(reward, u.reward_redemption_message)
                && u.notify_reward_redemption is None,
        },
{
    let a = normalize_opt(stream_online);
    let b = normalize_opt(stream_offline);
    let c = normalize_opt(title_change);
    let d = normalize_opt(category_change);
    let e = normalize_opt(reward);
    if let Some(m) = &a {
        if let Err(x) = validate_message(m.as_str(), "stream_online") {
            return Err(x);
        }
    }
    if let Some(m) = &b {
        if let Err(x) = validate_message(m.as_str(), "stream_offline") {
            return Err(x);
        }
    }
    if let Some(m) = &c {
        if let Err(x) = validate_message(m.as_str(), "stream_title_change") {
            return Err(x);
        }
    }
    if let Some(m) = &d {
        if let Err(x) = validate_message(m.as_str(), "stream_category") {
            return Err(x);
        }
    }
    if let Some(m) = &e {
        if let Err(x) = validate_message(m.as_str(), "reward_redemption") {
            return Err(x);
        }
    }
    Ok(
        UpdateNotificationSettings {
            stream_online_message: a,
            stream_offline_message: b,
            stream_title_change_message: c,
            stream_category_change_message: d,
            reward_redemption_message: e,
            notify_reward_redemption: None,
        },
    )
}

/// Is `out` the normalized form of the optional template `input`?
pub open spec fn normalized_field(input: Option<&str>, out: Option<String>) -> bool {
    match input {
        Some(m) => out matches Some(o) && o@ == normalized_placeholders(m@),
        None => out is None,
    }
}

fn normalize_opt(m: Option<&str>) -> (r: Option<String>)
    ensures
        normalized_field(m, r),
{
    match m {
        Some(s) => Some(normalize_placeholders(s)),
        None => None,
    }
}

} // verus!
