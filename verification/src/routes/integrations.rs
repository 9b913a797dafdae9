//! Integration requests: creating and changing Telegram chats and Discord channels, the
//! answers about them, the guilds and channels offered, and test notifications.
use vstd::prelude::*;

use crate::discord::{
    empty_embed, opt_view, DiscordChannel, DiscordEmbed, DiscordGuild, DiscordMessage,
    DiscordOutgoing, WebhookMessage, COLOR_SUCCESS,
};
use crate::chat_type::ChatType;
use crate::error::AppError;
use crate::i18n::{str_pairs_view, t, tr, translate};
use crate::models::{
    CreateDiscordIntegration, DiscordIntegration, TelegramIntegration, UpdateDiscordIntegration,
    UpdateTelegramIntegration, User,
};
use crate::text::{concat2, decimal_text, owned, push_str, u64_to_text};

verus! {

broadcast use vstd::string::group_string_axioms;

/// A change of a Telegram integration; what is not given stays.
#[derive(Debug, Clone, PartialEq, Eq)]
pub struct UpdateTelegramRequest {
    pub telegram_chat_title: Option<String>,
    pub is_enabled: Option<bool>,
    pub notify_stream_online: Option<bool>,
    pub notify_stream_offline: Option<bool>,
    pub notify_title_change: Option<bool>,
    pub notify_category_change: Option<bool>,
    pub notify_reward_redemption: Option<bool>,
}

impl UpdateTelegramRequest {
    /// The stored change this request asks for.
    pub fn into_update(self) -> (r: UpdateTelegramIntegration)
        ensures
            r == (UpdateTelegramIntegration {
                telegram_chat_title: self.telegram_chat_title,
                is_enabled: self.is_enabled,
                notify_stream_online: self.notify_stream_online,
                notify_stream_offline: self.notify_stream_offline,
                notify_title_change: self.notify_title_change,
                notify_category_change: self.notify_category_change,
                notify_reward_redemption: self.notify_reward_redemption,
            }),
    {
        UpdateTelegramIntegration {
            telegram_chat_title: self.telegram_chat_title,
            is_enabled: self.is_enabled,
            notify_stream_online: self.notify_stream_online,
            notify_stream_offline: self.notify_stream_offline,
            notify_title_change: self.notify_title_change,
            notify_category_change: self.notify_category_change,
            notify_reward_redemption: self.notify_reward_redemption,
        }
    }
}

/// A Telegram integration as the API returns it.
#[derive(Debug, Clone, PartialEq, Eq)]
pub struct TelegramIntegrationResponse {
    pub id: String,
    pub telegram_chat_id: String,
    pub telegram_chat_title: Option<String>,
    /// Serialized as the kind's lower-case name.
    pub telegram_chat_type: Option<ChatType>,
    pub is_enabled: bool,
    pub notify_stream_online: bool,
    pub notify_stream_offline: bool,
    pub notify_title_change: bool,
    pub notify_category_change: bool,
    pub notify_reward_redemption: bool,
    pub created_at: i64,
    pub updated_at: i64,
}

impl From<TelegramIntegration> for TelegramIntegrationResponse {
    fn from(integration: TelegramIntegration) -> (r: Self) {
        TelegramIntegrationResponse {
            id: integration.id,
            telegram_chat_id: integration.telegram_chat_id,
            telegram_chat_title: integration.telegram_chat_title,
            telegram_chat_type: integration.telegram_chat_type,
            is_enabled: integration.is_enabled,
            notify_stream_online: integration.notify_stream_online,
            notify_stream_offline: integration.notify_stream_offline,
            notify_title_change: integration.notify_title_change,
            notify_category_change: integration.notify_category_change,
            notify_reward_redemption: integration.notify_reward_redemption,
            created_at: integration.created_at,
            updated_at: integration.updated_at,
        }
    }
}

impl vstd::std_specs::convert::FromSpecImpl<TelegramIntegration> for TelegramIntegrationResponse {
    open spec fn obeys_from_spec() -> bool {
        true
    }

    open spec fn from_spec(integration: TelegramIntegration) -> Self {
        TelegramIntegrationResponse {
            id: integration.id,
            telegram_chat_id: integration.telegram_chat_id,
            telegram_chat_title: integration.telegram_chat_title,
            telegram_chat_type: integration.telegram_chat_type,
            is_enabled: integration.is_enabled,
            notify_stream_online: integration.notify_stream_online,
            notify_stream_offline: integration.notify_stream_offline,
            notify_title_change: integration.notify_title_change,
            notify_category_change: integration.notify_category_change,
            notify_reward_redemption: integration.notify_reward_redemption,
            created_at: integration.created_at,
            updated_at: integration.updated_at,
        }
    }
}

/// A new Discord integration as requested.
#[derive(Debug, Clone, PartialEq, Eq)]
pub struct CreateDiscordRequest {
    pub discord_guild_id: String,
    pub discord_guild_name: Option<String>,
    pub discord_channel_id: String,
    pub discord_channel_name: Option<String>,
    pub discord_webhook_url: Option<String>,
}

impl CreateDiscordRequest {
    /// The stored fields of the integration this request creates.
    pub fn into_create(self) -> (r: CreateDiscordIntegration)
        ensures
            r == (CreateDiscordIntegration {
                discord_guild_id: self.discord_guild_id,
                discord_guild_name: self.discord_guild_name,
                discord_channel_id: self.discord_channel_id,
                discord_channel_name: self.discord_channel_name,
                discord_webhook_url: self.discord_webhook_url,
            }),
    {
        CreateDiscordIntegration {
            discord_guild_id: self.discord_guild_id,
            discord_guild_name: self.discord_guild_name,
            discord_channel_id: self.discord_channel_id,
            discord_channel_name: self.discord_channel_name,
            discord_webhook_url: self.discord_webhook_url,
        }
    }
}

/// A change of a Discord integration; what is not given stays.
#[derive(Debug, Clone, PartialEq, Eq)]
pub struct UpdateDiscordRequest {
    pub discord_channel_id: Option<String>,
    pub discord_channel_name: Option<String>,
    pub discord_webhook_url: Option<String>,
    pub is_enabled: Option<bool>,
    pub notify_stream_online: Option<bool>,
    pub notify_stream_offline: Option<bool>,
    pub notify_title_change: Option<bool>,
    pub notify_category_change: Option<bool>,
    pub notify_reward_redemption: Option<bool>,
    pub calendar_sync_enabled: Option<bool>,
}

impl UpdateDiscordRequest {
    /// The stored change this request asks for.
    pub fn into_update(self) -> (r: UpdateDiscordIntegration)
        ensures
            r == (UpdateDiscordIntegration {
                discord_channel_id: self.discord_channel_id,
                discord_channel_name: self.discord_channel_name,
                discord_webhook_url: self.discord_webhook_url,
                is_enabled: self.is_enabled,
                notify_stream_online: self.notify_stream_online,
                notify_stream_offline: self.notify_stream_offline,
                notify_title_change: self.notify_title_change,
                notify_category_change: self.notify_category_change,
                notify_reward_redemption: self.notify_reward_redemption,
                calendar_sync_enabled: self.calendar_sync_enabled,
            }),
    {
        UpdateDiscordIntegration {
            discord_channel_id: self.discord_channel_id,
            discord_channel_name: self.discord_channel_name,
            discord_webhook_url: self.discord_webhook_url,
            is_enabled: self.is_enabled,
            notify_stream_online: self.notify_stream_online,
            notify_stream_offline: self.notify_stream_offline,
            notify_title_change: self.notify_title_change,
            notify_category_change: self.notify_category_change,
            notify_reward_redemption: self.notify_reward_redemption,
            calendar_sync_enabled: self.calendar_sync_enabled,
        }
    }

    /// Does this change switch calendar sync on where it was off? Then the calendar is
    /// synced at once.
    pub fn switches_calendar_sync_on(&self, was_enabled: bool) -> (r: bool)
        ensures
            r == (self.calendar_sync_enabled == Some(true) && !was_enabled),
    {
        let enabled_now = match self.calendar_sync_enabled {
            Some(b) => b,
            None => false,
        };
        enabled_now && !was_enabled
    }
}

/// A Discord integration as the API returns it.
#[derive(Debug, Clone, PartialEq, Eq)]
pub struct DiscordIntegrationResponse {
    pub id: String,
    pub discord_guild_id: String,
    pub discord_guild_name: Option<String>,
    pub discord_channel_id: String,
    pub discord_channel_name: Option<String>,
    pub discord_webhook_url: Option<String>,
    pub is_enabled: bool,
    pub notify_stream_online: bool,
    pub notify_stream_offline: bool,
    pub notify_title_change: bool,
    pub notify_category_change: bool,
    pub notify_reward_redemption: bool,
    pub calendar_sync_enabled: bool,
    pub created_at: i64,
    pub updated_at: i64,
}

impl From<DiscordIntegration> for DiscordIntegrationResponse {
    fn from(integration: DiscordIntegration) -> (r: Self) {
        DiscordIntegrationResponse {
            id: integration.id,
            discord_guild_id: integration.discord_guild_id,
            discord_guild_name: integration.discord_guild_name,
            discord_channel_id: integration.discord_channel_id,
            discord_channel_name: integration.discord_channel_name,
            discord_webhook_url: integration.discord_webhook_url,
            is_enabled: integration.is_enabled,
            notify_stream_online: integration.notify_stream_online,
            notify_stream_offline: integration.notify_stream_offline,
            notify_title_change: integration.notify_title_change,
            notify_category_change: integration.notify_category_change,
            notify_reward_redemption: integration.notify_reward_redemption,
            calendar_sync_enabled: integration.calendar_sync_enabled,
            created_at: integration.created_at,
            updated_at: integration.updated_at,
        }
    }
}

impl vstd::std_specs::convert::FromSpecImpl<DiscordIntegration> for DiscordIntegrationResponse {
    open spec fn obeys_from_spec() -> bool {
        true
    }

    open spec fn from_spec(integration: DiscordIntegration) -> Self {
        DiscordIntegrationResponse {
            id: integration.id,
            discord_guild_id: integration.discord_guild_id,
            discord_guild_name: integration.discord_guild_name,
            discord_channel_id: integration.discord_channel_id,
            discord_channel_name: integration.discord_channel_name,
            discord_webhook_url: integration.discord_webhook_url,
            is_enabled: integration.is_enabled,
            notify_stream_online: integration.notify_stream_online,
            notify_stream_offline: integration.notify_stream_offline,
            notify_title_change: integration.notify_title_change,
            notify_category_change: integration.notify_category_change,
            notify_reward_redemption: integration.notify_reward_redemption,
            calendar_sync_enabled: integration.calendar_sync_enabled,
            created_at: integration.created_at,
            updated_at: integration.updated_at,
        }
    }
}

/// A guild the bot is in, as the API returns it.
#[derive(Debug, Clone, PartialEq, Eq)]
pub struct DiscordGuildResponse {
    pub id: String,
    pub name: String,
    pub icon: Option<String>,
}

/// The answer for one guild.
pub open spec fn guild_answer(g: DiscordGuild) -> DiscordGuildResponse {
    DiscordGuildResponse { id: g.id, name: g.name, icon: g.icon }
}

/// The guilds among `guilds` that the user is a member of (`member[i]` for the i-th),
/// in order.
pub open spec fn shared_guild_answers(guilds: Seq<DiscordGuild>, member: Seq<bool>) -> Seq<
    DiscordGuildResponse,
>
    decreases guilds.len(),
{
    if guilds.len() == 0 {
        Seq::empty()
    } else {
        let rest = shared_guild_answers(guilds.drop_last(), member.take(guilds.len() - 1));
        if member[guilds.len() - 1] {
            rest.push(guild_answer(guilds.last()))
        } else {
            rest
        }
    }
}

/// The answers for the guilds the bot is in, in order.
pub fn guild_responses(guilds: Vec<DiscordGuild>) -> (r: Vec<DiscordGuildResponse>)
    ensures
        r@.len() == guilds@.len(),
        forall|i: int| 0 <= i < guilds@.len() ==> #[trigger] r@[i] == guild_answer(guilds@[i]),
{
    let mut out: Vec<DiscordGuildResponse> = Vec::new();
    let mut i: usize = 0;
    while i < guilds.len()
        invariant
            i <= guilds.len(),
            out@.len() == i,
            forall|j: int| 0 <= j < i ==> #[trigger] out@[j] == guild_answer(guilds@[j]),
        decreases guilds.len() - i,
    {
        let g = &guilds[i];
        out.push(DiscordGuildResponse { id: g.id.clone(), name: g.name.clone(), icon: g.icon.clone() });
        i = i + 1;
    }
    out
}

/// The guilds shared by the bot and the user: those where the membership check said
/// yes (`member[i]` for the i-th; a failed check counts as no), in order.
pub fn shared_guild_responses(guilds: &Vec<DiscordGuild>, member: &Vec<bool>) -> (r: Vec<
    DiscordGuildResponse,
>)
    requires
        member@.len() == guilds@.len(),
    ensures
        r@ == shared_guild_answers(guilds@, member@),
{
    let mut out: Vec<DiscordGuildResponse> = Vec::new();
    let mut i: usize = 0;
    while i < guilds.len()
        invariant
            i <= guilds.len(),
            member@.len() == guilds@.len(),
            out@ == shared_guild_answers(guilds@.take(i as int), member@.take(i as int)),
        decreases guilds.len() - i,
    {
        proof {
            let g = guilds@.take(i + 1);
            assert(g.drop_last() =~= guilds@.take(i as int));
            assert(member@.take(i + 1).take(i as int) =~= member@.take(i as int));
            assert(member@.take(i + 1)[i as int] == member@[i as int]);
        }
        if member[i] {
            let g = &guilds[i];
            out.push(
                DiscordGuildResponse { id: g.id.clone(), name: g.name.clone(), icon: g.icon.clone() },
            );
        }
        i = i + 1;
    }
    assert(guilds@.take(i as int) =~= guilds@);
    assert(member@.take(i as int) =~= member@);
    out
}

/// The user's linked Discord account, which shared guilds are looked up for.
pub fn linked_discord_account(user: &User) -> (r: Result<String, AppError>)
    ensures
        match user.discord_user_id {
            Some(d) => r == Ok::<String, AppError>(d),
            None => r matches Err(AppError::BadRequest(m)) && m@ == "Discord not linked"@,
        },
{
    match &user.discord_user_id {
        Some(d) => Ok(d.clone()),
        None => Err(AppError::BadRequest(owned("Discord not linked"))),
    }
}

/// A channel that notifications can be posted to, as the API returns it.
#[derive(Debug, Clone, PartialEq, Eq)]
pub struct DiscordChannelResponse {
    pub id: String,
    pub name: String,
    pub channel_type: u8,
}

/// Text channels (kind 0) and news channels (kind 5) take notifications.
pub open spec fn postable_kind(channel_type: u8) -> bool {
    channel_type == 0 || channel_type == 5
}

/// The channels of a guild that are offered: text or news channels with a name, in order.
pub open spec fn offered_channels(channels: Seq<DiscordChannel>) -> Seq<DiscordChannelResponse>
    decreases channels.len(),
{
    if channels.len() == 0 {
        Seq::empty()
    } else {
        let rest = offered_channels(channels.drop_last());
        let c = channels.last();
        match c.name {
            Some(n) => if postable_kind(c.channel_type) {
                rest.push(DiscordChannelResponse { id: c.id, name: n, channel_type: c.channel_type })
            } else {
                rest
            },
            None => rest,
        }
    }
}

/// The channels of a guild that are offered: text or news channels with a name, in order.
pub fn channel_responses(channels: &Vec<DiscordChannel>) -> (r: Vec<DiscordChannelResponse>)
    ensures
        r@ == offered_channels(channels@),
{
    let mut out: Vec<DiscordChannelResponse> = Vec::new();
    let mut i: usize = 0;
    while i < channels.len()
        invariant
            i <= channels.len(),
            out@ == offered_channels(channels@.take(i as int)),
        decreases channels.len() - i,
    {
        proof {
            assert(channels@.take(i + 1).drop_last() =~= channels@.take(i as int));
        }
        let c = &channels[i];
        if c.channel_type == 0 || c.channel_type == 5 {
            if let Some(n) = &c.name {
                out.push(
                    DiscordChannelResponse {
                        id: c.id.clone(),
                        name: n.clone(),
                        channel_type: c.channel_type,
                    },
                );
            }
        }
        i = i + 1;
    }
    assert(channels@.take(i as int) =~= channels@);
    out
}

/// One channel asked for by id: it must be a text or news channel, and have a name.
pub fn channel_response(channel: DiscordChannel) -> (r: Result<DiscordChannelResponse, AppError>)
    ensures
        !postable_kind(channel.channel_type) ==> (r matches Err(AppError::BadRequest(m)) && m@
            == "Channel is not a text or news channel"@),
        postable_kind(channel.channel_type) && channel.name is None ==> (r matches Err(
            AppError::BadRequest(m),
        ) && m@ == "Channel has no name"@),
        postable_kind(channel.channel_type) && channel.name is Some ==> r == Ok::<
            DiscordChannelResponse,
            AppError,
        >(
            DiscordChannelResponse {
                id: channel.id,
                name: channel.name->0,
                channel_type: channel.channel_type,
            },
        ),
{
    if channel.channel_type != 0 && channel.channel_type != 5 {
        return Err(AppError::BadRequest(owned("Channel is not a text or news channel")));
    }
    match channel.name {
        Some(name) => Ok(DiscordChannelResponse { id: channel.id, name, channel_type: channel.channel_type }),
        None => Err(AppError::BadRequest(owned("Channel has no name"))),
    }
}

/// The invitation that adds the bot to a guild.
#[derive(Debug, Clone, PartialEq, Eq)]
pub struct DiscordInviteResponse {
    pub invite_url: String,
    pub permissions: u64,
    pub scopes: Vec<String>,
}

/// What the bot asks for in a guild: view channels (1024), send messages (2048), embed
/// links (16384) and manage events (524288, for the calendar).
pub const DISCORD_BOT_PERMISSIONS: u64 = 1024 + 2048 + 16384 + 524288;

/// The invitation page of the bot with a client id.
pub open spec fn invite_address(client_id: Seq<char>) -> Seq<char> {
    "https://discord.com/oauth2/authorize?client_id="@ + client_id + "&permissions="@
        + decimal_text(DISCORD_BOT_PERMISSIONS as int) + "&scope=bot%20applications.commands"@
}

/// The invitation that adds the bot to a guild; unavailable without a client id.
pub fn discord_invite(client_id: Option<&str>) -> (r: Result<DiscordInviteResponse, AppError>)
    ensures
        match client_id {
            None => r matches Err(AppError::ServiceUnavailable(m)) && m@
                == "Discord client ID not configured"@,
            Some(c) => r matches Ok(inv) && inv.invite_url@ == invite_address(c@)
                && inv.permissions == DISCORD_BOT_PERMISSIONS && inv.permissions == 543744
                && inv.scopes@.len() == 2 && inv.scopes@[0]@ == "bot"@ && inv.scopes@[1]@
                == "applications.commands"@,
        },
{
    let c = match client_id {
        Some(c) => c,
        None => {
            return Err(AppError::ServiceUnavailable(owned("Discord client ID not configured")));
        },
    };
    let mut url = concat2("https://discord.com/oauth2/authorize?client_id=", c);
    push_str(&mut url, "&permissions=");
    let p = u64_to_text(DISCORD_BOT_PERMISSIONS);
    push_str(&mut url, p.as_str());
    push_str(&mut url, "&scope=bot%20applications.commands");
    let mut scopes: Vec<String> = Vec::new();
    scopes.push(owned("bot"));
    scopes.push(owned("applications.commands"));
    Ok(DiscordInviteResponse { invite_url: url, permissions: DISCORD_BOT_PERMISSIONS, scopes })
}

/// The outcome of a test notification.
#[derive(Debug, Clone, PartialEq, Eq)]
pub struct TestNotificationResponse {
    pub success: bool,
    pub message: String,
}

/// The title of a test notification in the owner's language.
pub open spec fn test_title(lang: Option<Seq<char>>) -> Seq<char> {
    translate(lang, "messages.test_notification_title"@, None)
}

/// The body of a test notification in the owner's language.
pub open spec fn test_body(lang: Option<Seq<char>>) -> Seq<char> {
    translate(lang, "messages.test_notification_body"@, None)
}

/// The Telegram text of a test notification: the title in bold, a blank line, the body.
pub fn test_telegram_text(lang: Option<&str>) -> (r: String)
    ensures
        r@ == "<b>"@ + test_title(crate::i18n::opt_view(lang)) + "</b>\n\n"@ + test_body(
            crate::i18n::opt_view(lang),
        ),
{
    let title = tr(lang, "messages.test_notification_title", None);
    let body = tr(lang, "messages.test_notification_body", None);
    let mut out = owned("<b>");
    push_str(&mut out, title.as_str());
    push_str(&mut out, "</b>\n\n");
    push_str(&mut out, body.as_str());
    out
}

/// Is `e` the embed of a Discord test notification: the title, the body, the success
/// colour and the time, nothing else?
pub open spec fn is_test_embed(e: DiscordEmbed, lang: Option<Seq<char>>, timestamp: Seq<char>) -> bool {
    &&& e == (DiscordEmbed {
        title: e.title,
        description: e.description,
        color: Some(COLOR_SUCCESS),
        timestamp: e.timestamp,
        ..empty_embed()
    })
    &&& opt_view(e.title) == Some(test_title(lang))
    &&& opt_view(e.description) == Some(test_body(lang))
    &&& opt_view(e.timestamp) == Some(timestamp)
}

/// A Discord test notification: through the integration's webhook, sent as the app, when
/// it has one; else by the bot into the channel.
pub fn test_discord_message(
    lang: Option<&str>,
    webhook_url: Option<&str>,
    channel_id: &str,
    timestamp: &str,
) -> (r: DiscordOutgoing)
    ensures
        match webhook_url {
            Some(w) => r matches DiscordOutgoing::Webhook { webhook_url: u, webhook_message: m } && u@
                == w@ && m.content is None && opt_view(m.username) == Some(
                translate(None, "app.name"@, None),
            ) && m.avatar_url is None && (m.embeds matches Some(es) && es@.len() == 1
                && is_test_embed(es@[0], crate::i18n::opt_view(lang), timestamp@)),
            None => r matches DiscordOutgoing::Channel { channel_id: c, channel_message: m } && c@
                == channel_id@ && m.content is None && m.tts is None && (m.embeds matches Some(es)
                && es@.len() == 1 && is_test_embed(es@[0], crate::i18n::opt_view(lang), timestamp@)),
        },
{
    let title = tr(lang, "messages.test_notification_title", None);
    let body = tr(lang, "messages.test_notification_body", None);
    let embed = DiscordEmbed::new().title(title.as_str()).description(body.as_str()).color(
        COLOR_SUCCESS,
    ).timestamp(timestamp);
    let mut embeds: Vec<DiscordEmbed> = Vec::new();
    embeds.push(embed);
    match webhook_url {
        Some(w) => DiscordOutgoing::Webhook {
            webhook_url: owned(w),
            webhook_message: WebhookMessage {
                content: None,
                username: Some(t("app.name")),
                avatar_url: None,
                embeds: Some(embeds),
            },
        },
        None => DiscordOutgoing::Channel {
            channel_id: owned(channel_id),
            channel_message: DiscordMessage { content: None, embeds: Some(embeds), tts: None },
        },
    }
}

/// The answer to a test notification in the owner's language: success, or failure with
/// the error text.
pub fn test_notification_outcome(lang: Option<&str>, error: Option<&str>) -> (r:
    TestNotificationResponse)
    ensures
        match error {
            None => r.success && r.message@ == translate(
                crate::i18n::opt_view(lang),
                "test_notification.success"@,
                None,
            ),
            Some(e) => !r.success && r.message@ == translate(
                crate::i18n::opt_view(lang),
                "test_notification.failure"@,
                Some(seq![("err"@, e@)]),
            ),
        },
{
    match error {
        None => TestNotificationResponse {
            success: true,
            message: tr(lang, "test_notification.success", None),
        },
        Some(e) => {
            let params = [("err", e)];
            proof {
                assert(str_pairs_view(params@) =~= seq![("err"@, e@)]);
            }
            TestNotificationResponse {
                success: false,
                message: tr(lang, "test_notification.failure", Some(&params)),
            }
        },
    }
}

/// Whose integrations a request is about: `?user_id=` when given, else the caller's.
#[derive(Debug, Clone, PartialEq, Eq)]
pub struct OwnerQuery {
    pub user_id: Option<String>,
}

impl OwnerQuery {
    /// The owner a request is about: the given user, else the caller.
    pub fn owner_id(&self, caller_id: &str) -> (r: String)
        ensures
            match self.user_id {
                Some(u) => r == u,
                None => r@ == caller_id@,
            },
    {
        match &self.user_id {
            Some(u) => u.clone(),
            None => owned(caller_id),
        }
    }
}

/// The configured Telegram bot.
#[derive(Debug, Clone, PartialEq, Eq)]
pub struct TelegramBotInfoResponse {
    pub username: String,
    pub id: String,
}

/// Why creating a Discord integration is refused, with the details sent along.
#[derive(Debug, Clone, Copy, PartialEq, Eq)]
pub enum DiscordCreateRefusal {
    /// Acting for another user without a share that allows managing.
    NoShareManage,
    /// The checked account cannot manage the guild.
    InsufficientPermissions,
}

impl DiscordCreateRefusal {
    /// The machine-readable reason.
    pub fn reason(self) -> (r: &'static str)
        ensures
            self == DiscordCreateRefusal::NoShareManage ==> r@ == "no_share_manage"@,
            self == DiscordCreateRefusal::InsufficientPermissions ==> r@
                == "insufficient_permissions"@,
    {
        match self {
            DiscordCreateRefusal::NoShareManage => "no_share_manage",
            DiscordCreateRefusal::InsufficientPermissions => "insufficient_permissions",
        }
    }

    /// The localized message.
    pub fn message(self) -> (r: String)
        ensures
            self == DiscordCreateRefusal::NoShareManage ==> r@ == translate(
                None,
                "errors.no_share_manage"@,
                None,
            ),
            self == DiscordCreateRefusal::InsufficientPermissions ==> r@ == translate(
                None,
                "errors.insufficient_permissions"@,
                None,
            ),
    {
        match self {
            DiscordCreateRefusal::NoShareManage => t("errors.no_share_manage"),
            DiscordCreateRefusal::InsufficientPermissions => t("errors.insufficient_permissions"),
        }
    }
}

} // verus!
