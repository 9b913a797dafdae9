//! Settings requests: message templates, the overall switches, and sharing settings with
//! other users.
use vstd::prelude::*;

use crate::error::AppError;
use crate::models::{
    DiscordIntegration, NotificationSettings, SettingsShare, TelegramIntegration,
    UpdateNotificationSettings, User,
};
use crate::notifications::NotificationType;
use crate::settings::{
    any_switch_on, get_placeholders_info, message_refusal, messages_update, normalized_placeholders,
    placeholder_is, PlaceholdersInfo, SettingsService,
};
use crate::text::{owned, str_equal};

verus! {

broadcast use vstd::string::group_string_axioms;

/// The placeholders shown with the templates: `{streamer}`, `{title}`, `{game}`, `{url}`
/// for stream templates and `{user}`, `{reward}` for reward templates.
pub open spec fn standard_placeholders(p: PlaceholdersInfo) -> bool {
    &&& p.stream@.len() == 4
    &&& placeholder_is(p.stream@[0], "{streamer}"@, "Streamer's display name"@, "xQc"@)
    &&& placeholder_is(p.stream@[1], "{title}"@, "Stream title"@, "Just Chatting"@)
    &&& placeholder_is(p.stream@[2], "{game}"@, "Game category"@, "Just Chatting"@)
    &&& placeholder_is(p.stream@[3], "{url}"@, "Stream URL"@, "https://twitch.tv/xqc"@)
    &&& p.reward@.len() == 2
    &&& placeholder_is(p.reward@[0], "{user}"@, "Username who redeemed the reward"@, "viewer123"@)
    &&& placeholder_is(p.reward@[1], "{reward}"@, "Reward title"@, "Custom Reward Name"@)
}

/// A user's message templates, with the placeholders they may use.
#[derive(Debug, Clone, PartialEq, Eq)]
pub struct MessagesResponse {
    pub stream_online_message: String,
    pub stream_offline_message: String,
    pub stream_title_change_message: String,
    pub stream_category_change_message: String,
    pub reward_redemption_message: String,
    pub placeholders: PlaceholdersInfo,
}

impl MessagesResponse {
    /// The templates of the settings, with the standard placeholders.
    pub fn of_settings(settings: NotificationSettings) -> (r: MessagesResponse)
        ensures
            r.stream_online_message == settings.stream_online_message,
            r.stream_offline_message == settings.stream_offline_message,
            r.stream_title_change_message == settings.stream_title_change_message,
            r.stream_category_change_message == settings.stream_category_change_message,
            r.reward_redemption_message == settings.reward_redemption_message,
            standard_placeholders(r.placeholders),
    {
        MessagesResponse {
            stream_online_message: settings.stream_online_message,
            stream_offline_message: settings.stream_offline_message,
            stream_title_change_message: settings.stream_title_change_message,
            stream_category_change_message: settings.stream_category_change_message,
            reward_redemption_message: settings.reward_redemption_message,
            placeholders: get_placeholders_info(),
        }
    }
}

/// New message templates; what is not given stays.
#[derive(Debug, Clone, PartialEq, Eq)]
pub struct UpdateMessagesRequest {
    pub stream_online_message: Option<String>,
    pub stream_offline_message: Option<String>,
    pub stream_title_change_message: Option<String>,
    pub stream_category_change_message: Option<String>,
    pub reward_redemption_message: Option<String>,
}

fn str_opt(o: &Option<String>) -> (r: Option<&str>)
    ensures
        match *o {
            Some(s) => r matches Some(x) && x@ == s@,
            None => r is None,
        },
{
    match o {
        Some(s) => Some(s.as_str()),
        None => None,
    }
}

/// Why a given template is refused, if it is (once normalized).
pub open spec fn text_refusal(m: Option<String>, kind: Seq<char>) -> Option<Seq<char>> {
    match m {
        Some(t) => message_refusal(normalized_placeholders(t@), kind),
        None => None,
    }
}

/// The first refusal among the templates of a request, in the order online, offline,
/// title change, category change, redemption.
pub open spec fn update_refusal(q: UpdateMessagesRequest) -> Option<Seq<char>> {
    if text_refusal(q.stream_online_message, "stream_online"@) is Some {
        text_refusal(q.stream_online_message, "stream_online"@)
    } else if text_refusal(q.stream_offline_message, "stream_offline"@) is Some {
        text_refusal(q.stream_offline_message, "stream_offline"@)
    } else if text_refusal(q.stream_title_change_message, "stream_title_change"@) is Some {
        text_refusal(q.stream_title_change_message, "stream_title_change"@)
    } else if text_refusal(q.stream_category_change_message, "stream_category"@) is Some {
        text_refusal(q.stream_category_change_message, "stream_category"@)
    } else {
        text_refusal(q.reward_redemption_message, "reward_redemption"@)
    }
}

/// Is `out` the normalized form of the optional template `input`?
pub open spec fn normalized_text(input: Option<String>, out: Option<String>) -> bool {
    match input {
        Some(m) => out matches Some(o) && o@ == normalized_placeholders(m@),
        None => out is None,
    }
}

impl UpdateMessagesRequest {
    /// The stored change: each given template normalized (`{{name}}` to `{name}`) and
    /// checked, in the order online, offline, title change, category change, redemption;
    /// the first refusal is returned as a validation error.
    pub fn into_update(&self) -> (r: Result<UpdateNotificationSettings, AppError>)
        ensures
            match update_refusal(*self) {
                Some(m) => r matches Err(e) && (e matches AppError::Validation(x) && x@ == m),
                None => r matches Ok(u) && normalized_text(self.stream_online_message, u.stream_online_message)
                    && normalized_text(self.stream_offline_message, u.stream_offline_message)
                    && normalized_text(self.stream_title_change_message, u.stream_title_change_message)
                    && normalized_text(
                    self.stream_category_change_message,
                    u.stream_category_change_message,
                ) && normalized_text(self.reward_redemption_message, u.reward_redemption_message)
                    && u.notify_reward_redemption is None,
            },
    {
        messages_update(
            str_opt(&self.stream_online_message),
            str_opt(&self.stream_offline_message),
            str_opt(&self.stream_title_change_message),
            str_opt(&self.stream_category_change_message),
            str_opt(&self.reward_redemption_message),
        )
    }
}

/// A user's settings with what their integrations switch on overall.
#[derive(Debug, Clone, PartialEq, Eq)]
pub struct UserSettingsResponse {
    pub id: String,
    pub user_id: String,
    pub stream_online_message: String,
    pub stream_offline_message: String,
    pub stream_title_change_message: String,
    pub stream_category_change_message: String,
    pub reward_redemption_message: String,
    pub notify_stream_online: bool,
    pub notify_stream_offline: bool,
    pub notify_title_change: bool,
    pub notify_category_change: bool,
    pub notify_reward_redemption: bool,
    pub created_at: i64,
    pub updated_at: i64,
}

impl UserSettingsResponse {
    /// The settings with the overall switches: a stream switch is on when some
    /// integration has it on; the chat-bot switch is the user's own.
    pub fn of_settings(
        settings: NotificationSettings,
        telegram: &Vec<TelegramIntegration>,
        discord: &Vec<DiscordIntegration>,
    ) -> (r: UserSettingsResponse)
        ensures
            r.id == settings.id,
            r.user_id == settings.user_id,
            r.stream_online_message == settings.stream_online_message,
            r.stream_offline_message == settings.stream_offline_message,
            r.stream_title_change_message == settings.stream_title_change_message,
            r.stream_category_change_message == settings.stream_category_change_message,
            r.reward_redemption_message == settings.reward_redemption_message,
            r.notify_stream_online == any_switch_on(telegram@, discord@, NotificationType::StreamOnline),
            r.notify_stream_offline == any_switch_on(telegram@, discord@, NotificationType::StreamOffline),
            r.notify_title_change == any_switch_on(telegram@, discord@, NotificationType::TitleChange),
            r.notify_category_change == any_switch_on(
                telegram@,
                discord@,
                NotificationType::CategoryChange,
            ),
            r.notify_reward_redemption == settings.notify_reward_redemption,
            r.created_at == settings.created_at,
            r.updated_at == settings.updated_at,
    {
        let flags = SettingsService::get_aggregated_notify_flags(telegram, discord);
        UserSettingsResponse {
            id: settings.id,
            user_id: settings.user_id,
            stream_online_message: settings.stream_online_message,
            stream_offline_message: settings.stream_offline_message,
            stream_title_change_message: settings.stream_title_change_message,
            stream_category_change_message: settings.stream_category_change_message,
            reward_redemption_message: settings.reward_redemption_message,
            notify_stream_online: flags.0,
            notify_stream_offline: flags.1,
            notify_title_change: flags.2,
            notify_category_change: flags.3,
            notify_reward_redemption: settings.notify_reward_redemption,
            created_at: settings.created_at,
            updated_at: settings.updated_at,
        }
    }
}

/// A change of the switches. Only the chat-bot switch is stored; the stream switches
/// belong to the integrations and are accepted and left alone.
#[derive(Debug, Clone, PartialEq, Eq)]
pub struct UpdateSettingsRequest {
    pub notify_stream_online: Option<bool>,
    pub notify_stream_offline: Option<bool>,
    pub notify_title_change: Option<bool>,
    pub notify_category_change: Option<bool>,
    pub notify_reward_redemption: Option<bool>,
}

impl UpdateSettingsRequest {
    /// The stored change: the chat-bot switch only.
    pub fn into_update(&self) -> (r: UpdateNotificationSettings)
        ensures
            r.stream_online_message is None && r.stream_offline_message is None
                && r.stream_title_change_message is None && r.stream_category_change_message is None
                && r.reward_redemption_message is None,
            r.notify_reward_redemption == self.notify_reward_redemption,
    {
        SettingsService::notify_reward_update(self.notify_reward_redemption)
    }
}

/// Sharing one's settings with another user, by Twitch login.
#[derive(Debug, Clone, PartialEq, Eq)]
pub struct CreateShareRequest {
    pub twitch_login: String,
    pub can_manage: Option<bool>,
}

impl CreateShareRequest {
    /// Whether the share may be made, and with which right: refused towards oneself
    /// ("Cannot share settings with yourself") and when one exists already ("Share
    /// already exists"); the right to manage is off unless asked for.
    pub fn checked_right(&self, owner_id: &str, grantee: &User, existing: bool) -> (r: Result<
        bool,
        AppError,
    >)
        ensures
            grantee.id@ == owner_id@ ==> (r matches Err(AppError::Validation(m)) && m@
                == "Cannot share settings with yourself"@),
            grantee.id@ != owner_id@ && existing ==> (r matches Err(AppError::Conflict(m)) && m@
                == "Share already exists"@),
            grantee.id@ != owner_id@ && !existing ==> r == Ok::<bool, AppError>(
                self.can_manage == Some(true),
            ),
    {
        if str_equal(grantee.id.as_str(), owner_id) {
            return Err(AppError::Validation(owned("Cannot share settings with yourself")));
        }
        if existing {
            return Err(AppError::Conflict(owned("Share already exists")));
        }
        Ok(
            match self.can_manage {
                Some(b) => b,
                None => false,
            },
        )
    }
}

/// A change of the right to manage of a share.
#[derive(Debug, Clone, PartialEq, Eq)]
pub struct UpdateShareRequest {
    pub can_manage: bool,
}

/// A user one's settings are shared with.
#[derive(Debug, Clone, PartialEq, Eq)]
pub struct SharedUserResponse {
    pub grantee_user_id: String,
    pub grantee_login: String,
    pub grantee_display_name: String,
    pub can_manage: bool,
    pub created_at: i64,
    pub updated_at: i64,
}

impl SharedUserResponse {
    /// A share seen from its owner, with the grantee's login and display name.
    pub fn of_share(share: SettingsShare, grantee_login: String, grantee_display_name: String) -> (r:
        SharedUserResponse)
        ensures
            r == (SharedUserResponse {
                grantee_user_id: share.grantee_user_id,
                grantee_login,
                grantee_display_name,
                can_manage: share.can_manage,
                created_at: share.created_at,
                updated_at: share.updated_at,
            }),
    {
        SharedUserResponse {
            grantee_user_id: share.grantee_user_id,
            grantee_login,
            grantee_display_name,
            can_manage: share.can_manage,
            created_at: share.created_at,
            updated_at: share.updated_at,
        }
    }
}

/// An owner who shares their settings with the user.
#[derive(Debug, Clone, PartialEq, Eq)]
pub struct IncomingShareResponse {
    pub owner_user_id: String,
    pub owner_twitch_login: String,
    pub owner_display_name: String,
    pub can_manage: bool,
    pub created_at: i64,
    pub updated_at: i64,
}

impl IncomingShareResponse {
    /// A share seen from its grantee, with the owner's login and display name.
    pub fn of_share(share: SettingsShare, owner_twitch_login: String, owner_display_name: String) -> (r:
        IncomingShareResponse)
        ensures
            r == (IncomingShareResponse {
                owner_user_id: share.owner_user_id,
                owner_twitch_login,
                owner_display_name,
                can_manage: share.can_manage,
                created_at: share.created_at,
                updated_at: share.updated_at,
            }),
    {
        IncomingShareResponse {
            owner_user_id: share.owner_user_id,
            owner_twitch_login,
            owner_display_name,
            can_manage: share.can_manage,
            created_at: share.created_at,
            updated_at: share.updated_at,
        }
    }
}

} // verus!
