//! Stored records of the service. Instants are milliseconds since the Unix epoch (UTC).
use vstd::prelude::*;

use crate::chat_type::ChatType;
use crate::i18n::{t, translate};

verus! {

/// A registered streamer (signed in with Twitch), with the accounts linked to the profile.
#[derive(Debug, Clone, PartialEq, Eq)]
pub struct User {
    pub id: String,
    pub twitch_id: String,
    pub twitch_login: String,
    pub twitch_display_name: String,
    pub twitch_email: String,
    pub twitch_profile_image_url: String,
    pub twitch_access_token: String,
    pub twitch_refresh_token: String,
    pub twitch_token_expires_at: i64,
    pub telegram_user_id: Option<String>,
    pub telegram_username: Option<String>,
    pub telegram_photo_url: Option<String>,
    pub discord_user_id: Option<String>,
    pub discord_username: Option<String>,
    pub discord_avatar_url: Option<String>,
    pub lang: Option<String>,
    pub created_at: i64,
    pub updated_at: i64,
}

/// A Telegram chat that receives notifications.
#[derive(Debug, Clone, PartialEq, Eq)]
pub struct TelegramIntegration {
    pub id: String,
    pub user_id: String,
    pub telegram_chat_id: String,
    pub telegram_chat_title: Option<String>,
    pub telegram_chat_type: Option<ChatType>,
    pub is_enabled: bool,
    pub notify_stream_online: bool,
    pub notify_stream_offline: bool,
    pub notify_title_change: bool,
    pub notify_category_change: bool,
    pub notify_reward_redemption: bool,
    /// The last message sent to the chat (deleted before the next one is sent).
    pub last_telegram_message_id: Option<i32>,
    pub created_at: i64,
    pub updated_at: i64,
}

/// The fields of a new Telegram integration.
#[derive(Debug, Clone, PartialEq, Eq)]
pub struct CreateTelegramIntegration {
    pub telegram_chat_id: String,
    pub telegram_chat_title: Option<String>,
    pub telegram_chat_type: Option<ChatType>,
}

/// A partial update of a Telegram integration (absent fields stay as they are).
#[derive(Debug, Clone, PartialEq, Eq, Default)]
pub struct UpdateTelegramIntegration {
    pub telegram_chat_title: Option<String>,
    pub is_enabled: Option<bool>,
    pub notify_stream_online: Option<bool>,
    pub notify_stream_offline: Option<bool>,
    pub notify_title_change: Option<bool>,
    pub notify_category_change: Option<bool>,
    pub notify_reward_redemption: Option<bool>,
}

impl UpdateTelegramIntegration {
    /// The update that gives no field (what `Default` makes).
    pub open spec fn default_value() -> Self {
        UpdateTelegramIntegration {
            telegram_chat_title: None,
            is_enabled: None,
            notify_stream_online: None,
            notify_stream_offline: None,
            notify_title_change: None,
            notify_category_change: None,
            notify_reward_redemption: None,
        }
    }
}

/// A Discord channel that receives notifications (optionally through a webhook).
#[derive(Debug, Clone, PartialEq, Eq)]
pub struct DiscordIntegration {
    pub id: String,
    pub user_id: String,
    pub discord_guild_id: String,
    pub discord_channel_id: String,
    pub discord_guild_name: Option<String>,
    pub discord_channel_name: Option<String>,
    pub discord_webhook_url: Option<String>,
    pub is_enabled: bool,
    pub notify_stream_online: bool,
    pub notify_stream_offline: bool,
    pub notify_title_change: bool,
    pub notify_category_change: bool,
    pub notify_reward_redemption: bool,
    pub calendar_sync_enabled: bool,
    pub created_at: i64,
    pub updated_at: i64,
}

/// The fields of a new Discord integration.
#[derive(Debug, Clone, PartialEq, Eq)]
pub struct CreateDiscordIntegration {
    pub discord_guild_id: String,
    pub discord_channel_id: String,
    pub discord_guild_name: Option<String>,
    pub discord_channel_name: Option<String>,
    pub discord_webhook_url: Option<String>,
}

/// A partial update of a Discord integration (absent fields stay as they are).
#[derive(Debug, Clone, PartialEq, Eq, Default)]
pub struct UpdateDiscordIntegration {
    pub discord_channel_id: Option<String>,
    pub discord_channel_name: Option<String>,
    pub discord_webhook_url: Option<String>,
    pub is_enabled: Option<bool>,
    pub notify_stream_online: Option<bool>,
    pub notify_stream_offline: Option<bool>,
    pub notify_title_change: Option<bool>,
    pub notify_category_change: Option<bool>,
    pub notify_reward_redemption: Option<bool>,
    pub calendar_sync_enabled: Option<bool>,
}

impl UpdateDiscordIntegration {
    /// The update that gives no field (what `Default` makes).
    pub open spec fn default_value() -> Self {
        UpdateDiscordIntegration {
            discord_channel_id: None,
            discord_channel_name: None,
            discord_webhook_url: None,
            is_enabled: None,
            notify_stream_online: None,
            notify_stream_offline: None,
            notify_title_change: None,
            notify_category_change: None,
            notify_reward_redemption: None,
            calendar_sync_enabled: None,
        }
    }
}

/// A Twitch EventSub subscription recorded for a user.
#[derive(Debug, Clone, PartialEq, Eq)]
pub struct EventSubSubscription {
    pub id: String,
    pub twitch_subscription_id: String,
    pub user_id: String,
    pub subscription_type: String,
    pub status: String,
    pub created_at: i64,
    pub updated_at: i64,
}

/// The fields of a new EventSub subscription record.
#[derive(Debug, Clone, PartialEq, Eq)]
pub struct CreateEventSubSubscription {
    pub twitch_subscription_id: String,
    pub subscription_type: String,
    pub status: String,
}

/// One delivery attempt of a notification, as logged.
#[derive(Debug, Clone, PartialEq, Eq)]
pub struct NotificationLog {
    pub id: String,
    pub user_id: String,
    pub notification_type: String,
    pub destination_type: String,
    pub destination_id: String,
    pub content: String,
    pub status: String,
    pub error_message: Option<String>,
    pub created_at: i64,
}

/// The fields of a new log entry.
#[derive(Debug, Clone, PartialEq, Eq)]
pub struct CreateNotificationLog {
    pub user_id: String,
    pub notification_type: String,
    pub destination_type: String,
    pub destination_id: String,
    pub content: String,
    pub status: String,
    pub error_message: Option<String>,
}

/// A queued delivery that the retry worker attempts again.
#[derive(Debug, Clone, PartialEq, Eq)]
pub struct NotificationTask {
    pub id: String,
    pub notification_log_id: Option<String>,
    pub user_id: String,
    pub notification_type: String,
    /// The notification's data, as JSON.
    pub content_json: String,
    pub message: String,
    pub destination_type: String,
    pub destination_id: String,
    pub webhook_url: Option<String>,
    pub attempts: i32,
    pub max_attempts: i32,
    pub next_attempt_at: i64,
    pub last_error: Option<String>,
    /// `pending`, `processing`, `succeeded` or `dead`.
    pub status: String,
    pub created_at: i64,
    pub updated_at: i64,
    /// After this instant the task is no longer worth delivering.
    pub expires_at: Option<i64>,
}

/// The fields of a new queued task; absent limits get the queue's defaults.
#[derive(Debug, Clone, PartialEq, Eq)]
pub struct CreateNotificationTask {
    pub notification_log_id: Option<String>,
    pub user_id: String,
    pub notification_type: String,
    pub content_json: String,
    pub message: String,
    pub destination_type: String,
    pub destination_id: String,
    pub webhook_url: Option<String>,
    pub max_attempts: Option<i32>,
    pub next_attempt_at: Option<i64>,
    pub expires_at: Option<i64>,
}

/// A user's message templates and chat-bot switch.
#[derive(Debug, Clone, PartialEq, Eq)]
pub struct NotificationSettings {
    pub id: String,
    pub user_id: String,
    pub stream_online_message: String,
    pub stream_offline_message: String,
    pub stream_title_change_message: String,
    pub stream_category_change_message: String,
    pub reward_redemption_message: String,
    pub notify_reward_redemption: bool,
    pub created_at: i64,
    pub updated_at: i64,
}

impl NotificationSettings {
    /// The settings a user starts with: the default-language message templates, the chat
    /// bot switched off, created at `now` (no id and no owner yet).
    pub fn default_at(now: i64) -> (r: NotificationSettings)
        ensures
            r.id@ == Seq::<char>::empty(),
            r.user_id@ == Seq::<char>::empty(),
            r.stream_online_message@ == translate(None, "messages.stream_online_default"@, None),
            r.stream_offline_message@ == translate(None, "messages.stream_offline_default"@, None),
            r.stream_title_change_message@ == translate(
                None,
                "messages.stream_title_change_default"@,
                None,
            ),
            r.stream_category_change_message@ == translate(
                None,
                "messages.stream_category_change_default"@,
                None,
            ),
            r.reward_redemption_message@ == translate(
                None,
                "messages.reward_redemption_default"@,
                None,
            ),
            !r.notify_reward_redemption,
            r.created_at == now,
            r.updated_at == now,
    {
        NotificationSettings {
            id: String::new(),
            user_id: String::new(),
            stream_online_message: t("messages.stream_online_default"),
            stream_offline_message: t("messages.stream_offline_default"),
            stream_title_change_message: t("messages.stream_title_change_default"),
            stream_category_change_message: t("messages.stream_category_change_default"),
            reward_redemption_message: t("messages.reward_redemption_default"),
            notify_reward_redemption: false,
            created_at: now,
            updated_at: now,
        }
    }
}

/// A partial update of the settings (absent fields stay as they are).
#[derive(Debug, Clone, PartialEq, Eq, Default)]
pub struct UpdateNotificationSettings {
    pub stream_online_message: Option<String>,
    pub stream_offline_message: Option<String>,
    pub stream_title_change_message: Option<String>,
    pub stream_category_change_message: Option<String>,
    pub reward_redemption_message: Option<String>,
    pub notify_reward_redemption: Option<bool>,
}

impl UpdateNotificationSettings {
    /// The update that gives no field (what `Default` makes).
    pub open spec fn default_value() -> Self {
        UpdateNotificationSettings {
            stream_online_message: None,
            stream_offline_message: None,
            stream_title_change_message: None,
            stream_category_change_message: None,
            reward_redemption_message: None,
            notify_reward_redemption: None,
        }
    }
}

/// Access that an owner grants another user to their settings.
#[derive(Debug, Clone, PartialEq, Eq)]
pub struct SettingsShare {
    pub id: String,
    pub owner_user_id: String,
    pub grantee_user_id: String,
    pub can_manage: bool,
    pub created_at: i64,
    pub updated_at: i64,
}

/// A Twitch schedule segment mirrored into a Discord integration.
#[derive(Debug, Clone, PartialEq, Eq)]
pub struct SyncedCalendarEvent {
    pub id: String,
    pub user_id: String,
    pub twitch_segment_id: String,
    pub discord_integration_id: Option<String>,
    pub discord_event_id: Option<String>,
    pub title: String,
    pub start_time: i64,
    pub end_time: Option<i64>,
    pub category_name: Option<String>,
    pub is_recurring: bool,
    pub last_synced_at: i64,
    pub created_at: i64,
    pub updated_at: i64,
}

/// The fields of a mirrored schedule segment.
#[derive(Debug, Clone, PartialEq, Eq)]
pub struct CreateSyncedCalendarEvent {
    pub twitch_segment_id: String,
    pub discord_integration_id: Option<String>,
    pub title: String,
    pub start_time: i64,
    pub end_time: Option<i64>,
    pub category_name: Option<String>,
    pub is_recurring: bool,
}

} // verus!
