//! What the stored records become on each change: partial updates, defaults of new rows,
//! and the life of a queued delivery (claimed, retried, given up, delivered).
use vstd::prelude::*;

use crate::models::{
    CreateNotificationTask, DiscordIntegration, NotificationSettings, NotificationTask,
    TelegramIntegration, UpdateDiscordIntegration, UpdateNotificationSettings,
    UpdateTelegramIntegration,
};
use crate::text::{concat3, is_blank, owned, str_equal, to_lowercase, trim_seq, unicode_lowercase};

verus! {

broadcast use vstd::string::group_string_axioms;

/// Stored Discord integrations.
pub struct DiscordIntegrationRepository;

/// Stored EventSub subscriptions.
pub struct EventSubSubscriptionRepository;

/// The delivery log.
pub struct NotificationLogRepository;

/// The retry queue.
pub struct NotificationQueueRepository;

/// Stored user settings.
pub struct NotificationSettingsRepository;

/// Stored settings shares.
pub struct SettingsShareRepository;

/// Stored mirrored schedule segments.
pub struct SyncedCalendarRepository;

/// Stored Telegram integrations.
pub struct TelegramIntegrationRepository;

/// Stored users.
pub struct UserRepository;

/// `update` when given, else `current`.
pub open spec fn or_keep<T>(update: Option<T>, current: T) -> T {
    match update {
        Some(v) => v,
        None => current,
    }
}

impl DiscordIntegrationRepository {
    /// A Discord integration after a partial update at `now`: given fields replace the
    /// stored ones (an absent channel name or webhook keeps the stored one).
    pub fn apply_update(current: DiscordIntegration, update: UpdateDiscordIntegration, now: i64) -> (r:
        DiscordIntegration)
        ensures
            r.id == current.id && r.user_id == current.user_id && r.discord_guild_id
                == current.discord_guild_id && r.discord_guild_name == current.discord_guild_name,
            r.created_at == current.created_at,
            r.discord_channel_id == or_keep(update.discord_channel_id, current.discord_channel_id),
            r.discord_channel_name == (match update.discord_channel_name {
                Some(v) => Some(v),
                None => current.discord_channel_name,
            }),
            r.discord_webhook_url == (match update.discord_webhook_url {
                Some(v) => Some(v),
                None => current.discord_webhook_url,
            }),
            r.is_enabled == or_keep(update.is_enabled, current.is_enabled),
            r.notify_stream_online == or_keep(update.notify_stream_online, current.notify_stream_online),
            r.notify_stream_offline == or_keep(
                update.notify_stream_offline,
                current.notify_stream_offline,
            ),
            r.notify_title_change == or_keep(update.notify_title_change, current.notify_title_change),
            r.notify_category_change == or_keep(
                update.notify_category_change,
                current.notify_category_change,
            ),
            r.notify_reward_redemption == or_keep(
                update.notify_reward_redemption,
                current.notify_reward_redemption,
            ),
            r.calendar_sync_enabled == or_keep(
                update.calendar_sync_enabled,
                current.calendar_sync_enabled,
            ),
            r.updated_at == now,
            update == UpdateDiscordIntegration::default_value() ==> r == (DiscordIntegration {
                updated_at: now,
                ..current
            }),
    {
        let DiscordIntegration {
            id,
            user_id,
            discord_guild_id,
            discord_channel_id,
            discord_guild_name,
            discord_channel_name,
            discord_webhook_url,
            is_enabled,
            notify_stream_online,
            notify_stream_offline,
            notify_title_change,
            notify_category_change,
            notify_reward_redemption,
            calendar_sync_enabled,
            created_at,
            updated_at: _,
        } = current;
        DiscordIntegration {
            id,
            user_id,
            discord_guild_id,
            discord_channel_id: match update.discord_channel_id {
                Some(v) => v,
                None => discord_channel_id,
            },
            discord_guild_name,
            discord_channel_name: match update.discord_channel_name {
                Some(v) => Some(v),
                None => discord_channel_name,
            },
            discord_webhook_url: match update.discord_webhook_url {
                Some(v) => Some(v),
                None => discord_webhook_url,
            },
            is_enabled: match update.is_enabled {
                Some(v) => v,
                None => is_enabled,
            },
            notify_stream_online: match update.notify_stream_online {
                Some(v) => v,
                None => notify_stream_online,
            },
            notify_stream_offline: match update.notify_stream_offline {
                Some(v) => v,
                None => notify_stream_offline,
            },
            notify_title_change: match update.notify_title_change {
                Some(v) => v,
                None => notify_title_change,
            },
            notify_category_change: match update.notify_category_change {
                Some(v) => v,
                None => notify_category_change,
            },
            notify_reward_redemption: match update.notify_reward_redemption {
                Some(v) => v,
                None => notify_reward_redemption,
            },
            calendar_sync_enabled: match update.calendar_sync_enabled {
                Some(v) => v,
                None => calendar_sync_enabled,
            },
            created_at,
            updated_at: now,
        }
    }
}

impl TelegramIntegrationRepository {
    /// A Telegram integration after a partial update at `now`: the switches given replace
    /// the stored ones (the chat and its title stay).
    pub fn apply_update(current: TelegramIntegration, update: &UpdateTelegramIntegration, now: i64) -> (r:
        TelegramIntegration)
        ensures
            r == (TelegramIntegration {
                is_enabled: or_keep(update.is_enabled, current.is_enabled),
                notify_stream_online: or_keep(
                    update.notify_stream_online,
                    current.notify_stream_online,
                ),
                notify_stream_offline: or_keep(
                    update.notify_stream_offline,
                    current.notify_stream_offline,
                ),
                notify_title_change: or_keep(update.notify_title_change, current.notify_title_change),
                notify_category_change: or_keep(
                    update.notify_category_change,
                    current.notify_category_change,
                ),
                notify_reward_redemption: or_keep(
                    update.notify_reward_redemption,
                    current.notify_reward_redemption,
                ),
                updated_at: now,
                ..current
            }),
            *update == UpdateTelegramIntegration::default_value() ==> r == (TelegramIntegration {
                updated_at: now,
                ..current
            }),
    {
        TelegramIntegration {
            is_enabled: match update.is_enabled {
                Some(v) => v,
                None => current.is_enabled,
            },
            notify_stream_online: match update.notify_stream_online {
                Some(v) => v,
                None => current.notify_stream_online,
            },
            notify_stream_offline: match update.notify_stream_offline {
                Some(v) => v,
                None => current.notify_stream_offline,
            },
            notify_title_change: match update.notify_title_change {
                Some(v) => v,
                None => current.notify_title_change,
            },
            notify_category_change: match update.notify_category_change {
                Some(v) => v,
                None => current.notify_category_change,
            },
            notify_reward_redemption: match update.notify_reward_redemption {
                Some(v) => v,
                None => current.notify_reward_redemption,
            },
            updated_at: now,
            ..current
        }
    }
}

impl NotificationSettingsRepository {
    /// Settings after a partial update at `now`: given templates and switch replace the
    /// stored ones.
    pub fn apply_update(current: NotificationSettings, update: UpdateNotificationSettings, now: i64) -> (r:
        NotificationSettings)
        ensures
            r.id == current.id && r.user_id == current.user_id && r.created_at == current.created_at,
            r.stream_online_message == or_keep(
                update.stream_online_message,
                current.stream_online_message,
            ),
            r.stream_offline_message == or_keep(
                update.stream_offline_message,
                current.stream_offline_message,
            ),
            r.stream_title_change_message == or_keep(
                update.stream_title_change_message,
                current.stream_title_change_message,
            ),
            r.stream_category_change_message == or_keep(
                update.stream_category_change_message,
                current.stream_category_change_message,
            ),
            r.reward_redemption_message == or_keep(
                update.reward_redemption_message,
                current.reward_redemption_message,
            ),
            r.notify_reward_redemption == or_keep(
                update.notify_reward_redemption,
                current.notify_reward_redemption,
            ),
            r.updated_at == now,
            update == UpdateNotificationSettings::default_value() ==> r == (NotificationSettings {
                updated_at: now,
                ..current
            }),
    {
        let NotificationSettings {
            id,
            user_id,
            stream_online_message,
            stream_offline_message,
            stream_title_change_message,
            stream_category_change_message,
            reward_redemption_message,
            notify_reward_redemption,
            created_at,
            updated_at: _,
        } = current;
        NotificationSettings {
            id,
            user_id,
            stream_online_message: match update.stream_online_message {
                Some(v) => v,
                None => stream_online_message,
            },
            stream_offline_message: match update.stream_offline_message {
                Some(v) => v,
                None => stream_offline_message,
            },
            stream_title_change_message: match update.stream_title_change_message {
                Some(v) => v,
                None => stream_title_change_message,
            },
            stream_category_change_message: match update.stream_category_change_message {
                Some(v) => v,
                None => stream_category_change_message,
            },
            reward_redemption_message: match update.reward_redemption_message {
                Some(v) => v,
                None => reward_redemption_message,
            },
            notify_reward_redemption: match update.notify_reward_redemption {
                Some(v) => v,
                None => notify_reward_redemption,
            },
            created_at,
            updated_at: now,
        }
    }

    /// Does stored settings have a template that is blank (after trimming), so that the
    /// defaults are filled in?
    pub fn needs_patch(s: &NotificationSettings) -> (r: bool)
        ensures
            r == (trim_seq(s.stream_online_message@).len() == 0 || trim_seq(
                s.stream_offline_message@,
            ).len() == 0 || trim_seq(s.stream_title_change_message@).len() == 0 || trim_seq(
                s.stream_category_change_message@,
            ).len() == 0 || trim_seq(s.reward_redemption_message@).len() == 0),
    {
        is_blank(s.stream_online_message.as_str()) || is_blank(s.stream_offline_message.as_str())
            || is_blank(s.stream_title_change_message.as_str()) || is_blank(
            s.stream_category_change_message.as_str(),
        ) || is_blank(s.reward_redemption_message.as_str())
    }

    /// Stored settings with every empty template replaced by the default one, at `now`
    /// (templates that only hold white space stay).
    pub fn patch_empty(s: NotificationSettings, defaults: &NotificationSettings, now: i64) -> (r:
        NotificationSettings)
        ensures
            r.id == s.id && r.user_id == s.user_id && r.created_at == s.created_at,
            r.notify_reward_redemption == s.notify_reward_redemption,
            r.stream_online_message == if s.stream_online_message@.len() == 0 {
                defaults.stream_online_message
            } else {
                s.stream_online_message
            },
            r.stream_offline_message == if s.stream_offline_message@.len() == 0 {
                defaults.stream_offline_message
            } else {
                s.stream_offline_message
            },
            r.stream_title_change_message == if s.stream_title_change_message@.len() == 0 {
                defaults.stream_title_change_message
            } else {
                s.stream_title_change_message
            },
            r.stream_category_change_message == if s.stream_category_change_message@.len() == 0 {
                defaults.stream_category_change_message
            } else {
                s.stream_category_change_message
            },
            r.reward_redemption_message == if s.reward_redemption_message@.len() == 0 {
                defaults.reward_redemption_message
            } else {
                s.reward_redemption_message
            },
            r.updated_at == now,
    {
        let NotificationSettings {
            id,
            user_id,
            stream_online_message,
            stream_offline_message,
            stream_title_change_message,
            stream_category_change_message,
            reward_redemption_message,
            notify_reward_redemption,
            created_at,
            updated_at: _,
        } = s;
        NotificationSettings {
            id,
            user_id,
            stream_online_message: fill(stream_online_message, &defaults.stream_online_message),
            stream_offline_message: fill(stream_offline_message, &defaults.stream_offline_message),
            stream_title_change_message: fill(
                stream_title_change_message,
                &defaults.stream_title_change_message,
            ),
            stream_category_change_message: fill(
                stream_category_change_message,
                &defaults.stream_category_change_message,
            ),
            reward_redemption_message: fill(
                reward_redemption_message,
                &defaults.reward_redemption_message,
            ),
            notify_reward_redemption,
            created_at,
            updated_at: now,
        }
    }
}

fn fill(v: String, default: &String) -> (r: String)
    ensures
        r == if v@.len() == 0 {
            *default
        } else {
            v
        },
{
    if v.as_str().unicode_len() == 0 {
        default.clone()
    } else {
        v
    }
}

// ---------------------------------------------------------------------------
// The retry queue
// ---------------------------------------------------------------------------

/// Attempts allowed when a task does not say.
pub const DEFAULT_MAX_ATTEMPTS: i32 = 5;

impl NotificationQueueRepository {
    /// A new queued task with id `id`, at `now`: no attempt made yet, waiting (`pending`),
    /// first attempt at the given instant (now when none is given), five attempts when
    /// none are given.
    pub fn new_task(id: String, task: CreateNotificationTask, now: i64) -> (r: NotificationTask)
        ensures
            r.id == id,
            r.notification_log_id == task.notification_log_id,
            r.user_id == task.user_id,
            r.notification_type == task.notification_type,
            r.content_json == task.content_json,
            r.message == task.message,
            r.destination_type == task.destination_type,
            r.destination_id == task.destination_id,
            r.webhook_url == task.webhook_url,
            r.attempts == 0,
            r.max_attempts == or_keep(task.max_attempts, DEFAULT_MAX_ATTEMPTS),
            r.next_attempt_at == or_keep(task.next_attempt_at, now),
            r.expires_at == task.expires_at,
            r.last_error is None,
            r.status@ == "pending"@,
            r.created_at == now,
            r.updated_at == now,
    {
        NotificationTask {
            id,
            notification_log_id: task.notification_log_id,
            user_id: task.user_id,
            notification_type: task.notification_type,
            content_json: task.content_json,
            message: task.message,
            destination_type: task.destination_type,
            destination_id: task.destination_id,
            webhook_url: task.webhook_url,
            attempts: 0,
            max_attempts: match task.max_attempts {
                Some(m) => m,
                None => DEFAULT_MAX_ATTEMPTS,
            },
            next_attempt_at: match task.next_attempt_at {
                Some(t) => t,
                None => now,
            },
            last_error: None,
            status: owned("pending"),
            created_at: now,
            updated_at: now,
            expires_at: task.expires_at,
        }
    }

    /// How many due tasks one claim may take: none for a limit that is not positive.
    pub fn claim_count(limit: i64) -> (r: usize)
        ensures
            limit <= 0 ==> r == 0,
            0 < limit <= usize::MAX ==> r == limit,
            limit > usize::MAX ==> r == usize::MAX,
    {
        if limit <= 0 {
            0
        } else if (limit as u64) > (usize::MAX as u64) {
            usize::MAX
        } else {
            limit as usize
        }
    }
}

/// Is a task due at `now`: waiting, its next attempt not later than `now`, and not expired?
pub open spec fn task_due(t: NotificationTask, now: i64) -> bool {
    t.status@ == "pending"@ && t.next_attempt_at <= now && match t.expires_at {
        Some(e) => e > now,
        None => true,
    }
}

/// The status a task has after one more failed attempt: given up (`dead`) once its
/// attempts reach the maximum, else waiting again.
pub open spec fn status_after_attempt(attempts: int, max_attempts: int) -> Seq<char> {
    if attempts + 1 >= max_attempts {
        "dead"@
    } else {
        "pending"@
    }
}

impl NotificationQueueRepository {
    /// Is a task due at `now`?
    pub fn is_due(t: &NotificationTask, now: i64) -> (r: bool)
        ensures
            r == task_due(*t, now),
    {
        str_equal(t.status.as_str(), "pending") && t.next_attempt_at <= now && match t.expires_at {
            Some(e) => e > now,
            None => true,
        }
    }

    /// A task taken by the worker at `now`.
    pub fn claimed(t: NotificationTask, now: i64) -> (r: NotificationTask)
        ensures
            r == (NotificationTask { status: r.status, updated_at: now, ..t }),
            r.status@ == "processing"@,
    {
        NotificationTask { status: owned("processing"), updated_at: now, ..t }
    }

    /// A task after a failed attempt at `now`: one more attempt counted, retried at
    /// `next_attempt_at`, the error recorded, and given up once the attempts reach the
    /// maximum.
    pub fn register_attempt(
        t: NotificationTask,
        next_attempt_at: i64,
        last_error: Option<String>,
        now: i64,
    ) -> (r: NotificationTask)
        requires
            t.attempts < i32::MAX,
        ensures
            r == (NotificationTask {
                attempts: (t.attempts + 1) as i32,
                next_attempt_at,
                last_error,
                status: r.status,
                updated_at: now,
                ..t
            }),
            r.status@ == status_after_attempt(t.attempts as int, t.max_attempts as int),
    {
        let status = if t.attempts + 1 >= t.max_attempts {
            owned("dead")
        } else {
            owned("pending")
        };
        NotificationTask {
            attempts: t.attempts + 1,
            next_attempt_at,
            last_error,
            status,
            updated_at: now,
            ..t
        }
    }

    /// A task given up at `now` for `reason`.
    pub fn dead(t: NotificationTask, reason: Option<String>, now: i64) -> (r: NotificationTask)
        ensures
            r == (NotificationTask { status: r.status, last_error: reason, updated_at: now, ..t }),
            r.status@ == "dead"@,
    {
        NotificationTask { status: owned("dead"), last_error: reason, updated_at: now, ..t }
    }

    /// A task delivered at `now`.
    pub fn succeeded(t: NotificationTask, now: i64) -> (r: NotificationTask)
        ensures
            r == (NotificationTask { status: r.status, updated_at: now, ..t }),
            r.status@ == "succeeded"@,
    {
        NotificationTask { status: owned("succeeded"), updated_at: now, ..t }
    }
}

/// A failed attempt gives a task up exactly when the attempts made reach the maximum.
pub proof fn law_given_up_exactly_at_max_attempts(attempts: int, max_attempts: int)
    ensures
        (status_after_attempt(attempts, max_attempts) == "dead"@) <==> attempts + 1
            >= max_attempts,
{
    reveal_strlit("dead");
    reveal_strlit("pending");
    assert("dead"@ != "pending"@) by {
        assert("dead"@[0] != "pending"@[0]);
    }
}

/// A task being worked on is not due: claiming it keeps other workers from claiming it
/// again.
pub proof fn law_claimed_tasks_are_not_due(t: NotificationTask, now: i64)
    requires
        t.status@ == "processing"@,
    ensures
        !task_due(t, now),
{
    reveal_strlit("processing");
    reveal_strlit("pending");
    assert("processing"@ != "pending"@) by {
        assert("processing"@.len() != "pending"@.len());
    }
}

/// A task that was given up or delivered is never due again.
pub proof fn law_finished_tasks_are_never_due(t: NotificationTask, now: i64)
    requires
        t.status@ == "dead"@ || t.status@ == "succeeded"@,
    ensures
        !task_due(t, now),
{
    reveal_strlit("dead");
    reveal_strlit("pending");
    reveal_strlit("succeeded");
    assert("dead"@ != "pending"@) by {
        assert("dead"@[0] != "pending"@[0]);
    }
    assert("succeeded"@ != "pending"@) by {
        assert("succeeded"@.len() != "pending"@.len());
    }
}

// ---------------------------------------------------------------------------
// Lookups
// ---------------------------------------------------------------------------

impl NotificationLogRepository {
    /// The page of the log to read: at most 100 entries from the start when not given.
    pub fn page_bounds(limit: Option<i64>, offset: Option<i64>) -> (r: (i64, i64))
        ensures
            r.0 == or_keep(limit, 100),
            r.1 == or_keep(offset, 0),
    {
        (
            match limit {
                Some(l) => l,
                None => 100,
            },
            match offset {
                Some(o) => o,
                None => 0,
            },
        )
    }
}

impl UserRepository {
    /// The pattern users are searched with: the query in lower case between `%` wildcards
    /// (no search for a blank query).
    pub fn search_pattern(query: &str) -> (r: Option<String>)
        ensures
            trim_seq(query@).len() == 0 ==> r is None,
            trim_seq(query@).len() > 0 ==> (r matches Some(p) && p@ == "%"@ + unicode_lowercase(
                query@,
            ) + "%"@),
    {
        if is_blank(query) {
            return None;
        }
        let low = to_lowercase(query);
        Some(concat3("%", low.as_str(), "%"))
    }
}

} // verus!
