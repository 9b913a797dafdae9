use twitch_notifications::models::{
    CreateNotificationTask, DiscordIntegration, NotificationSettings, NotificationTask,
    UpdateDiscordIntegration,
};
use twitch_notifications::repositories::{
    DiscordIntegrationRepository, NotificationLogRepository, NotificationQueueRepository,
    NotificationSettingsRepository, UserRepository, DEFAULT_MAX_ATTEMPTS,
};
use twitch_notifications::subscriptions::{
    condition_matches_broadcaster, creation_plan, find_listed_subscription, is_required_type,
    overdue_subscriptions, required_subscription_types, stale_subscriptions, CreationStep,
    EventSubCondition, ListedSubscription,
};
use twitch_notifications::models::EventSubSubscription;

fn task(max_attempts: Option<i32>) -> NotificationTask {
    NotificationQueueRepository::new_task(
        "t1".to_string(),
        CreateNotificationTask {
            notification_log_id: None,
            user_id: "u".to_string(),
            notification_type: "stream_online".to_string(),
            content_json: "{}".to_string(),
            message: "m".to_string(),
            destination_type: "telegram".to_string(),
            destination_id: "1".to_string(),
            webhook_url: None,
            max_attempts,
            next_attempt_at: None,
            expires_at: Some(1_000),
        },
        100,
    )
}

#[test]
fn queue_task_lifecycle() {
    let t = task(None);
    assert_eq!(t.status, "pending");
    assert_eq!(t.max_attempts, DEFAULT_MAX_ATTEMPTS);
    assert_eq!(t.next_attempt_at, 100);
    assert!(NotificationQueueRepository::is_due(&t, 100));
    assert!(!NotificationQueueRepository::is_due(&t, 99));
    assert!(!NotificationQueueRepository::is_due(&t, 1_000));
    let c = NotificationQueueRepository::claimed(t.clone(), 200);
    assert_eq!(c.status, "processing");
    assert!(!NotificationQueueRepository::is_due(&c, 200));
    let done = NotificationQueueRepository::succeeded(c, 300);
    assert_eq!((done.status.as_str(), done.updated_at), ("succeeded", 300));
    assert!(!NotificationQueueRepository::is_due(&done, 300));
    let dead = NotificationQueueRepository::dead(t, Some("expired".to_string()), 5);
    assert_eq!(dead.status, "dead");
    assert_eq!(dead.last_error, Some("expired".to_string()));
}

#[test]
fn attempts_give_up_exactly_at_maximum() {
    let mut t = task(Some(3));
    for n in 1..=3 {
        t = NotificationQueueRepository::register_attempt(t, 500, Some("e".to_string()), 400);
        assert_eq!(t.attempts, n);
        assert_eq!(t.status, if n < 3 { "pending" } else { "dead" });
    }
    assert_eq!(NotificationQueueRepository::claim_count(-1), 0);
    assert_eq!(NotificationQueueRepository::claim_count(7), 7);
}

#[test]
fn partial_updates_keep_what_is_not_given() {
    let current = DiscordIntegration {
        id: "d".to_string(),
        user_id: "u".to_string(),
        discord_guild_id: "g".to_string(),
        discord_guild_name: Some("G".to_string()),
        discord_channel_id: "c1".to_string(),
        discord_channel_name: Some("one".to_string()),
        discord_webhook_url: Some("https://hook".to_string()),
        is_enabled: true,
        notify_stream_online: true,
        notify_stream_offline: true,
        notify_title_change: true,
        notify_category_change: true,
        notify_reward_redemption: false,
        calendar_sync_enabled: false,
        created_at: 1,
        updated_at: 1,
    };
    let update = UpdateDiscordIntegration {
        discord_channel_id: Some("c2".to_string()),
        is_enabled: Some(false),
        ..Default::default()
    };
    let r = DiscordIntegrationRepository::apply_update(current.clone(), update, 9);
    assert_eq!(r.discord_channel_id, "c2");
    assert_eq!(r.discord_channel_name, Some("one".to_string()));
    assert_eq!(r.discord_webhook_url, Some("https://hook".to_string()));
    assert!(!r.is_enabled);
    assert_eq!((r.created_at, r.updated_at), (1, 9));
    let same = DiscordIntegrationRepository::apply_update(current.clone(), Default::default(), 1);
    assert_eq!(same, current);
}

#[test]
fn empty_templates_are_patched_with_defaults() {
    let defaults = NotificationSettings::default_at(0);
    let mut s = NotificationSettings::default_at(5);
    s.stream_offline_message = String::new();
    s.reward_redemption_message = "   ".to_string();
    assert!(NotificationSettingsRepository::needs_patch(&s));
    let p = NotificationSettingsRepository::patch_empty(s, &defaults, 10);
    assert_eq!(p.stream_offline_message, defaults.stream_offline_message);
    assert_eq!(p.reward_redemption_message, "   ");
    assert!(!NotificationSettingsRepository::needs_patch(&NotificationSettings::default_at(0)));
}

#[test]
fn log_pages_and_user_search_pattern() {
    assert_eq!(NotificationLogRepository::page_bounds(None, None), (100, 0));
    assert_eq!(NotificationLogRepository::page_bounds(Some(5), Some(10)), (5, 10));
    assert_eq!(UserRepository::search_pattern("  "), None);
    assert_eq!(UserRepository::search_pattern("HafMC"), Some("%hafmc%".to_string()));
}

fn sub(t: &str, status: &str, created_at: i64) -> EventSubSubscription {
    EventSubSubscription {
        id: format!("id-{}", t),
        twitch_subscription_id: "tw".to_string(),
        user_id: "u".to_string(),
        subscription_type: t.to_string(),
        status: status.to_string(),
        created_at,
        updated_at: created_at,
    }
}

#[test]
fn subscription_sync_plan() {
    let types = required_subscription_types();
    assert_eq!(types.len(), 4);
    assert!(types.iter().all(|t| is_required_type(t)));
    assert!(!is_required_type("channel.follow"));
    let subs = vec![
        sub("stream.online", "enabled", 0),
        sub("channel.follow", "enabled", 0),
        sub("stream.offline", "webhook_callback_verification_pending", 0),
        sub("channel.update", "webhook_callback_verification_pending", 1_000_000),
    ];
    assert_eq!(stale_subscriptions(&subs), vec![1]);
    assert_eq!(overdue_subscriptions(&subs, 600_001), vec![2]);
    assert_eq!(overdue_subscriptions(&subs, 600_000), Vec::<usize>::new());
    assert_eq!(
        creation_plan(&subs),
        vec![CreationStep::Keep, CreationStep::Replace(2), CreationStep::Replace(3), CreationStep::Create]
    );
}

#[test]
fn synced_user_keeps_every_subscription() {
    let subs: Vec<_> = required_subscription_types().iter().map(|t| sub(t, "enabled", 0)).collect();
    assert_eq!(creation_plan(&subs), vec![CreationStep::Keep; 4]);
    assert_eq!(stale_subscriptions(&subs), Vec::<usize>::new());
}

#[test]
fn listed_subscriptions_are_matched_by_broadcaster() {
    let listing = vec![
        ListedSubscription {
            id: "a".to_string(),
            subscription_type: "stream.online".to_string(),
            status: "enabled".to_string(),
            condition: EventSubCondition::Object { broadcaster_user_id: Some("other".to_string()) },
        },
        ListedSubscription {
            id: "b".to_string(),
            subscription_type: "stream.online".to_string(),
            status: "enabled".to_string(),
            condition: EventSubCondition::Text("42".to_string()),
        },
    ];
    assert_eq!(find_listed_subscription(&listing, "stream.online", "42"), Some(1));
    assert_eq!(find_listed_subscription(&listing, "stream.offline", "42"), None);
    assert!(!condition_matches_broadcaster(&EventSubCondition::Other, "42"));
}
