use twitch_notifications::models::EventSubSubscription;
use twitch_notifications::notifications::{delivery_record, NotificationResult, NotificationType};
use twitch_notifications::subscriptions::{
    cleanup_step, provision_step, removals_of, CleanupAction, CleanupEvent, CleanupPhase,
    EventSubCondition, ListedSubscription, ProvisionAction, ProvisionEvent, ProvisionPhase, Removal,
};
use twitch_notifications::webhooks::{
    channel_update_step, token_call_step, ChannelUpdateAction, ChannelUpdateAnswer,
    ChannelUpdateEvent, ChannelUpdatePhase, TokenCallAction, TokenCallEvent, TokenCallPhase,
};

fn record(t: &str, status: &str, created_at: i64) -> EventSubSubscription {
    EventSubSubscription {
        id: format!("id-{}", t),
        twitch_subscription_id: format!("tw-{}", t),
        user_id: "u".to_string(),
        subscription_type: t.to_string(),
        status: status.to_string(),
        created_at,
        updated_at: created_at,
    }
}

const PENDING: &str = "webhook_callback_verification_pending";

#[test]
fn cleanup_keeps_unneeded_record_when_twitch_refuses() {
    let subs = vec![
        record("stream.online", "enabled", 0),
        record("channel.follow", "enabled", 0),
        record("stream.offline", PENDING, 0),
    ];
    let now: i64 = 700_000;
    assert_eq!(removals_of(&subs, now), vec![Removal::Unneeded(1), Removal::Renewed(2)]);
    let (p, a) = cleanup_step(CleanupPhase::Start, CleanupEvent::Begin);
    assert_eq!(a, CleanupAction::LoadRecords);
    let (p, a) = cleanup_step(p, CleanupEvent::Loaded { subs, now });
    assert_eq!(a, CleanupAction::DeleteOnTwitch(1));
    // Twitch refused: the unneeded record stays.
    let (p, a) = cleanup_step(p, CleanupEvent::TwitchAnswered(false));
    assert_eq!(a, CleanupAction::DeleteOnTwitch(2));
    // Twitch refused again: the overdue record goes all the same.
    let (p, a) = cleanup_step(p, CleanupEvent::TwitchAnswered(false));
    assert_eq!(a, CleanupAction::DeleteRecord(2));
    let (p, a) = cleanup_step(p, CleanupEvent::RecordDeleted);
    assert_eq!((p, a), (CleanupPhase::Done, CleanupAction::Finish));
}

#[test]
fn cleanup_deletes_unneeded_record_after_twitch() {
    let subs = vec![record("channel.follow", "enabled", 0)];
    let (p, a) = cleanup_step(CleanupPhase::Start, CleanupEvent::Loaded { subs, now: 0 });
    assert_eq!(a, CleanupAction::DeleteOnTwitch(0));
    let (p, a) = cleanup_step(p, CleanupEvent::TwitchAnswered(true));
    assert_eq!(a, CleanupAction::DeleteRecord(0));
    let (_, a) = cleanup_step(p, CleanupEvent::RecordDeleted);
    assert_eq!(a, CleanupAction::Finish);
    let (_, a) = cleanup_step(CleanupPhase::Start, CleanupEvent::Loaded { subs: vec![], now: 0 });
    assert_eq!(a, CleanupAction::Finish);
}

fn update(title: &str, category: &str) -> ChannelUpdateEvent {
    ChannelUpdateEvent {
        broadcaster_user_id: "1".to_string(),
        broadcaster_user_name: "B".to_string(),
        title: title.to_string(),
        category_id: category.to_string(),
        category_name: "Game".to_string(),
    }
}

#[test]
fn first_channel_update_only_remembers() {
    let (p, a) = channel_update_step(ChannelUpdatePhase::Start(update("T", "9")), ChannelUpdateAnswer::Seen(None));
    assert_eq!(a, ChannelUpdateAction::Remember { title: "T".into(), category_id: "9".into() });
    let (_, a) = channel_update_step(p, ChannelUpdateAnswer::Remembered);
    assert_eq!(a, ChannelUpdateAction::Finish);
}

#[test]
fn changed_channel_sends_title_then_category_when_live() {
    let seen = Some(("Old".to_string(), "1".to_string()));
    let (p, a) = channel_update_step(ChannelUpdatePhase::Start(update("New", "2")), ChannelUpdateAnswer::Seen(seen));
    assert_eq!(a, ChannelUpdateAction::Remember { title: "New".into(), category_id: "2".into() });
    let (p, a) = channel_update_step(p, ChannelUpdateAnswer::Remembered);
    assert_eq!(a, ChannelUpdateAction::LoadUser);
    let (_, stop) = channel_update_step(p.clone(), ChannelUpdateAnswer::UserFound(false));
    assert_eq!(stop, ChannelUpdateAction::Finish);
    let (p, a) = channel_update_step(p, ChannelUpdateAnswer::UserFound(true));
    assert_eq!(a, ChannelUpdateAction::CheckLive);
    let (_, stop) = channel_update_step(p.clone(), ChannelUpdateAnswer::Live(false));
    assert_eq!(stop, ChannelUpdateAction::Finish);
    let (p, a) = channel_update_step(p, ChannelUpdateAnswer::Live(true));
    match a {
        ChannelUpdateAction::SendTitleChange(d) => {
            assert_eq!((d.streamer_name.as_str(), d.new_title.as_str(), d.category_name.as_str()), ("B", "New", "Game"));
        }
        other => panic!("expected a title change, got {:?}", other),
    }
    let (p, a) = channel_update_step(p, ChannelUpdateAnswer::Sent(true));
    match a {
        ChannelUpdateAction::SendCategoryChange(d) => assert_eq!(d.new_category, "Game"),
        other => panic!("expected a category change, got {:?}", other),
    }
    let (_, a) = channel_update_step(p, ChannelUpdateAnswer::Sent(true));
    assert_eq!(a, ChannelUpdateAction::Finish);
}

fn result(success: bool, error: Option<&str>) -> NotificationResult {
    NotificationResult {
        destination_type: "telegram".to_string(),
        destination_id: "42".to_string(),
        success,
        error: error.map(|e| e.to_string()),
    }
}

#[test]
fn retry_is_queued_exactly_for_pending_logs() {
    let (entry, retry) = delivery_record("u", NotificationType::StreamOnline, &result(false, Some("Too Many Requests")), "m");
    assert_eq!((entry.status.as_str(), retry), ("pending", true));
    let (entry, retry) = delivery_record("u", NotificationType::StreamOnline, &result(true, None), "m");
    assert_eq!((entry.status.as_str(), retry), ("sent", false));
    let (entry, retry) = delivery_record("u", NotificationType::StreamOnline, &result(false, Some("chat not found")), "m");
    assert_eq!((entry.status.as_str(), retry), ("failed", false));
    assert_eq!(entry.content, "m");
}

#[test]
fn provisioning_replaces_creates_and_falls_back_to_the_listing() {
    let subs = vec![
        record("stream.online", "enabled", 0),
        record("stream.offline", PENDING, 0),
    ];
    let start = ProvisionPhase::Start { broadcaster_id: "b1".to_string() };
    let (p, a) = provision_step(start, ProvisionEvent::Begin);
    assert_eq!(a, ProvisionAction::LoadRecords);
    let (p, a) = provision_step(p, ProvisionEvent::Loaded(subs));
    // stream.online is kept; stream.offline is replaced: deleted on Twitch, then its record.
    assert_eq!(a, ProvisionAction::DeleteOnTwitch(1));
    let (p, a) = provision_step(p, ProvisionEvent::TwitchAnswered);
    assert_eq!(a, ProvisionAction::DeleteRecord(1));
    let (p, a) = provision_step(p, ProvisionEvent::RecordDeleted);
    assert_eq!(a, ProvisionAction::Create("stream.offline".to_string()));
    let (p, a) = provision_step(p, ProvisionEvent::Created(Some(("s2".to_string(), "enabled".to_string()))));
    match a {
        ProvisionAction::Record(c) => {
            assert_eq!((c.twitch_subscription_id.as_str(), c.subscription_type.as_str(), c.status.as_str()), ("s2", "stream.offline", "enabled"));
        }
        other => panic!("expected a record, got {:?}", other),
    }
    let (p, a) = provision_step(p, ProvisionEvent::Recorded);
    assert_eq!(a, ProvisionAction::Create("channel.update".to_string()));
    // Twitch refuses; the listing holds one for this broadcaster.
    let (p, a) = provision_step(p, ProvisionEvent::Created(None));
    assert_eq!(a, ProvisionAction::ListSubscriptions);
    let listing = vec![
        ListedSubscription {
            id: "other".to_string(),
            subscription_type: "channel.update".to_string(),
            status: "enabled".to_string(),
            condition: EventSubCondition::Object { broadcaster_user_id: Some("b2".to_string()) },
        },
        ListedSubscription {
            id: "mine".to_string(),
            subscription_type: "channel.update".to_string(),
            status: "enabled".to_string(),
            condition: EventSubCondition::Object { broadcaster_user_id: Some("b1".to_string()) },
        },
    ];
    let (p, a) = provision_step(p, ProvisionEvent::Listed(Some(listing)));
    match a {
        ProvisionAction::Record(c) => assert_eq!(c.twitch_subscription_id, "mine"),
        other => panic!("expected a record, got {:?}", other),
    }
    let (p, a) = provision_step(p, ProvisionEvent::Recorded);
    assert_eq!(a, ProvisionAction::Create("channel.channel_points_custom_reward_redemption.add".to_string()));
    let (p, a) = provision_step(p, ProvisionEvent::Created(None));
    assert_eq!(a, ProvisionAction::ListSubscriptions);
    let (p, a) = provision_step(p, ProvisionEvent::Listed(None));
    assert_eq!((p, a), (ProvisionPhase::Done, ProvisionAction::Finish));
}

fn begin(expires_at: i64, now: i64) -> TokenCallEvent {
    TokenCallEvent::Begin {
        access_token: "a0".to_string(),
        refresh_token: "r0".to_string(),
        expires_at,
        now,
    }
}

#[test]
fn token_call_refreshes_early_and_retries_once_when_refused() {
    // Expiring within a minute: refreshed first.
    let (p, a) = token_call_step(TokenCallPhase::Start, begin(100_000, 50_000));
    assert_eq!(a, TokenCallAction::Refresh("r0".to_string()));
    let (p, a) = token_call_step(p, TokenCallEvent::Refreshed(Some(("a1".to_string(), "r1".to_string()))));
    assert_eq!(a, TokenCallAction::Call("a1".to_string()));
    let refused = TokenCallEvent::Answered { twitch_error: Some("Twitch API error 401 Unauthorized".to_string()) };
    let (p, a) = token_call_step(p, refused.clone());
    assert_eq!(a, TokenCallAction::Refresh("r1".to_string()));
    let (p, a) = token_call_step(p, TokenCallEvent::Refreshed(Some(("a2".to_string(), "r2".to_string()))));
    assert_eq!(a, TokenCallAction::Call("a2".to_string()));
    // The second answer stands, even another refusal.
    let (p, a) = token_call_step(p, refused);
    assert_eq!((p, a), (TokenCallPhase::Done, TokenCallAction::Finish));
}

#[test]
fn token_call_keeps_a_fresh_token_and_other_errors() {
    let (p, a) = token_call_step(TokenCallPhase::Start, begin(1_000_000, 0));
    assert_eq!(a, TokenCallAction::Call("a0".to_string()));
    let (_, a) = token_call_step(p.clone(), TokenCallEvent::Answered { twitch_error: Some("500 Internal".to_string()) });
    assert_eq!(a, TokenCallAction::Finish);
    let (_, a) = token_call_step(p, TokenCallEvent::Answered { twitch_error: None });
    assert_eq!(a, TokenCallAction::Finish);
    // A failed early refresh keeps the old token.
    let (p, _) = token_call_step(TokenCallPhase::Start, begin(0, 0));
    let (_, a) = token_call_step(p, TokenCallEvent::Refreshed(None));
    assert_eq!(a, TokenCallAction::Call("a0".to_string()));
}
