use twitch_notifications::config::NotificationRetryConfig;
use twitch_notifications::models::NotificationTask;
use twitch_notifications::notifications::{
    task_step, DestinationKind, LogUpdate, NotificationType, QueueUpdate, TaskAction, TaskEvent,
    TaskPhase,
};
use twitch_notifications::error::AppError;
use twitch_notifications::telegram::{notification_message, parse_mode_of, ParseModeChoice, TelegramMessage};

fn cfg() -> NotificationRetryConfig {
    NotificationRetryConfig {
        enabled: true,
        initial_backoff_seconds: 5,
        poll_interval_seconds: 7,
        max_attempts: 5,
        worker_concurrency: 3,
        max_backoff_seconds: 300,
        default_ttl_seconds: 1,
        stream_online_ttl_seconds: 1,
        title_change_ttl_seconds: 1,
        category_change_ttl_seconds: 1,
        reward_redemption_ttl_seconds: 1,
    }
}

fn task(destination: &str, attempts: i32, expires_at: Option<i64>) -> NotificationTask {
    NotificationTask {
        id: "t".to_string(),
        notification_log_id: Some("log".to_string()),
        user_id: "u".to_string(),
        notification_type: "stream_online".to_string(),
        content_json: "{}".to_string(),
        message: "m".to_string(),
        destination_type: destination.to_string(),
        destination_id: "1".to_string(),
        webhook_url: None,
        attempts,
        max_attempts: 5,
        next_attempt_at: 0,
        last_error: None,
        status: "processing".to_string(),
        created_at: 0,
        updated_at: 0,
        expires_at,
    }
}

#[test]
fn queued_task_delivered() {
    let t = task("telegram", 0, Some(1_000));
    let c = cfg();
    let (p, a) = task_step(&t, &c, 10, TaskPhase::Start, TaskEvent::Started);
    assert_eq!((p.clone(), a), (TaskPhase::AwaitSettings, TaskAction::LoadSettings));
    let (p, a) = task_step(&t, &c, 10, p, TaskEvent::SettingsLoaded);
    assert_eq!((p.clone(), a), (TaskPhase::AwaitUser, TaskAction::LoadUser));
    let (p, a) = task_step(&t, &c, 10, p, TaskEvent::UserFound { twitch_login: "hafmc".to_string() });
    assert_eq!(
        a,
        TaskAction::Render {
            kind: NotificationType::StreamOnline,
            stream_url: "https://twitch.tv/hafmc".to_string()
        }
    );
    let (p, a) = task_step(&t, &c, 10, p, TaskEvent::Rendered("hello".to_string()));
    assert_eq!(
        a,
        TaskAction::Send { destination: DestinationKind::Telegram, message: "hello".to_string() }
    );
    let (p, a) = task_step(&t, &c, 10, p, TaskEvent::Delivered);
    assert_eq!(
        a,
        TaskAction::Update {
            queue: QueueUpdate::MarkSucceeded,
            log: Some(LogUpdate { log_id: "log".to_string(), status: "sent".to_string(), error: None })
        }
    );
    let (p, a) = task_step(&t, &c, 10, p, TaskEvent::Updated { status: None });
    assert_eq!((p, a), (TaskPhase::Done, TaskAction::Finish(Ok(()))));
}

#[test]
fn queued_task_expired_or_failing() {
    let c = cfg();
    let expired = task("telegram", 0, Some(10));
    let (_, a) = task_step(&expired, &c, 10, TaskPhase::Start, TaskEvent::Started);
    assert_eq!(
        a,
        TaskAction::Update {
            queue: QueueUpdate::MarkDead("expired".to_string()),
            log: Some(LogUpdate {
                log_id: "log".to_string(),
                status: "expired".to_string(),
                error: Some("Notification expired".to_string())
            })
        }
    );
    let t = task("discord", 2, None);
    let (p, a) = task_step(
        &t,
        &c,
        10,
        TaskPhase::AwaitSend,
        TaskEvent::DeliveryFailed("Discord API error (503): down".to_string()),
    );
    assert_eq!(p, TaskPhase::AwaitReschedule("Discord API error (503): down".to_string()));
    assert_eq!(
        a,
        TaskAction::Update {
            queue: QueueUpdate::Reschedule {
                delay_seconds: 20,
                error: "Discord API error (503): down".to_string()
            },
            log: None
        }
    );
    let (_, a) = task_step(&t, &c, 10, p, TaskEvent::Updated { status: Some("dead".to_string()) });
    assert_eq!(
        a,
        TaskAction::Update {
            queue: QueueUpdate::Keep,
            log: Some(LogUpdate {
                log_id: "log".to_string(),
                status: "failed".to_string(),
                error: Some("Discord API error (503): down".to_string())
            })
        }
    );
    let (_, a) = task_step(&t, &c, 10, TaskPhase::AwaitSend, TaskEvent::DeliveryFailed("Forbidden".to_string()));
    assert!(matches!(a, TaskAction::Update { queue: QueueUpdate::MarkDead(_), .. }));
    let odd = NotificationTask { notification_type: "follow".to_string(), ..task("telegram", 0, None) };
    let (p, a) = task_step(&odd, &c, 10, TaskPhase::AwaitUser, TaskEvent::UserFound { twitch_login: "x".to_string() });
    let reason = "Unknown notification type: follow".to_string();
    assert_eq!(
        a,
        TaskAction::Update {
            queue: QueueUpdate::MarkDead(reason.clone()),
            log: Some(LogUpdate { log_id: "log".to_string(), status: "failed".to_string(), error: Some(reason.clone()) })
        }
    );
    let (_, a) = task_step(&odd, &c, 10, p, TaskEvent::Updated { status: None });
    assert_eq!(a, TaskAction::Finish(Err(AppError::BadRequest(reason))));
    let (p, a) = task_step(&t, &c, 10, TaskPhase::AwaitRender, TaskEvent::DecodeFailed("bad data".to_string()));
    assert!(matches!(a, TaskAction::Update { queue: QueueUpdate::MarkDead(ref r), log: Some(ref l) }
        if r == "bad data" && l.status == "failed"));
    let (_, a) = task_step(&t, &c, 10, p, TaskEvent::Updated { status: None });
    assert_eq!(a, TaskAction::Finish(Err(AppError::Internal("bad data".to_string()))));
}

#[test]
fn telegram_messages_use_html() {
    let m = notification_message("100", "<b>hi</b>".to_string());
    assert_eq!(m.chat_id, "100");
    assert_eq!(parse_mode_of(&m), ParseModeChoice::Html);
    let d = TelegramMessage::default();
    assert_eq!(d.parse_mode, Some("HTML".to_string()));
    let md = TelegramMessage { parse_mode: Some("Markdown".to_string()), ..d.clone() };
    assert_eq!(parse_mode_of(&md), ParseModeChoice::MarkdownV2);
    let plain = TelegramMessage { parse_mode: None, ..d };
    assert_eq!(parse_mode_of(&plain), ParseModeChoice::Plain);
}
