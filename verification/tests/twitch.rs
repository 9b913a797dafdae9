use twitch_notifications::twitch::{
    app_token_fresh, attempts_exhausted_message, calculate_token_expiry, get_auth_url, get_required_scopes, join_strs,
    next_refresh_backoff, next_request_backoff, refresh_wait_seconds, repeated_query_param,
    request_retry_decision, subscription_version, AttemptOutcome, RetryDecision,
};
use twitch_notifications::webhooks::{
    cache_fresh, channel_changes, event_kind, is_unauthorized_message, missing_header_error,
    reward_chat_message, stream_info_or_default, streamer_avatar, token_needs_refresh,
    ChannelUpdateEvent, EventKind,
};
use twitch_notifications::error::AppError;

#[test]
fn sign_in_address_lists_scopes() {
    let scopes = get_required_scopes();
    assert_eq!(scopes.len(), 7);
    assert_eq!(scopes[0], "user:read:email");
    let url = get_auth_url("cid", "https://h/cb", "s t", &scopes[..2]);
    assert_eq!(
        url,
        "https://id.twitch.tv/oauth2/authorize?client_id=cid&redirect_uri=https%3A%2F%2Fh%2Fcb&response_type=code&scope=user%3Aread%3Aemail%20channel%3Aread%3Asubscriptions&state=s%20t"
    );
    assert_eq!(join_strs(&["a", "b", "c"], ", "), "a, b, c");
    assert_eq!(join_strs(&[], ","), "");
    assert_eq!(repeated_query_param("id=", &["1", "2"]), "id=1&id=2");
    assert_eq!(subscription_version("channel.update"), "2");
    assert_eq!(subscription_version("stream.online"), "1");
}

#[test]
fn request_retries() {
    let busy = AttemptOutcome::Answered { status: 429, retry_after: Some("7".to_string()) };
    assert_eq!(request_retry_decision(0, 1, &busy), RetryDecision::RetryAfter(7));
    assert_eq!(request_retry_decision(4, 1, &busy), RetryDecision::GiveUpAnswer);
    let down = AttemptOutcome::Answered { status: 503, retry_after: Some("soon".to_string()) };
    assert_eq!(request_retry_decision(1, 4, &down), RetryDecision::RetryAfter(4));
    let ok = AttemptOutcome::Answered { status: 404, retry_after: None };
    assert_eq!(request_retry_decision(0, 1, &ok), RetryDecision::Accept);
    assert_eq!(request_retry_decision(3, 8, &AttemptOutcome::NetworkError), RetryDecision::RetryAfter(8));
    assert_eq!(request_retry_decision(4, 8, &AttemptOutcome::NetworkError), RetryDecision::GiveUpNetwork);
    assert_eq!(next_request_backoff(1), 2);
    assert_eq!(next_request_backoff(40), 60);
    assert_eq!(attempts_exhausted_message(5, "busy"), "Failed after 5 attempts: busy");
}

#[test]
fn application_token_timing() {
    assert!(app_token_fresh(200_000, 100_000));
    assert!(!app_token_fresh(160_000, 100_000));
    assert_eq!(refresh_wait_seconds(None, 0), 0);
    assert_eq!(refresh_wait_seconds(Some(200_000), 100_000), 40);
    assert_eq!(refresh_wait_seconds(Some(150_000), 100_000), 0);
    assert_eq!(next_refresh_backoff(10), 20);
    assert_eq!(next_refresh_backoff(400), 600);
}

fn update(title: &str, category: &str) -> ChannelUpdateEvent {
    ChannelUpdateEvent {
        broadcaster_user_id: "1".to_string(),
        broadcaster_user_name: "B".to_string(),
        title: title.to_string(),
        category_id: category.to_string(),
        category_name: "Game".to_string(),
    }
}

#[test]
fn channel_update_changes() {
    let prev = ("Old".to_string(), "10".to_string());
    assert_eq!(channel_changes(Some(&prev), &update("New", "10")), (true, false));
    assert_eq!(channel_changes(Some(&prev), &update("Old", "11")), (false, true));
    assert_eq!(channel_changes(None, &update("New", "11")), (false, false));
    let empty = (String::new(), String::new());
    assert_eq!(channel_changes(Some(&empty), &update("New", "11")), (false, false));
}

#[test]
fn webhook_helpers() {
    assert!(cache_fresh(0, 60_999));
    assert!(!cache_fresh(0, 61_000));
    assert!(cache_fresh(10_000, 0));
    assert!(token_needs_refresh(100_000, 40_000));
    assert!(!token_needs_refresh(100_001, 40_000));
    assert!(is_unauthorized_message("Twitch API error (401)"));
    assert!(!is_unauthorized_message("403 Forbidden"));
    assert_eq!(streamer_avatar(""), None);
    assert_eq!(streamer_avatar("https://a"), Some("https://a".to_string()));
    assert_eq!(
        stream_info_or_default(None),
        ("Stream started!".to_string(), "Unknown".to_string(), None)
    );
    assert_eq!(reward_chat_message("{user} got {reward} for {cost}", "v", "R", 250), "v got R for 250");
    assert_eq!(event_kind("stream.online"), EventKind::StreamOnline);
    assert_eq!(event_kind("channel.follow"), EventKind::Unhandled);
    assert_eq!(
        missing_header_error("twitch-eventsub-message-id"),
        AppError::BadRequest("Missing header: twitch-eventsub-message-id".to_string())
    );
}

#[test]
fn token_expiry_is_lifetime_after_now() {
    assert_eq!(calculate_token_expiry(1_000, 3_600), Some(3_601_000));
    assert_eq!(calculate_token_expiry(0, -5), Some(-5_000));
    assert_eq!(calculate_token_expiry(i64::MAX, 1), None);
}
