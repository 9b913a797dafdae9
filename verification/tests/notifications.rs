use twitch_notifications::models::{DiscordIntegration, NotificationSettings, TelegramIntegration};
use twitch_notifications::notifications::{
    backoff_delay_seconds, discord_wants, is_retryable_error, plan_deliveries,
    render_notification_message, stream_url_for, telegram_wants, CategoryChangeData, Delivery,
    NotificationContent, NotificationType, RewardRedemptionData, StreamOfflineData,
    StreamOnlineData, TitleChangeData,
};
use twitch_notifications::text::replace_str;

fn replace(s: &str, pat: &str, rep: &str) -> String {
    replace_str(s, pat, rep)
}

#[test]
fn test_stream_online_placeholder_replacement() {
    let template = "{streamer} играет в {game} ({title})!\nПрисоединяйся: {url}";
    let stream_url = Some("https://twitch.tv/hafmc".to_string());

    let data = StreamOnlineData {
        streamer_name: "HafMC".to_string(),
        streamer_avatar: None,
        title: "Френдслоп и Резик".to_string(),
        category: "Just Chatting".to_string(),
        thumbnail_url: None,
    };

    let rendered = replace(template, "{streamer}", &data.streamer_name);
    let rendered = replace(&rendered, "{title}", &data.title);
    let rendered = replace(&rendered, "{category}", &data.category);
    let rendered = replace(&rendered, "{game}", &data.category);
    let rendered = replace(&rendered, "{url}", stream_url.as_deref().unwrap_or(""));

    assert_eq!(
        rendered,
        "HafMC играет в Just Chatting (Френдслоп и Резик)!\nПрисоединяйся: https://twitch.tv/hafmc"
    );
    assert!(!rendered.contains("{streamer}"));
    assert!(!rendered.contains("{game}"));
    assert!(!rendered.contains("{title}"));
    assert!(!rendered.contains("{url}"));
}

#[test]
fn test_stream_online_placeholder_replacement_empty_category() {
    let template = "{streamer} играет в {game}!";
    let data = StreamOnlineData {
        streamer_name: "HafMC".to_string(),
        streamer_avatar: None,
        title: "Test".to_string(),
        category: String::new(),
        thumbnail_url: None,
    };

    let rendered = replace(template, "{streamer}", &data.streamer_name);
    let rendered = replace(&rendered, "{game}", &data.category);

    assert_eq!(rendered, "HafMC играет в !");
    assert!(!rendered.contains("{streamer}"));
    assert!(!rendered.contains("{game}"));
}

#[test]
fn test_stream_offline_placeholder_replacement() {
    let template = "⚫ {streamer} завершил стрим";
    let data = StreamOfflineData { streamer_name: "HafMC".to_string() };

    let rendered = replace(template, "{streamer}", &data.streamer_name);

    assert_eq!(rendered, "⚫ HafMC завершил стрим");
    assert!(!rendered.contains("{streamer}"));
}

#[test]
fn test_title_change_placeholder_replacement() {
    let template = "📝 {streamer} изменил название стрима:\n\n{title}\n🎮 {game}\n{url}";
    let stream_url = "https://twitch.tv/hafmc";
    let data = TitleChangeData {
        streamer_name: "HafMC".to_string(),
        new_title: "Новое название стрима".to_string(),
        category_name: "Just Chatting".to_string(),
    };

    let rendered = replace(template, "{streamer}", &data.streamer_name);
    let rendered = replace(&rendered, "{title}", &data.new_title);
    let rendered = replace(&rendered, "{category}", &data.category_name);
    let rendered = replace(&rendered, "{game}", &data.category_name);
    let rendered = replace(&rendered, "{url}", stream_url);

    assert_eq!(
        rendered,
        "📝 HafMC изменил название стрима:\n\nНовое название стрима\n🎮 Just Chatting\nhttps://twitch.tv/hafmc"
    );
    assert!(!rendered.contains("{streamer}"));
    assert!(!rendered.contains("{title}"));
    assert!(!rendered.contains("{game}"));
    assert!(!rendered.contains("{url}"));
}

#[test]
fn test_category_change_placeholder_replacement() {
    let template = "🎮 {streamer} сменил категорию на: {game}";
    let data = CategoryChangeData {
        streamer_name: "HafMC".to_string(),
        new_category: "Just Chatting".to_string(),
    };

    let rendered = replace(template, "{streamer}", &data.streamer_name);
    let rendered = replace(&rendered, "{category}", &data.new_category);
    let rendered = replace(&rendered, "{game}", &data.new_category);

    assert_eq!(rendered, "🎮 HafMC сменил категорию на: Just Chatting");
    assert!(!rendered.contains("{streamer}"));
    assert!(!rendered.contains("{game}"));
}

#[test]
fn test_category_change_placeholder_replacement_both_placeholders() {
    let template = "{streamer} сменил {category} на {game}";
    let data = CategoryChangeData {
        streamer_name: "HafMC".to_string(),
        new_category: "Just Chatting".to_string(),
    };

    let rendered = replace(template, "{streamer}", &data.streamer_name);
    let rendered = replace(&rendered, "{category}", &data.new_category);
    let rendered = replace(&rendered, "{game}", &data.new_category);

    assert_eq!(rendered, "HafMC сменил Just Chatting на Just Chatting");
    assert!(!rendered.contains("{streamer}"));
    assert!(!rendered.contains("{category}"));
    assert!(!rendered.contains("{game}"));
}

#[test]
fn test_reward_redemption_placeholder_replacement() {
    let template = "{user} использовал награду {reward} за {cost} очков";
    let data = RewardRedemptionData {
        redeemer_name: "viewer123".to_string(),
        reward_name: "Custom Reward Name".to_string(),
        reward_cost: 100,
        user_input: None,
        broadcaster_name: "HafMC".to_string(),
    };

    let rendered = replace(template, "{user}", &data.redeemer_name);
    let rendered = replace(&rendered, "{reward}", &data.reward_name);
    let rendered = replace(&rendered, "{cost}", &data.reward_cost.to_string());

    assert_eq!(rendered, "viewer123 использовал награду Custom Reward Name за 100 очков");
    assert!(!rendered.contains("{user}"));
    assert!(!rendered.contains("{reward}"));
    assert!(!rendered.contains("{cost}"));
}

#[test]
fn test_placeholder_replacement_unused_placeholders_remain() {
    let template = "{streamer} играет в {game}";
    let data = StreamOnlineData {
        streamer_name: "HafMC".to_string(),
        streamer_avatar: None,
        title: "Test".to_string(),
        category: "Just Chatting".to_string(),
        thumbnail_url: None,
    };

    let rendered = replace(template, "{streamer}", &data.streamer_name);
    let rendered = replace(&rendered, "{title}", &data.title);

    // {game} stays because it was not replaced.
    assert_eq!(rendered, "HafMC играет в {game}");
    assert!(!rendered.contains("{streamer}"));
    assert!(rendered.contains("{game}"));
}

#[test]
fn test_placeholder_replacement_special_characters() {
    let template = "{streamer}: {title}";
    let data = StreamOnlineData {
        streamer_name: "HafMC & Friends".to_string(),
        streamer_avatar: None,
        title: "Test <script>alert('xss')</script>".to_string(),
        category: "Just Chatting".to_string(),
        thumbnail_url: None,
    };

    let rendered = replace(template, "{streamer}", &data.streamer_name);
    let rendered = replace(&rendered, "{title}", &data.title);

    assert_eq!(rendered, "HafMC & Friends: Test <script>alert('xss')</script>");
}

fn telegram_integration(reward: bool) -> TelegramIntegration {
    TelegramIntegration {
        id: "tg1".to_string(),
        user_id: "u1".to_string(),
        telegram_chat_id: "100".to_string(),
        telegram_chat_title: None,
        telegram_chat_type: None,
        is_enabled: true,
        notify_stream_online: true,
        notify_stream_offline: false,
        notify_title_change: true,
        notify_category_change: false,
        notify_reward_redemption: reward,
        last_telegram_message_id: None,
        created_at: 0,
        updated_at: 0,
    }
}

fn discord_integration(online: bool) -> DiscordIntegration {
    DiscordIntegration {
        id: "dc1".to_string(),
        user_id: "u1".to_string(),
        discord_guild_id: "g".to_string(),
        discord_guild_name: None,
        discord_channel_id: "c".to_string(),
        discord_channel_name: None,
        discord_webhook_url: None,
        is_enabled: true,
        notify_stream_online: online,
        notify_stream_offline: true,
        notify_title_change: false,
        notify_category_change: true,
        notify_reward_redemption: false,
        calendar_sync_enabled: false,
        created_at: 0,
        updated_at: 0,
    }
}

/// Reward redemption deliveries depend on the integration's own switch only, not on the
/// user-level chat-bot switch.
#[test]
fn reward_redemption_integration_logic_independent() {
    let integration_enabled = true;
    let _user_setting_enabled = false;

    let should_send = integration_enabled;
    assert!(should_send, "Integration should send when integration setting is enabled, regardless of bot setting");
    assert_eq!(
        telegram_wants(&telegram_integration(integration_enabled), NotificationType::RewardRedemption),
        should_send
    );

    let integration_disabled = false;
    let should_not_send = integration_disabled;
    assert!(!should_not_send, "Integration should not send when integration setting is disabled");
    assert_eq!(
        telegram_wants(&telegram_integration(integration_disabled), NotificationType::RewardRedemption),
        should_not_send
    );
}

#[test]
fn reward_redemption_integration_combinations() {
    for (integration_enabled, _bot_setting_enabled) in
        [(true, true), (true, false), (false, true), (false, false)]
    {
        let should_send_integration = integration_enabled;
        assert_eq!(should_send_integration, integration_enabled);
        assert_eq!(
            telegram_wants(&telegram_integration(integration_enabled), NotificationType::RewardRedemption),
            should_send_integration
        );
    }
    // The four combinations of settings and integration switches, in order.
    assert!(telegram_wants(&telegram_integration(true), NotificationType::RewardRedemption));
    assert!(telegram_wants(&telegram_integration(true), NotificationType::RewardRedemption));
    assert!(!telegram_wants(&telegram_integration(false), NotificationType::RewardRedemption));
    assert!(!telegram_wants(&telegram_integration(false), NotificationType::RewardRedemption));
}

fn settings_with(online: &str, reward: &str) -> NotificationSettings {
    let mut s = NotificationSettings::default_at(0);
    s.stream_online_message = online.to_string();
    s.reward_redemption_message = reward.to_string();
    s
}

#[test]
fn render_fills_every_stream_online_placeholder() {
    let settings = settings_with("{streamer} {title} {category} {game} {url}", "");
    let data = StreamOnlineData {
        streamer_name: "HafMC".to_string(),
        streamer_avatar: None,
        title: "T".to_string(),
        category: "C".to_string(),
        thumbnail_url: None,
    };
    let r = render_notification_message(
        &settings,
        NotificationContent::StreamOnline(&data),
        Some("https://twitch.tv/hafmc"),
    );
    assert_eq!(r, "HafMC T C C https://twitch.tv/hafmc");
    let no_url = render_notification_message(&settings, NotificationContent::StreamOnline(&data), None);
    assert_eq!(no_url, "HafMC T C C ");
}

#[test]
fn render_reward_cost_is_decimal() {
    let settings = settings_with("", "{user}:{reward}:{cost}");
    let data = RewardRedemptionData {
        redeemer_name: "v".to_string(),
        reward_name: "R".to_string(),
        reward_cost: -5,
        user_input: Some("hi".to_string()),
        broadcaster_name: "b".to_string(),
    };
    let r = render_notification_message(&settings, NotificationContent::RewardRedemption(&data), None);
    assert_eq!(r, "v:R:-5");
}

#[test]
fn stream_url_is_twitch_channel_page() {
    assert_eq!(stream_url_for("hafmc"), "https://twitch.tv/hafmc");
}

#[test]
fn retryable_errors_by_text_and_status() {
    assert!(is_retryable_error(Some("Too Many Requests"), "telegram"));
    assert!(is_retryable_error(Some("request timed out"), "telegram"));
    assert!(!is_retryable_error(Some("chat not found"), "telegram"));
    assert!(!is_retryable_error(None, "discord"));
    assert!(is_retryable_error(Some("Discord API error (502 Bad Gateway): x"), "discord"));
    assert!(is_retryable_error(Some("Discord webhook error (503): x"), "discord"));
    assert!(!is_retryable_error(Some("Discord API error (403): forbidden"), "discord"));
    assert!(!is_retryable_error(Some("Discord API error (503): x"), "telegram"));
}

#[test]
fn backoff_doubles_until_cap() {
    assert_eq!(backoff_delay_seconds(5, 300, 0), 5);
    assert_eq!(backoff_delay_seconds(5, 300, 1), 10);
    assert_eq!(backoff_delay_seconds(5, 300, 3), 40);
    assert_eq!(backoff_delay_seconds(5, 300, 6), 300);
    assert_eq!(backoff_delay_seconds(5, 300, 60), 300);
    assert_eq!(backoff_delay_seconds(500, 300, 0), 300);
    assert_eq!(backoff_delay_seconds(0, 300, 10), 0);
}

#[test]
fn deliveries_follow_integration_switches() {
    let tg = vec![telegram_integration(true), telegram_integration(false)];
    let dc = vec![discord_integration(true), discord_integration(false)];
    let online = plan_deliveries(&tg, &dc, NotificationType::StreamOnline);
    assert_eq!(
        online,
        vec![Delivery::Telegram(0), Delivery::Telegram(1), Delivery::Discord(0)]
    );
    let reward = plan_deliveries(&tg, &dc, NotificationType::RewardRedemption);
    assert_eq!(reward, vec![Delivery::Telegram(0)]);
    assert!(discord_wants(&dc[1], NotificationType::StreamOffline));
    assert_eq!(NotificationType::from_name("title_change"), Some(NotificationType::TitleChange));
    assert_eq!(NotificationType::TitleChange.as_str(), "title_change");
}

#[test]
fn notification_kinds_round_trip_through_their_names() {
    let kinds = [
        NotificationType::StreamOnline,
        NotificationType::StreamOffline,
        NotificationType::TitleChange,
        NotificationType::CategoryChange,
        NotificationType::RewardRedemption,
    ];
    for k in kinds {
        assert_eq!(NotificationType::from_name(k.as_str()), Some(k));
    }
    assert_eq!(NotificationType::StreamOnline.as_str(), "stream_online");
    assert_eq!(NotificationType::from_name("stream"), None);
}

#[test]
fn template_without_braces_is_sent_as_written() {
    let settings = settings_with("We are live, come watch!", "Thanks (no placeholders)");
    let data = StreamOnlineData {
        streamer_name: "HafMC".to_string(),
        streamer_avatar: None,
        title: "T".to_string(),
        category: "C".to_string(),
        thumbnail_url: None,
    };
    let r = render_notification_message(&settings, NotificationContent::StreamOnline(&data), Some("u"));
    assert_eq!(r, "We are live, come watch!");
    let reward = RewardRedemptionData {
        redeemer_name: "viewer".to_string(),
        reward_name: "Hydrate".to_string(),
        reward_cost: 100,
        user_input: None,
        broadcaster_name: "HafMC".to_string(),
    };
    let r = render_notification_message(&settings, NotificationContent::RewardRedemption(&reward), None);
    assert_eq!(r, "Thanks (no placeholders)");
}
