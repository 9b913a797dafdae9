use twitch_notifications::error::AppError;
use twitch_notifications::models::{NotificationLog, NotificationSettings, SettingsShare, User};
use twitch_notifications::routes::auth::{
    discord_authorize_url, discord_client, photo_content_type, photo_extensions,
    photo_refresh_error, AuthUser, CallbackQuery, LoginQuery, TelegramLoginRequest,
    UpdateMeRequest, UserResponse,
};
use twitch_notifications::routes::integrations::{
    channel_response, channel_responses, discord_invite, guild_responses, linked_discord_account,
    shared_guild_responses, test_discord_message, test_notification_outcome, test_telegram_text,
    CreateDiscordRequest, DiscordCreateRefusal, OwnerQuery, UpdateDiscordRequest,
    UpdateTelegramRequest,
};
use twitch_notifications::routes::notifications::{
    total_pages, ListNotificationsQuery, NotificationResponse, NotificationsListResponse,
};
use twitch_notifications::routes::settings::{
    CreateShareRequest, MessagesResponse, SharedUserResponse, UpdateMessagesRequest,
    UpdateSettingsRequest,
};
use twitch_notifications::routes::users::{SearchQuery, UserResponse as SearchUserResponse};
use twitch_notifications::discord::{DiscordChannel, DiscordGuild, DiscordOutgoing, COLOR_SUCCESS};
use twitch_notifications::i18n::{t, tr};

fn user(id: &str, image: &str) -> User {
    User {
        id: id.to_string(),
        twitch_id: "tw".to_string(),
        twitch_login: "login".to_string(),
        twitch_display_name: "Display".to_string(),
        twitch_email: "e@x".to_string(),
        twitch_profile_image_url: image.to_string(),
        twitch_access_token: "a".to_string(),
        twitch_refresh_token: "r".to_string(),
        twitch_token_expires_at: 0,
        telegram_user_id: Some("42".to_string()),
        telegram_username: Some("tg".to_string()),
        telegram_photo_url: None,
        discord_user_id: None,
        discord_username: None,
        discord_avatar_url: None,
        lang: Some("en".to_string()),
        created_at: 1,
        updated_at: 2,
    }
}

#[test]
fn login_query_drops_empty_target_and_unknown_language() {
    let q = LoginQuery { redirect_to: Some(String::new()), lang: Some("EN-us".to_string()) };
    assert_eq!(q.sign_in_params(), (None, Some("en".to_string())));
    let q = LoginQuery { redirect_to: Some("/x".to_string()), lang: Some("fr".to_string()) };
    assert_eq!(q.sign_in_params(), (Some("/x".to_string()), None));
    let q = LoginQuery { redirect_to: None, lang: Some(String::new()) };
    assert_eq!(q.sign_in_params(), (None, None));
}

#[test]
fn callback_query_checks_in_order() {
    let q = CallbackQuery {
        code: Some("c".to_string()),
        state: Some("s".to_string()),
        error: Some("access_denied".to_string()),
        error_description: Some("denied".to_string()),
    };
    assert_eq!(q.code_and_state(), Err(AppError::BadRequest("OAuth error: denied".to_string())));
    let q = CallbackQuery { code: None, state: None, error: Some("e".to_string()), error_description: None };
    assert_eq!(q.code_and_state(), Err(AppError::BadRequest("OAuth error: ".to_string())));
    let q = CallbackQuery { code: None, state: Some("s".to_string()), error: None, error_description: None };
    assert_eq!(
        q.code_and_state(),
        Err(AppError::BadRequest("Missing authorization code".to_string()))
    );
    let q = CallbackQuery { code: Some("c".to_string()), state: None, error: None, error_description: None };
    assert_eq!(q.code_and_state(), Err(AppError::BadRequest("Missing state parameter".to_string())));
    let q = CallbackQuery {
        code: Some("c".to_string()),
        state: Some("s".to_string()),
        error: None,
        error_description: None,
    };
    assert_eq!(q.code_and_state(), Ok(("c".to_string(), "s".to_string())));
}

#[test]
fn profile_without_image_has_none() {
    let r = UserResponse::from_user(user("u", ""));
    assert_eq!(r.twitch_profile_image_url, None);
    assert_eq!(r.lang, Some("en".to_string()));
    let r = UserResponse::from_user(user("u", "https://img"));
    assert_eq!(r.twitch_profile_image_url, Some("https://img".to_string()));
    // Search results keep the stored image, empty or not.
    let s: SearchUserResponse = user("u", "").into();
    assert_eq!(s.twitch_profile_image_url, Some(String::new()));
}

#[test]
fn telegram_payload_in_widget_order() {
    let req = TelegramLoginRequest {
        id: "42".to_string(),
        first_name: Some("A".to_string()),
        last_name: None,
        username: Some("u".to_string()),
        photo_url: None,
        auth_date: 1700000000,
        hash: "h".to_string(),
    };
    let p = req.payload();
    let keys: Vec<&str> = p.iter().map(|(k, _)| k.as_str()).collect();
    assert_eq!(keys, vec!["id", "first_name", "username", "auth_date", "hash"]);
    assert_eq!(p[3].1, "1700000000");
    assert!(req.already_linked(&user("u", "")));
    let other = TelegramLoginRequest { id: "7".to_string(), ..req };
    assert!(!other.already_linked(&user("u", "")));
}

#[test]
fn update_me_language() {
    assert_eq!(UpdateMeRequest { lang: None }.language_to_set(), Ok(None));
    assert_eq!(
        UpdateMeRequest { lang: Some("RU-ru".to_string()) }.language_to_set(),
        Ok(Some("ru".to_string()))
    );
    match (UpdateMeRequest { lang: Some("de".to_string()) }).language_to_set() {
        Err(AppError::BadRequest(m)) => {
            assert_eq!(
                m,
                twitch_notifications::i18n::t_with("error.unsupported_language", &[("lang", "de")])
            )
        }
        other => panic!("unexpected {:?}", other),
    }
}

#[test]
fn bearer_tokens() {
    assert_eq!(AuthUser::bearer_token(Some("Bearer abc")), Ok("abc".to_string()));
    assert_eq!(AuthUser::bearer_token(Some("bEaReR   abc  ")), Ok("abc".to_string()));
    assert_eq!(AuthUser::bearer_token(Some("Bearer    ")), Err(AppError::Unauthorized));
    assert_eq!(AuthUser::bearer_token(Some("Basic abc")), Err(AppError::Unauthorized));
    assert_eq!(AuthUser::bearer_token(Some("Bearer")), Err(AppError::Unauthorized));
    assert_eq!(AuthUser::bearer_token(None), Err(AppError::Unauthorized));
}

#[test]
fn discord_link_address() {
    assert_eq!(
        discord_client(None),
        Err(AppError::ServiceUnavailable("Discord OAuth not configured".to_string()))
    );
    assert_eq!(discord_client(Some("id")), Ok("id".to_string()));
    let url = discord_authorize_url("123", "https://host/", "a b");
    assert_eq!(
        url,
        "https://discord.com/api/oauth2/authorize?client_id=123&redirect_uri=https%3A%2F%2Fhost%2Fapi%2Fauth%2Fdiscord%2Fcallback&response_type=code&scope=identify&state=a%20b"
    );
}

#[test]
fn photo_refresh_errors_and_types() {
    assert!(matches!(photo_refresh_error(true, true), AppError::ServiceUnavailable(_)));
    assert_eq!(
        photo_refresh_error(false, false),
        AppError::BadRequest(t("error.refresh_telegram_photo.download_failed"))
    );
    assert_eq!(
        photo_refresh_error(true, false),
        AppError::NotFound(t("error.refresh_telegram_photo.not_found"))
    );
    assert_eq!(photo_extensions(), vec!["jpg", "jpeg", "png", "webp"]);
    assert_eq!(photo_content_type("jpeg"), "image/jpeg");
    assert_eq!(photo_content_type("webp"), "image/webp");
    assert_eq!(photo_content_type("gif"), "application/octet-stream");
}

#[test]
fn integration_requests_map_fields() {
    let u = UpdateTelegramRequest {
        telegram_chat_title: Some("T".to_string()),
        is_enabled: Some(false),
        notify_stream_online: None,
        notify_stream_offline: Some(true),
        notify_title_change: None,
        notify_category_change: None,
        notify_reward_redemption: Some(true),
    }
    .into_update();
    assert_eq!(u.telegram_chat_title, Some("T".to_string()));
    assert_eq!(u.is_enabled, Some(false));
    assert_eq!(u.notify_reward_redemption, Some(true));
    let c = CreateDiscordRequest {
        discord_guild_id: "g".to_string(),
        discord_guild_name: None,
        discord_channel_id: "c".to_string(),
        discord_channel_name: Some("general".to_string()),
        discord_webhook_url: None,
    }
    .into_create();
    assert_eq!(c.discord_channel_name, Some("general".to_string()));
    let d = UpdateDiscordRequest {
        discord_channel_id: None,
        discord_channel_name: None,
        discord_webhook_url: None,
        is_enabled: None,
        notify_stream_online: None,
        notify_stream_offline: None,
        notify_title_change: None,
        notify_category_change: None,
        notify_reward_redemption: None,
        calendar_sync_enabled: Some(true),
    };
    assert!(d.switches_calendar_sync_on(false));
    assert!(!d.switches_calendar_sync_on(true));
    assert_eq!(d.clone().into_update().calendar_sync_enabled, Some(true));
    assert_eq!(OwnerQuery { user_id: None }.owner_id("me"), "me");
    assert_eq!(OwnerQuery { user_id: Some("o".to_string()) }.owner_id("me"), "o");
}

fn channel(id: &str, name: Option<&str>, kind: u8) -> DiscordChannel {
    DiscordChannel { id: id.to_string(), name: name.map(|n| n.to_string()), channel_type: kind, guild_id: None }
}

#[test]
fn offered_channels_are_named_text_or_news() {
    let list = vec![
        channel("1", Some("general"), 0),
        channel("2", Some("voice"), 2),
        channel("3", None, 0),
        channel("4", Some("news"), 5),
    ];
    let r = channel_responses(&list);
    let ids: Vec<&str> = r.iter().map(|c| c.id.as_str()).collect();
    assert_eq!(ids, vec!["1", "4"]);
    assert_eq!(
        channel_response(channel("2", Some("voice"), 2)),
        Err(AppError::BadRequest("Channel is not a text or news channel".to_string()))
    );
    assert_eq!(
        channel_response(channel("3", None, 5)),
        Err(AppError::BadRequest("Channel has no name".to_string()))
    );
    assert_eq!(channel_response(channel("1", Some("general"), 0)).unwrap().name, "general");
}

#[test]
fn guilds_and_shared_guilds() {
    let guilds = vec![
        DiscordGuild { id: "a".to_string(), name: "A".to_string(), icon: None },
        DiscordGuild { id: "b".to_string(), name: "B".to_string(), icon: Some("i".to_string()) },
    ];
    let all = guild_responses(guilds.clone());
    assert_eq!(all.len(), 2);
    assert_eq!(all[1].icon, Some("i".to_string()));
    let shared = shared_guild_responses(&guilds, &vec![false, true]);
    assert_eq!(shared.len(), 1);
    assert_eq!(shared[0].id, "b");
    assert_eq!(
        linked_discord_account(&user("u", "")),
        Err(AppError::BadRequest("Discord not linked".to_string()))
    );
}

#[test]
fn bot_invite() {
    assert_eq!(
        discord_invite(None),
        Err(AppError::ServiceUnavailable("Discord client ID not configured".to_string()))
    );
    let inv = discord_invite(Some("99")).unwrap();
    assert_eq!(
        inv.invite_url,
        "https://discord.com/oauth2/authorize?client_id=99&permissions=543744&scope=bot%20applications.commands"
    );
    assert_eq!(inv.permissions, 543744);
    assert_eq!(inv.scopes, vec!["bot".to_string(), "applications.commands".to_string()]);
}

#[test]
fn test_notifications_text_and_outcome() {
    let text = test_telegram_text(Some("en"));
    assert_eq!(
        text,
        format!(
            "<b>{}</b>\n\n{}",
            tr(Some("en"), "messages.test_notification_title", None),
            tr(Some("en"), "messages.test_notification_body", None)
        )
    );
    let ok = test_notification_outcome(None, None);
    assert!(ok.success);
    assert_eq!(ok.message, t("test_notification.success"));
    let bad = test_notification_outcome(Some("en"), Some("boom"));
    assert!(!bad.success);
    assert_eq!(
        bad.message,
        tr(Some("en"), "test_notification.failure", Some(&[("err", "boom")]))
    );
    match test_discord_message(None, Some("https://hook"), "c", "2024-01-01T00:00:00Z") {
        DiscordOutgoing::Webhook { webhook_url, webhook_message } => {
            assert_eq!(webhook_url, "https://hook");
            assert_eq!(webhook_message.username, Some(t("app.name")));
            let e = &webhook_message.embeds.unwrap()[0];
            assert_eq!(e.color, Some(COLOR_SUCCESS));
            assert_eq!(e.timestamp, Some("2024-01-01T00:00:00Z".to_string()));
        }
        other => panic!("unexpected {:?}", other),
    }
    assert!(matches!(
        test_discord_message(None, None, "c", "t"),
        DiscordOutgoing::Channel { .. }
    ));
    assert_eq!(DiscordCreateRefusal::NoShareManage.reason(), "no_share_manage");
    assert_eq!(
        DiscordCreateRefusal::InsufficientPermissions.message(),
        t("errors.insufficient_permissions")
    );
}

#[test]
fn history_paging() {
    let q = ListNotificationsQuery {
        page: None,
        per_page: None,
        notification_type: None,
        destination_type: None,
        status: None,
    };
    assert_eq!(q.paging(), (1, 20, 0));
    let q = ListNotificationsQuery { page: Some(-3), per_page: Some(500), ..q };
    assert_eq!(q.paging(), (1, 100, 0));
    let q = ListNotificationsQuery { page: Some(3), per_page: Some(0), ..q };
    assert_eq!(q.paging(), (3, 1, 2));
    assert_eq!(total_pages(0, 20), 0);
    assert_eq!(total_pages(20, 20), 1);
    assert_eq!(total_pages(21, 20), 2);
    let log = NotificationLog {
        id: "n".to_string(),
        user_id: "u".to_string(),
        notification_type: "stream_online".to_string(),
        destination_type: "telegram".to_string(),
        destination_id: "1".to_string(),
        content: "c".to_string(),
        status: "sent".to_string(),
        error_message: None,
        created_at: 5,
    };
    let page = NotificationsListResponse::page_of(&vec![log.clone()], 41, 2, 20);
    assert_eq!(page.total_pages, 3);
    assert_eq!(page.items[0], NotificationResponse::from(log));
}

#[test]
fn settings_requests() {
    let s = NotificationSettings::default_at(7);
    let m = MessagesResponse::of_settings(s.clone());
    assert_eq!(m.stream_online_message, s.stream_online_message);
    assert_eq!(m.placeholders.stream.len(), 4);
    let u = UpdateMessagesRequest {
        stream_online_message: Some("Hi {{streamer}}".to_string()),
        stream_offline_message: None,
        stream_title_change_message: None,
        stream_category_change_message: None,
        reward_redemption_message: None,
    }
    .into_update()
    .unwrap();
    assert_eq!(u.stream_online_message, Some("Hi {streamer}".to_string()));
    assert_eq!(u.notify_reward_redemption, None);
    let bad = UpdateMessagesRequest {
        stream_online_message: None,
        stream_offline_message: Some(String::new()),
        stream_title_change_message: Some(String::new()),
        stream_category_change_message: None,
        reward_redemption_message: None,
    }
    .into_update();
    assert_eq!(
        bad,
        Err(AppError::Validation("stream_offline message cannot be empty".to_string()))
    );
    let upd = UpdateSettingsRequest {
        notify_stream_online: Some(true),
        notify_stream_offline: None,
        notify_title_change: None,
        notify_category_change: None,
        notify_reward_redemption: Some(false),
    }
    .into_update();
    assert_eq!(upd.notify_reward_redemption, Some(false));
    assert_eq!(upd.stream_online_message, None);
}

#[test]
fn sharing_rules() {
    let req = CreateShareRequest { twitch_login: "g".to_string(), can_manage: None };
    assert_eq!(
        req.checked_right("me", &user("me", ""), false),
        Err(AppError::Validation("Cannot share settings with yourself".to_string()))
    );
    assert_eq!(
        req.checked_right("me", &user("g", ""), true),
        Err(AppError::Conflict("Share already exists".to_string()))
    );
    assert_eq!(req.checked_right("me", &user("g", ""), false), Ok(false));
    let req = CreateShareRequest { twitch_login: "g".to_string(), can_manage: Some(true) };
    assert_eq!(req.checked_right("me", &user("g", ""), false), Ok(true));
    let share = SettingsShare {
        id: "s".to_string(),
        owner_user_id: "me".to_string(),
        grantee_user_id: "g".to_string(),
        can_manage: true,
        created_at: 1,
        updated_at: 2,
    };
    let r = SharedUserResponse::of_share(share, "login".to_string(), "Name".to_string());
    assert_eq!(r.grantee_user_id, "g");
    assert!(r.can_manage);
}

#[test]
fn user_search_parameters() {
    let q = SearchQuery { q: Some("  a ".to_string()), limit: None };
    assert_eq!(q.search_params(), None);
    let q = SearchQuery { q: Some(" ab ".to_string()), limit: Some(500) };
    assert_eq!(q.search_params(), Some(("ab".to_string(), 50)));
    let q = SearchQuery { q: Some("я".to_string()), limit: None };
    assert_eq!(q.search_params(), Some(("я".to_string(), 10)));
    assert_eq!(SearchQuery { q: None, limit: Some(3) }.search_params(), None);
}
