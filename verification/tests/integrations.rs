use twitch_notifications::error::AppError;
use twitch_notifications::integrations::{select_discord_account_to_check, IntegrationService};
use twitch_notifications::models::{SettingsShare, User};

fn make_user_with_discord(id: &str, discord_id: Option<&str>) -> User {
    let now = 1_700_000_000_000i64;
    User {
        id: id.to_string(),
        twitch_id: "t1".to_string(),
        twitch_login: "login".to_string(),
        twitch_display_name: "display".to_string(),
        twitch_email: "e@example.com".to_string(),
        twitch_profile_image_url: "".to_string(),
        twitch_access_token: "a".to_string(),
        twitch_refresh_token: "r".to_string(),
        twitch_token_expires_at: now,
        telegram_user_id: None,
        telegram_username: None,
        telegram_photo_url: None,
        discord_user_id: discord_id.map(|s| s.to_string()),
        discord_username: discord_id.map(|s| format!("user#1234-{}", s)),
        discord_avatar_url: discord_id.map(|s| format!("https://cdn/{}.png", s)),
        lang: None,
        created_at: now,
        updated_at: now,
    }
}

#[test]
fn selects_owner_discord_when_owner_is_auth() {
    let owner = make_user_with_discord("owner", Some("owner_disc"));
    // The acting user is the owner.
    let auth_user = owner.clone();

    let res = select_discord_account_to_check(&owner.id, &auth_user, &owner);
    assert!(res.is_ok());
    assert_eq!(res.unwrap(), "owner_disc".to_string());
}

#[test]
fn selects_auth_discord_when_creating_on_behalf() {
    let owner = make_user_with_discord("owner", None);
    let auth_user = make_user_with_discord("grantee", Some("grantee_disc"));

    let res = select_discord_account_to_check(&owner.id, &auth_user, &owner);
    assert!(res.is_ok());
    assert_eq!(res.unwrap(), "grantee_disc".to_string());
}

#[test]
fn returns_error_when_selected_account_not_linked() {
    let owner = make_user_with_discord("owner", None);
    // The acting user has no Discord account either.
    let auth_user = make_user_with_discord("owner", None);

    let res = select_discord_account_to_check(&owner.id, &auth_user, &owner);
    match res {
        Err(AppError::BadRequest(msg)) => {
            assert!(!msg.is_empty());
        }
        other => panic!("expected BadRequest, got: {:?}", other),
    }
}

#[test]
fn method_form_selects_same_account() {
    let owner = make_user_with_discord("owner", Some("o"));
    let grantee = make_user_with_discord("g", Some("gd"));
    assert_eq!(
        IntegrationService::select_discord_account_to_check(&owner.id, &grantee, &owner).unwrap(),
        "gd"
    );
}

fn share(can_manage: bool) -> SettingsShare {
    SettingsShare {
        id: "s".to_string(),
        owner_user_id: "owner".to_string(),
        grantee_user_id: "g".to_string(),
        can_manage,
        created_at: 0,
        updated_at: 0,
    }
}

#[test]
fn access_needs_share_and_manage_right() {
    assert!(IntegrationService::check_access("owner", "owner", None, true));
    assert!(!IntegrationService::check_access("owner", "g", None, false));
    assert!(IntegrationService::check_access("owner", "g", Some(&share(false)), false));
    assert!(!IntegrationService::check_access("owner", "g", Some(&share(false)), true));
    assert!(IntegrationService::check_access("owner", "g", Some(&share(true)), true));
}

#[test]
fn telegram_chat_ids_by_kind() {
    assert!(IntegrationService::validate_telegram_chat_id("-123", Some("group")).is_ok());
    assert!(IntegrationService::validate_telegram_chat_id(" -123 ", Some("group")).is_ok());
    assert!(matches!(
        IntegrationService::validate_telegram_chat_id("123", Some("group")),
        Err(AppError::Validation(_))
    ));
    assert!(IntegrationService::validate_telegram_chat_id("-", Some("group")).is_err());
    assert!(IntegrationService::validate_telegram_chat_id("-1001", Some("supergroup")).is_ok());
    assert!(IntegrationService::validate_telegram_chat_id("-100", Some("channel")).is_err());
    assert!(IntegrationService::validate_telegram_chat_id("-12a", Some("group")).is_err());
    assert!(IntegrationService::validate_telegram_chat_id("anything", Some("private")).is_ok());
    assert!(IntegrationService::validate_telegram_chat_id("anything", None).is_ok());
}
