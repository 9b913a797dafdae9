use twitch_notifications::auth::AuthService;
use twitch_notifications::error::AppError;
use twitch_notifications::jwt::{
    discord_state_from_claims, oauth_state_from_claims, session_from_claims, ClaimValue,
};

fn jwt_message(e: AppError) -> String {
    match e {
        AppError::Jwt(m) => m,
        other => panic!("expected a token error, got {:?}", other),
    }
}

#[test]
fn session_token_round_trip() {
    let token = AuthService::create_jwt("user-7", "secret", 1_700_000_000, 24);
    assert_eq!(token.split('.').count(), 3);
    let c = AuthService::decode_jwt(&token, "secret", 1_700_000_100).unwrap();
    assert_eq!(c.sub, "user-7");
    assert_eq!(c.iat, 1_700_000_000);
    assert_eq!(c.exp, 1_700_000_000 + 24 * 3600);
}

#[test]
fn session_token_with_another_secret_is_refused() {
    let token = AuthService::create_jwt("user-7", "secret", 1_700_000_000, 24);
    let e = AuthService::decode_jwt(&token, "other", 1_700_000_100).unwrap_err();
    assert_eq!(jwt_message(e), "InvalidSignature");
    assert!(AuthService::decode_jwt("not-a-token", "secret", 0).is_err());
}

#[test]
fn session_token_expiry_allows_a_minute() {
    let token = AuthService::create_jwt("u", "s", 1000, 1);
    let exp: i64 = 1000 + 3600;
    assert!(AuthService::decode_jwt(&token, "s", exp + 60).is_ok());
    let e = AuthService::decode_jwt(&token, "s", exp + 61).unwrap_err();
    assert_eq!(jwt_message(e), "ExpiredSignature");
}

#[test]
fn oauth_state_round_trip() {
    let token = AuthService::generate_oauth_state(Some("/settings".into()), None, "k", 5000);
    let s = AuthService::decode_oauth_state(&token, "k", 5300).unwrap();
    assert_eq!(s.csrf_token.len(), 32);
    assert_eq!(s.redirect_to.as_deref(), Some("/settings"));
    assert_eq!(s.lang, None);
    assert_eq!((s.iat, s.exp), (5000, 5600));
    let e = AuthService::decode_oauth_state(&token, "k", 5661).unwrap_err();
    assert_eq!(jwt_message(e), "ExpiredSignature");
}

#[test]
fn discord_state_round_trip() {
    let token = AuthService::generate_discord_oauth_state("user-1".into(), None, "k", 10);
    let s = AuthService::decode_discord_oauth_state(&token, "k", 20).unwrap();
    assert_eq!(s.user_id, "user-1");
    assert_eq!(s.csrf_token.len(), 32);
    assert_eq!(s.redirect_to, None);
    assert_eq!((s.iat, s.exp), (10, 610));
    // A session token is not a Discord state: it has no CSRF token.
    let session = AuthService::create_jwt("user-1", "k", 10, 1);
    let e = AuthService::decode_discord_oauth_state(&session, "k", 20).unwrap_err();
    assert_eq!(jwt_message(e), "InvalidToken");
}

#[test]
fn claims_are_read_by_name_and_type() {
    let entries = vec![
        ("exp".to_string(), ClaimValue::Number(Some(200))),
        ("iat".to_string(), ClaimValue::Number(Some(100))),
        ("sub".to_string(), ClaimValue::Text("abc".into())),
    ];
    let c = session_from_claims(&entries, 150).unwrap();
    assert_eq!((c.sub.as_str(), c.iat, c.exp), ("abc", 100, 200));
    assert_eq!(jwt_message(session_from_claims(&entries, 261).unwrap_err()), "ExpiredSignature");
    let wrong = vec![
        ("exp".to_string(), ClaimValue::Number(Some(200))),
        ("iat".to_string(), ClaimValue::Number(None)),
        ("sub".to_string(), ClaimValue::Text("abc".into())),
    ];
    assert_eq!(jwt_message(session_from_claims(&wrong, 0).unwrap_err()), "InvalidToken");
    let state = vec![
        ("csrf_token".to_string(), ClaimValue::Text("c".into())),
        ("exp".to_string(), ClaimValue::Number(Some(700))),
        ("iat".to_string(), ClaimValue::Number(Some(100))),
        ("lang".to_string(), ClaimValue::Null),
        ("redirect_to".to_string(), ClaimValue::Other),
    ];
    assert_eq!(jwt_message(oauth_state_from_claims(&state, 0).unwrap_err()), "InvalidToken");
    let discord = vec![
        ("csrf_token".to_string(), ClaimValue::Text("c".into())),
        ("exp".to_string(), ClaimValue::Number(Some(700))),
        ("iat".to_string(), ClaimValue::Number(Some(100))),
        ("user_id".to_string(), ClaimValue::Text("u".into())),
    ];
    let d = discord_state_from_claims(&discord, 0).unwrap();
    assert_eq!((d.user_id.as_str(), d.redirect_to, d.exp), ("u", None, 700));
}
