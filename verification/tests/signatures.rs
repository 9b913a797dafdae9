use hmac::{Hmac, Mac};
use sha2::{Digest, Sha256};
use twitch_notifications::error::AppError;
use twitch_notifications::routes::auth::TelegramLoginRequest;
use twitch_notifications::telegram::verify_telegram_login_payload;
use twitch_notifications::webhooks::verify_signature;

fn hmac_hex(key: &[u8], msg: &[u8]) -> String {
    let mut mac = Hmac::<Sha256>::new_from_slice(key).unwrap();
    mac.update(msg);
    hex::encode(mac.finalize().into_bytes())
}

fn signed_login(bot_token: &str, auth_date: i64) -> Vec<(String, String)> {
    let fields = vec![
        ("id".to_string(), "42".to_string()),
        ("username".to_string(), "neo".to_string()),
        ("auth_date".to_string(), auth_date.to_string()),
        ("first_name".to_string(), "Thomas".to_string()),
    ];
    let mut sorted = fields.clone();
    sorted.sort();
    let data: Vec<String> = sorted.iter().map(|(k, v)| format!("{}={}", k, v)).collect();
    let secret = Sha256::digest(bot_token.as_bytes());
    let hash = hmac_hex(&secret, data.join("\n").as_bytes());
    let mut p = fields;
    p.push(("hash".to_string(), hash));
    p
}

#[test]
fn genuine_telegram_login_is_accepted() {
    let now = 1_700_000_000;
    let p = signed_login("123:ABC", now - 60);
    let info = verify_telegram_login_payload(&p, "123:ABC", now).unwrap();
    assert_eq!(info.id, "42");
    assert_eq!(info.username, Some("neo".to_string()));
    assert_eq!(info.photo_url, None);
}

#[test]
fn telegram_login_verdict_ignores_entry_order() {
    let now = 1_700_000_000;
    let mut p = signed_login("123:ABC", now);
    p.reverse();
    assert!(verify_telegram_login_payload(&p, "123:ABC", now).is_ok());
}

#[test]
fn telegram_login_refusals() {
    let now = 1_700_000_000;
    let p = signed_login("123:ABC", now);
    assert_eq!(
        verify_telegram_login_payload(&p, "other-token", now),
        Err(AppError::BadRequest("Invalid Telegram login data".to_string()))
    );
    let old = signed_login("123:ABC", now - 86401);
    assert_eq!(
        verify_telegram_login_payload(&old, "123:ABC", now),
        Err(AppError::BadRequest("Telegram login data is too old".to_string()))
    );
    let edge = signed_login("123:ABC", now - 86400);
    assert!(verify_telegram_login_payload(&edge, "123:ABC", now).is_ok());
    let mut no_hash = p.clone();
    no_hash.retain(|(k, _)| k != "hash");
    assert_eq!(
        verify_telegram_login_payload(&no_hash, "123:ABC", now),
        Err(AppError::BadRequest("Missing hash in Telegram login payload".to_string()))
    );
}

#[test]
fn widget_request_payload_verifies() {
    let now = 1_700_000_000i64;
    let signed = signed_login("t", now);
    let hash = signed.iter().find(|(k, _)| k == "hash").unwrap().1.clone();
    let req = TelegramLoginRequest {
        id: "42".to_string(),
        first_name: Some("Thomas".to_string()),
        last_name: None,
        username: Some("neo".to_string()),
        photo_url: None,
        auth_date: now,
        hash,
    };
    assert!(verify_telegram_login_payload(&req.payload(), "t", now).is_ok());
}

fn twitch_signature(secret: &str, id: &str, ts: &str, body: &[u8]) -> String {
    let mut msg = Vec::new();
    msg.extend_from_slice(id.as_bytes());
    msg.extend_from_slice(ts.as_bytes());
    msg.extend_from_slice(body);
    format!("sha256={}", hmac_hex(secret.as_bytes(), &msg))
}

// 2024-01-01T00:00:00Z in milliseconds.
const T0: i64 = 1_704_067_200_000;

#[test]
fn webhook_signature_accepted_when_genuine_and_recent() {
    let sig = twitch_signature("s3cret", "m1", "2024-01-01T00:00:00Z", b"{}");
    assert_eq!(verify_signature("s3cret", "m1", "2024-01-01T00:00:00Z", b"{}", &sig, T0 + 60_000), Ok(()));
    // Exactly ten minutes away is still accepted; the parsed offset counts.
    let sig = twitch_signature("s3cret", "m1", "2024-01-01T01:00:00+01:00", b"{}");
    assert_eq!(
        verify_signature("s3cret", "m1", "2024-01-01T01:00:00+01:00", b"{}", &sig, T0 + 600_000),
        Ok(())
    );
}

#[test]
fn webhook_signature_refusals() {
    let sig = twitch_signature("s3cret", "m1", "2024-01-01T00:00:00Z", b"{}");
    assert_eq!(
        verify_signature("other", "m1", "2024-01-01T00:00:00Z", b"{}", &sig, T0),
        Err(AppError::Unauthorized)
    );
    assert_eq!(
        verify_signature("s3cret", "m1", "2024-01-01T00:00:00Z", b"{}", "md5=00", T0),
        Err(AppError::BadRequest("Invalid signature format".to_string()))
    );
    assert_eq!(
        verify_signature("s3cret", "m1", "2024-01-01T00:00:00Z", b"{}", "sha256=zz", T0),
        Err(AppError::BadRequest("Invalid signature format".to_string()))
    );
    assert_eq!(
        verify_signature("s3cret", "m1", "2024-01-01T00:00:00Z", b"{}", &sig, T0 + 11 * 60_000),
        Err(AppError::BadRequest("Message too old".to_string()))
    );
    // A timestamp that does not parse is not checked for age.
    let sig = twitch_signature("s3cret", "m1", "yesterday", b"{}");
    assert_eq!(verify_signature("s3cret", "m1", "yesterday", b"{}", &sig, T0), Ok(()));
}
