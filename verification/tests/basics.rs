use twitch_notifications::chat_type::ChatType;
use twitch_notifications::error::AppError;
use twitch_notifications::numbers::{parse_i64, parse_u16, parse_u32, parse_u64};

#[test]
fn chat_type_names_round_trip() {
    for c in [ChatType::Private, ChatType::Group, ChatType::Supergroup, ChatType::Channel] {
        assert_eq!(ChatType::from_str(c.as_str()), Some(c));
        assert_eq!(ChatType::try_from_str(&c.to_name()), Ok(c));
    }
    assert_eq!(ChatType::from_str("SuperGroup"), Some(ChatType::Supergroup));
    assert_eq!(ChatType::from_str("dm"), None);
    assert_eq!(ChatType::try_from_str("dm"), Err("Invalid chat type: dm".to_string()));
}

#[test]
fn every_error_has_status_code_and_message() {
    let cases = vec![
        (AppError::Unauthorized, 401, "UNAUTHORIZED", "Authentication required"),
        (AppError::Forbidden, 403, "FORBIDDEN", "Access denied"),
        (AppError::NotFound("x".into()), 404, "NOT_FOUND", "x"),
        (AppError::BadRequest("x".into()), 400, "BAD_REQUEST", "x"),
        (AppError::Conflict("x".into()), 409, "CONFLICT", "x"),
        (AppError::RateLimited, 429, "RATE_LIMITED", "Rate limit exceeded"),
        (AppError::Internal("x".into()), 500, "INTERNAL_ERROR", "An internal error occurred"),
        (AppError::Database("x".into()), 500, "DATABASE_ERROR", "A database error occurred"),
        (AppError::Jwt("x".into()), 401, "INVALID_TOKEN", "Invalid or expired token"),
        (
            AppError::Request("x".into()),
            502,
            "EXTERNAL_REQUEST_FAILED",
            "Failed to communicate with external service",
        ),
        (AppError::TwitchApi("x".into()), 502, "TWITCH_API_ERROR", "x"),
        (AppError::Telegram("x".into()), 502, "TELEGRAM_ERROR", "x"),
        (AppError::Discord("x".into()), 502, "DISCORD_ERROR", "x"),
        (AppError::Config("x".into()), 500, "CONFIG_ERROR", "Server configuration error"),
        (AppError::Validation("x".into()), 422, "VALIDATION_ERROR", "x"),
        (AppError::ServiceUnavailable("x".into()), 503, "SERVICE_UNAVAILABLE", "x"),
    ];
    for (e, status, code, public) in cases {
        assert_eq!(e.status_code(), status);
        assert_eq!(e.code(), code);
        assert_eq!(e.public_message(), public);
        assert_eq!(e.response_parts(), (status, code.to_string(), public.to_string()));
    }
    assert_eq!(AppError::NotFound("user".into()).message(), "Resource not found: user");
    assert_eq!(AppError::Internal("boom".into()).message(), "Internal server error");
    assert_eq!(AppError::Validation("v".into()).message(), "Validation error: v");
}

#[test]
fn details_keep_client_errors_and_hide_others() {
    let d = AppError::Forbidden.with_details(serde_json::Value::Null);
    assert_eq!(d.response_parts(), (403, "FORBIDDEN".to_string(), "Access denied".to_string()));
    let d = AppError::Database("secret".into()).with_details(serde_json::Value::Null);
    let (status, code, _) = d.response_parts();
    assert_eq!(status, 500);
    assert_eq!(code, "INTERNAL_ERROR");
}

#[test]
fn numbers_parse_like_str_parse() {
    assert_eq!(parse_u16("65535"), Some(65535));
    assert_eq!(parse_u16("65536"), None);
    assert_eq!(parse_u16("+8"), Some(8));
    assert_eq!(parse_u16(""), None);
    assert_eq!(parse_u16(" 8"), None);
    assert_eq!(parse_u32("4294967295"), Some(u32::MAX));
    assert_eq!(parse_u64("18446744073709551615"), Some(u64::MAX));
    assert_eq!(parse_i64("-9223372036854775808"), Some(i64::MIN));
    assert_eq!(parse_i64("9223372036854775808"), None);
    assert_eq!(parse_i64("-"), None);
    assert_eq!(parse_i64("-0"), Some(0));
}
