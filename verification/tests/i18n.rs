use twitch_notifications::i18n::{is_supported_language, normalize_language, t, t_with, tr};

#[test]
fn test_tr_basic() {
    let s = tr(Some("ru"), "validation.owner_telegram_not_linked", None);
    assert!(s.contains("Telegram"));
}

#[test]
fn test_t_with_params() {
    let s = t_with(
        "messages.stream_online_default",
        &[
            ("streamer", "User"),
            ("title", "Hello"),
            ("game", "Chess"),
            ("url", "http://x"),
        ],
    );
    assert!(s.contains("User"));
    assert!(s.contains("Hello"));
}

#[test]
fn test_fallback_to_default() {
    // An unknown language falls back to the default (ru).
    let s = tr(Some("fr"), "validation.owner_telegram_not_linked", None);
    assert!(s.contains("Telegram"));
}

#[test]
fn missing_key_returns_key() {
    let k = "non.existent.key";
    let s = t(k);
    assert_eq!(s, k.to_string());
}

#[test]
fn test_is_supported_language() {
    assert!(is_supported_language("ru"));
    assert!(is_supported_language("en"));
    assert!(!is_supported_language("fr"));
}

#[test]
fn test_normalize_language() {
    assert_eq!(normalize_language("en-US"), "en");
    assert_eq!(normalize_language("ru"), "ru");
    assert_eq!(normalize_language("EN-us"), "en");
}

#[test]
fn english_table_is_used_when_asked() {
    let ru = tr(Some("ru"), "auth.logged_out", None);
    let en = tr(Some("en"), "auth.logged_out", None);
    assert_ne!(ru, en);
    assert!(!en.is_empty());
}

#[test]
fn key_missing_in_english_falls_back_to_russian() {
    // Whatever the English table lacks is taken from the default table, then the key.
    let en = tr(Some("en"), "non.existent.key", None);
    assert_eq!(en, "non.existent.key");
}

#[test]
fn empty_parameter_list_leaves_message_unchanged() {
    let plain = t("messages.stream_online_default");
    let with_none = t_with("messages.stream_online_default", &[]);
    assert_eq!(plain, with_none);
}

#[test]
fn normalize_language_is_idempotent_on_examples() {
    for tag in ["en-US", "RU", "pt-BR-x", "", "-en"] {
        let once = normalize_language(tag);
        assert_eq!(normalize_language(&once), once);
    }
    assert_eq!(normalize_language("-en"), "");
}

#[test]
fn normalized_language_has_no_dash_and_is_stable() {
    for tag in ["en-US", "pt-BR-x", "RU", "-x", "zh"] {
        let code = normalize_language(tag);
        assert!(!code.contains('-'));
        assert_eq!(normalize_language(&code), code);
    }
}

#[test]
fn normalizing_a_code_again_keeps_it() {
    let code = normalize_language("EN-gb-x");
    assert_eq!(code, "en");
    assert_eq!(normalize_language(&code), "en");
}
