use twitch_notifications::settings::{get_placeholders_info, normalize_placeholders, validate_message};
use twitch_notifications::error::AppError;

#[test]
fn normalize_placeholders_basic() {
    assert_eq!(normalize_placeholders("Hello {{streamer}}!"), "Hello {streamer}!");
    assert_eq!(normalize_placeholders("{{title}} — {{game}}"), "{title} — {game}");
    assert_eq!(normalize_placeholders("No placeholders here"), "No placeholders here");
}

#[test]
fn normalize_placeholders_edgecases() {
    // Triple braces collapse by one level.
    assert_eq!(normalize_placeholders("Weird {{{streamer}}}"), "Weird {{streamer}}");
    // Unmatched braces are preserved.
    assert_eq!(normalize_placeholders("Broken {{streamer"), "Broken {{streamer");
}

#[test]
fn normalize_placeholders_empty_inner_and_single_braces() {
    assert_eq!(normalize_placeholders("{{}}"), "{}");
    assert_eq!(normalize_placeholders("{streamer}"), "{streamer}");
    assert_eq!(normalize_placeholders(""), "");
    assert_eq!(normalize_placeholders("a}}b{{c}}"), "a}}b{c}");
}

#[test]
fn validate_message_refuses_empty_and_long() {
    match validate_message("", "stream_online") {
        Err(AppError::Validation(m)) => assert_eq!(m, "stream_online message cannot be empty"),
        other => panic!("unexpected {:?}", other),
    }
    let long = "x".repeat(4097);
    match validate_message(&long, "stream_offline") {
        Err(AppError::Validation(m)) => {
            assert_eq!(m, "stream_offline message cannot exceed 4096 characters")
        }
        other => panic!("unexpected {:?}", other),
    }
    assert!(validate_message(&"x".repeat(4096), "stream_offline").is_ok());
    // 2049 two-byte characters are 4098 bytes: refused.
    assert!(validate_message(&"я".repeat(2049), "reward_redemption").is_err());
}

#[test]
fn placeholders_info_lists_stream_and_reward_names() {
    let p = get_placeholders_info();
    let stream: Vec<&str> = p.stream.iter().map(|x| x.name.as_str()).collect();
    let reward: Vec<&str> = p.reward.iter().map(|x| x.name.as_str()).collect();
    assert_eq!(stream, vec!["{streamer}", "{title}", "{game}", "{url}"]);
    assert_eq!(reward, vec!["{user}", "{reward}"]);
    assert_eq!(p.stream[3].example, "https://twitch.tv/xqc");
}

#[test]
fn doubled_braces_lose_two_characters_each() {
    assert_eq!(normalize_placeholders("{{streamer}}"), "{streamer}");
    let msg = "Hi {{a}} and {{b}} and {{c";
    let out = normalize_placeholders(msg);
    assert_eq!(out, "Hi {a} and {b} and {{c");
    assert!(out.len() <= msg.len());
    assert_eq!((msg.len() - out.len()) % 2, 0);
    assert_eq!(normalize_placeholders("no placeholders {here}"), "no placeholders {here}");
}
