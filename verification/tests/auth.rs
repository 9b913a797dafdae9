use twitch_notifications::auth::{
    discord_callback_url, discord_oauth_state_claims, file_extension, image_extension,
    oauth_state_claims, photo_file_name, photo_public_url, photo_step, session_claims,
    sign_in_redirect, trim_end_slashes, AuthService, PhotoEvent, PhotoStep,
};

#[test]
fn claims_expire_as_configured() {
    let s = oauth_state_claims("csrf".into(), Some("/x".into()), None, 1000);
    assert_eq!((s.iat, s.exp), (1000, 1600));
    let d = discord_oauth_state_claims("c".into(), "u".into(), None, 5);
    assert_eq!((d.iat, d.exp), (5, 605));
    let c = session_claims("user-1", 100, 24);
    assert_eq!(c.sub, "user-1");
    assert_eq!(c.exp, 100 + 24 * 3600);
}

#[test]
fn redirect_after_linking() {
    assert_eq!(AuthService::compose_redirect_url("https://app/", None), "https://app/auth/callback");
    assert_eq!(AuthService::compose_redirect_url("https://app", Some("")), "https://app/auth/callback");
    assert_eq!(AuthService::compose_redirect_url("https://app//", Some("/s")), "https://app/s");
    assert_eq!(AuthService::compose_redirect_url("https://app", Some("s")), "https://app/s");
    assert_eq!(
        AuthService::compose_redirect_url("https://app", Some("https://other/x")),
        "https://other/x"
    );
    assert_eq!(trim_end_slashes("a///"), "a");
}

#[test]
fn safe_redirects_are_local_paths_or_same_origin() {
    assert!(AuthService::is_safe_redirect("/settings", "https://app.example"));
    assert!(!AuthService::is_safe_redirect("//evil.example", "https://app.example"));
    assert!(AuthService::is_safe_redirect("https://app.example/x?y", "https://app.example/"));
    assert!(AuthService::is_safe_redirect("https://APP.example:443/x", "https://app.example"));
    assert!(!AuthService::is_safe_redirect("https://app.example:8443/x", "https://app.example"));
    assert!(!AuthService::is_safe_redirect("http://app.example/x", "https://app.example"));
    assert!(!AuthService::is_safe_redirect("not a url", "https://app.example"));
}

#[test]
fn sign_in_fragment_encodes_token_and_target() {
    let r = sign_in_redirect("https://app/", "a b+c", 1700000000, Some("/settings?tab=1"));
    assert_eq!(
        r,
        "https://app/auth/callback#access_token=a+b%2Bc&token_type=Bearer&expires_at=1700000000&redirect_to=%2Fsettings%3Ftab%3D1"
    );
    let r = sign_in_redirect("https://app", "t", 1, Some("https://evil/x"));
    assert!(r.ends_with("&redirect_to=%2Fdashboard"));
    let r = sign_in_redirect("https://app", "t", -1, None);
    assert!(r.contains("&expires_at=-1&"));
}

#[test]
fn random_strings_use_the_charset() {
    let s = AuthService::generate_random_string(64);
    assert_eq!(s.chars().count(), 64);
    assert!(s.chars().all(|c| c.is_ascii_alphanumeric()));
    assert_eq!(AuthService::generate_random_string(0), "");
}

#[test]
fn photo_names_and_addresses() {
    assert_eq!(image_extension("image/png; charset=x"), Some("png".to_string()));
    assert_eq!(image_extension("image/jpeg"), Some("jpg".to_string()));
    assert_eq!(image_extension("image/gif"), Some("jpg".to_string()));
    assert_eq!(image_extension("text/html"), None);
    assert_eq!(file_extension("photos/file_1.webp"), "webp");
    assert_eq!(file_extension("noext"), "noext");
    assert_eq!(photo_file_name("42", "png"), "42.png");
    assert_eq!(photo_public_url("https://h/", "42"), "https://h/api/auth/telegram/photo/42");
    assert_eq!(discord_callback_url("https://h//"), "https://h/api/auth/discord/callback");
}

#[test]
fn photo_download_steps() {
    assert_eq!(
        photo_step(Some("https://t.me/p.jpg"), None, "42", PhotoEvent::Start),
        PhotoStep::FetchDirect("https://t.me/p.jpg".to_string())
    );
    assert_eq!(photo_step(None, None, "42", PhotoEvent::Start), PhotoStep::NoPhoto);
    assert_eq!(
        photo_step(None, Some("T"), "42", PhotoEvent::DirectFailed),
        PhotoStep::ListPhotos("https://api.telegram.org/botT/getUserProfilePhotos?user_id=42&limit=1".to_string())
    );
    assert_eq!(
        photo_step(None, Some("T"), "42", PhotoEvent::DirectAnswered("image/webp".to_string())),
        PhotoStep::Store("webp".to_string())
    );
    assert_eq!(
        photo_step(None, Some("T"), "42", PhotoEvent::PhotoListed(Some("F".to_string()))),
        PhotoStep::DescribeFile("https://api.telegram.org/botT/getFile?file_id=F".to_string())
    );
    assert_eq!(
        photo_step(None, Some("T"), "42", PhotoEvent::FileDescribed(Some("a/b.png".to_string()))),
        PhotoStep::Download {
            url: "https://api.telegram.org/file/botT/a/b.png".to_string(),
            ext: "png".to_string()
        }
    );
    assert_eq!(photo_step(None, Some("T"), "42", PhotoEvent::DownloadFailed), PhotoStep::NoPhoto);
}
