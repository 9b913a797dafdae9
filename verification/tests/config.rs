use twitch_notifications::config::{Config, ConfigError};

fn vars(pairs: &[(&str, &str)]) -> Vec<(String, String)> {
    pairs.iter().map(|(k, v)| (k.to_string(), v.to_string())).collect()
}

fn required() -> Vec<(String, String)> {
    vars(&[
        ("TWITCH_CLIENT_ID", "cid"),
        ("TWITCH_CLIENT_SECRET", "csecret"),
        ("JWT_SECRET", "jwt"),
    ])
}

#[test]
fn config_defaults_apply_when_unset() {
    let c = Config::from_vars(&required()).unwrap();
    assert_eq!(c.server.port, 8080);
    assert_eq!(c.server.host, "0.0.0.0");
    assert_eq!(c.server.frontend_url, "http://localhost:3000");
    assert_eq!(c.database.url, "sqlite://data/app.db");
    assert_eq!(c.twitch.client_id, "cid");
    assert_eq!(c.jwt.expiration_hours, 24);
    assert_eq!(c.rate_limit.auth_burst, 10);
    assert_eq!(c.rate_limit.webhook_burst, 50);
    assert!(c.notification_retry.enabled);
    assert_eq!(c.notification_retry.max_attempts, 5);
    assert_eq!(c.telegram.bot_token, None);
}

#[test]
fn config_reads_given_values() {
    let mut v = required();
    v.extend(vars(&[
        ("PORT", "9000"),
        ("NOTIFICATION_RETRY_ENABLED", "No"),
        ("JWT_EXPIRATION_HOURS", "-3"),
        ("RATE_LIMIT_AUTH_BURST", "not a number"),
        ("TELEGRAM_BOT_TOKEN", "tok"),
    ]));
    let c = Config::from_vars(&v).unwrap();
    assert_eq!(c.server.port, 9000);
    assert!(!c.notification_retry.enabled);
    assert_eq!(c.jwt.expiration_hours, -3);
    assert_eq!(c.rate_limit.auth_burst, 10);
    assert_eq!(c.telegram.bot_token, Some("tok".to_string()));
}

#[test]
fn config_errors_name_the_variable() {
    let mut bad_port = required();
    bad_port.push(("PORT".to_string(), "70000".to_string()));
    assert_eq!(Config::from_vars(&bad_port).unwrap_err(), ConfigError::InvalidValue("PORT".to_string()));
    let missing = vars(&[("TWITCH_CLIENT_ID", "cid"), ("JWT_SECRET", "j")]);
    let e = Config::from_vars(&missing).unwrap_err();
    assert_eq!(e, ConfigError::MissingEnv("TWITCH_CLIENT_SECRET".to_string()));
    assert_eq!(
        e.message(),
        "Missing required environment variable: TWITCH_CLIENT_SECRET"
    );
    assert_eq!(
        ConfigError::InvalidValue("PORT".to_string()).message(),
        "Invalid value for environment variable: PORT"
    );
    assert_eq!(
        Config::from_vars(&Vec::new()).unwrap_err(),
        ConfigError::MissingEnv("TWITCH_CLIENT_ID".to_string())
    );
}

#[test]
fn default_config_listens_on_8080() {
    let c = Config::default();
    assert_eq!(c.server.port, 8080);
    assert_eq!(c.jwt.expiration_hours, 24);
    assert!(c.notification_retry.enabled);
}
