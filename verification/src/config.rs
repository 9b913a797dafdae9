//! Service configuration, read from environment variables (name/value pairs) with a
//! default for every optional setting.
use vstd::prelude::*;

use crate::i18n::{lookup, pairs_lookup, pairs_view};
use crate::numbers::{parse_i64, parse_u16, parse_u32, parse_u64, parsed_signed, parsed_unsigned};
use crate::text::{owned, str_equal, to_lowercase, unicode_lowercase};

verus! {

broadcast use vstd::string::group_string_axioms;

/// The whole configuration.
#[derive(Debug, Clone)]
pub struct Config {
    pub server: ServerConfig,
    pub database: DatabaseConfig,
    pub twitch: TwitchConfig,
    pub telegram: TelegramConfig,
    pub discord: DiscordConfig,
    pub jwt: JwtConfig,
    pub rate_limit: RateLimitConfig,
    pub notification_retry: NotificationRetryConfig,
}

/// Where the HTTP server listens and which public addresses it answers for.
#[derive(Debug, Clone)]
pub struct ServerConfig {
    pub host: String,
    pub port: u16,
    pub frontend_url: String,
    pub webhook_url: String,
    /// Whether cookies get the `Secure` flag (`None`: decided from the frontend URL).
    pub cookie_secure: Option<bool>,
    /// Preferred `SameSite` value for cookies.
    pub cookie_same_site: Option<String>,
}

/// The database to use.
#[derive(Debug, Clone)]
pub struct DatabaseConfig {
    pub url: String,
    pub max_connections: u32,
}

/// The Twitch application.
#[derive(Debug, Clone)]
pub struct TwitchConfig {
    pub client_id: String,
    pub client_secret: String,
    pub redirect_uri: String,
}

/// The Telegram bot, if any.
#[derive(Debug, Clone)]
pub struct TelegramConfig {
    pub bot_token: Option<String>,
}

/// The Discord bot and application, if any.
#[derive(Debug, Clone)]
pub struct DiscordConfig {
    pub bot_token: Option<String>,
    pub client_id: Option<String>,
    pub client_secret: Option<String>,
}

/// Signing of session tokens.
#[derive(Debug, Clone)]
pub struct JwtConfig {
    pub secret: String,
    pub expiration_hours: i64,
}

/// Per-address request limits.
#[derive(Debug, Clone)]
pub struct RateLimitConfig {
    /// Requests per second for the sign-in endpoints.
    pub auth_per_second: u32,
    pub auth_burst: u32,
    /// Requests per second for the webhook endpoints.
    pub webhook_per_second: u32,
    pub webhook_burst: u32,
}

/// How failed notifications are retried.
#[derive(Debug, Clone)]
pub struct NotificationRetryConfig {
    pub enabled: bool,
    /// Delay before the first retry.
    pub initial_backoff_seconds: u64,
    /// How often the worker looks for due tasks.
    pub poll_interval_seconds: u64,
    /// Attempts before a task is given up.
    pub max_attempts: u32,
    /// How many due tasks the worker takes at once.
    pub worker_concurrency: u32,
    /// Cap of the exponential backoff.
    pub max_backoff_seconds: u64,
    /// How long a queued notification stays worth delivering, per kind.
    pub default_ttl_seconds: u64,
    pub stream_online_ttl_seconds: u64,
    pub title_change_ttl_seconds: u64,
    pub category_change_ttl_seconds: u64,
    pub reward_redemption_ttl_seconds: u64,
}

/// Why the configuration could not be read.
#[derive(Debug, Clone, PartialEq, Eq)]
pub enum ConfigError {
    MissingEnv(String),
    InvalidValue(String),
}

/// The text of a configuration error.
pub open spec fn config_error_text(e: ConfigError) -> Seq<char> {
    match e {
        ConfigError::MissingEnv(n) => "Missing required environment variable: "@ + n@,
        ConfigError::InvalidValue(n) => "Invalid value for environment variable: "@ + n@,
    }
}

impl ConfigError {
    /// The text of the error.
    pub fn message(&self) -> (r: String)
        ensures
            r@ == config_error_text(*self),
    {
        match self {
            ConfigError::MissingEnv(n) => crate::text::concat2(
                "Missing required environment variable: ",
                n.as_str(),
            ),
            ConfigError::InvalidValue(n) => crate::text::concat2(
                "Invalid value for environment variable: ",
                n.as_str(),
            ),
        }
    }
}

/// The value of the variable `name` (the first pair with that name).
pub open spec fn env_value(vars: Seq<(String, String)>, name: Seq<char>) -> Option<Seq<char>> {
    pairs_lookup(pairs_view(vars), name)
}

/// The value of `name`, or `default` when it is not set.
pub open spec fn text_or(vars: Seq<(String, String)>, name: Seq<char>, default: Seq<char>) -> Seq<
    char,
> {
    match env_value(vars, name) {
        Some(v) => v,
        None => default,
    }
}

/// The number in `name` (at most `max`), or `default` when it is not set or not such a number.
pub open spec fn unsigned_or(
    vars: Seq<(String, String)>,
    name: Seq<char>,
    max: int,
    default: nat,
) -> nat {
    match env_value(vars, name) {
        Some(v) => match parsed_unsigned(v, max) {
            Some(n) => n,
            None => default,
        },
        None => default,
    }
}

/// A switch: `1`/`true`/`yes` or `0`/`false`/`no` in any case; anything else is no answer.
pub open spec fn flag_value(v: Seq<char>) -> Option<bool> {
    let l = unicode_lowercase(v);
    if l == "1"@ || l == "true"@ || l == "yes"@ {
        Some(true)
    } else if l == "0"@ || l == "false"@ || l == "no"@ {
        Some(false)
    } else {
        None
    }
}

/// The port the server listens on, when `PORT` (default `8080`) is a valid port number.
pub open spec fn port_setting(vars: Seq<(String, String)>) -> Option<nat> {
    parsed_unsigned(text_or(vars, "PORT"@, "8080"@), u16::MAX as int)
}

/// The option-valued text setting of `name`.
pub open spec fn opt_text(o: Option<String>) -> Option<Seq<char>> {
    match o {
        Some(s) => Some(s@),
        None => None,
    }
}

/// The configuration read from `vars`, once it was read without error.
pub open spec fn config_read_from(c: Config, vars: Seq<(String, String)>) -> bool {
    &&& c.server.host@ == text_or(vars, "HOST"@, "0.0.0.0"@)
    &&& port_setting(vars) == Some(c.server.port as nat)
    &&& c.server.frontend_url@ == text_or(vars, "FRONTEND_URL"@, "http://localhost:3000"@)
    &&& c.server.webhook_url@ == text_or(vars, "WEBHOOK_URL"@, "http://localhost:8080"@)
    &&& c.server.cookie_secure == match env_value(vars, "COOKIE_SECURE"@) {
        Some(v) => flag_value(v),
        None => None,
    }
    &&& opt_text(c.server.cookie_same_site) == env_value(vars, "COOKIE_SAMESITE"@)
    &&& c.database.url@ == text_or(vars, "DATABASE_URL"@, "sqlite://data/app.db"@)
    &&& c.database.max_connections == unsigned_or(
        vars,
        "DATABASE_MAX_CONNECTIONS"@,
        u32::MAX as int,
        5,
    )
    &&& Some(c.twitch.client_id@) == env_value(vars, "TWITCH_CLIENT_ID"@)
    &&& Some(c.twitch.client_secret@) == env_value(vars, "TWITCH_CLIENT_SECRET"@)
    &&& c.twitch.redirect_uri@ == text_or(
        vars,
        "TWITCH_REDIRECT_URI"@,
        "http://localhost:3000/auth/callback"@,
    )
    &&& opt_text(c.telegram.bot_token) == env_value(vars, "TELEGRAM_BOT_TOKEN"@)
    &&& opt_text(c.discord.bot_token) == env_value(vars, "DISCORD_BOT_TOKEN"@)
    &&& opt_text(c.discord.client_id) == env_value(vars, "DISCORD_CLIENT_ID"@)
    &&& opt_text(c.discord.client_secret) == env_value(vars, "DISCORD_CLIENT_SECRET"@)
    &&& Some(c.jwt.secret@) == env_value(vars, "JWT_SECRET"@)
    &&& c.jwt.expiration_hours == match env_value(vars, "JWT_EXPIRATION_HOURS"@) {
        Some(v) => match parsed_signed(v, i64::MIN as int, i64::MAX as int) {
            Some(n) => n,
            None => 24,
        },
        None => 24,
    }
    &&& c.rate_limit.auth_per_second == unsigned_or(
        vars,
        "RATE_LIMIT_AUTH_PER_SECOND"@,
        u32::MAX as int,
        3,
    )
    &&& c.rate_limit.auth_burst == unsigned_or(vars, "RATE_LIMIT_AUTH_BURST"@, u32::MAX as int, 10)
    &&& c.rate_limit.webhook_per_second == unsigned_or(
        vars,
        "RATE_LIMIT_WEBHOOKS_PER_SECOND"@,
        u32::MAX as int,
        10,
    )
    &&& c.rate_limit.webhook_burst == unsigned_or(
        vars,
        "RATE_LIMIT_WEBHOOKS_BURST"@,
        u32::MAX as int,
        50,
    )
    &&& c.notification_retry.enabled == match env_value(vars, "NOTIFICATION_RETRY_ENABLED"@) {
        Some(v) => match flag_value(v) {
            Some(b) => b,
            None => true,
        },
        None => true,
    }
    &&& c.notification_retry.initial_backoff_seconds == unsigned_or(
        vars,
        "NOTIFICATION_RETRY_INITIAL_BACKOFF_SECONDS"@,
        u64::MAX as int,
        30,
    )
    &&& c.notification_retry.poll_interval_seconds == unsigned_or(
        vars,
        "NOTIFICATION_RETRY_POLL_INTERVAL_SECONDS"@,
        u64::MAX as int,
        5,
    )
    &&& c.notification_retry.max_attempts == unsigned_or(
        vars,
        "NOTIFICATION_RETRY_MAX_ATTEMPTS"@,
        u32::MAX as int,
        5,
    )
    &&& c.notification_retry.worker_concurrency == unsigned_or(
        vars,
        "NOTIFICATION_RETRY_WORKER_CONCURRENCY"@,
        u32::MAX as int,
        10,
    )
    &&& c.notification_retry.max_backoff_seconds == unsigned_or(
        vars,
        "NOTIFICATION_RETRY_MAX_BACKOFF_SECONDS"@,
        u64::MAX as int,
        3600,
    )
    &&& c.notification_retry.default_ttl_seconds == unsigned_or(
        vars,
        "NOTIFICATION_TTL_DEFAULT_SECONDS"@,
        u64::MAX as int,
        300,
    )
    &&& c.notification_retry.stream_online_ttl_seconds == unsigned_or(
        vars,
        "NOTIFICATION_TTL_STREAM_ONLINE_SECONDS"@,
        u64::MAX as int,
        300,
    )
    &&& c.notification_retry.title_change_ttl_seconds == unsigned_or(
        vars,
        "NOTIFICATION_TTL_TITLE_CHANGE_SECONDS"@,
        u64::MAX as int,
        300,
    )
    &&& c.notification_retry.category_change_ttl_seconds == unsigned_or(
        vars,
        "NOTIFICATION_TTL_CATEGORY_CHANGE_SECONDS"@,
        u64::MAX as int,
        300,
    )
    &&& c.notification_retry.reward_redemption_ttl_seconds == unsigned_or(
        vars,
        "NOTIFICATION_TTL_REWARD_REDEMPTION_SECONDS"@,
        u64::MAX as int,
        300,
    )
}

/// The error reading `vars` fails with, if any: an unusable `PORT` first, then the
/// required variables in the order `TWITCH_CLIENT_ID`, `TWITCH_CLIENT_SECRET`, `JWT_SECRET`.
pub open spec fn config_error_for(vars: Seq<(String, String)>) -> Option<(bool, Seq<char>)> {
    if port_setting(vars) is None {
        Some((false, "PORT"@))
    } else if env_value(vars, "TWITCH_CLIENT_ID"@) is None {
        Some((true, "TWITCH_CLIENT_ID"@))
    } else if env_value(vars, "TWITCH_CLIENT_SECRET"@) is None {
        Some((true, "TWITCH_CLIENT_SECRET"@))
    } else if env_value(vars, "JWT_SECRET"@) is None {
        Some((true, "JWT_SECRET"@))
    } else {
        None
    }
}

/// Does `e` describe the refusal `(missing, name)`?
pub open spec fn config_error_is(e: ConfigError, refusal: (bool, Seq<char>)) -> bool {
    match e {
        ConfigError::MissingEnv(n) => refusal.0 && n@ == refusal.1,
        ConfigError::InvalidValue(n) => !refusal.0 && n@ == refusal.1,
    }
}

/// The value of `name`, or `default`.
fn var_or(vars: &Vec<(String, String)>, name: &str, default: &str) -> (r: String)
    ensures
        r@ == text_or(vars@, name@, default@),
{
    match lookup(vars, name) {
        Some(v) => v,
        None => owned(default),
    }
}

/// Reads a switch value.
fn read_flag(v: &str) -> (r: Option<bool>)
    ensures
        r == flag_value(v@),
{
    let l = to_lowercase(v);
    let s = l.as_str();
    if str_equal(s, "1") || str_equal(s, "true") || str_equal(s, "yes") {
        Some(true)
    } else if str_equal(s, "0") || str_equal(s, "false") || str_equal(s, "no") {
        Some(false)
    } else {
        None
    }
}

fn u32_or(vars: &Vec<(String, String)>, name: &str, default: u32) -> (r: u32)
    ensures
        r == unsigned_or(vars@, name@, u32::MAX as int, default as nat),
{
    match lookup(vars, name) {
        Some(v) => match parse_u32(v.as_str()) {
            Some(n) => n,
            None => default,
        },
        None => default,
    }
}

fn u64_or(vars: &Vec<(String, String)>, name: &str, default: u64) -> (r: u64)
    ensures
        r == unsigned_or(vars@, name@, u64::MAX as int, default as nat),
{
    match lookup(vars, name) {
        Some(v) => match parse_u64(v.as_str()) {
            Some(n) => n,
            None => default,
        },
        None => default,
    }
}

impl Config {
    /// Reads the configuration from environment variables given as name/value pairs.
    pub fn from_vars(vars: &Vec<(String, String)>) -> (r: Result<Config, ConfigError>)
        ensures
            r is Ok <==> config_error_for(vars@) is None,
            r matches Ok(c) ==> config_read_from(c, vars@),
            r matches Err(e) ==> config_error_for(vars@) matches Some(f) && config_error_is(
                e,
                f,
            ),
    {
        let host = var_or(vars, "HOST", "0.0.0.0");
        let port_text = var_or(vars, "PORT", "8080");
        let port = match parse_u16(port_text.as_str()) {
            Some(p) => p,
            None => {
                return Err(ConfigError::InvalidValue(owned("PORT")));
            },
        };
        let frontend_url = var_or(vars, "FRONTEND_URL", "http://localhost:3000");
        let webhook_url = var_or(vars, "WEBHOOK_URL", "http://localhost:8080");
        let cookie_secure = match lookup(vars, "COOKIE_SECURE") {
            Some(v) => read_flag(v.as_str()),
            None => None,
        };
        let cookie_same_site = lookup(vars, "COOKIE_SAMESITE");
        let database_url = var_or(vars, "DATABASE_URL", "sqlite://data/app.db");
        let max_connections = u32_or(vars, "DATABASE_MAX_CONNECTIONS", 5);
        let client_id = match lookup(vars, "TWITCH_CLIENT_ID") {
            Some(v) => v,
            None => {
                return Err(ConfigError::MissingEnv(owned("TWITCH_CLIENT_ID")));
            },
        };
        let client_secret = match lookup(vars, "TWITCH_CLIENT_SECRET") {
            Some(v) => v,
            None => {
                return Err(ConfigError::MissingEnv(owned("TWITCH_CLIENT_SECRET")));
            },
        };
        let redirect_uri = var_or(
            vars,
            "TWITCH_REDIRECT_URI",
            "http://localhost:3000/auth/callback",
        );
        let telegram_bot_token = lookup(vars, "TELEGRAM_BOT_TOKEN");
        let discord_bot_token = lookup(vars, "DISCORD_BOT_TOKEN");
        let discord_client_id = lookup(vars, "DISCORD_CLIENT_ID");
        let discord_client_secret = lookup(vars, "DISCORD_CLIENT_SECRET");
        let jwt_secret = match lookup(vars, "JWT_SECRET") {
            Some(v) => v,
            None => {
                return Err(ConfigError::MissingEnv(owned("JWT_SECRET")));
            },
        };
        let expiration_hours = match lookup(vars, "JWT_EXPIRATION_HOURS") {
            Some(v) => match parse_i64(v.as_str()) {
                Some(n) => n,
                None => 24,
            },
            None => 24,
        };
        let enabled = match lookup(vars, "NOTIFICATION_RETRY_ENABLED") {
            Some(v) => match read_flag(v.as_str()) {
                Some(b) => b,
                None => true,
            },
            None => true,
        };
        Ok(
            Config {
                server: ServerConfig {
                    host,
                    port,
                    frontend_url,
                    webhook_url,
                    cookie_secure,
                    cookie_same_site,
                },
                database: DatabaseConfig { url: database_url, max_connections },
                twitch: TwitchConfig { client_id, client_secret, redirect_uri },
                telegram: TelegramConfig { bot_token: telegram_bot_token },
                discord: DiscordConfig {
                    bot_token: discord_bot_token,
                    client_id: discord_client_id,
                    client_secret: discord_client_secret,
                },
                jwt: JwtConfig { secret: jwt_secret, expiration_hours },
                rate_limit: RateLimitConfig {
                    auth_per_second: u32_or(vars, "RATE_LIMIT_AUTH_PER_SECOND", 3),
                    auth_burst: u32_or(vars, "RATE_LIMIT_AUTH_BURST", 10),
                    webhook_per_second: u32_or(vars, "RATE_LIMIT_WEBHOOKS_PER_SECOND", 10),
                    webhook_burst: u32_or(vars, "RATE_LIMIT_WEBHOOKS_BURST", 50),
                },
                notification_retry: NotificationRetryConfig {
                    enabled,
                    initial_backoff_seconds: u64_or(
                        vars,
                        "NOTIFICATION_RETRY_INITIAL_BACKOFF_SECONDS",
                        30,
                    ),
                    poll_interval_seconds: u64_or(
                        vars,
                        "NOTIFICATION_RETRY_POLL_INTERVAL_SECONDS",
                        5,
                    ),
                    max_attempts: u32_or(vars, "NOTIFICATION_RETRY_MAX_ATTEMPTS", 5),
                    worker_concurrency: u32_or(vars, "NOTIFICATION_RETRY_WORKER_CONCURRENCY", 10),
                    max_backoff_seconds: u64_or(
                        vars,
                        "NOTIFICATION_RETRY_MAX_BACKOFF_SECONDS",
                        3600,
                    ),
                    default_ttl_seconds: u64_or(vars, "NOTIFICATION_TTL_DEFAULT_SECONDS", 300),
                    stream_online_ttl_seconds: u64_or(
                        vars,
                        "NOTIFICATION_TTL_STREAM_ONLINE_SECONDS",
                        300,
                    ),
                    title_change_ttl_seconds: u64_or(
                        vars,
                        "NOTIFICATION_TTL_TITLE_CHANGE_SECONDS",
                        300,
                    ),
                    category_change_ttl_seconds: u64_or(
                        vars,
                        "NOTIFICATION_TTL_CATEGORY_CHANGE_SECONDS",
                        300,
                    ),
                    reward_redemption_ttl_seconds: u64_or(
                        vars,
                        "NOTIFICATION_TTL_REWARD_REDEMPTION_SECONDS",
                        300,
                    ),
                },
            },
        )
    }
}

/// The built-in defaults (no Twitch application and an empty signing secret).
pub open spec fn is_default_config(c: Config) -> bool {
    &&& c.server.host@ == "0.0.0.0"@
    &&& c.server.port == 8080
    &&& c.server.frontend_url@ == "http://localhost:3000"@
    &&& c.server.webhook_url@ == "http://localhost:8080"@
    &&& c.server.cookie_secure is None
    &&& c.server.cookie_same_site is None
    &&& c.database.url@ == "sqlite://data/app.db"@
    &&& c.database.max_connections == 5
    &&& c.twitch.client_id@ == Seq::<char>::empty()
    &&& c.twitch.client_secret@ == Seq::<char>::empty()
    &&& c.twitch.redirect_uri@ == "http://localhost:3000/auth/callback"@
    &&& c.telegram.bot_token is None
    &&& c.discord.bot_token is None
    &&& c.discord.client_id is None
    &&& c.discord.client_secret is None
    &&& c.jwt.secret@ == Seq::<char>::empty()
    &&& c.jwt.expiration_hours == 24
    &&& c.rate_limit.auth_per_second == 3
    &&& c.rate_limit.auth_burst == 10
    &&& c.rate_limit.webhook_per_second == 10
    &&& c.rate_limit.webhook_burst == 50
    &&& c.notification_retry.enabled
    &&& c.notification_retry.initial_backoff_seconds == 30
    &&& c.notification_retry.poll_interval_seconds == 5
    &&& c.notification_retry.max_attempts == 5
    &&& c.notification_retry.worker_concurrency == 10
    &&& c.notification_retry.max_backoff_seconds == 3600
    &&& c.notification_retry.default_ttl_seconds == 300
    &&& c.notification_retry.stream_online_ttl_seconds == 300
    &&& c.notification_retry.title_change_ttl_seconds == 300
    &&& c.notification_retry.category_change_ttl_seconds == 300
    &&& c.notification_retry.reward_redemption_ttl_seconds == 300
}

impl Default for Config {
    fn default() -> (r: Config)
        ensures
            is_default_config(r),
    {
        Config {
            server: ServerConfig {
                host: owned("0.0.0.0"),
                port: 8080,
                frontend_url: owned("http://localhost:3000"),
                webhook_url: owned("http://localhost:8080"),
                cookie_secure: None,
                cookie_same_site: None,
            },
            database: DatabaseConfig { url: owned("sqlite://data/app.db"), max_connections: 5 },
            twitch: TwitchConfig {
                client_id: String::new(),
                client_secret: String::new(),
                redirect_uri: owned("http://localhost:3000/auth/callback"),
            },
            telegram: TelegramConfig { bot_token: None },
            discord: DiscordConfig { bot_token: None, client_id: None, client_secret: None },
            jwt: JwtConfig { secret: String::new(), expiration_hours: 24 },
            rate_limit: RateLimitConfig {
                auth_per_second: 3,
                auth_burst: 10,
                webhook_per_second: 10,
                webhook_burst: 50,
            },
            notification_retry: NotificationRetryConfig {
                enabled: true,
                initial_backoff_seconds: 30,
                poll_interval_seconds: 5,
                max_attempts: 5,
                worker_concurrency: 10,
                max_backoff_seconds: 3600,
                default_ttl_seconds: 300,
                stream_online_ttl_seconds: 300,
                title_change_ttl_seconds: 300,
                category_change_ttl_seconds: 300,
                reward_redemption_ttl_seconds: 300,
            },
        }
    }
}

/// When `PORT` is not set the server listens on port 8080.
pub proof fn law_default_port(vars: Seq<(String, String)>)
    requires
        env_value(vars, "PORT"@) is None,
    ensures
        port_setting(vars) == Some(8080nat),
{
    reveal_strlit("8080");
    let t = "8080"@;
    assert(crate::numbers::without_plus(t) == t);
    assert(crate::text::all_ascii_digits(t));
    let a = t.take(1);
    let b = t.take(2);
    let c = t.take(3);
    assert(a.drop_last() =~= Seq::<char>::empty());
    assert(b.drop_last() =~= a);
    assert(c.drop_last() =~= b);
    assert(t.drop_last() =~= c);
    assert(a.last() == '8' && b.last() == '0' && c.last() == '8' && t.last() == '0');
    assert(crate::numbers::digits_value(Seq::<char>::empty()) == 0);
    assert(crate::numbers::digit_value('8') == 8);
    assert(crate::numbers::digit_value('0') == 0);
    assert(crate::numbers::digits_value(a) == 8);
    assert(crate::numbers::digits_value(b) == 80);
    assert(crate::numbers::digits_value(c) == 808);
    assert(crate::numbers::digits_value(t) == 8080);
}

/// With no variable set at all, reading fails on the first required variable,
/// `TWITCH_CLIENT_ID`.
pub proof fn law_empty_environment(vars: Seq<(String, String)>)
    requires
        vars.len() == 0,
    ensures
        config_error_for(vars) == Some((true, "TWITCH_CLIENT_ID"@)),
{
    assert(pairs_view(vars).len() == 0);
    law_default_port(vars);
}

} // verus!
