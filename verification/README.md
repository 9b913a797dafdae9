# twitch_notifications

A service that forwards a Twitch streamer's events (going live, going offline, title and
category changes, channel-point redemptions) to Telegram chats and Discord channels, keeps
a history of the deliveries and retries the failed ones, and mirrors the streamer's Twitch
schedule into Discord scheduled events.

## Layout

- `src/` is the library, verified with Verus: the configuration, the error answers, the
  translations, message templates and their rendering, which integrations a notification
  goes to, the retry queue's state machine, EventSub signature checks and subscription
  planning, Telegram login checks, Discord embeds and permissions, calendar planning,
  signed session and sign-in tokens, and the request and answer types of the HTTP API with the rules behind them. Each
  public function states its result in its `ensures`; the `law_*` proof functions state
  what holds across functions.
- `tests/` runs the library on concrete values.
- `app/` is the program around it: the HTTP server (axum), the SQLite store (sqlx), the
  Twitch, Discord and Telegram clients, and the background workers. Where a handler
  alternates outside calls and decisions (a queued retry, a calendar synchronization,
  the cleanup and creation of EventSub subscriptions, a channel update, linking
  Telegram), a step function of the library decides the next call from the last answer
  and `app/` only makes the calls. Mirroring the schedule's segments one by one is a
  loop in `app/` around library functions that decide each segment.

The few calls into outside crates that the library makes (hashing, HMAC, hexadecimal,
URL parsing and encoding, RFC 3339 times, JSON tables, signing and reading JWTs, random
numbers) go through small
wrappers whose contracts say what those crates do.
