//! Translations for the user-facing messages of the service (Russian and English),
//! looked up by a flat key with `{name}` placeholders.
use vstd::prelude::*;

use crate::text::{
    all_ascii, ascii_lower, ascii_lower_char, before_first, before_first_exec, chars_of, owned,
    push_str, replace_all, replace_str, str_equal, string_of, string_push, to_lowercase,
    unicode_lowercase,
};

verus! {

broadcast use vstd::string::group_string_axioms;

/// Language used when no language is requested, and whose table is the fallback.
pub const DEFAULT_LANG: &'static str = "ru";

/// Russian message table (a JSON object of key -> message).
pub const RU_JSON: &'static str = r#"
{
  "validation.owner_telegram_not_linked": "У владельца не привязан аккаунт Telegram. Пожалуйста, свяжите Telegram в разделе «Настройки» перед добавлением интеграции.",
  "error.refresh_telegram_photo.download_failed": "Не удалось скачать фото по ссылке и TELEGRAM_BOT_TOKEN не настроен. Попробуйте перепривязать Telegram или настройте BOT_TOKEN на сервере.",
  "error.refresh_telegram_photo.not_found": "Не удалось получить фото из Telegram (ни по ссылке, ни через Bot API).",
  "error.refresh_telegram_photo.service_unavailable": "Не удалось обновить фото из-за внутренней ошибки. Проверьте логи сервера или попробуйте позже.",
  "validation.chat_id.group_invalid": "Неверный Chat ID для группы. Ожидается отрицательное число (например, -123456789).",
  "validation.chat_id.supergroup_invalid": "Неверный Chat ID для супергруппы/канала. Ожидается формат -100<цифры> (например, -1001234567890).",
  "validation.telegram_bot_not_configured": "Telegram bot не настроен на сервере, невозможно проверить права администратора. Пожалуйста, настройте бота.",
  "validation.must_be_admin": "Вы должны быть администратором в этом чате, чтобы добавить интеграцию",
  "validation.admin_check_failed": "Не удалось проверить права администратора. Убедитесь, что бот добавлен в чат и повторите попытку.",
  "errors.no_share_manage": "У вас нет прав управлять интеграциями для этого пользователя",
  "not_found.user": "Пользователь не найден",
  "bad_request.no_discord_linked": "У пользователя не привязан Discord",
  "service_unavailable.discord_service_unavailable": "Сервис Discord недоступен",
  "errors.insufficient_permissions": "Пользователь должен быть владельцем сервера или иметь права «Управление сервером»/«Администратор»",
  "messages.stream_online_default": "🔴 {streamer} начал стрим!\n\n{title}\n🎮 {game}\n\n{url}",
  "messages.stream_offline_default": "⚫ {streamer} завершил стрим",
  "messages.stream_title_change_default": "📝 {streamer} изменил название стрима:\n\n{title}",
  "messages.stream_category_change_default": "🎮 {streamer} сменил категорию на: {game}",
  "messages.reward_redemption_default": "🎁 {user} активировал награду \"{reward}\"!",
  "messages.test_notification_title": "🧪 Тестовое уведомление",
  "messages.test_notification_body": "Это тестовое уведомление от Уведомлений Twitch.\n\nЕсли вы видите это сообщение, ваша интеграция работает корректно! ✅",
  "test_notification.success": "Тестовое уведомление отправлено успешно",
  "test_notification.failure": "Не удалось отправить тестовое уведомление: {err}",
  "not_found.integration": "Интеграция не найдена",
  "integration.deleted": "Интеграция успешно удалена",
  "integration.delete_error": "Не удалось удалить интеграцию",
  "integration.create_error": "Не удалось создать интеграцию",
  "integration.update_error": "Не удалось обновить интеграцию",
  "auth.logged_out": "Вы вышли из системы",
  "telegram.already_linked": "Telegram уже привязан",
  "telegram.linked": "Telegram успешно подключен",
  "telegram.unlinked": "Telegram успешно отключён",
  "discord.unlinked": "Discord успешно отключён",
  "auth.token_refreshed": "Токен успешно обновлён",
  "error.unsupported_language": "Неподдерживаемый язык: {lang}",
  "app.name": "Уведомления Twitch"
}
"#;

pub const EN_JSON: &'static str = r#"
{
  "validation.owner_telegram_not_linked": "Owner has no linked Telegram account. Please link Telegram in Settings before adding an integration.",
  "error.refresh_telegram_photo.download_failed": "Failed to download photo from URL and TELEGRAM_BOT_TOKEN is not configured. Try re-linking Telegram or configure BOT_TOKEN on the server.",
  "error.refresh_telegram_photo.not_found": "Failed to obtain a photo from Telegram (neither by URL nor via the Bot API).",
  "error.refresh_telegram_photo.service_unavailable": "Failed to update photo due to an internal error. Check server logs or try again later.",
  "validation.chat_id.group_invalid": "Invalid chat ID for a group. Expected a negative number (e.g., -123456789).",
  "validation.chat_id.supergroup_invalid": "Invalid chat ID for a supergroup/channel. Expected format -100<digits> (e.g., -1001234567890).",
  "validation.telegram_bot_not_configured": "Telegram bot is not configured on the server; cannot check admin permissions. Please configure the bot.",
  "validation.must_be_admin": "You must be an administrator in this chat to add an integration",
  "validation.admin_check_failed": "Failed to verify admin permissions. Ensure the bot is added to the chat and try again.",
  "errors.no_share_manage": "You do not have permission to manage integrations for this user",
  "not_found.user": "User not found",
  "bad_request.no_discord_linked": "User has no linked Discord",
  "service_unavailable.discord_service_unavailable": "Discord service is unavailable",
  "errors.insufficient_permissions": "User must be server owner or have Manage Server / Administrator permissions",
  "messages.stream_online_default": "🔴 {streamer} started streaming!\n\n{title}\n🎮 {game}\n\n{url}",
  "messages.stream_offline_default": "⚫ {streamer} ended the stream",
  "messages.stream_title_change_default": "📝 {streamer} changed stream title:\n\n{title}",
  "messages.stream_category_change_default": "🎮 {streamer} changed category to: {game}",
  "messages.reward_redemption_default": "🎁 {user} redeemed reward \"{reward}\"!",
  "messages.test_notification_title": "🧪 Test Notification",
  "messages.test_notification_body": "This is a test notification from Twitch Notifications.\n\nIf you can see this message, your integration is working correctly! ✅",
  "test_notification.success": "Test notification sent successfully",
  "test_notification.failure": "Failed to send test notification: {err}",
  "not_found.integration": "Integration not found",
  "integration.deleted": "Integration deleted successfully",
  "integration.delete_error": "Failed to delete integration",
  "integration.create_error": "Failed to create integration",
  "integration.update_error": "Failed to update integration",
  "auth.logged_out": "Logged out",
  "telegram.already_linked": "Telegram already linked",
  "telegram.linked": "Telegram linked",
  "telegram.unlinked": "Telegram unlinked",
  "discord.unlinked": "Discord unlinked",
  "auth.token_refreshed": "Token refreshed successfully",
  "error.unsupported_language": "Unsupported language: {lang}",
  "app.name": "Twitch Notifications"
}
"#;


/// A key/message list as `serde_json` reads it from a JSON object of strings
/// (into an ordered map, listed in key order); `None` when the text is not such an object.
pub uninterp spec fn json_string_pairs(text: Seq<char>) -> Option<Seq<(Seq<char>, Seq<char>)>>;

/// The views of a list of owned string pairs.
pub open spec fn pairs_view(v: Seq<(String, String)>) -> Seq<(Seq<char>, Seq<char>)> {
    v.map_values(|p: (String, String)| (p.0@, p.1@))
}

/// The views of a list of borrowed string pairs.
pub open spec fn str_pairs_view(v: Seq<(&str, &str)>) -> Seq<(Seq<char>, Seq<char>)> {
    v.map_values(|p: (&str, &str)| (p.0@, p.1@))
}

/// Reads a JSON object of strings: `serde_json::from_str` into a
/// `BTreeMap<String, String>`, listed in key order. The list is named
/// `json_string_pairs`; nothing more is claimed of it.
#[verifier::external_body]
fn parse_string_pairs(text: &str) -> (r: Option<Vec<(String, String)>>)
    ensures
        r is Some <==> json_string_pairs(text@) is Some,
        r matches Some(v) ==> pairs_view(v@) == json_string_pairs(text@)->0,
{
    serde_json::from_str::<std::collections::BTreeMap<String, String>>(text).ok().map(
        |m| m.into_iter().collect(),
    )
}

/// The message of the first entry with key `key`, if any.
pub open spec fn pairs_lookup(pairs: Seq<(Seq<char>, Seq<char>)>, key: Seq<char>) -> Option<
    Seq<char>,
>
    decreases pairs.len(),
{
    if pairs.len() == 0 {
        None
    } else if pairs[0].0 == key {
        Some(pairs[0].1)
    } else {
        pairs_lookup(pairs.skip(1), key)
    }
}

/// The entries of an embedded table (empty when the embedded text does not parse).
pub open spec fn table_entries(text: Seq<char>) -> Seq<(Seq<char>, Seq<char>)> {
    match json_string_pairs(text) {
        Some(p) => p,
        None => Seq::empty(),
    }
}

/// The table of a language code: Russian, English, or none.
pub open spec fn language_table(lang: Seq<char>) -> Option<Seq<(Seq<char>, Seq<char>)>> {
    if lang == ru_code() {
        Some(table_entries(RU_JSON@))
    } else if lang == en_code() {
        Some(table_entries(EN_JSON@))
    } else {
        None
    }
}

/// The code of the Russian table.
pub open spec fn ru_code() -> Seq<char> {
    seq!['r', 'u']
}

/// The code of the English table.
pub open spec fn en_code() -> Seq<char> {
    seq!['e', 'n']
}

proof fn lemma_language_literals()
    ensures
        "ru"@ == ru_code(),
        "en"@ == en_code(),
{
    reveal_strlit("ru");
    reveal_strlit("en");
    assert("ru"@ =~= ru_code());
    assert("en"@ =~= en_code());
}

/// The language codes that have a table.
pub open spec fn supported_language(lang: Seq<char>) -> bool {
    lang == ru_code() || lang == en_code()
}

/// The raw message of `key` for the requested language: the requested table first,
/// then the default (Russian) table, then the key itself.
pub open spec fn message_for(lang: Option<Seq<char>>, key: Seq<char>) -> Seq<char> {
    let desired = match lang {
        Some(l) => l,
        None => ru_code(),
    };
    let requested = match language_table(desired) {
        Some(t) => pairs_lookup(t, key),
        None => None,
    };
    match requested {
        Some(v) => v,
        None => match pairs_lookup(table_entries(RU_JSON@), key) {
            Some(v) => v,
            None => key,
        },
    }
}

/// The placeholder text `{name}`.
pub open spec fn brace(name: Seq<char>) -> Seq<char> {
    seq!['{'] + name + seq!['}']
}

/// `s` after replacing each `{name}` by its value, one parameter after the other in order.
pub open spec fn apply_params(s: Seq<char>, params: Seq<(Seq<char>, Seq<char>)>) -> Seq<char>
    decreases params.len(),
{
    if params.len() == 0 {
        s
    } else {
        apply_params(replace_all(s, brace(params[0].0), params[0].1), params.skip(1))
    }
}

/// What `tr` returns.
pub open spec fn translate(
    lang: Option<Seq<char>>,
    key: Seq<char>,
    params: Option<Seq<(Seq<char>, Seq<char>)>>,
) -> Seq<char> {
    match params {
        Some(p) => apply_params(message_for(lang, key), p),
        None => message_for(lang, key),
    }
}

/// What `normalize_language` returns: the lower case of the part before the first `-`.
pub open spec fn normalized_language(lang: Seq<char>) -> Seq<char> {
    unicode_lowercase(before_first(lang, '-'))
}

/// What `normalize_language` returns for an ASCII tag: the ASCII lower case of the part
/// before the first `-`.
pub open spec fn normalized_ascii_language(lang: Seq<char>) -> Seq<char> {
    ascii_lower(before_first(lang, '-'))
}

pub open spec fn opt_view(o: Option<&str>) -> Option<Seq<char>> {
    match o {
        Some(s) => Some(s@),
        None => None,
    }
}

pub open spec fn opt_params_view(o: Option<&[(&str, &str)]>) -> Option<Seq<(Seq<char>, Seq<char>)>> {
    match o {
        Some(p) => Some(str_pairs_view(p@)),
        None => None,
    }
}

/// Reads an embedded table; an embedded text that does not parse gives an empty list.
fn load_table(text: &str) -> (r: Vec<(String, String)>)
    ensures
        pairs_view(r@) == table_entries(text@),
{
    match parse_string_pairs(text) {
        Some(v) => v,
        None => {
            let v: Vec<(String, String)> = Vec::new();
            assert(pairs_view(v@) =~= Seq::<(Seq<char>, Seq<char>)>::empty());
            v
        },
    }
}

/// The message of the first entry of `table` whose key is `key`.
pub fn lookup(table: &Vec<(String, String)>, key: &str) -> (r: Option<String>)
    ensures
        r matches Some(v) ==> pairs_lookup(pairs_view(table@), key@) == Some(v@),
        r is None ==> pairs_lookup(pairs_view(table@), key@) is None,
{
    let mut i: usize = 0;
    assert(pairs_view(table@).skip(0) =~= pairs_view(table@));
    while i < table.len()
        invariant
            i <= table.len(),
            pairs_lookup(pairs_view(table@).skip(i as int), key@) == pairs_lookup(
                pairs_view(table@),
                key@,
            ),
        decreases table.len() - i,
    {
        let ghost rest = pairs_view(table@).skip(i as int);
        assert(rest[0] == (table@[i as int].0@, table@[i as int].1@));
        if str_equal(table[i].0.as_str(), key) {
            return Some(table[i].1.clone());
        }
        assert(rest.skip(1) =~= pairs_view(table@).skip(i + 1));
        i = i + 1;
    }
    None
}

/// Normalizes a language tag into a short lower-case code (`"en-US"` -> `"en"`). For
/// an ASCII tag the code holds no `-`, is ASCII, and normalizing it again gives it back.
pub fn normalize_language(lang: &str) -> (r: String)
    ensures
        r@ == normalized_language(lang@),
        all_ascii(lang@) ==> r@ == normalized_ascii_language(lang@),
        all_ascii(lang@) ==> !r@.contains('-') && all_ascii(r@) && normalized_ascii_language(r@)
            == r@,
{
    let v = chars_of(lang);
    let head = before_first_exec(&v, '-');
    let s = string_of(head.as_slice());
    proof {
        lemma_before_first_prefix(lang@, '-');
        if all_ascii(lang@) {
            assert(all_ascii(s@)) by {
                assert forall|i: int| 0 <= i < s@.len() implies (#[trigger] s@[i] as u32) < 128 by {
                    assert(s@[i] == lang@[i]);
                }
            }
            law_normalize_language_idempotent(lang@);
        }
    }
    to_lowercase(s.as_str())
}

/// Is `lang` a language code that has a translation table (`"ru"` or `"en"`)?
pub fn is_supported_language(lang: &str) -> (r: bool)
    ensures
        r == supported_language(lang@),
{
    proof {
        lemma_language_literals();
    }
    str_equal(lang, "ru") || str_equal(lang, "en")
}

/// Replaces each `{name}` placeholder by its value, parameter by parameter.
fn substitute(message: String, params: &[(&str, &str)]) -> (r: String)
    ensures
        r@ == apply_params(message@, str_pairs_view(params@)),
{
    let mut s = message;
    let mut i: usize = 0;
    assert(str_pairs_view(params@).skip(0) =~= str_pairs_view(params@));
    while i < params.len()
        invariant
            i <= params.len(),
            apply_params(s@, str_pairs_view(params@).skip(i as int)) == apply_params(
                message@,
                str_pairs_view(params@),
            ),
        decreases params.len() - i,
    {
        let (name, value) = params[i];
        let ghost rest = str_pairs_view(params@).skip(i as int);
        assert(rest[0] == (name@, value@));
        assert(rest.skip(1) =~= str_pairs_view(params@).skip(i + 1));
        let mut pat = String::new();
        string_push(&mut pat, '{');
        push_str(&mut pat, name);
        string_push(&mut pat, '}');
        assert(pat@ =~= brace(name@));
        s = replace_str(s.as_str(), pat.as_str(), value);
        i = i + 1;
    }
    assert(str_pairs_view(params@).skip(i as int) =~= Seq::<(Seq<char>, Seq<char>)>::empty());
    s
}

/// Translates `key` into `lang` (the default language when `None`), falling back to the
/// default language and then to the key itself, and fills in `{name}` placeholders.
pub fn tr(lang: Option<&str>, key: &str, params: Option<&[(&str, &str)]>) -> (r: String)
    ensures
        r@ == translate(opt_view(lang), key@, opt_params_view(params)),
{
    proof {
        lemma_language_literals();
    }
    let desired: &str = match lang {
        Some(l) => l,
        None => DEFAULT_LANG,
    };
    let ru = load_table(RU_JSON);
    let requested: Option<String> = if str_equal(desired, "ru") {
        lookup(&ru, key)
    } else if str_equal(desired, "en") {
        let en = load_table(EN_JSON);
        lookup(&en, key)
    } else {
        None
    };
    let val = match requested {
        Some(v) => v,
        None => match lookup(&ru, key) {
            Some(v) => v,
            None => owned(key),
        },
    };
    match params {
        Some(p) => substitute(val, p),
        None => val,
    }
}

/// Translates `key` into the default language.
pub fn t(key: &str) -> (r: String)
    ensures
        r@ == translate(None, key@, None),
{
    tr(None, key, None)
}

/// Translates `key` into the default language and fills in the placeholders.
pub fn t_with(key: &str, params: &[(&str, &str)]) -> (r: String)
    ensures
        r@ == translate(None, key@, Some(str_pairs_view(params@))),
{
    tr(None, key, Some(params))
}

// ---------------------------------------------------------------------------
// Laws
// ---------------------------------------------------------------------------

/// A key that neither the requested table nor the default table holds translates to
/// itself (when no parameters are given).
pub proof fn law_missing_key_is_returned(lang: Option<Seq<char>>, key: Seq<char>)
    requires
        pairs_lookup(table_entries(RU_JSON@), key) is None,
        pairs_lookup(table_entries(EN_JSON@), key) is None,
    ensures
        translate(lang, key, None) == key,
{
}

/// A language without a table behaves exactly as the default language.
pub proof fn law_unknown_language_uses_default(
    lang: Seq<char>,
    key: Seq<char>,
    params: Option<Seq<(Seq<char>, Seq<char>)>>,
)
    requires
        !supported_language(lang),
    ensures
        translate(Some(lang), key, params) == translate(None, key, params),
        translate(Some(lang), key, params) == translate(Some(ru_code()), key, params),
{
}

/// A message found in the requested table is the one returned.
pub proof fn law_requested_table_wins(lang: Seq<char>, key: Seq<char>, msg: Seq<char>)
    requires
        language_table(lang) matches Some(t) && pairs_lookup(t, key) == Some(msg),
    ensures
        translate(Some(lang), key, None) == msg,
{
}

/// Filling in no parameters changes nothing.
pub proof fn law_empty_params_identity(lang: Option<Seq<char>>, key: Seq<char>)
    ensures
        translate(lang, key, Some(Seq::empty())) == translate(lang, key, None),
{
}

proof fn lemma_before_first_has_no_sep(s: Seq<char>, sep: char)
    ensures
        !before_first(s, sep).contains(sep),
        before_first(before_first(s, sep), sep) == before_first(s, sep),
    decreases s.len(),
{
    if s.len() > 0 && s[0] != sep {
        lemma_before_first_has_no_sep(s.skip(1), sep);
        let r = before_first(s.skip(1), sep);
        let whole = seq![s[0]] + r;
        assert(whole.skip(1) =~= r);
        assert forall|i: int| 0 <= i < whole.len() implies whole[i] != sep by {
            if i > 0 {
                assert(whole[i] == r[i - 1]);
            }
        }
    }
}

proof fn lemma_no_sep_before_first(s: Seq<char>, sep: char)
    requires
        !s.contains(sep),
    ensures
        before_first(s, sep) == s,
    decreases s.len(),
{
    if s.len() > 0 {
        assert(s[0] != sep);
        assert(!s.skip(1).contains(sep)) by {
            if s.skip(1).contains(sep) {
                let i = choose|i: int| 0 <= i < s.skip(1).len() && s.skip(1)[i] == sep;
                assert(s[i + 1] == sep);
            }
        }
        lemma_no_sep_before_first(s.skip(1), sep);
        assert(seq![s[0]] + s.skip(1) =~= s);
    }
}

/// For an ASCII tag, the code holds no `-`, and normalizing twice gives the same code
/// as normalizing once.
pub proof fn law_normalize_language_idempotent(lang: Seq<char>)
    requires
        all_ascii(lang),
    ensures
        all_ascii(normalized_ascii_language(lang)),
        !normalized_ascii_language(lang).contains('-'),
        normalized_ascii_language(normalized_ascii_language(lang)) == normalized_ascii_language(
            lang,
        ),
{
    let head = before_first(lang, '-');
    lemma_before_first_prefix(lang, '-');
    assert(all_ascii(head)) by {
        assert forall|i: int| 0 <= i < head.len() implies (#[trigger] head[i] as u32) < 128 by {
            assert(head[i] == lang[i]);
        }
    }
    lemma_ascii_lower_facts(head);
    let low = ascii_lower(head);
    lemma_before_first_has_no_sep(lang, '-');
    assert(!low.contains('-')) by {
        if low.contains('-') {
            let i = choose|i: int| 0 <= i < low.len() && low[i] == '-';
            assert(ascii_lower_char(head[i]) == '-');
            assert(head[i] == '-');
        }
    }
    lemma_no_sep_before_first(low, '-');
    lemma_ascii_lower_facts(low);
    assert(ascii_lower(low) =~= low) by {
        assert forall|i: int| 0 <= i < low.len() implies ascii_lower(low)[i] == low[i] by {
            assert(ascii_lower_char(ascii_lower_char(head[i])) == ascii_lower_char(head[i]));
        }
    }
}

proof fn lemma_before_first_prefix(s: Seq<char>, sep: char)
    ensures
        before_first(s, sep).len() <= s.len(),
        forall|i: int|
            0 <= i < before_first(s, sep).len() ==> #[trigger] before_first(s, sep)[i] == s[i],
    decreases s.len(),
{
    if s.len() > 0 && s[0] != sep {
        lemma_before_first_prefix(s.skip(1), sep);
        let r = before_first(s.skip(1), sep);
        assert forall|i: int| 0 <= i < before_first(s, sep).len() implies #[trigger] before_first(
            s,
            sep,
        )[i] == s[i] by {
            if i > 0 {
                assert(before_first(s, sep)[i] == r[i - 1]);
                assert(s.skip(1)[i - 1] == s[i]);
            }
        }
    }
}

proof fn lemma_ascii_lower_facts(s: Seq<char>)
    requires
        all_ascii(s),
    ensures
        all_ascii(ascii_lower(s)),
        ascii_lower(s).len() == s.len(),
{
    assert forall|i: int| 0 <= i < ascii_lower(s).len() implies (
    #[trigger] ascii_lower(s)[i] as u32) < 128 by {
        assert((s[i] as u32) < 128);
    }
}

} // verus!
