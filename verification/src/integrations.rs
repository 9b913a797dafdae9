//! Integrations: who may see or manage a user's integrations, which Telegram chat an
//! integration posts to, and how a new Telegram integration is checked.
use vstd::prelude::*;

use crate::chat_type::ChatType;
use crate::error::AppError;
use crate::i18n::{t, translate};
use crate::models::{CreateTelegramIntegration, SettingsShare, User};
use crate::text::{
    all_ascii_digits, all_digits_from, chars_of, owned, starts_with, str_equal, trim_seq, trim_str,
};

verus! {

broadcast use vstd::string::group_string_axioms;

/// Integration access rules and checks.
pub struct IntegrationService;

/// The default-language text of a message key.
pub open spec fn text_of(key: Seq<char>) -> Seq<char> {
    translate(None, key, None)
}

/// Is `e` a validation error with the default-language text of `key`?
pub open spec fn is_validation(e: AppError, key: Seq<char>) -> bool {
    e matches AppError::Validation(m) && m@ == text_of(key)
}

/// Does a user get access to an owner's integrations? The owner always does; another
/// user needs a share, one that allows managing when `require_manage`.
pub open spec fn access_granted(
    owner_id: Seq<char>,
    user_id: Seq<char>,
    share: Option<SettingsShare>,
    require_manage: bool,
) -> bool {
    if owner_id == user_id {
        true
    } else {
        match share {
            Some(s) => !require_manage || s.can_manage,
            None => false,
        }
    }
}

/// Access rules between users: the owner always has full access, and whoever may manage
/// an owner's integrations may also see them.
pub proof fn law_manage_access_implies_read_access(
    owner_id: Seq<char>,
    user_id: Seq<char>,
    share: Option<SettingsShare>,
)
    ensures
        access_granted(owner_id, owner_id, share, true),
        access_granted(owner_id, user_id, share, true) ==> access_granted(
            owner_id,
            user_id,
            share,
            false,
        ),
        owner_id != user_id && share is None ==> !access_granted(owner_id, user_id, share, false),
{
}

/// Is a Telegram chat id well formed for the chat type? A group needs `-` and digits
/// (at least one); a supergroup or channel needs `-100` and digits (at least one); other
/// types take anything. The id is trimmed first.
pub open spec fn chat_id_valid(chat_id: Seq<char>, chat_type: Option<Seq<char>>) -> bool {
    let id = trim_seq(chat_id);
    match chat_type {
        Some(ct) => if ct == "group"@ {
            id.len() >= 2 && starts_with(id, "-"@) && all_ascii_digits(id.skip(1))
        } else if ct == "supergroup"@ || ct == "channel"@ {
            id.len() >= 5 && starts_with(id, "-100"@) && all_ascii_digits(id.skip(4))
        } else {
            true
        },
        None => true,
    }
}

/// The error for a malformed chat id of a given type.
pub open spec fn chat_id_error_key(chat_type: Seq<char>) -> Seq<char> {
    if chat_type == "group"@ {
        "validation.chat_id.group_invalid"@
    } else {
        "validation.chat_id.supergroup_invalid"@
    }
}

/// Is `id` (already trimmed) a well-formed group id (`-` then digits)?
fn group_id_ok(id: &str) -> (r: bool)
    ensures
        r == (id@.len() >= 2 && starts_with(id@, "-"@) && all_ascii_digits(id@.skip(1))),
{
    let v = chars_of(id);
    if v.len() < 2 {
        return false;
    }
    if !crate::text::str_starts_with(id, "-") {
        return false;
    }
    all_digits_from(&v, 1)
}

/// Is `id` (already trimmed) a well-formed supergroup or channel id (`-100` then digits)?
fn supergroup_id_ok(id: &str) -> (r: bool)
    ensures
        r == (id@.len() >= 5 && starts_with(id@, "-100"@) && all_ascii_digits(id@.skip(4))),
{
    let v = chars_of(id);
    if v.len() < 5 {
        return false;
    }
    if !crate::text::str_starts_with(id, "-100") {
        return false;
    }
    all_digits_from(&v, 4)
}

/// The account that an integration on behalf of `owner_id` is checked against: the
/// owner's own when the owner acts, else the acting user's.
pub open spec fn account_checked(owner_id: Seq<char>, auth_user: User, owner_user: User) -> Option<
    String,
> {
    if owner_id == auth_user.id@ {
        owner_user.discord_user_id
    } else {
        auth_user.discord_user_id
    }
}

impl IntegrationService {
    /// Does a user get access to an owner's integrations, given the owner's share with
    /// that user (if any)?
    pub fn check_access(
        owner_id: &str,
        user_id: &str,
        share: Option<&SettingsShare>,
        require_manage: bool,
    ) -> (r: bool)
        ensures
            r == access_granted(
                owner_id@,
                user_id@,
                match share {
                    Some(s) => Some(*s),
                    None => None,
                },
                require_manage,
            ),
    {
        if str_equal(owner_id, user_id) {
            return true;
        }
        match share {
            Some(s) => !require_manage || s.can_manage,
            None => false,
        }
    }

    /// Checks the form of a Telegram chat id for its chat type.
    pub fn validate_telegram_chat_id(chat_id: &str, chat_type: Option<&str>) -> (r: Result<
        (),
        AppError,
    >)
        ensures
            ({
                let ct = match chat_type {
                    Some(c) => Some(c@),
                    None => None,
                };
                if chat_id_valid(chat_id@, ct) {
                    r is Ok
                } else {
                    r matches Err(e) && is_validation(e, chat_id_error_key(ct->0))
                }
            }),
    {
        let id = trim_str(chat_id);
        match chat_type {
            Some(ct) => {
                if str_equal(ct, "group") {
                    if !group_id_ok(id.as_str()) {
                        return Err(AppError::Validation(t("validation.chat_id.group_invalid")));
                    }
                } else if str_equal(ct, "supergroup") || str_equal(ct, "channel") {
                    if !supergroup_id_ok(id.as_str()) {
                        return Err(
                            AppError::Validation(t("validation.chat_id.supergroup_invalid")),
                        );
                    }
                }
                Ok(())
            },
            None => Ok(()),
        }
    }

    /// The Discord account whose permissions are checked for an integration on behalf of
    /// `owner_id`: the owner's when the owner acts, else the acting user's.
    pub fn select_discord_account_to_check(
        owner_id: &str,
        auth_user: &User,
        owner_user: &User,
    ) -> (r: Result<String, AppError>)
        ensures
            match account_checked(owner_id@, *auth_user, *owner_user) {
                Some(id) => r == Ok::<String, AppError>(id),
                None => r matches Err(e) && (e matches AppError::BadRequest(m) && m@ == text_of(
                    "bad_request.no_discord_linked"@,
                )),
            },
    {
        select_discord_account_to_check(owner_id, auth_user, owner_user)
    }

    /// The chat a new Telegram integration posts to: for a private chat, the Telegram
    /// account of the acting user (on behalf of someone else) or of the owner; otherwise
    /// the given id, trimmed, once the owner has linked Telegram.
    pub fn determine_telegram_chat_id(
        owner_id: &str,
        auth_user: &User,
        owner_user: &User,
        chat_type: Option<&str>,
        provided_chat_id: &str,
    ) -> (r: Result<String, AppError>)
        ensures
            ({
                let private = chat_type matches Some(c) && c@ == "private"@;
                let source = if owner_id@ != auth_user.id@ {
                    auth_user.telegram_user_id
                } else {
                    owner_user.telegram_user_id
                };
                if private {
                    match source {
                        Some(id) => r == Ok::<String, AppError>(id),
                        None => r matches Err(e) && is_validation(
                            e,
                            "validation.owner_telegram_not_linked"@,
                        ),
                    }
                } else if owner_user.telegram_user_id is None {
                    r matches Err(e) && is_validation(e, "validation.owner_telegram_not_linked"@)
                } else {
                    r matches Ok(id) && id@ == trim_seq(provided_chat_id@)
                }
            }),
    {
        let private = match chat_type {
            Some(c) => str_equal(c, "private"),
            None => false,
        };
        if private {
            let source = if !str_equal(owner_id, auth_user.id.as_str()) {
                &auth_user.telegram_user_id
            } else {
                &owner_user.telegram_user_id
            };
            match source {
                Some(id) => Ok(id.clone()),
                None => Err(AppError::Validation(t("validation.owner_telegram_not_linked"))),
            }
        } else {
            if owner_user.telegram_user_id.is_none() {
                return Err(AppError::Validation(t("validation.owner_telegram_not_linked")));
            }
            Ok(trim_str(provided_chat_id))
        }
    }
}

/// The Discord account whose permissions are checked for an integration on behalf of
/// `owner_id`: the owner's when the owner acts, else the acting user's; a bad request when
/// that account has no Discord linked.
pub fn select_discord_account_to_check(owner_id: &str, auth_user: &User, owner_user: &User) -> (r:
    Result<String, AppError>)
    ensures
        match account_checked(owner_id@, *auth_user, *owner_user) {
            Some(id) => r == Ok::<String, AppError>(id),
            None => r matches Err(e) && (e matches AppError::BadRequest(m) && m@ == text_of(
                "bad_request.no_discord_linked"@,
            )),
        },
{
    let source = if str_equal(owner_id, auth_user.id.as_str()) {
        &owner_user.discord_user_id
    } else {
        &auth_user.discord_user_id
    };
    match source {
        Some(id) => Ok(id.clone()),
        None => Err(AppError::BadRequest(t("bad_request.no_discord_linked"))),
    }
}

// ---------------------------------------------------------------------------
// Creating a Telegram integration
// ---------------------------------------------------------------------------

/// A request to add a Telegram integration.
#[derive(Debug, Clone, PartialEq, Eq)]
pub struct CreateTelegramRequest {
    pub telegram_chat_id: String,
    pub telegram_chat_title: Option<String>,
    pub telegram_chat_type: Option<String>,
}

/// How the admin check of the owner in a group chat came out.
#[derive(Debug, Clone, Copy, PartialEq, Eq, Structural)]
pub enum AdminCheck {
    /// The server has no Telegram bot.
    NoBot,
    IsAdmin,
    NotAdmin,
    /// Whether the user is an admin could not be learned (for example, the bot is not in
    /// the chat).
    Failed,
}

/// Where adding a Telegram integration stands.
#[derive(Debug, Clone, PartialEq, Eq)]
pub enum CreateTelegramPhase {
    Start,
    AwaitShare,
    AwaitOwner,
    /// The owner must be an admin of this chat (of this type).
    AwaitAdmin { chat_id: String, chat_type: String },
    /// No integration of the owner may post to this chat yet.
    AwaitExists { chat_id: String, chat_type: String },
    Done,
}

/// What happened after the last action.
#[derive(Debug, Clone, PartialEq, Eq)]
pub enum CreateTelegramEvent {
    Begin,
    /// The owner's share with the acting user: `None` when there is none, else whether
    /// it allows managing.
    ShareFound(Option<bool>),
    /// The owner, if found.
    OwnerFound(Option<User>),
    AdminChecked(AdminCheck),
    /// Whether the owner already has an integration for the chat.
    ExistsChecked(bool),
}

/// What is done next.
#[derive(Debug, Clone, PartialEq, Eq)]
pub enum CreateTelegramAction {
    LookupShare,
    LookupOwner,
    /// Check that the Telegram user `user_id` is an admin of the chat.
    CheckAdmin { chat_id: String, user_id: String },
    CheckExists { chat_id: String },
    /// Record the integration for the owner.
    Create(CreateTelegramIntegration),
    Fail(AppError),
}

/// The chat type a request asks for (private when none is given).
pub open spec fn requested_chat_type(req: CreateTelegramRequest) -> Seq<char> {
    match req.telegram_chat_type {
        Some(c) => c@,
        None => "private"@,
    }
}

/// Is the chat type one that needs an admin check (group, supergroup or channel)?
pub open spec fn group_like(chat_type: Seq<char>) -> bool {
    chat_type == "group"@ || chat_type == "supergroup"@ || chat_type == "channel"@
}

/// The integration recorded for a checked request.
pub open spec fn recorded_integration(
    req: CreateTelegramRequest,
    chat_id: Seq<char>,
    chat_type: Seq<char>,
    c: CreateTelegramIntegration,
) -> bool {
    c.telegram_chat_id@ == chat_id && c.telegram_chat_title == req.telegram_chat_title
        && c.telegram_chat_type == crate::chat_type::chat_type_parse(chat_type)
}

/// Is `r` the next phase and action of adding a Telegram integration for `owner_id`, by
/// `user_id`, after `event` in `phase`?
pub open spec fn create_telegram_step_is(
    owner_id: Seq<char>,
    user_id: Seq<char>,
    req: CreateTelegramRequest,
    phase: CreateTelegramPhase,
    event: CreateTelegramEvent,
    r: (CreateTelegramPhase, CreateTelegramAction),
) -> bool {
    match (phase, event) {
        (CreateTelegramPhase::Start, CreateTelegramEvent::Begin) => if owner_id != user_id {
            r == (CreateTelegramPhase::AwaitShare, CreateTelegramAction::LookupShare)
        } else {
            r == (CreateTelegramPhase::AwaitOwner, CreateTelegramAction::LookupOwner)
        },
        (CreateTelegramPhase::AwaitShare, CreateTelegramEvent::ShareFound(share)) => if share
            == Some(true) {
            r == (CreateTelegramPhase::AwaitOwner, CreateTelegramAction::LookupOwner)
        } else {
            r == (CreateTelegramPhase::Done, CreateTelegramAction::Fail(AppError::Forbidden))
        },
        (CreateTelegramPhase::AwaitOwner, CreateTelegramEvent::OwnerFound(owner)) => match owner {
            None => r.0 == CreateTelegramPhase::Done && (r.1 matches CreateTelegramAction::Fail(e)
                && (e matches AppError::NotFound(m) && m@ == "User not found"@)),
            Some(o) => match o.telegram_user_id {
                None => r.0 == CreateTelegramPhase::Done && (r.1 matches CreateTelegramAction::Fail(
                    e,
                ) && is_validation(e, "validation.owner_telegram_not_linked"@)),
                Some(tg) => {
                    let ct = requested_chat_type(req);
                    let id = if ct == "private"@ {
                        trim_seq(tg@)
                    } else {
                        trim_seq(req.telegram_chat_id@)
                    };
                    if !chat_id_valid(id, Some(ct)) {
                        r.0 == CreateTelegramPhase::Done && (r.1 matches CreateTelegramAction::Fail(
                            e,
                        ) && is_validation(e, chat_id_error_key(ct)))
                    } else if group_like(ct) {
                        (r.0 matches CreateTelegramPhase::AwaitAdmin { chat_id, chat_type }
                            && chat_id@ == id && chat_type@ == ct) && (
                        r.1 matches CreateTelegramAction::CheckAdmin { chat_id, user_id }
                            && chat_id@ == id && user_id == tg)
                    } else {
                        (r.0 matches CreateTelegramPhase::AwaitExists { chat_id, chat_type }
                            && chat_id@ == id && chat_type@ == ct) && (
                        r.1 matches CreateTelegramAction::CheckExists { chat_id } && chat_id@ == id)
                    }
                },
            },
        },
        (
            CreateTelegramPhase::AwaitAdmin { chat_id, chat_type },
            CreateTelegramEvent::AdminChecked(check),
        ) => match check {
            AdminCheck::IsAdmin => r == (
                CreateTelegramPhase::AwaitExists { chat_id, chat_type },
                CreateTelegramAction::CheckExists { chat_id },
            ),
            AdminCheck::NoBot => r.0 == CreateTelegramPhase::Done && (
            r.1 matches CreateTelegramAction::Fail(e) && is_validation(
                e,
                "validation.telegram_bot_not_configured"@,
            )),
            AdminCheck::NotAdmin => r.0 == CreateTelegramPhase::Done && (
            r.1 matches CreateTelegramAction::Fail(e) && is_validation(
                e,
                "validation.must_be_admin"@,
            )),
            AdminCheck::Failed => r.0 == CreateTelegramPhase::Done && (
            r.1 matches CreateTelegramAction::Fail(e) && is_validation(
                e,
                "validation.admin_check_failed"@,
            )),
        },
        (
            CreateTelegramPhase::AwaitExists { chat_id, chat_type },
            CreateTelegramEvent::ExistsChecked(exists),
        ) => if exists {
            r.0 == CreateTelegramPhase::Done && (r.1 matches CreateTelegramAction::Fail(e) && (
            e matches AppError::Conflict(m) && m@ == "Integration already exists for this chat"@))
        } else {
            r.0 == CreateTelegramPhase::Done && (r.1 matches CreateTelegramAction::Create(c)
                && recorded_integration(req, chat_id@, chat_type@, c))
        },
        _ => r.0 == CreateTelegramPhase::Done && (r.1 matches CreateTelegramAction::Fail(e) && (
        e matches AppError::BadRequest(m) && m@ == "Unexpected step"@)),
    }
}

/// The next phase and action of adding a Telegram integration for `owner_id` (the
/// owner named in the request, else the acting user), by `user_id`.
pub fn create_telegram_step(
    owner_id: &str,
    user_id: &str,
    req: &CreateTelegramRequest,
    phase: CreateTelegramPhase,
    event: CreateTelegramEvent,
) -> (r: (CreateTelegramPhase, CreateTelegramAction))
    ensures
        create_telegram_step_is(owner_id@, user_id@, *req, phase, event, r),
{
    match (phase, event) {
        (CreateTelegramPhase::Start, CreateTelegramEvent::Begin) => {
            if !str_equal(owner_id, user_id) {
                (CreateTelegramPhase::AwaitShare, CreateTelegramAction::LookupShare)
            } else {
                (CreateTelegramPhase::AwaitOwner, CreateTelegramAction::LookupOwner)
            }
        },
        (CreateTelegramPhase::AwaitShare, CreateTelegramEvent::ShareFound(share)) => {
            match share {
                Some(true) => (CreateTelegramPhase::AwaitOwner, CreateTelegramAction::LookupOwner),
                _ => (CreateTelegramPhase::Done, CreateTelegramAction::Fail(AppError::Forbidden)),
            }
        },
        (CreateTelegramPhase::AwaitOwner, CreateTelegramEvent::OwnerFound(owner)) => {
            match owner {
                None => (
                    CreateTelegramPhase::Done,
                    CreateTelegramAction::Fail(AppError::NotFound(owned("User not found"))),
                ),
                Some(o) => match o.telegram_user_id {
                    None => (
                        CreateTelegramPhase::Done,
                        CreateTelegramAction::Fail(
                            AppError::Validation(t("validation.owner_telegram_not_linked")),
                        ),
                    ),
                    Some(tg) => {
                        let ct = match &req.telegram_chat_type {
                            Some(c) => c.clone(),
                            None => owned("private"),
                        };
                        let id = if str_equal(ct.as_str(), "private") {
                            trim_str(tg.as_str())
                        } else {
                            trim_str(req.telegram_chat_id.as_str())
                        };
                        match IntegrationService::validate_telegram_chat_id(
                            id.as_str(),
                            Some(ct.as_str()),
                        ) {
                            Err(e) => (CreateTelegramPhase::Done, CreateTelegramAction::Fail(e)),
                            Ok(()) => {
                                if str_equal(ct.as_str(), "group") || str_equal(
                                    ct.as_str(),
                                    "supergroup",
                                ) || str_equal(ct.as_str(), "channel") {
                                    (
                                        CreateTelegramPhase::AwaitAdmin {
                                            chat_id: id.clone(),
                                            chat_type: ct,
                                        },
                                        CreateTelegramAction::CheckAdmin {
                                            chat_id: id,
                                            user_id: tg,
                                        },
                                    )
                                } else {
                                    (
                                        CreateTelegramPhase::AwaitExists {
                                            chat_id: id.clone(),
                                            chat_type: ct,
                                        },
                                        CreateTelegramAction::CheckExists { chat_id: id },
                                    )
                                }
                            },
                        }
                    },
                },
            }
        },
        (
            CreateTelegramPhase::AwaitAdmin { chat_id, chat_type },
            CreateTelegramEvent::AdminChecked(check),
        ) => match check {
            AdminCheck::IsAdmin => (
                CreateTelegramPhase::AwaitExists { chat_id: chat_id.clone(), chat_type },
                CreateTelegramAction::CheckExists { chat_id },
            ),
            AdminCheck::NoBot => (
                CreateTelegramPhase::Done,
                CreateTelegramAction::Fail(
                    AppError::Validation(t("validation.telegram_bot_not_configured")),
                ),
            ),
            AdminCheck::NotAdmin => (
                CreateTelegramPhase::Done,
                CreateTelegramAction::Fail(AppError::Validation(t("validation.must_be_admin"))),
            ),
            AdminCheck::Failed => (
                CreateTelegramPhase::Done,
                CreateTelegramAction::Fail(AppError::Validation(t("validation.admin_check_failed"))),
            ),
        },
        (
            CreateTelegramPhase::AwaitExists { chat_id, chat_type },
            CreateTelegramEvent::ExistsChecked(exists),
        ) => {
            if exists {
                (
                    CreateTelegramPhase::Done,
                    CreateTelegramAction::Fail(
                        AppError::Conflict(owned("Integration already exists for this chat")),
                    ),
                )
            } else {
                let kind = ChatType::from_str(chat_type.as_str());
                (
                    CreateTelegramPhase::Done,
                    CreateTelegramAction::Create(
                        CreateTelegramIntegration {
                            telegram_chat_id: chat_id,
                            telegram_chat_title: req.telegram_chat_title.clone(),
                            telegram_chat_type: kind,
                        },
                    ),
                )
            }
        },
        _ => (
            CreateTelegramPhase::Done,
            CreateTelegramAction::Fail(AppError::BadRequest(owned("Unexpected step"))),
        ),
    }
}

} // verus!
