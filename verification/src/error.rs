//! The service's error type, and how each error is answered over HTTP
//! (status code, machine-readable code and the message shown to the client).
use vstd::prelude::*;

use crate::text::{concat2, owned};

verus! {

broadcast use vstd::string::group_string_axioms;

/// Everything a request can fail with. Errors that come from a library
/// (database, JWT, HTTP client, internal failures) carry that library's message.
#[derive(Debug, Clone, PartialEq, Eq)]
pub enum AppError {
    Unauthorized,
    Forbidden,
    NotFound(String),
    BadRequest(String),
    Conflict(String),
    RateLimited,
    Internal(String),
    Database(String),
    Jwt(String),
    Request(String),
    TwitchApi(String),
    Telegram(String),
    Discord(String),
    Config(String),
    Validation(String),
    ServiceUnavailable(String),
}

/// The human-readable text of an error (its `Display` form).
pub open spec fn app_error_text(e: AppError) -> Seq<char> {
    match e {
        AppError::Unauthorized => "Authentication required"@,
        AppError::Forbidden => "Access denied"@,
        AppError::NotFound(m) => "Resource not found: "@ + m@,
        AppError::BadRequest(m) => "Bad request: "@ + m@,
        AppError::Conflict(m) => "Conflict: "@ + m@,
        AppError::RateLimited => "Rate limit exceeded"@,
        AppError::Internal(_) => "Internal server error"@,
        AppError::Database(m) => "Database error: "@ + m@,
        AppError::Jwt(m) => "JWT error: "@ + m@,
        AppError::Request(m) => "Request error: "@ + m@,
        AppError::TwitchApi(m) => "Twitch API error: "@ + m@,
        AppError::Telegram(m) => "Telegram error: "@ + m@,
        AppError::Discord(m) => "Discord error: "@ + m@,
        AppError::Config(m) => "Configuration error: "@ + m@,
        AppError::Validation(m) => "Validation error: "@ + m@,
        AppError::ServiceUnavailable(m) => "External service unavailable: "@ + m@,
    }
}

/// The HTTP status an error is answered with.
pub open spec fn app_error_status(e: AppError) -> u16 {
    match e {
        AppError::Unauthorized => 401,
        AppError::Forbidden => 403,
        AppError::NotFound(_) => 404,
        AppError::BadRequest(_) => 400,
        AppError::Conflict(_) => 409,
        AppError::RateLimited => 429,
        AppError::Validation(_) => 422,
        AppError::Database(_) => 500,
        AppError::Jwt(_) => 401,
        AppError::Request(_) => 502,
        AppError::TwitchApi(_) => 502,
        AppError::Telegram(_) => 502,
        AppError::Discord(_) => 502,
        AppError::Config(_) => 500,
        AppError::ServiceUnavailable(_) => 503,
        AppError::Internal(_) => 500,
    }
}

/// The machine-readable code of the answer.
pub open spec fn app_error_code(e: AppError) -> Seq<char> {
    match e {
        AppError::Unauthorized => "UNAUTHORIZED"@,
        AppError::Forbidden => "FORBIDDEN"@,
        AppError::NotFound(_) => "NOT_FOUND"@,
        AppError::BadRequest(_) => "BAD_REQUEST"@,
        AppError::Conflict(_) => "CONFLICT"@,
        AppError::RateLimited => "RATE_LIMITED"@,
        AppError::Validation(_) => "VALIDATION_ERROR"@,
        AppError::Database(_) => "DATABASE_ERROR"@,
        AppError::Jwt(_) => "INVALID_TOKEN"@,
        AppError::Request(_) => "EXTERNAL_REQUEST_FAILED"@,
        AppError::TwitchApi(_) => "TWITCH_API_ERROR"@,
        AppError::Telegram(_) => "TELEGRAM_ERROR"@,
        AppError::Discord(_) => "DISCORD_ERROR"@,
        AppError::Config(_) => "CONFIG_ERROR"@,
        AppError::ServiceUnavailable(_) => "SERVICE_UNAVAILABLE"@,
        AppError::Internal(_) => "INTERNAL_ERROR"@,
    }
}

/// The message shown to the client: the carried message for client errors, a fixed
/// sentence for failures whose details stay on the server.
pub open spec fn app_error_public_message(e: AppError) -> Seq<char> {
    match e {
        AppError::NotFound(m) => m@,
        AppError::BadRequest(m) => m@,
        AppError::Conflict(m) => m@,
        AppError::Validation(m) => m@,
        AppError::TwitchApi(m) => m@,
        AppError::Telegram(m) => m@,
        AppError::Discord(m) => m@,
        AppError::ServiceUnavailable(m) => m@,
        AppError::Database(_) => "A database error occurred"@,
        AppError::Jwt(_) => "Invalid or expired token"@,
        AppError::Request(_) => "Failed to communicate with external service"@,
        AppError::Config(_) => "Server configuration error"@,
        AppError::Internal(_) => "An internal error occurred"@,
        _ => app_error_text(e),
    }
}

/// The errors that an answer with details reports as themselves; every other error
/// becomes an opaque internal error there.
pub open spec fn shown_with_details(e: AppError) -> bool {
    match e {
        AppError::Unauthorized | AppError::Forbidden | AppError::NotFound(_)
        | AppError::BadRequest(_) | AppError::Conflict(_) | AppError::RateLimited
        | AppError::Validation(_) => true,
        _ => false,
    }
}

impl AppError {
    /// The human-readable text of the error.
    pub fn message(&self) -> (r: String)
        ensures
            r@ == app_error_text(*self),
    {
        match self {
            AppError::Unauthorized => owned("Authentication required"),
            AppError::Forbidden => owned("Access denied"),
            AppError::NotFound(m) => concat2("Resource not found: ", m.as_str()),
            AppError::BadRequest(m) => concat2("Bad request: ", m.as_str()),
            AppError::Conflict(m) => concat2("Conflict: ", m.as_str()),
            AppError::RateLimited => owned("Rate limit exceeded"),
            AppError::Internal(_) => owned("Internal server error"),
            AppError::Database(m) => concat2("Database error: ", m.as_str()),
            AppError::Jwt(m) => concat2("JWT error: ", m.as_str()),
            AppError::Request(m) => concat2("Request error: ", m.as_str()),
            AppError::TwitchApi(m) => concat2("Twitch API error: ", m.as_str()),
            AppError::Telegram(m) => concat2("Telegram error: ", m.as_str()),
            AppError::Discord(m) => concat2("Discord error: ", m.as_str()),
            AppError::Config(m) => concat2("Configuration error: ", m.as_str()),
            AppError::Validation(m) => concat2("Validation error: ", m.as_str()),
            AppError::ServiceUnavailable(m) => concat2(
                "External service unavailable: ",
                m.as_str(),
            ),
        }
    }

    /// The HTTP status the error is answered with.
    pub fn status_code(&self) -> (r: u16)
        ensures
            r == app_error_status(*self),
    {
        match self {
            AppError::Unauthorized => 401,
            AppError::Forbidden => 403,
            AppError::NotFound(_) => 404,
            AppError::BadRequest(_) => 400,
            AppError::Conflict(_) => 409,
            AppError::RateLimited => 429,
            AppError::Validation(_) => 422,
            AppError::Database(_) => 500,
            AppError::Jwt(_) => 401,
            AppError::Request(_) => 502,
            AppError::TwitchApi(_) => 502,
            AppError::Telegram(_) => 502,
            AppError::Discord(_) => 502,
            AppError::Config(_) => 500,
            AppError::ServiceUnavailable(_) => 503,
            AppError::Internal(_) => 500,
        }
    }

    /// The machine-readable code of the answer.
    pub fn code(&self) -> (r: &'static str)
        ensures
            r@ == app_error_code(*self),
    {
        match self {
            AppError::Unauthorized => "UNAUTHORIZED",
            AppError::Forbidden => "FORBIDDEN",
            AppError::NotFound(_) => "NOT_FOUND",
            AppError::BadRequest(_) => "BAD_REQUEST",
            AppError::Conflict(_) => "CONFLICT",
            AppError::RateLimited => "RATE_LIMITED",
            AppError::Validation(_) => "VALIDATION_ERROR",
            AppError::Database(_) => "DATABASE_ERROR",
            AppError::Jwt(_) => "INVALID_TOKEN",
            AppError::Request(_) => "EXTERNAL_REQUEST_FAILED",
            AppError::TwitchApi(_) => "TWITCH_API_ERROR",
            AppError::Telegram(_) => "TELEGRAM_ERROR",
            AppError::Discord(_) => "DISCORD_ERROR",
            AppError::Config(_) => "CONFIG_ERROR",
            AppError::ServiceUnavailable(_) => "SERVICE_UNAVAILABLE",
            AppError::Internal(_) => "INTERNAL_ERROR",
        }
    }

    /// The message shown to the client.
    pub fn public_message(&self) -> (r: String)
        ensures
            r@ == app_error_public_message(*self),
    {
        match self {
            AppError::NotFound(m) => m.clone(),
            AppError::BadRequest(m) => m.clone(),
            AppError::Conflict(m) => m.clone(),
            AppError::Validation(m) => m.clone(),
            AppError::TwitchApi(m) => m.clone(),
            AppError::Telegram(m) => m.clone(),
            AppError::Discord(m) => m.clone(),
            AppError::ServiceUnavailable(m) => m.clone(),
            AppError::Database(_) => owned("A database error occurred"),
            AppError::Jwt(_) => owned("Invalid or expired token"),
            AppError::Request(_) => owned("Failed to communicate with external service"),
            AppError::Config(_) => owned("Server configuration error"),
            AppError::Internal(_) => owned("An internal error occurred"),
            _ => self.message(),
        }
    }

    /// The answer's status, code and message: `(status, code, message)`.
    pub fn response_parts(&self) -> (r: (u16, String, String))
        ensures
            r.0 == app_error_status(*self),
            r.1@ == app_error_code(*self),
            r.2@ == app_error_public_message(*self),
    {
        (self.status_code(), owned(self.code()), self.public_message())
    }

    /// Attaches details to the error.
    pub fn with_details(self, details: serde_json::Value) -> (r: AppErrorWithDetails)
        ensures
            r.error == self,
            r.details == Some(details),
    {
        AppErrorWithDetails { error: self, details: Some(details) }
    }
}

/// An error answered together with details.
#[derive(Debug, Clone)]
pub struct AppErrorWithDetails {
    pub error: AppError,
    pub details: Option<serde_json::Value>,
}

impl AppErrorWithDetails {
    /// An error without details.
    pub fn from_error(error: AppError) -> (r: AppErrorWithDetails)
        ensures
            r.error == error,
            r.details is None,
    {
        AppErrorWithDetails { error, details: None }
    }

    /// The answer's status, code and message: client errors as themselves, everything
    /// else as an opaque internal error.
    pub fn response_parts(&self) -> (r: (u16, String, String))
        ensures
            shown_with_details(self.error) ==> r.0 == app_error_status(self.error) && r.1@
                == app_error_code(self.error) && r.2@ == app_error_public_message(self.error),
            !shown_with_details(self.error) ==> r.0 == 500 && r.1@ == "INTERNAL_ERROR"@ && r.2@
                == "An internal error occurred"@,
    {
        match &self.error {
            AppError::Unauthorized | AppError::Forbidden | AppError::NotFound(_)
            | AppError::BadRequest(_) | AppError::Conflict(_) | AppError::RateLimited
            | AppError::Validation(_) => self.error.response_parts(),
            _ => (500, owned("INTERNAL_ERROR"), owned("An internal error occurred")),
        }
    }
}

} // verus!
