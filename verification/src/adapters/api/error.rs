use vstd::prelude::*;

use crate::domain::error::{domain_error_text, DomainError};
use crate::domain::value_objects::text_equals;

verus! {

pub const STATUS_CREATED: u16 = 201;

pub const STATUS_NO_CONTENT: u16 = 204;

pub const STATUS_BAD_REQUEST: u16 = 400;

pub const STATUS_UNAUTHORIZED: u16 = 401;

pub const STATUS_FORBIDDEN: u16 = 403;

pub const STATUS_NOT_FOUND: u16 = 404;

pub const STATUS_CONFLICT: u16 = 409;

pub const STATUS_LOCKED: u16 = 423;

pub const STATUS_TOO_MANY_REQUESTS: u16 = 429;

pub const STATUS_INTERNAL_SERVER_ERROR: u16 = 500;

/// The machine-readable code of an API error.
#[derive(Debug, Clone, Copy, PartialEq, Eq, Structural)]
pub enum ErrorCode {
    ValidationError,
    InvalidCredentials,
    Unauthorized,
    Forbidden,
    NotFound,
    Conflict,
    AccountLocked,
    RateLimited,
    InternalError,
    SessionExpired,
    TokenInvalid,
}

/// The text of an error code.
pub open spec fn error_code_text(code: ErrorCode) -> Seq<char> {
    match code {
        ErrorCode::ValidationError => "VALIDATION_ERROR"@,
        ErrorCode::InvalidCredentials => "INVALID_CREDENTIALS"@,
        ErrorCode::Unauthorized => "UNAUTHORIZED"@,
        ErrorCode::Forbidden => "FORBIDDEN"@,
        ErrorCode::NotFound => "NOT_FOUND"@,
        ErrorCode::Conflict => "CONFLICT"@,
        ErrorCode::AccountLocked => "ACCOUNT_LOCKED"@,
        ErrorCode::RateLimited => "RATE_LIMIT_EXCEEDED"@,
        ErrorCode::InternalError => "INTERNAL_ERROR"@,
        ErrorCode::SessionExpired => "SESSION_EXPIRED"@,
        ErrorCode::TokenInvalid => "TOKEN_INVALID"@,
    }
}

impl ErrorCode {
    pub fn as_str(&self) -> (r: &'static str)
        ensures
            r@ == error_code_text(*self),
    {
        match self {
            ErrorCode::ValidationError => "VALIDATION_ERROR",
            ErrorCode::InvalidCredentials => "INVALID_CREDENTIALS",
            ErrorCode::Unauthorized => "UNAUTHORIZED",
            ErrorCode::Forbidden => "FORBIDDEN",
            ErrorCode::NotFound => "NOT_FOUND",
            ErrorCode::Conflict => "CONFLICT",
            ErrorCode::AccountLocked => "ACCOUNT_LOCKED",
            ErrorCode::RateLimited => "RATE_LIMIT_EXCEEDED",
            ErrorCode::InternalError => "INTERNAL_ERROR",
            ErrorCode::SessionExpired => "SESSION_EXPIRED",
            ErrorCode::TokenInvalid => "TOKEN_INVALID",
        }
    }
}

/// The body of an API error response: `{"error": {"code": .., "message": ..}}`.
#[derive(Debug)]
pub struct ApiErrorBody {
    pub code: String,
    pub message: String,
}

#[derive(Debug)]
pub struct ApiError {
    pub error: ApiErrorBody,
}

/// The HTTP status a response with error code `code` is sent with.
pub open spec fn code_status(code: Seq<char>) -> u16 {
    if code == "VALIDATION_ERROR"@ {
        STATUS_BAD_REQUEST
    } else if code == "INVALID_CREDENTIALS"@ {
        STATUS_UNAUTHORIZED
    } else if code == "UNAUTHORIZED"@ {
        STATUS_UNAUTHORIZED
    } else if code == "FORBIDDEN"@ {
        STATUS_FORBIDDEN
    } else if code == "NOT_FOUND"@ {
        STATUS_NOT_FOUND
    } else if code == "CONFLICT"@ {
        STATUS_CONFLICT
    } else if code == "ACCOUNT_LOCKED"@ {
        STATUS_LOCKED
    } else if code == "RATE_LIMIT_EXCEEDED"@ {
        STATUS_TOO_MANY_REQUESTS
    } else if code == "SESSION_EXPIRED"@ {
        STATUS_UNAUTHORIZED
    } else if code == "TOKEN_INVALID"@ {
        STATUS_UNAUTHORIZED
    } else {
        STATUS_INTERNAL_SERVER_ERROR
    }
}

/// The HTTP status for an error code's text; unknown codes are internal errors.
pub fn status_code_for_error_code(code: &str) -> (r: u16)
    ensures
        r == code_status(code@),
{
    if text_equals(code, "VALIDATION_ERROR") {
        STATUS_BAD_REQUEST
    } else if text_equals(code, "INVALID_CREDENTIALS") {
        STATUS_UNAUTHORIZED
    } else if text_equals(code, "UNAUTHORIZED") {
        STATUS_UNAUTHORIZED
    } else if text_equals(code, "FORBIDDEN") {
        STATUS_FORBIDDEN
    } else if text_equals(code, "NOT_FOUND") {
        STATUS_NOT_FOUND
    } else if text_equals(code, "CONFLICT") {
        STATUS_CONFLICT
    } else if text_equals(code, "ACCOUNT_LOCKED") {
        STATUS_LOCKED
    } else if text_equals(code, "RATE_LIMIT_EXCEEDED") {
        STATUS_TOO_MANY_REQUESTS
    } else if text_equals(code, "SESSION_EXPIRED") {
        STATUS_UNAUTHORIZED
    } else if text_equals(code, "TOKEN_INVALID") {
        STATUS_UNAUTHORIZED
    } else {
        STATUS_INTERNAL_SERVER_ERROR
    }
}

/// How each domain error is answered: status, error code, and message (a fixed
/// text, or the error's own text).
pub open spec fn domain_error_response(e: DomainError) -> (u16, ErrorCode, Seq<char>) {
    match e {
        DomainError::InvalidCredentials => (STATUS_UNAUTHORIZED, ErrorCode::InvalidCredentials, "Invalid credentials"@),
        DomainError::UserNotFound | DomainError::ConversationNotFound | DomainError::GroupNotFound
        | DomainError::NotFound(_) => (STATUS_NOT_FOUND, ErrorCode::NotFound, domain_error_text(e)),
        DomainError::SessionNotFound | DomainError::SessionExpired => (
            STATUS_UNAUTHORIZED,
            ErrorCode::SessionExpired,
            domain_error_text(e),
        ),
        DomainError::SessionRevoked => (STATUS_UNAUTHORIZED, ErrorCode::Unauthorized, "Session has been revoked"@),
        DomainError::InvalidToken => (STATUS_UNAUTHORIZED, ErrorCode::TokenInvalid, "Invalid token"@),
        DomainError::InvalidUsername(_) | DomainError::InvalidEmail(_) | DomainError::WeakPassword
        | DomainError::MessageTooLarge => (STATUS_BAD_REQUEST, ErrorCode::ValidationError, domain_error_text(e)),
        DomainError::DuplicateUsername | DomainError::DuplicateEmail => (
            STATUS_CONFLICT,
            ErrorCode::Conflict,
            domain_error_text(e),
        ),
        DomainError::AccountLocked => (
            STATUS_LOCKED,
            ErrorCode::AccountLocked,
            "Account is locked due to too many failed login attempts"@,
        ),
        DomainError::NotParticipant | DomainError::NotMember | DomainError::NotOwner
        | DomainError::InsufficientPermissions => (STATUS_FORBIDDEN, ErrorCode::Forbidden, domain_error_text(e)),
        DomainError::MemberAlreadyExists => (STATUS_CONFLICT, ErrorCode::Conflict, domain_error_text(e)),
        DomainError::GroupFull | DomainError::UserOffline | DomainError::InvalidSignature => (
            STATUS_BAD_REQUEST,
            ErrorCode::ValidationError,
            domain_error_text(e),
        ),
        DomainError::Internal(_) => (
            STATUS_INTERNAL_SERVER_ERROR,
            ErrorCode::InternalError,
            "An internal error occurred"@,
        ),
        DomainError::Unauthorized => (STATUS_UNAUTHORIZED, ErrorCode::Unauthorized, "Unauthorized"@),
    }
}

impl ApiError {
    /// An error response: the status, and a body with the code's text and `message`.
    pub fn new(status: u16, code: ErrorCode, message: &str) -> (r: (u16, Self))
        ensures
            r.0 == status,
            r.1.error.code@ == error_code_text(code),
            r.1.error.message@ == message@,
    {
        (status, ApiError { error: ApiErrorBody { code: code.as_str().to_owned(), message: message.to_owned() } })
    }

    /// The status the response is sent with, read from its error code.
    pub fn status(&self) -> (r: u16)
        ensures
            r == code_status(self.error.code@),
    {
        status_code_for_error_code(self.error.code.as_str())
    }

    /// The response a domain error is answered with.
    pub fn from(err: DomainError) -> (r: (u16, Self))
        ensures
            r.0 == domain_error_response(err).0,
            r.1.error.code@ == error_code_text(domain_error_response(err).1),
            r.1.error.message@ == domain_error_response(err).2,
    {
        match err {
            DomainError::InvalidCredentials => ApiError::new(
                STATUS_UNAUTHORIZED,
                ErrorCode::InvalidCredentials,
                "Invalid credentials",
            ),
            DomainError::UserNotFound | DomainError::ConversationNotFound | DomainError::GroupNotFound
            | DomainError::NotFound(_) => ApiError::new(STATUS_NOT_FOUND, ErrorCode::NotFound, err.message().as_str()),
            DomainError::SessionNotFound | DomainError::SessionExpired => ApiError::new(
                STATUS_UNAUTHORIZED,
                ErrorCode::SessionExpired,
                err.message().as_str(),
            ),
            DomainError::SessionRevoked => ApiError::new(
                STATUS_UNAUTHORIZED,
                ErrorCode::Unauthorized,
                "Session has been revoked",
            ),
            DomainError::InvalidToken => ApiError::new(STATUS_UNAUTHORIZED, ErrorCode::TokenInvalid, "Invalid token"),
            DomainError::InvalidUsername(_) | DomainError::InvalidEmail(_) | DomainError::WeakPassword
            | DomainError::MessageTooLarge => ApiError::new(
                STATUS_BAD_REQUEST,
                ErrorCode::ValidationError,
                err.message().as_str(),
            ),
            DomainError::DuplicateUsername | DomainError::DuplicateEmail => ApiError::new(
                STATUS_CONFLICT,
                ErrorCode::Conflict,
                err.message().as_str(),
            ),
            DomainError::AccountLocked => ApiError::new(
                STATUS_LOCKED,
                ErrorCode::AccountLocked,
                "Account is locked due to too many failed login attempts",
            ),
            DomainError::NotParticipant | DomainError::NotMember | DomainError::NotOwner
            | DomainError::InsufficientPermissions => ApiError::new(
                STATUS_FORBIDDEN,
                ErrorCode::Forbidden,
                err.message().as_str(),
            ),
            DomainError::MemberAlreadyExists => ApiError::new(
                STATUS_CONFLICT,
                ErrorCode::Conflict,
                err.message().as_str(),
            ),
            DomainError::GroupFull => ApiError::new(
                STATUS_BAD_REQUEST,
                ErrorCode::ValidationError,
                err.message().as_str(),
            ),
            DomainError::UserOffline => ApiError::new(
                STATUS_BAD_REQUEST,
                ErrorCode::ValidationError,
                err.message().as_str(),
            ),
            DomainError::InvalidSignature => ApiError::new(
                STATUS_BAD_REQUEST,
                ErrorCode::ValidationError,
                err.message().as_str(),
            ),
            DomainError::Internal(_) => ApiError::new(
                STATUS_INTERNAL_SERVER_ERROR,
                ErrorCode::InternalError,
                "An internal error occurred",
            ),
            DomainError::Unauthorized => ApiError::new(STATUS_UNAUTHORIZED, ErrorCode::Unauthorized, "Unauthorized"),
        }
    }
}

/// Every error code is sent with the status that its text maps back to.
pub proof fn lemma_code_text_status(code: ErrorCode)
    ensures
        code_status(error_code_text(code)) == match code {
            ErrorCode::ValidationError => STATUS_BAD_REQUEST,
            ErrorCode::InvalidCredentials => STATUS_UNAUTHORIZED,
            ErrorCode::Unauthorized => STATUS_UNAUTHORIZED,
            ErrorCode::Forbidden => STATUS_FORBIDDEN,
            ErrorCode::NotFound => STATUS_NOT_FOUND,
            ErrorCode::Conflict => STATUS_CONFLICT,
            ErrorCode::AccountLocked => STATUS_LOCKED,
            ErrorCode::RateLimited => STATUS_TOO_MANY_REQUESTS,
            ErrorCode::InternalError => STATUS_INTERNAL_SERVER_ERROR,
            ErrorCode::SessionExpired => STATUS_UNAUTHORIZED,
            ErrorCode::TokenInvalid => STATUS_UNAUTHORIZED,
        },
{
    reveal_strlit("VALIDATION_ERROR");
    assert("VALIDATION_ERROR"@.len() == 16 && "VALIDATION_ERROR"@[0] == 'V');
    reveal_strlit("INVALID_CREDENTIALS");
    assert("INVALID_CREDENTIALS"@.len() == 19 && "INVALID_CREDENTIALS"@[0] == 'I');
    reveal_strlit("UNAUTHORIZED");
    assert("UNAUTHORIZED"@.len() == 12 && "UNAUTHORIZED"@[0] == 'U');
    reveal_strlit("FORBIDDEN");
    assert("FORBIDDEN"@.len() == 9 && "FORBIDDEN"@[0] == 'F');
    reveal_strlit("NOT_FOUND");
    assert("NOT_FOUND"@.len() == 9 && "NOT_FOUND"@[0] == 'N');
    reveal_strlit("CONFLICT");
    assert("CONFLICT"@.len() == 8 && "CONFLICT"@[0] == 'C');
    reveal_strlit("ACCOUNT_LOCKED");
    assert("ACCOUNT_LOCKED"@.len() == 14 && "ACCOUNT_LOCKED"@[0] == 'A');
    reveal_strlit("RATE_LIMIT_EXCEEDED");
    assert("RATE_LIMIT_EXCEEDED"@.len() == 19 && "RATE_LIMIT_EXCEEDED"@[0] == 'R');
    reveal_strlit("INTERNAL_ERROR");
    assert("INTERNAL_ERROR"@.len() == 14 && "INTERNAL_ERROR"@[0] == 'I');
    reveal_strlit("SESSION_EXPIRED");
    assert("SESSION_EXPIRED"@.len() == 15 && "SESSION_EXPIRED"@[0] == 'S');
    reveal_strlit("TOKEN_INVALID");
    assert("TOKEN_INVALID"@.len() == 13 && "TOKEN_INVALID"@[0] == 'T');
}

/// The status a domain error is answered with is the status its error code maps
/// to, so a response sent by its code keeps the status it was built with.
pub proof fn lemma_error_status_matches_code(e: DomainError)
    ensures
        code_status(error_code_text(domain_error_response(e).1)) == domain_error_response(e).0,
{
    lemma_code_text_status(domain_error_response(e).1);
}

} // verus!
