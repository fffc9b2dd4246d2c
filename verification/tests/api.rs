use halo_server::adapters::api::error::{status_code_for_error_code, ApiError, ErrorCode};
use halo_server::adapters::api::extract::invalid_body_error;
use halo_server::adapters::api::middleware::auth::{extract_bearer_token, AuthContext};
use halo_server::adapters::api::rate_limit::rate_limit_key;
use halo_server::adapters::api::routes::auth::{register_command, RegisterBody};
use halo_server::domain::error::DomainError;
use halo_server::domain::value_objects::UserId;
use halo_server::ports::JwtClaims;

fn answer(e: DomainError) -> (u16, String, String) {
    let (status, err) = ApiError::from(e);
    assert_eq!(err.status(), status);
    (status, err.error.code, err.error.message)
}

fn check(e: DomainError, status: u16, code: &str, message: &str) {
    assert_eq!(answer(e), (status, code.to_string(), message.to_string()));
}

#[test]
fn domain_errors_map_to_responses() {
    check(DomainError::InvalidCredentials, 401, "INVALID_CREDENTIALS", "Invalid credentials");
    check(DomainError::UserNotFound, 404, "NOT_FOUND", "user not found");
    check(DomainError::ConversationNotFound, 404, "NOT_FOUND", "conversation not found");
    check(DomainError::GroupNotFound, 404, "NOT_FOUND", "group not found");
    check(DomainError::NotFound("thing".into()), 404, "NOT_FOUND", "not found: thing");
    check(DomainError::SessionNotFound, 401, "SESSION_EXPIRED", "session not found");
    check(DomainError::SessionExpired, 401, "SESSION_EXPIRED", "session expired");
    check(DomainError::SessionRevoked, 401, "UNAUTHORIZED", "Session has been revoked");
    check(DomainError::InvalidToken, 401, "TOKEN_INVALID", "Invalid token");
    check(DomainError::InvalidUsername("x".into()), 400, "VALIDATION_ERROR", "invalid username: x");
    check(DomainError::InvalidEmail("y".into()), 400, "VALIDATION_ERROR", "invalid email: y");
    check(DomainError::WeakPassword, 400, "VALIDATION_ERROR", "weak password");
    check(DomainError::MessageTooLarge, 400, "VALIDATION_ERROR", "message too large");
    check(DomainError::DuplicateUsername, 409, "CONFLICT", "username already taken");
    check(DomainError::DuplicateEmail, 409, "CONFLICT", "email already registered");
    check(
        DomainError::AccountLocked,
        423,
        "ACCOUNT_LOCKED",
        "Account is locked due to too many failed login attempts",
    );
    check(DomainError::NotParticipant, 403, "FORBIDDEN", "not a participant in this conversation");
    check(DomainError::NotMember, 403, "FORBIDDEN", "not a member of this group");
    check(DomainError::NotOwner, 403, "FORBIDDEN", "not the group owner");
    check(DomainError::InsufficientPermissions, 403, "FORBIDDEN", "insufficient permissions");
    check(DomainError::MemberAlreadyExists, 409, "CONFLICT", "member already exists in group");
    check(DomainError::GroupFull, 400, "VALIDATION_ERROR", "group is full");
    check(DomainError::UserOffline, 400, "VALIDATION_ERROR", "user is offline");
    check(DomainError::InvalidSignature, 400, "VALIDATION_ERROR", "invalid signature");
    check(DomainError::Internal("db down".into()), 500, "INTERNAL_ERROR", "An internal error occurred");
    check(DomainError::Unauthorized, 401, "UNAUTHORIZED", "Unauthorized");
}

#[test]
fn domain_error_messages() {
    assert_eq!(DomainError::AccountLocked.message(), "account is locked");
    assert_eq!(DomainError::Internal("boom".into()).message(), "internal error: boom");
    assert_eq!(DomainError::Unauthorized.message(), "unauthorized");
}

#[test]
fn error_code_texts_and_statuses() {
    let codes = [
        (ErrorCode::ValidationError, "VALIDATION_ERROR", 400),
        (ErrorCode::InvalidCredentials, "INVALID_CREDENTIALS", 401),
        (ErrorCode::Unauthorized, "UNAUTHORIZED", 401),
        (ErrorCode::Forbidden, "FORBIDDEN", 403),
        (ErrorCode::NotFound, "NOT_FOUND", 404),
        (ErrorCode::Conflict, "CONFLICT", 409),
        (ErrorCode::AccountLocked, "ACCOUNT_LOCKED", 423),
        (ErrorCode::RateLimited, "RATE_LIMIT_EXCEEDED", 429),
        (ErrorCode::InternalError, "INTERNAL_ERROR", 500),
        (ErrorCode::SessionExpired, "SESSION_EXPIRED", 401),
        (ErrorCode::TokenInvalid, "TOKEN_INVALID", 401),
    ];
    for (code, text, status) in codes {
        assert_eq!(code.as_str(), text);
        assert_eq!(status_code_for_error_code(text), status);
        let (s, e) = ApiError::new(status, code, "m");
        assert_eq!(s, status);
        assert_eq!(e.status(), status);
        assert_eq!(e.error.message, "m");
    }
    assert_eq!(status_code_for_error_code("SOMETHING_ELSE"), 500);
}

#[test]
fn invalid_body_messages() {
    let (s, e) = invalid_body_error(Some("missing field `name`"));
    assert_eq!(s, 400);
    assert_eq!(e.error.code, "VALIDATION_ERROR");
    assert_eq!(e.error.message, "Invalid request body: missing field `name`");
    let (_, e) = invalid_body_error(None);
    assert_eq!(e.error.message, "Invalid request body");
}

#[test]
fn bearer_tokens() {
    assert_eq!(extract_bearer_token(Some("Bearer abc.def")), Ok("abc.def".to_string()));
    assert_eq!(extract_bearer_token(Some("Bearer ")), Ok(String::new()));
    assert_eq!(extract_bearer_token(Some("bearer abc")), Err(()));
    assert_eq!(extract_bearer_token(Some("Basic abc")), Err(()));
    assert_eq!(extract_bearer_token(Some("Bearer")), Err(()));
    assert_eq!(extract_bearer_token(None), Err(()));
    assert_eq!(extract_bearer_token(Some("Bearer ünï")), Ok("ünï".to_string()));
}

#[test]
fn auth_context_keeps_claims() {
    let claims = JwtClaims { user_id: UserId::from_uuid(4), session_jti: 9, exp: 100 };
    let ctx = AuthContext::from_claims(claims, "tok".to_string());
    assert_eq!(ctx.claims.user_id, UserId::from_uuid(4));
    assert_eq!(ctx.claims.session_jti, 9);
    assert_eq!(ctx.raw_token, "tok");
}

#[test]
fn rate_limit_keys() {
    assert_eq!(rate_limit_key(Some("1.2.3.4"), Some("5.6.7.8")), "1.2.3.4");
    assert_eq!(rate_limit_key(None, Some("5.6.7.8")), "5.6.7.8");
    assert_eq!(rate_limit_key(None, None), "unknown");
}

#[test]
fn register_body_needs_a_32_byte_key() {
    let body = |n: usize| RegisterBody {
        username: "u".into(),
        email: "e".into(),
        password: "p".into(),
        identity_public_key: vec![0u8; n],
    };
    let (s, e) = register_command(body(31)).unwrap_err();
    assert_eq!((s, e.error.message.as_str()), (400, "identity_public_key must be 32 bytes"));
    let cmd = register_command(body(32)).unwrap();
    assert_eq!(cmd.username, "u");
    assert_eq!(cmd.identity_public_key.len(), 32);
}
