use halo_server::application::auth::dto::RegisterCommand;
use halo_server::application::auth::login::verify_password;
use halo_server::application::auth::register::{
    auth_response, hash_password, stored_password, validate_registration, RegistrationRequest,
};
use halo_server::domain::error::DomainError;
use halo_server::domain::value_objects::{JwtToken, PasswordHash};
use halo_server::ports::TokenPair;

// A registration with the repository's answers given as values: whether the
// username and the email are taken.
fn register(cmd: RegisterCommand, username_taken: bool, email_taken: bool) -> Result<String, DomainError> {
    let request = RegistrationRequest::begin(cmd)?;
    let free = request.username_checked(username_taken)?;
    let user = free.email_checked(email_taken)?;
    let tokens = TokenPair { access_token: JwtToken::new("access"), refresh_token: JwtToken::new("refresh") };
    let response = auth_response(&user, &tokens);
    assert_eq!(response.token.access_token, "access");
    assert_eq!(response.token.refresh_token, "refresh");
    assert_eq!(response.token.expires_in, 900);
    assert_eq!(response.user_id, *user.id());
    Ok(response.username)
}

#[test]
fn test_register_success() {
    let cmd = RegisterCommand {
        username: "newuser".into(),
        email: "new@test.com".into(),
        password: "password123".into(),
        identity_public_key: vec![0u8; 32],
    };

    let result = register(cmd, false, false);
    assert!(result.is_ok());
}

#[test]
fn test_register_duplicate_username() {
    let cmd = RegisterCommand {
        username: "existing".into(),
        email: "new@test.com".into(),
        password: "password123".into(),
        identity_public_key: vec![0u8; 32],
    };

    let result = register(cmd, true, false);
    assert!(matches!(result, Err(DomainError::DuplicateUsername)));
}

#[test]
fn test_register_weak_password() {
    let cmd = RegisterCommand {
        username: "newuser".into(),
        email: "new@test.com".into(),
        password: "1234567".into(),
        identity_public_key: vec![0u8; 32],
    };

    let result = register(cmd, false, false);
    assert!(matches!(result, Err(DomainError::WeakPassword)));
}

#[test]
fn register_duplicate_email_and_bad_key() {
    let cmd = || RegisterCommand {
        username: "newuser".into(),
        email: "new@test.com".into(),
        password: "password123".into(),
        identity_public_key: vec![0u8; 32],
    };
    assert!(matches!(register(cmd(), false, true), Err(DomainError::DuplicateEmail)));
    assert!(matches!(register(cmd(), true, true), Err(DomainError::DuplicateUsername)));
    let mut short_key = cmd();
    short_key.identity_public_key = vec![0u8; 31];
    assert!(matches!(register(short_key, false, false), Err(DomainError::Internal(_))));
}

#[test]
fn register_checks_username_before_email() {
    let cmd = RegisterCommand {
        username: "x".into(),
        email: "bad".into(),
        password: "1".into(),
        identity_public_key: vec![],
    };
    assert!(matches!(validate_registration(&cmd), Err(DomainError::InvalidUsername(_))));
    let cmd = RegisterCommand {
        username: "good_name".into(),
        email: "bad".into(),
        password: "1".into(),
        identity_public_key: vec![],
    };
    assert!(matches!(validate_registration(&cmd), Err(DomainError::InvalidEmail(_))));
}

// A hashed password is accepted back by the verifier, and only that password.
#[test]
fn hashed_password_verifies() {
    let stored = hash_password("correct horse");
    assert_ne!(stored, "correct horse");
    assert!(stored.starts_with("$argon2"));
    let hash = PasswordHash::new(&stored);
    assert!(verify_password("correct horse", &hash));
    assert!(!verify_password("wrong horse", &hash));
    assert!(!verify_password("anything", &PasswordHash::new("not a phc string")));
}

#[test]
fn registration_steps_keep_the_request() {
    let cmd = RegisterCommand {
        username: "carol_9".into(),
        email: "carol@example.org".into(),
        password: "long enough".into(),
        identity_public_key: vec![7u8; 32],
    };
    let request = RegistrationRequest::begin(cmd).unwrap();
    assert_eq!(request.username().as_str(), "carol_9");
    let free = request.username_checked(false).unwrap();
    assert_eq!(free.email().as_str(), "carol@example.org");
    let user = free.email_checked(false).unwrap();
    assert_eq!(user.username().as_str(), "carol_9");
    assert_eq!(user.identity_public_key(), &[7u8; 32][..]);
    assert!(verify_password("long enough", user.password_hash()));
    assert_eq!(user.failed_login_attempts(), 0);
}

#[test]
fn stored_password_keeps_the_hash() {
    assert_eq!(stored_password("pw", Some("$argon2id$v=19$x".to_string())), "$argon2id$v=19$x");
    assert_eq!(stored_password("pw", None), "pw");
    let stored = hash_password("secret password");
    assert!(stored.starts_with("$argon2id$"));
}
