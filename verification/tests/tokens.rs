use halo_server::adapters::auth::jwt::{claims_from_token, decode_failure, JwtAuthAdapter, TokenKind};
use halo_server::application::auth::dto::token_response;
use halo_server::application::auth::dto::LoginCommand;
use halo_server::application::auth::login::{check_credentials, login_candidates, LoginRequest, UserLookup};
use halo_server::application::auth::session::client_session;
use halo_server::application::auth::register::hash_password;
use halo_server::application::auth::validate_jwt::authorize_session;
use halo_server::domain::error::DomainError;
use halo_server::domain::session::{Session, SessionStatus};
use halo_server::domain::user::User;
use halo_server::domain::value_objects::{
    Email, IpAddress, IpOctets, JwtId, JwtToken, PasswordHash, SessionId, Timestamp, UserAgent, UserId, Username,
};
use halo_server::ports::{JwtClaims, TokenPair};

const SUB: &str = "0190f5c4-7a1b-7c3d-8e4f-a1b2c3d4e5f6";

#[test]
fn claims_for_each_kind() {
    let jwt = JwtAuthAdapter::new("s3cret".into(), 900, 604_800, "halo".into());
    assert_eq!(jwt.secret_str(), "s3cret");
    assert_eq!(jwt.issuer_str(), "halo");
    let user = UserId::from_uuid(0x0190f5c4_7a1b_7c3d_8e4f_a1b2c3d4e5f6);
    let access = jwt.claims_for(&user, 1, TokenKind::Access, 1_000);
    assert_eq!(access.sub, SUB);
    assert_eq!(access.jti, "00000000-0000-0000-0000-000000000001");
    assert_eq!(access.exp, 1_900);
    assert_eq!(access.iat, 1_000);
    assert_eq!(access.iss, "halo");
    assert_eq!(access.username, None);
    assert_eq!(access.token_type.as_deref(), Some("access"));
    let refresh = jwt.claims_for(&user, 1, TokenKind::Refresh, 1_000);
    assert_eq!(refresh.exp, 605_800);
    assert_eq!(refresh.token_type.as_deref(), Some("refresh"));
    assert_eq!(jwt.expiry_secs(TokenKind::Refresh), 604_800);
}

#[test]
fn decoded_claims_need_uuids() {
    let c = claims_from_token(SUB, SUB, 55).unwrap();
    assert_eq!(c.user_id.to_uuid(), 0x0190f5c4_7a1b_7c3d_8e4f_a1b2c3d4e5f6);
    assert_eq!(c.session_jti, 0x0190f5c4_7a1b_7c3d_8e4f_a1b2c3d4e5f6);
    assert_eq!(c.exp, 55);
    assert!(matches!(claims_from_token("nope", SUB, 1), Err(DomainError::InvalidToken)));
    assert!(matches!(claims_from_token(SUB, "nope", 1), Err(DomainError::InvalidToken)));
    assert_eq!(decode_failure(true), DomainError::SessionExpired);
    assert_eq!(decode_failure(false), DomainError::InvalidToken);
}

#[test]
fn uuid_text_round_trip() {
    let id = UserId::from_uuid(0x0190f5c4_7a1b_7c3d_8e4f_a1b2c3d4e5f6);
    assert_eq!(id.to_text(), SUB);
    let c = claims_from_token(&id.to_text(), &SessionId::from_uuid(3).to_text(), 0).unwrap();
    assert_eq!(c.user_id, id);
    assert_eq!(c.session_jti, 3);
}

fn session(status: SessionStatus) -> Session {
    Session::from_db(
        SessionId::from_uuid(8),
        UserId::from_uuid(1),
        JwtId::from_uuid(9),
        status,
        Timestamp::from_millis(0),
        Timestamp::from_millis(0),
        IpAddress::new(IpOctets::V6([0; 16])),
        UserAgent::new("a"),
    )
}

#[test]
fn only_active_sessions_authorize() {
    let claims = JwtClaims { user_id: UserId::from_uuid(1), session_jti: 9, exp: 0 };
    assert_eq!(
        authorize_session(&claims, &session(SessionStatus::Active)),
        Ok((UserId::from_uuid(1), SessionId::from_uuid(8)))
    );
    for s in [SessionStatus::Expired, SessionStatus::Revoked, SessionStatus::Reconnecting] {
        assert_eq!(authorize_session(&claims, &session(s)), Err(DomainError::SessionExpired));
    }
}

#[test]
fn token_response_lifetime() {
    let t = token_response(&TokenPair { access_token: JwtToken::new("a"), refresh_token: JwtToken::new("r") });
    assert_eq!((t.access_token.as_str(), t.refresh_token.as_str(), t.expires_in), ("a", "r", 900));
}

#[test]
fn login_lookup_and_password() {
    let (u, e) = login_candidates("alice");
    assert_eq!(u.unwrap().as_str(), "alice");
    assert!(e.is_none());
    let (u, e) = login_candidates("alice@example.com");
    assert!(u.is_none());
    assert_eq!(e.unwrap().as_str(), "alice@example.com");
    let user = User::new(
        Username::new("alice").unwrap(),
        Email::new("alice@example.com").unwrap(),
        PasswordHash::new(&hash_password("hunter22")),
        vec![0u8; 32],
    )
    .unwrap();
    assert!(check_credentials("hunter22", &user).is_ok());
    assert_eq!(check_credentials("hunter23", &user), Err(DomainError::InvalidCredentials));
}

fn stored_user(name: &str, email: &str, password: &str) -> User {
    User::new(
        Username::new(name).unwrap(),
        Email::new(email).unwrap(),
        PasswordHash::new(&hash_password(password)),
        vec![0u8; 32],
    )
    .unwrap()
}

// The user is looked up by username first, then by email, and the password decides.
#[test]
fn login_lookup_order() {
    let request = LoginRequest::begin(LoginCommand { login: "dave".into(), password: "pw123456".into() });
    match request.next_lookup() {
        Ok(UserLookup::ByUsername(u)) => assert_eq!(u.as_str(), "dave"),
        _ => panic!("expected a username lookup"),
    }
    let request = request.lookup_missed();
    assert!(matches!(request.next_lookup(), Err(DomainError::InvalidCredentials)));

    let request = LoginRequest::begin(LoginCommand { login: "dave@example.com".into(), password: "pw123456".into() });
    match request.next_lookup() {
        Ok(UserLookup::ByEmail(e)) => assert_eq!(e.as_str(), "dave@example.com"),
        _ => panic!("expected an email lookup"),
    }
    let user = stored_user("dave", "dave@example.com", "pw123456");
    assert!(request.user_found(user).is_ok());

    let request = LoginRequest::begin(LoginCommand { login: "dave".into(), password: "wrong".into() });
    let user = stored_user("dave", "dave@example.com", "pw123456");
    assert!(matches!(request.user_found(user), Err(DomainError::InvalidCredentials)));
}

#[test]
fn client_sessions_are_active_loopback_sessions() {
    let s = client_session(UserId::from_uuid(1), JwtId::from_uuid(2));
    assert_eq!(s.status(), SessionStatus::Active);
    assert_eq!(*s.user_id(), UserId::from_uuid(1));
    assert_eq!(*s.jwt_id(), JwtId::from_uuid(2));
    assert_eq!(s.ip_address().as_ip_addr(), &IpOctets::V4([127, 0, 0, 1]));
    assert_eq!(s.user_agent().as_str(), "halo-client");
}
