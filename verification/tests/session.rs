use halo_server::domain::session::{Session, SessionStatus, MAX_HEARTBEAT_INTERVAL_MS, RECONNECT_TIMEOUT_MS};
use halo_server::domain::value_objects::{IpAddress, IpOctets, JwtId, SessionId, Timestamp, UserAgent, UserId};

fn make_session() -> Session {
    Session::new(
        UserId::new(),
        JwtId::new(),
        IpAddress::new(IpOctets::V4([127, 0, 0, 1])),
        UserAgent::new("halo-tauri/0.1"),
    )
}

#[test]
fn test_session_starts_active() {
    let session = make_session();
    assert_eq!(session.status(), SessionStatus::Active);
    assert!(session.is_active());
}

#[test]
fn test_revoke_session() {
    let mut session = make_session();
    session.revoke();
    assert_eq!(session.status(), SessionStatus::Revoked);
    assert!(!session.is_active());
}

#[test]
fn test_mark_reconnecting() {
    let mut session = make_session();
    session.mark_reconnecting();
    assert_eq!(session.status(), SessionStatus::Reconnecting);
}

#[test]
fn test_reactivate() {
    let mut session = make_session();
    session.mark_reconnecting();
    session.reactivate();
    assert_eq!(session.status(), SessionStatus::Active);
}

#[test]
fn test_is_expired() {
    let session = make_session();
    let now = Timestamp::now();
    assert!(!session.is_expired(now));
}

fn stored_session(last_heartbeat: i64) -> Session {
    Session::from_db(
        SessionId::from_uuid(1),
        UserId::from_uuid(2),
        JwtId::from_uuid(3),
        SessionStatus::Active,
        Timestamp::from_millis(last_heartbeat),
        Timestamp::from_millis(last_heartbeat),
        IpAddress::new(IpOctets::V4([10, 0, 0, 1])),
        UserAgent::new("agent"),
    )
}

#[test]
fn expiry_thresholds_are_strict() {
    let s = stored_session(1_000_000);
    assert!(!s.is_expired(Timestamp::from_millis(1_000_000 + MAX_HEARTBEAT_INTERVAL_MS)));
    assert!(s.is_expired(Timestamp::from_millis(1_000_000 + MAX_HEARTBEAT_INTERVAL_MS + 1)));
    assert!(!s.is_reconnect_expired(Timestamp::from_millis(1_000_000 + RECONNECT_TIMEOUT_MS)));
    assert!(s.is_reconnect_expired(Timestamp::from_millis(1_000_000 + RECONNECT_TIMEOUT_MS + 1)));
}

// A session past its heartbeat interval is past its reconnect window too.
#[test]
fn expired_session_is_reconnect_expired() {
    let s = stored_session(0);
    for now in [30_001i64, 60_001, 90_000, 1_000_000] {
        if s.is_expired(Timestamp::from_millis(now)) {
            assert!(s.is_reconnect_expired(Timestamp::from_millis(now)));
        }
    }
    assert!(s.is_expired(Timestamp::from_millis(60_001)));
}

#[test]
fn from_db_keeps_fields_and_mark_expired() {
    let mut s = stored_session(42);
    assert_eq!(*s.id(), SessionId::from_uuid(1));
    assert_eq!(*s.user_id(), UserId::from_uuid(2));
    assert_eq!(*s.jwt_id(), JwtId::from_uuid(3));
    assert_eq!(s.last_heartbeat().as_millis(), 42);
    assert_eq!(s.connected_at().as_millis(), 42);
    assert_eq!(s.user_agent().as_str(), "agent");
    assert_eq!(s.ip_address().as_ip_addr(), &IpOctets::V4([10, 0, 0, 1]));
    s.mark_expired();
    assert_eq!(s.status(), SessionStatus::Expired);
    s.refresh_heartbeat();
    assert!(s.last_heartbeat().as_millis() > 42);
}

#[test]
fn timestamp_from_millis_and_i64() {
    assert_eq!(Timestamp::from(5i64).as_millis(), 5);
    assert_eq!(Timestamp::from_millis(-7).as_millis(), -7);
    assert_eq!(Timestamp::from(9i64), Timestamp::from_millis(9));
}
