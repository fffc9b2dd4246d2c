use halo_server::domain::error::DomainError;
use halo_server::domain::user::{User, UtcTime, LOCKOUT_DURATION_SECS, MAX_FAILED_ATTEMPTS};
use halo_server::domain::value_objects::{Email, PasswordHash, UserId, Username};

const HOUR_MS: i64 = 3_600_000;

fn now_millis() -> i64 {
    chrono::Utc::now().timestamp_millis()
}

// An instant given in milliseconds since the Unix epoch.
fn at(ms: i64) -> UtcTime {
    UtcTime { secs: ms.div_euclid(1000), nanos: (ms.rem_euclid(1000) as u32) * 1_000_000 }
}

// The milliseconds since the Unix epoch of an instant.
fn millis(t: UtcTime) -> i64 {
    t.secs * 1000 + (t.nanos / 1_000_000) as i64
}

fn make_user() -> User {
    User::new(
        Username::new("test_user").unwrap(),
        Email::new("test@example.com").unwrap(),
        PasswordHash::new("$argon2id$v=19$..."),
        vec![0u8; 32],
    )
    .unwrap()
}

#[test]
fn test_new_user_success() {
    let user = make_user();
    assert_eq!(user.failed_login_attempts(), 0);
    assert!(user.locked_until().is_none());
    assert!(!user.is_locked());
}

#[test]
fn test_new_user_invalid_key_length() {
    let username = Username::new("test_user").unwrap();
    let email = Email::new("test@example.com").unwrap();
    let hash = PasswordHash::new("$argon2id$v=19$...");
    let key = vec![0u8; 16];

    let user = User::new(username, email, hash, key);
    assert!(user.is_err());
}

#[test]
fn test_record_failed_login() {
    let mut user = make_user();
    assert_eq!(user.failed_login_attempts(), 0);

    for _ in 0..19 {
        user.record_failed_login();
    }
    assert_eq!(user.failed_login_attempts(), 19);
    assert!(!user.is_locked());

    user.record_failed_login();
    assert_eq!(user.failed_login_attempts(), 20);
    assert!(user.is_locked());
    assert!(millis(user.locked_until().unwrap()) > now_millis());
}

#[test]
fn test_reset_failed_logins() {
    let mut user = make_user();
    for _ in 0..20 {
        user.record_failed_login();
    }
    assert!(user.is_locked());

    user.reset_failed_logins();
    assert_eq!(user.failed_login_attempts(), 0);
    assert!(!user.is_locked());
    assert!(user.locked_until().is_none());
}

#[test]
fn test_is_locked_expired() {
    let now = now_millis();
    let user = User::from_db(
        UserId::new(),
        Username::new("test").unwrap(),
        Email::new("test@test.com").unwrap(),
        PasswordHash::new("hash"),
        vec![0u8; 32],
        at(now),
        at(now),
        20,
        Some(at(now - HOUR_MS)),
    );
    assert!(!user.is_locked());
}

#[test]
fn test_from_db_restores_lockout_state() {
    let now = now_millis();
    let locked_until = Some(at(now + HOUR_MS));
    let user = User::from_db(
        UserId::new(),
        Username::new("test").unwrap(),
        Email::new("test@test.com").unwrap(),
        PasswordHash::new("hash"),
        vec![0u8; 32],
        at(now),
        at(now),
        5,
        locked_until,
    );
    assert_eq!(user.failed_login_attempts(), 5);
    assert!(user.is_locked());
}

// The lockout at fixed instants: the twentieth failure locks the account for
// exactly the lockout duration, and the lock ends at its last millisecond.
#[test]
fn lockout_starts_at_twentieth_failure_and_lasts_a_day() {
    let mut user = make_user();
    let t = 1_700_000_000_000i64;
    for _ in 0..(MAX_FAILED_ATTEMPTS - 1) {
        user.record_failed_login_at(at(t));
    }
    assert!(user.locked_until().is_none());
    user.record_failed_login_at(at(t));
    assert_eq!(millis(user.locked_until().unwrap()), t + LOCKOUT_DURATION_SECS * 1000);
    assert_eq!(LOCKOUT_DURATION_SECS * 1000, 24 * HOUR_MS);
    assert!(user.is_locked_at(at(t + LOCKOUT_DURATION_SECS * 1000 - 1)));
    assert!(!user.is_locked_at(at(t + LOCKOUT_DURATION_SECS * 1000)));
    assert_eq!(millis(*user.updated_at()), t);
}

#[test]
fn reset_at_lifts_lock_and_stamps_time() {
    let mut user = make_user();
    let t = 1_700_000_000_000i64;
    for _ in 0..25 {
        user.record_failed_login_at(at(t));
    }
    assert_eq!(user.failed_login_attempts(), 25);
    user.reset_failed_logins_at(at(t + 5));
    assert_eq!(user.failed_login_attempts(), 0);
    assert!(user.locked_until().is_none());
    assert!(!user.is_locked_at(at(t + 6)));
    assert_eq!(millis(*user.updated_at()), t + 5);
}

#[test]
fn identity_key_length_error_text() {
    let r = User::new(
        Username::new("someone").unwrap(),
        Email::new("a@b.c").unwrap(),
        PasswordHash::new("h"),
        vec![1u8; 33],
    );
    match r {
        Err(DomainError::Internal(m)) => assert_eq!(m, "identity public key must be 32 bytes"),
        _ => panic!("expected an error"),
    }
}

#[test]
fn username_rules() {
    assert!(matches!(Username::new("ab"), Err(DomainError::InvalidUsername(m)) if m == "must be between 3 and 30 characters"));
    assert!(Username::new(&"a".repeat(31)).is_err());
    assert!(Username::new(&"a".repeat(30)).is_ok());
    assert!(matches!(Username::new("bad name"), Err(DomainError::InvalidUsername(m)) if m == "only alphanumeric characters and underscores allowed"));
    assert_eq!(Username::new("Good_Name9").unwrap().as_str(), "Good_Name9");
}

#[test]
fn email_rules() {
    assert!(matches!(Email::new("nobody"), Err(DomainError::InvalidEmail(m)) if m == "invalid email format"));
    assert!(Email::new("a@b").is_err());
    assert_eq!(Email::new("a@b.c").unwrap().as_str(), "a@b.c");
}

#[test]
fn ascii_username_characters() {
    assert!(Username::new("test_user").is_ok());
    assert!(Username::new("a-b-c").is_err());
    assert!(Username::new("ab").is_err());
}

// Lock times keep the nanoseconds of the instant they are taken at.
#[test]
fn lockout_keeps_sub_millisecond_precision() {
    let mut user = make_user();
    let t = UtcTime { secs: 1_700_000_000, nanos: 123_456_789 };
    for _ in 0..MAX_FAILED_ATTEMPTS {
        user.record_failed_login_at(t);
    }
    let until = user.locked_until().unwrap();
    assert_eq!(until, UtcTime { secs: 1_700_000_000 + LOCKOUT_DURATION_SECS, nanos: 123_456_789 });
    assert!(user.is_locked_at(UtcTime { secs: until.secs, nanos: 123_456_788 }));
    assert!(!user.is_locked_at(until));
    assert!(UtcTime { secs: 5, nanos: 1 }.is_before(&UtcTime { secs: 5, nanos: 2 }));
    assert!(!UtcTime { secs: 6, nanos: 0 }.is_before(&UtcTime { secs: 5, nanos: 999_999_999 }));
}
