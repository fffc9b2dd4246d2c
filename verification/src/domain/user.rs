use vstd::prelude::*;

use super::error::DomainError;
use super::value_objects::{Email, PasswordHash, UserId, Username};

verus! {

pub const MAX_FAILED_ATTEMPTS: u32 = 20;

pub const LOCKOUT_DURATION_HOURS: i64 = 24;

/// The lockout duration in seconds.
pub const LOCKOUT_DURATION_SECS: i64 = 86_400;

/// The last second that `chrono` can represent: the start of the last second of
/// December 31, 262142 CE (`NaiveDate::MAX`), in seconds since the Unix epoch.
pub const CHRONO_MAX_SECS: i64 = 8_210_266_876_799;

/// The first second that `chrono` can represent: the start of January 1, 262144 BCE
/// (`NaiveDate::MIN`), in seconds since the Unix epoch.
pub const CHRONO_MIN_SECS: i64 = -8_334_601_315_200;

/// Nanoseconds in a second.
pub const NANOS_PER_SEC: u32 = 1_000_000_000;

/// An instant as `chrono::DateTime<Utc>` holds it: whole seconds since the Unix epoch
/// and the nanoseconds within the second.
#[derive(Debug, Clone, Copy, PartialEq, Eq, Structural)]
pub struct UtcTime {
    pub secs: i64,
    pub nanos: u32,
}

/// Whether instant `a` comes before instant `b`.
pub open spec fn utc_before(a: UtcTime, b: UtcTime) -> bool {
    a.secs < b.secs || (a.secs == b.secs && a.nanos < b.nanos)
}

/// An instant that chrono represents, with nanoseconds within the second.
pub open spec fn utc_representable(t: UtcTime) -> bool {
    CHRONO_MIN_SECS <= t.secs <= CHRONO_MAX_SECS && t.nanos < NANOS_PER_SEC
}

/// An instant the clock can read: not before the Unix epoch, and representable.
pub open spec fn clock_reading(t: UtcTime) -> bool {
    0 <= t.secs && utc_representable(t)
}

/// The instant the lockout duration after `t`.
pub open spec fn lockout_end(t: UtcTime) -> UtcTime {
    UtcTime { secs: (t.secs + LOCKOUT_DURATION_SECS) as i64, ..t }
}

impl UtcTime {
    /// Whether this instant comes before `other`.
    pub fn is_before(&self, other: &UtcTime) -> (r: bool)
        ensures
            r == utc_before(*self, *other),
    {
        self.secs < other.secs || (self.secs == other.secs && self.nanos < other.nanos)
    }
}

/// Reads the clock with `chrono::Utc::now`, as whole seconds and nanoseconds since
/// the Unix epoch. `Utc::now` panics on a clock set before the epoch, builds only
/// dates that chrono can represent, and takes the nanoseconds from the `Duration`
/// since the epoch, so the reading is a clock reading; nothing more is claimed of it.
#[verifier::external_body]
fn utc_now() -> (r: UtcTime)
    ensures
        clock_reading(r),
{
    let t = chrono::Utc::now();
    UtcTime { secs: t.timestamp(), nanos: t.timestamp_subsec_nanos() }
}

/// A user as plain values.
pub struct UserView {
    pub id: UserId,
    pub username: Seq<char>,
    pub email: Seq<char>,
    pub password_hash: Seq<char>,
    pub identity_public_key: Seq<u8>,
    pub created_at: UtcTime,
    pub updated_at: UtcTime,
    pub failed_login_attempts: u32,
    pub locked_until: Option<UtcTime>,
}

#[derive(Debug, Clone)]
pub struct User {
    id: UserId,
    username: Username,
    email: Email,
    password_hash: PasswordHash,
    identity_public_key: Vec<u8>,
    created_at: UtcTime,
    updated_at: UtcTime,
    failed_login_attempts: u32,
    locked_until: Option<UtcTime>,
}

impl View for User {
    type V = UserView;

    closed spec fn view(&self) -> UserView {
        UserView {
            id: self.id,
            username: self.username@,
            email: self.email@,
            password_hash: self.password_hash@,
            identity_public_key: self.identity_public_key@,
            created_at: self.created_at,
            updated_at: self.updated_at,
            failed_login_attempts: self.failed_login_attempts,
            locked_until: self.locked_until,
        }
    }
}

/// Whether a user is locked out at instant `now`.
pub open spec fn locked_at(u: UserView, now: UtcTime) -> bool {
    u.locked_until matches Some(until) && utc_before(now, until)
}

/// The user after one more failed login at instant `now`: the count goes up, and at
/// the threshold the account is locked for the lockout duration.
pub open spec fn failed_login_recorded(u: UserView, now: UtcTime) -> UserView {
    let attempts = (u.failed_login_attempts + 1) as u32;
    UserView {
        failed_login_attempts: attempts,
        locked_until: if attempts >= MAX_FAILED_ATTEMPTS {
            Some(lockout_end(now))
        } else {
            u.locked_until
        },
        updated_at: now,
        ..u
    }
}

/// The user after its failed logins are forgiven at instant `now`.
pub open spec fn failed_logins_reset(u: UserView, now: UtcTime) -> UserView {
    UserView { failed_login_attempts: 0, locked_until: None, updated_at: now, ..u }
}

impl User {
    /// Creates a user with a fresh identifier; the identity key must be 32 bytes.
    pub fn new(
        username: Username,
        email: Email,
        password_hash: PasswordHash,
        identity_public_key: Vec<u8>,
    ) -> (r: Result<Self, DomainError>)
        ensures
            identity_public_key@.len() != 32 ==> (r matches Err(DomainError::Internal(m))
                && m@ == "identity public key must be 32 bytes"@),
            identity_public_key@.len() == 32 ==> (r matches Ok(u) && {
                &&& u@.username == username@
                &&& u@.email == email@
                &&& u@.password_hash == password_hash@
                &&& u@.identity_public_key == identity_public_key@
                &&& u@.failed_login_attempts == 0
                &&& u@.locked_until is None
                &&& clock_reading(u@.created_at)
                &&& clock_reading(u@.updated_at)
            }),
    {
        if identity_public_key.len() != 32 {
            return Err(DomainError::Internal("identity public key must be 32 bytes".to_owned()));
        }
        let created_at = utc_now();
        let updated_at = utc_now();
        Ok(User {
            id: UserId::new(),
            username,
            email,
            password_hash,
            identity_public_key,
            created_at,
            updated_at,
            failed_login_attempts: 0,
            locked_until: None,
        })
    }

    pub fn id(&self) -> (r: &UserId)
        ensures
            *r == self@.id,
    {
        &self.id
    }

    pub fn username(&self) -> (r: &Username)
        ensures
            r@ == self@.username,
    {
        &self.username
    }

    pub fn email(&self) -> (r: &Email)
        ensures
            r@ == self@.email,
    {
        &self.email
    }

    pub fn password_hash(&self) -> (r: &PasswordHash)
        ensures
            r@ == self@.password_hash,
    {
        &self.password_hash
    }

    pub fn identity_public_key(&self) -> (r: &[u8])
        ensures
            r@ == self@.identity_public_key,
    {
        self.identity_public_key.as_slice()
    }

    pub fn created_at(&self) -> (r: &UtcTime)
        ensures
            *r == self@.created_at,
    {
        &self.created_at
    }

    pub fn updated_at(&self) -> (r: &UtcTime)
        ensures
            *r == self@.updated_at,
    {
        &self.updated_at
    }

    pub fn failed_login_attempts(&self) -> (r: u32)
        ensures
            r == self@.failed_login_attempts,
    {
        self.failed_login_attempts
    }

    pub fn locked_until(&self) -> (r: Option<UtcTime>)
        ensures
            r == self@.locked_until,
    {
        self.locked_until
    }

    /// Whether the user is locked out at instant `now`.
    pub fn is_locked_at(&self, now: UtcTime) -> (r: bool)
        ensures
            r == locked_at(self@, now),
    {
        match self.locked_until {
            Some(until) => now.is_before(&until),
            None => false,
        }
    }

    /// Whether the user is locked out now. The clock decides between the cases that
    /// the contract leaves open.
    pub fn is_locked(&self) -> (r: bool)
        ensures
            exists|now: UtcTime| clock_reading(now) && r == #[trigger] locked_at(self@, now),
            self@.locked_until is None ==> !r,
            self@.locked_until matches Some(u) && u.secs < 0 ==> !r,
            self@.locked_until matches Some(u) && u.secs > CHRONO_MAX_SECS ==> r,
    {
        let now = utc_now();
        self.is_locked_at(now)
    }

    /// Counts one more failed login; the account is locked for the lockout duration
    /// once the count reaches `MAX_FAILED_ATTEMPTS`.
    pub fn record_failed_login_at(&mut self, now: UtcTime)
        requires
            old(self)@.failed_login_attempts < u32::MAX,
            utc_representable(now),
        ensures
            final(self)@ == failed_login_recorded(old(self)@, now),
    {
        self.failed_login_attempts = self.failed_login_attempts + 1;
        if self.failed_login_attempts >= MAX_FAILED_ATTEMPTS {
            self.locked_until = Some(UtcTime { secs: now.secs + LOCKOUT_DURATION_SECS, nanos: now.nanos });
        }
        self.updated_at = now;
    }

    /// Counts one more failed login, at the clock's current instant.
    pub fn record_failed_login(&mut self)
        requires
            old(self)@.failed_login_attempts < u32::MAX,
        ensures
            clock_reading(final(self)@.updated_at),
            final(self)@ == failed_login_recorded(old(self)@, final(self)@.updated_at),
    {
        let now = utc_now();
        self.record_failed_login_at(now);
    }

    /// Forgives all failed logins and lifts any lock.
    pub fn reset_failed_logins_at(&mut self, now: UtcTime)
        ensures
            final(self)@ == failed_logins_reset(old(self)@, now),
    {
        self.failed_login_attempts = 0;
        self.locked_until = None;
        self.updated_at = now;
    }

    /// Forgives all failed logins at the clock's current instant.
    pub fn reset_failed_logins(&mut self)
        ensures
            clock_reading(final(self)@.updated_at),
            final(self)@ == failed_logins_reset(old(self)@, final(self)@.updated_at),
    {
        let now = utc_now();
        self.reset_failed_logins_at(now);
    }

    pub fn from_db(
        id: UserId,
        username: Username,
        email: Email,
        password_hash: PasswordHash,
        identity_public_key: Vec<u8>,
        created_at: UtcTime,
        updated_at: UtcTime,
        failed_login_attempts: u32,
        locked_until: Option<UtcTime>,
    ) -> (r: Self)
        ensures
            r@.id == id,
            r@.username == username@,
            r@.email == email@,
            r@.password_hash == password_hash@,
            r@.identity_public_key == identity_public_key@,
            r@.created_at == created_at,
            r@.updated_at == updated_at,
            r@.failed_login_attempts == failed_login_attempts,
            r@.locked_until == locked_until,
    {
        User {
            id,
            username,
            email,
            password_hash,
            identity_public_key,
            created_at,
            updated_at,
            failed_login_attempts,
            locked_until,
        }
    }
}

/// The lockout rule, for a failure or a reset at clock reading `now`: after a reset
/// no instant finds the user locked; the failure that brings the count to
/// `MAX_FAILED_ATTEMPTS` or beyond locks the user for the whole lockout duration from
/// `now`; and a failure below the threshold leaves the lock as it was.
pub proof fn lemma_lockout(u: UserView, now: UtcTime, later: UtcTime)
    requires
        u.failed_login_attempts < u32::MAX,
        utc_representable(now),
    ensures
        !locked_at(failed_logins_reset(u, now), later),
        u.failed_login_attempts + 1 >= MAX_FAILED_ATTEMPTS && !utc_before(later, now) && utc_before(
            later,
            lockout_end(now),
        ) ==> locked_at(failed_login_recorded(u, now), later),
        u.failed_login_attempts + 1 < MAX_FAILED_ATTEMPTS ==> (locked_at(
            failed_login_recorded(u, now),
            later,
        ) == locked_at(u, later)),
{
}

} // verus!
