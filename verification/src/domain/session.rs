use vstd::prelude::*;

use super::value_objects::{IpAddress, JwtId, SessionId, Timestamp, UserAgent, UserId};

verus! {

#[derive(Debug, Clone, Copy, PartialEq, Eq, Structural)]
pub enum SessionStatus {
    Active,
    Expired,
    Revoked,
    Reconnecting,
}

pub const MAX_HEARTBEAT_INTERVAL_MS: i64 = 60_000;

pub const RECONNECT_TIMEOUT_MS: i64 = 30_000;

/// A session as plain values.
pub struct SessionView {
    pub id: SessionId,
    pub user_id: UserId,
    pub jwt_id: JwtId,
    pub status: SessionStatus,
    pub connected_at: i64,
    pub last_heartbeat: i64,
    pub ip_address: IpAddress,
    pub user_agent: Seq<char>,
}

#[derive(Debug, Clone)]
pub struct Session {
    id: SessionId,
    user_id: UserId,
    jwt_id: JwtId,
    status: SessionStatus,
    connected_at: Timestamp,
    last_heartbeat: Timestamp,
    ip_address: IpAddress,
    user_agent: UserAgent,
}

impl View for Session {
    type V = SessionView;

    closed spec fn view(&self) -> SessionView {
        SessionView {
            id: self.id,
            user_id: self.user_id,
            jwt_id: self.jwt_id,
            status: self.status,
            connected_at: self.connected_at.0,
            last_heartbeat: self.last_heartbeat.0,
            ip_address: self.ip_address,
            user_agent: self.user_agent@,
        }
    }
}

/// Whether the last heartbeat lies more than `limit` milliseconds before `now`.
pub open spec fn heartbeat_older_than(s: SessionView, now: i64, limit: i64) -> bool {
    now - s.last_heartbeat > limit
}

impl Session {
    /// Opens an active session, connected and last heard from now.
    pub fn new(user_id: UserId, jwt_id: JwtId, ip_address: IpAddress, user_agent: UserAgent) -> (r: Self)
        ensures
            r@.user_id == user_id,
            r@.jwt_id == jwt_id,
            r@.status == SessionStatus::Active,
            r@.connected_at == r@.last_heartbeat,
            r@.ip_address == ip_address,
            r@.user_agent == user_agent@,
    {
        let now = Timestamp::now();
        Session {
            id: SessionId::new(),
            user_id,
            jwt_id,
            status: SessionStatus::Active,
            connected_at: now,
            last_heartbeat: now,
            ip_address,
            user_agent,
        }
    }

    pub fn from_db(
        id: SessionId,
        user_id: UserId,
        jwt_id: JwtId,
        status: SessionStatus,
        connected_at: Timestamp,
        last_heartbeat: Timestamp,
        ip_address: IpAddress,
        user_agent: UserAgent,
    ) -> (r: Self)
        ensures
            r@.id == id,
            r@.user_id == user_id,
            r@.jwt_id == jwt_id,
            r@.status == status,
            r@.connected_at == connected_at.0,
            r@.last_heartbeat == last_heartbeat.0,
            r@.ip_address == ip_address,
            r@.user_agent == user_agent@,
    {
        Session { id, user_id, jwt_id, status, connected_at, last_heartbeat, ip_address, user_agent }
    }

    pub fn id(&self) -> (r: &SessionId)
        ensures
            *r == self@.id,
    {
        &self.id
    }

    pub fn user_id(&self) -> (r: &UserId)
        ensures
            *r == self@.user_id,
    {
        &self.user_id
    }

    pub fn jwt_id(&self) -> (r: &JwtId)
        ensures
            *r == self@.jwt_id,
    {
        &self.jwt_id
    }

    pub fn status(&self) -> (r: SessionStatus)
        ensures
            r == self@.status,
    {
        self.status
    }

    pub fn is_active(&self) -> (r: bool)
        ensures
            r == (self@.status == SessionStatus::Active),
    {
        self.status == SessionStatus::Active
    }

    /// Whether no heartbeat came for more than the heartbeat interval before `now`.
    pub fn is_expired(&self, now: Timestamp) -> (r: bool)
        requires
            i64::MIN <= now.0 - self@.last_heartbeat <= i64::MAX,
        ensures
            r == heartbeat_older_than(self@, now.0, MAX_HEARTBEAT_INTERVAL_MS),
    {
        (now.0 - self.last_heartbeat.0) > MAX_HEARTBEAT_INTERVAL_MS
    }

    /// Whether no heartbeat came for more than the reconnect timeout before `now`.
    pub fn is_reconnect_expired(&self, now: Timestamp) -> (r: bool)
        requires
            i64::MIN <= now.0 - self@.last_heartbeat <= i64::MAX,
        ensures
            r == heartbeat_older_than(self@, now.0, RECONNECT_TIMEOUT_MS),
    {
        (now.0 - self.last_heartbeat.0) > RECONNECT_TIMEOUT_MS
    }

    pub fn revoke(&mut self)
        ensures
            final(self)@ == (SessionView { status: SessionStatus::Revoked, ..old(self)@ }),
    {
        self.status = SessionStatus::Revoked;
    }

    pub fn mark_reconnecting(&mut self)
        ensures
            final(self)@ == (SessionView { status: SessionStatus::Reconnecting, ..old(self)@ }),
    {
        self.status = SessionStatus::Reconnecting;
    }

    pub fn mark_expired(&mut self)
        ensures
            final(self)@ == (SessionView { status: SessionStatus::Expired, ..old(self)@ }),
    {
        self.status = SessionStatus::Expired;
    }

    /// Makes the session active again, with a heartbeat now.
    pub fn reactivate(&mut self)
        ensures
            final(self)@ == (SessionView {
                status: SessionStatus::Active,
                last_heartbeat: final(self)@.last_heartbeat,
                ..old(self)@
            }),
    {
        self.status = SessionStatus::Active;
        self.last_heartbeat = Timestamp::now();
    }

    /// Records a heartbeat now.
    pub fn refresh_heartbeat(&mut self)
        ensures
            final(self)@ == (SessionView { last_heartbeat: final(self)@.last_heartbeat, ..old(self)@ }),
    {
        self.last_heartbeat = Timestamp::now();
    }

    pub fn last_heartbeat(&self) -> (r: &Timestamp)
        ensures
            r.0 == self@.last_heartbeat,
    {
        &self.last_heartbeat
    }

    pub fn connected_at(&self) -> (r: &Timestamp)
        ensures
            r.0 == self@.connected_at,
    {
        &self.connected_at
    }

    pub fn ip_address(&self) -> (r: &IpAddress)
        ensures
            *r == self@.ip_address,
    {
        &self.ip_address
    }

    pub fn user_agent(&self) -> (r: &UserAgent)
        ensures
            r@ == self@.user_agent,
    {
        &self.user_agent
    }
}

/// A session whose heartbeat has passed the heartbeat interval has also passed the
/// shorter reconnect timeout.
pub proof fn lemma_expired_implies_reconnect_expired(s: SessionView, now: i64)
    ensures
        heartbeat_older_than(s, now, MAX_HEARTBEAT_INTERVAL_MS) ==> heartbeat_older_than(
            s,
            now,
            RECONNECT_TIMEOUT_MS,
        ),
{
}

} // verus!
