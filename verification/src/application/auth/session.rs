//! The session a client is given when it registers, logs in or refreshes its tokens.
use vstd::prelude::*;

use crate::domain::session::{Session, SessionStatus};
use crate::domain::value_objects::{IpAddress, IpOctets, JwtId, UserAgent, UserId};

verus! {

/// The user agent recorded for sessions opened through the authentication endpoints.
pub open spec fn client_agent() -> Seq<char> {
    seq!['h', 'a', 'l', 'o', '-', 'c', 'l', 'i', 'e', 'n', 't']
}

/// A new active session for a user's tokens, recorded with the loopback address and
/// the client's user agent.
pub fn client_session(user_id: UserId, jwt_id: JwtId) -> (r: Session)
    ensures
        r@.user_id == user_id,
        r@.jwt_id == jwt_id,
        r@.status == SessionStatus::Active,
        r@.ip_address == IpAddress(IpOctets::V4([127u8, 0u8, 0u8, 1u8])),
        r@.user_agent == client_agent(),
{
    proof {
        reveal_strlit("halo-client");
        assert("halo-client"@ =~= client_agent());
    }
    Session::new(user_id, jwt_id, IpAddress::new(IpOctets::V4([127, 0, 0, 1])), UserAgent::new("halo-client"))
}

} // verus!
