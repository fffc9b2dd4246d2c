use vstd::prelude::*;

use crate::domain::error::DomainError;
use crate::domain::session::{Session, SessionStatus};
use crate::domain::value_objects::{SessionId, UserId};
use crate::ports::JwtClaims;

verus! {

/// The last check of an access token: the session its claims name must be active.
pub fn authorize_session(claims: &JwtClaims, session: &Session) -> (r: Result<(UserId, SessionId), DomainError>)
    ensures
        session@.status != SessionStatus::Active ==> (r matches Err(DomainError::SessionExpired)),
        session@.status == SessionStatus::Active ==> r == Ok::<(UserId, SessionId), DomainError>(
            (claims.user_id, session@.id),
        ),
{
    if !session.is_active() {
        return Err(DomainError::SessionExpired);
    }
    Ok((claims.user_id, *session.id()))
}

} // verus!
